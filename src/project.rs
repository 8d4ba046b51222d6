//! Project names.
use vstd::prelude::*;
use crate::error::PinocError;
use crate::text::chars_of;

verus! {

/// What `char::is_alphanumeric` answers for `c`.
pub uninterp spec fn alphanumeric(c: char) -> bool;

/// Relies on `char::is_alphanumeric`: the Unicode `Alphabetic` or `Numeric`
/// property of the character, which depends on the character alone.
#[verifier::external_body]
fn is_alphanumeric(c: char) -> (r: bool)
    ensures
        r == alphanumeric(c),
{
    c.is_alphanumeric()
}

/// A name is valid when it is non-empty and each character is alphanumeric or `_`.
pub open spec fn valid_project_name(s: Seq<char>) -> bool {
    &&& s.len() > 0
    &&& forall|i: int| 0 <= i < s.len() ==> alphanumeric(#[trigger] s[i]) || s[i] == '_'
}

/// Whether `name` may name a project.
pub fn is_valid_project_name(name: &str) -> (r: bool)
    ensures
        r == valid_project_name(name@),
{
    let v = chars_of(name);
    if v.len() == 0 {
        return false;
    }
    let mut i: usize = 0;
    while i < v.len()
        invariant
            v@ == name@,
            i <= v.len(),
            forall|k: int| 0 <= k < i ==> alphanumeric(#[trigger] v@[k]) || v@[k] == '_',
        decreases v.len() - i,
    {
        let c = v[i];
        if !(is_alphanumeric(c) || c == '_') {
            return false;
        }
        i = i + 1;
    }
    true
}

/// Accepts a valid name; rejects any other with a validation error naming it.
pub fn validate_project_name(name: &str) -> (r: Result<(), PinocError>)
    ensures
        r is Ok <==> valid_project_name(name@),
        r matches Err(e) ==> (e matches PinocError::Validation { name: n } && n@ == name@),
{
    if is_valid_project_name(name) {
        Ok(())
    } else {
        Err(PinocError::Validation { name: String::from_str(name) })
    }
}

} // verus!
