//! The program identity: where its keypair lives, how the generated source
//! declares it, and how that declaration is kept equal to the keypair's address.
use vstd::prelude::*;
use crate::error::PinocError;
use crate::text::{
    chars_of, contains, occurs_at, lemma_first_is, lemma_lines_of_joined,
    lemma_prefix_occurs, lemma_split_pieces_lack_sep, split_on, contains_chars, ends_with, find_from, first_at_or_after, first_index,
    has_prefix, has_suffix, join_lines, joined, lemma_first_at_or_after, lemma_first_index,
    lines_of, opt_view, piece, replace_all, replaced, split_lines, starts_with, trim, trimmed,
    views,
};
use crate::tool::ToolOutput;

verus! {

/// What marks a line of the generated source as the identity declaration.
pub const DECLARE_MARKER: &'static str = "declare_id!";

/// The declaration marker followed by the opening of its quoted argument.
pub const DECLARE_OPEN: &'static str = "declare_id!(\"";

pub const QUOTE: &'static str = "\"";

/// The canonical declaration line is this, the address, and `DECLARATION_TAIL`.
pub const DECLARATION_HEAD: &'static str = "pinocchio_pubkey::declare_id!(\"";

pub const DECLARATION_TAIL: &'static str = "\");";

/// The directory, relative to the project root, that holds build output and keypairs.
pub const DEPLOY_DIR: &'static str = "target/deploy";

/// Every keypair file name ends with this.
pub const KEYPAIR_SUFFIX: &'static str = "-keypair.json";

/// The key that introduces the package name in the manifest.
pub const NAME_KEY: &'static str = "name = ";

pub const EQUALS: &'static str = "=";

/// The identity carried by one line: after the first `declare_id!("`, the
/// text up to the next quote.
pub open spec fn line_program_id(line: Seq<char>) -> Option<Seq<char>> {
    match first_index(line, DECLARE_OPEN@) {
        None => None,
        Some(k) => {
            let s = k + DECLARE_OPEN@.len();
            match first_at_or_after(line, QUOTE@, s) {
                None => None,
                Some(e) => Some(line.subrange(s, e)),
            }
        },
    }
}

/// The identity carried by the first line that carries one.
pub open spec fn program_id_in(lines: Seq<Seq<char>>) -> Option<Seq<char>>
    decreases lines.len(),
{
    if lines.len() == 0 {
        None
    } else if line_program_id(lines[0]) is Some {
        line_program_id(lines[0])
    } else {
        program_id_in(lines.drop_first())
    }
}

/// The identity that a source text declares.
pub open spec fn embedded_program_id(src: Seq<char>) -> Option<Seq<char>> {
    program_id_in(lines_of(src))
}

/// A line that holds the declaration marker.
pub open spec fn is_declaration(line: Seq<char>) -> bool {
    contains(line, DECLARE_MARKER@)
}

/// Some line of the source holds the declaration marker.
pub open spec fn has_declaration(src: Seq<char>) -> bool {
    exists|i: int| 0 <= i < lines_of(src).len() && is_declaration(#[trigger] lines_of(src)[i])
}

/// The canonical declaration of `addr`.
pub open spec fn declaration_line(addr: Seq<char>) -> Seq<char> {
    DECLARATION_HEAD@ + addr + DECLARATION_TAIL@
}

/// The lines with each declaration line replaced by the canonical declaration of `addr`.
pub open spec fn patched_lines(lines: Seq<Seq<char>>, addr: Seq<char>) -> Seq<Seq<char>> {
    lines.map_values(
        |l: Seq<char>|
            if is_declaration(l) {
                declaration_line(addr)
            } else {
                l
            },
    )
}

/// The source with each declaration line rewritten to declare `addr`.
pub open spec fn patched_source(src: Seq<char>, addr: Seq<char>) -> Seq<char> {
    joined(patched_lines(lines_of(src), addr))
}

/// What the reconciler finds, as values.
pub enum SyncDecision {
    Consistent,
    Diverged { previous: Option<Seq<char>>, updated: Seq<char> },
    MacroMissing { suggestion: Seq<char> },
}

/// What reconciling source text `src` with the keypair address `addr` decides.
pub open spec fn sync_decision(src: Seq<char>, addr: Seq<char>) -> SyncDecision {
    let current = embedded_program_id(src);
    if current == Some(addr) {
        SyncDecision::Consistent
    } else if has_declaration(src) {
        SyncDecision::Diverged { previous: current, updated: patched_source(src, addr) }
    } else {
        SyncDecision::MacroMissing { suggestion: declaration_line(addr) }
    }
}

/// The outcome of reconciling the generated source with the keypair address.
#[derive(Debug)]
pub enum SyncOutcome {
    /// The source already declares the keypair's address: nothing is written.
    Consistent,
    /// The source declares something else (`previous`, when it could be read);
    /// `updated_source` is the text to write back.
    Diverged { previous: Option<String>, updated_source: String },
    /// No line declares an identity: nothing is written, and `suggestion` is
    /// the line the developer should add.
    MacroMissing { suggestion: String },
}

impl View for SyncOutcome {
    type V = SyncDecision;

    open spec fn view(&self) -> SyncDecision {
        match self {
            SyncOutcome::Consistent => SyncDecision::Consistent,
            SyncOutcome::Diverged { previous, updated_source } => SyncDecision::Diverged {
                previous: opt_view(*previous),
                updated: updated_source@,
            },
            SyncOutcome::MacroMissing { suggestion } => SyncDecision::MacroMissing {
                suggestion: suggestion@,
            },
        }
    }
}

/// The identity carried by one line, if it carries one.
pub fn line_program_id_of(line: &str) -> (r: Option<String>)
    ensures
        opt_view(r) == line_program_id(line@),
{
    let v = chars_of(line);
    let open = chars_of(DECLARE_OPEN);
    let quote = chars_of(QUOTE);
    match find_from(&v, &open, 0) {
        None => None,
        Some(k) => {
            proof {
                lemma_first_at_or_after(v@, open@, 0);
                assert(occurs_at(v@, open@, k as int));
            }
            let n = v.len();
            let s = k + open.len();
            match find_from(&v, &quote, s) {
                None => None,
                Some(e) => {
                    proof {
                        lemma_first_at_or_after(v@, quote@, s as int);
                    }
                    Some(piece(line, s, e))
                },
            }
        },
    }
}

/// The program identity that the source declares: the quoted argument of
/// the first line holding `declare_id!("…"`.
pub fn extract_current_program_id(lib_content: &str) -> (r: Option<String>)
    ensures
        opt_view(r) == embedded_program_id(lib_content@),
{
    let lines = split_lines(lib_content);
    let ghost ls = views(lines@);
    let mut i: usize = 0;
    assert(ls.skip(0) =~= ls);
    while i < lines.len()
        invariant
            ls == views(lines@),
            ls == lines_of(lib_content@),
            i <= lines.len(),
            program_id_in(ls) == program_id_in(ls.skip(i as int)),
        decreases lines.len() - i,
    {
        assert(ls.skip(i as int)[0] == lines@[i as int]@);
        let found = line_program_id_of(lines[i].as_str());
        if found.is_some() {
            return found;
        }
        assert(ls.skip(i as int).drop_first() =~= ls.skip(i + 1));
        i = i + 1;
    }
    None
}

/// The canonical declaration line of `address`.
pub fn declaration_for(address: &str) -> (r: String)
    ensures
        r@ == declaration_line(address@),
{
    String::from_str(DECLARATION_HEAD).concat(address).concat(DECLARATION_TAIL)
}

/// The source with every line holding `declare_id!` rewritten to the
/// canonical declaration of `new_pubkey`, all other lines kept as they were;
/// `None` when no line holds it.
pub fn update_declare_id(lib_content: &str, new_pubkey: &str) -> (r: Option<String>)
    ensures
        r is Some <==> has_declaration(lib_content@),
        r matches Some(s) ==> s@ == patched_source(lib_content@, new_pubkey@),
{
    let lines = split_lines(lib_content);
    let ghost ls = views(lines@);
    let marker = chars_of(DECLARE_MARKER);
    let decl = declaration_for(new_pubkey);
    let mut out: Vec<String> = Vec::new();
    let mut updated = false;
    let mut i: usize = 0;
    while i < lines.len()
        invariant
            ls == views(lines@),
            ls == lines_of(lib_content@),
            marker@ == DECLARE_MARKER@,
            decl@ == declaration_line(new_pubkey@),
            i <= lines.len(),
            views(out@) == patched_lines(ls, new_pubkey@).take(i as int),
            updated <==> exists|j: int| 0 <= j < i && is_declaration(#[trigger] ls[j]),
        decreases lines.len() - i,
    {
        let lv = chars_of(lines[i].as_str());
        let ghost before = views(out@);
        if contains_chars(&lv, &marker) {
            out.push(decl.clone());
            updated = true;
        } else {
            out.push(lines[i].clone());
        }
        assert(views(out@) =~= before.push(views(out@)[i as int]));
        assert(views(out@) =~= patched_lines(ls, new_pubkey@).take(i + 1));
        i = i + 1;
    }
    assert(patched_lines(ls, new_pubkey@).take(lines.len() as int) =~= patched_lines(
        ls,
        new_pubkey@,
    ));
    if updated {
        Some(join_lines(&out))
    } else {
        None
    }
}

/// Compares the identity that the source declares with the keypair's address
/// and decides what, if anything, is to be written.
pub fn reconcile(lib_content: &str, actual_pubkey: &str) -> (r: SyncOutcome)
    ensures
        r@ == sync_decision(lib_content@, actual_pubkey@),
{
    let current = extract_current_program_id(lib_content);
    let actual = String::from_str(actual_pubkey);
    let same = match &current {
        Some(c) => *c == actual,
        None => false,
    };
    if same {
        return SyncOutcome::Consistent;
    }
    match update_declare_id(lib_content, actual_pubkey) {
        Some(updated_source) => SyncOutcome::Diverged { previous: current, updated_source },
        None => SyncOutcome::MacroMissing { suggestion: declaration_for(actual_pubkey) },
    }
}

/// The name of the keypair file of a project.
pub open spec fn keypair_file_name(project: Seq<char>) -> Seq<char> {
    project + KEYPAIR_SUFFIX@
}

/// The keypair file of a project, relative to the project root.
pub open spec fn keypair_location(project: Seq<char>) -> Seq<char> {
    DEPLOY_DIR@ + seq!['/'] + keypair_file_name(project)
}

/// Where the keypair of `project_name` lives, relative to the project root.
pub fn keypair_path(project_name: &str) -> (r: String)
    ensures
        r@ == keypair_location(project_name@),
{
    let r = String::from_str(DEPLOY_DIR).concat("/").concat(project_name).concat(KEYPAIR_SUFFIX);
    proof {
        reveal_strlit("/");
    }
    assert(r@ =~= keypair_location(project_name@));
    r
}

/// Whether a file name is that of a keypair file.
pub fn is_keypair_file(file_name: &str) -> (r: bool)
    ensures
        r == ends_with(file_name@, KEYPAIR_SUFFIX@),
{
    let v = chars_of(file_name);
    let suffix = chars_of(KEYPAIR_SUFFIX);
    has_suffix(&v, &suffix)
}

/// The program name shown for a keypair file: its name with every
/// occurrence of the keypair suffix taken out.
pub fn program_name_of(file_name: &str) -> (r: String)
    ensures
        r@ == replaced(file_name@, KEYPAIR_SUFFIX@, Seq::<char>::empty()),
{
    proof {
        reveal_strlit("-keypair.json");
        reveal_strlit("");
    }
    assert(""@ =~= Seq::<char>::empty());
    replace_all(file_name, KEYPAIR_SUFFIX, "")
}

/// One line of the key listing.
#[derive(Debug)]
pub struct ProgramKey {
    pub program: String,
    pub pubkey: String,
    pub file_name: String,
}

/// The listing entry for a keypair file whose address lookup gave `out`:
/// present only when the lookup succeeded.
pub fn listed_key(file_name: &str, out: &ToolOutput) -> (r: Option<ProgramKey>)
    ensures
        r is Some <==> out.success,
        r matches Some(k) ==> {
            &&& k.program@ == replaced(file_name@, KEYPAIR_SUFFIX@, Seq::<char>::empty())
            &&& k.pubkey@ == trimmed(out.stdout@)
            &&& k.file_name@ == file_name@
        },
{
    if out.success {
        Some(
            ProgramKey {
                program: program_name_of(file_name),
                pubkey: trim(out.stdout.as_str()),
                file_name: String::from_str(file_name),
            },
        )
    } else {
        None
    }
}

pub open spec fn strip_start_char(s: Seq<char>, c: char) -> Seq<char>
    decreases s.len(),
{
    if s.len() > 0 && s[0] == c {
        strip_start_char(s.drop_first(), c)
    } else {
        s
    }
}

pub open spec fn strip_end_char(s: Seq<char>, c: char) -> Seq<char>
    decreases s.len(),
{
    if s.len() > 0 && s.last() == c {
        strip_end_char(s.drop_last(), c)
    } else {
        s
    }
}

/// `s` without the quotes at either end.
pub open spec fn unquoted(s: Seq<char>) -> Seq<char> {
    strip_end_char(strip_start_char(s, '"'), '"')
}

/// A line that sets the setting introduced by `key` (such as `name = `).
pub open spec fn is_setting_line(l: Seq<char>, key: Seq<char>) -> bool {
    starts_with(trimmed(l), key) && contains(l, EQUALS@)
}

/// The text between the first `=` of a line and the next `=` or the line's end.
pub open spec fn second_field(l: Seq<char>) -> Seq<char> {
    let k = first_index(l, EQUALS@)->0;
    match first_at_or_after(l, EQUALS@, k + 1) {
        Some(e) => l.subrange(k + 1, e),
        None => l.subrange(k + 1, l.len() as int),
    }
}

/// The value of the setting `key` in the first line that sets it: its
/// second field, trimmed and without quotes.
pub open spec fn setting_in_lines(lines: Seq<Seq<char>>, key: Seq<char>) -> Option<Seq<char>>
    decreases lines.len(),
{
    if lines.len() == 0 {
        None
    } else if is_setting_line(lines[0], key) {
        Some(unquoted(trimmed(second_field(lines[0]))))
    } else {
        setting_in_lines(lines.drop_first(), key)
    }
}

/// The package name that a manifest's lines set.
pub open spec fn name_in_lines(lines: Seq<Seq<char>>) -> Option<Seq<char>> {
    setting_in_lines(lines, NAME_KEY@)
}

/// The index range of `s` left once `c` is cut from both ends, as often as it stands there.
fn strip_range(s: &Vec<char>, c: char) -> (r: (usize, usize))
    ensures
        r.0 <= r.1 <= s.len(),
        s@.subrange(r.0 as int, r.1 as int) == strip_end_char(strip_start_char(s@, c), c),
{
    let n = s.len();
    let mut lo: usize = 0;
    assert(s@.subrange(0, n as int) =~= s@);
    while lo < n && s[lo] == c
        invariant
            lo <= n == s.len(),
            strip_start_char(s@, c) == strip_start_char(s@.subrange(lo as int, n as int), c),
        decreases n - lo,
    {
        assert(s@.subrange(lo as int, n as int).drop_first() =~= s@.subrange(
            lo + 1,
            n as int,
        ));
        lo = lo + 1;
    }
    let mut hi: usize = n;
    while hi > lo && s[hi - 1] == c
        invariant
            lo <= hi <= n == s.len(),
            strip_start_char(s@, c) == s@.subrange(lo as int, n as int),
            strip_end_char(strip_start_char(s@, c), c) == strip_end_char(
                s@.subrange(lo as int, hi as int),
                c,
            ),
        decreases hi - lo,
    {
        assert(s@.subrange(lo as int, hi as int).drop_last() =~= s@.subrange(
            lo as int,
            hi - 1,
        ));
        hi = hi - 1;
    }
    (lo, hi)
}

/// The value that a line gives the setting `key`, if the line sets it.
fn setting_of_line(line: &str, key: &str) -> (r: Option<String>)
    ensures
        is_setting_line(line@, key@) ==> opt_view(r) == Some(unquoted(trimmed(second_field(line@)))),
        !is_setting_line(line@, key@) ==> r is None,
{
    let t = trim(line);
    let tv = chars_of(t.as_str());
    let key = chars_of(key);
    if !has_prefix(&tv, &key) {
        return None;
    }
    let v = chars_of(line);
    let eq = chars_of(EQUALS);
    proof {
        lemma_first_index(v@, eq@);
        lemma_first_at_or_after(v@, eq@, 0);
        reveal_strlit("=");
    }
    match find_from(&v, &eq, 0) {
        None => None,
        Some(k) => {
            assert(occurs_at(v@, eq@, k as int));
            let n = v.len();
            let field = match find_from(&v, &eq, k + 1) {
                Some(e) => {
                    proof {
                        lemma_first_at_or_after(v@, eq@, k + 1);
                    }
                    piece(line, k + 1, e)
                },
                None => piece(line, k + 1, v.len()),
            };
            let ft = trim(field.as_str());
            let fv = chars_of(ft.as_str());
            let (lo, hi) = strip_range(&fv, '"');
            Some(piece(ft.as_str(), lo, hi))
        },
    }
}

/// The value of the setting `key` in a settings text: from the first line
/// that begins, after white space, with `key`, the value between the first
/// `=` and the next, trimmed and without its quotes.
pub fn extract_setting(content: &str, key: &str) -> (r: Option<String>)
    ensures
        opt_view(r) == setting_in_lines(lines_of(content@), key@),
{
    let lines = split_lines(content);
    let ghost ls = views(lines@);
    let mut i: usize = 0;
    assert(ls.skip(0) =~= ls);
    while i < lines.len()
        invariant
            ls == views(lines@),
            ls == lines_of(content@),
            i <= lines.len(),
            setting_in_lines(ls, key@) == setting_in_lines(ls.skip(i as int), key@),
        decreases lines.len() - i,
    {
        assert(ls.skip(i as int)[0] == lines@[i as int]@);
        let found = setting_of_line(lines[i].as_str(), key);
        if found.is_some() {
            return found;
        }
        assert(ls.skip(i as int).drop_first() =~= ls.skip(i + 1));
        i = i + 1;
    }
    None
}

/// The package name that a manifest sets: the value of its first `name = ` line.
pub fn extract_project_name(cargo_content: &str) -> (r: Option<String>)
    ensures
        opt_view(r) == name_in_lines(lines_of(cargo_content@)),
{
    extract_setting(cargo_content, NAME_KEY)
}

/// The project name from the manifest text, or a configuration error when it sets none.
pub fn project_name_from_manifest(cargo_content: &str) -> (r: Result<String, PinocError>)
    ensures
        r is Ok <==> name_in_lines(lines_of(cargo_content@)) is Some,
        r matches Ok(n) ==> Some(n@) == name_in_lines(lines_of(cargo_content@)),
        r matches Err(e) ==> e is Configuration,
{
    match extract_project_name(cargo_content) {
        Some(n) => Ok(n),
        None => Err(PinocError::Configuration),
    }
}

/// A line that carries an identity holds the declaration marker.
pub proof fn lemma_program_id_needs_marker(line: Seq<char>)
    ensures
        line_program_id(line) is Some ==> is_declaration(line),
{
    if line_program_id(line) is Some {
        lemma_first_index(line, DECLARE_OPEN@);
        let k = first_index(line, DECLARE_OPEN@)->0;
        reveal_strlit("declare_id!");
        reveal_strlit("declare_id!(\"");
        assert(DECLARE_OPEN@ =~= DECLARE_MARKER@ + seq!['(', '"']);
        lemma_prefix_occurs(line, DECLARE_MARKER@, seq!['(', '"'], k);
    }
}

/// Lines without the marker carry no identity.
proof fn lemma_no_marker_no_id(lines: Seq<Seq<char>>)
    requires
        forall|i: int| 0 <= i < lines.len() ==> !is_declaration(#[trigger] lines[i]),
    ensures
        program_id_in(lines) is None,
    decreases lines.len(),
{
    if lines.len() > 0 {
        lemma_program_id_needs_marker(lines[0]);
        let rest = lines.drop_first();
        assert forall|i: int| 0 <= i < rest.len() implies !is_declaration(#[trigger] rest[i]) by {
            assert(rest[i] == lines[i + 1]);
        }
        lemma_no_marker_no_id(rest);
    }
}

/// The canonical declaration carries the address it was made from.
proof fn lemma_declaration_carries(addr: Seq<char>)
    requires
        !addr.contains('"'),
    ensures
        line_program_id(declaration_line(addr)) == Some(addr),
        is_declaration(declaration_line(addr)),
{
    reveal_strlit("pinocchio_pubkey::declare_id!(\"");
    reveal_strlit("declare_id!(\"");
    reveal_strlit("declare_id!");
    reveal_strlit("\");");
    reveal_strlit("\"");
    let d = declaration_line(addr);
    let h = DECLARATION_HEAD@;
    let o = DECLARE_OPEN@;
    assert(d.subrange(18, 31) =~= o);
    assert forall|j: int| 0 <= j < 18 implies !occurs_at(d, o, j) by {
        assert(d[j] == h[j]);
        assert(d.subrange(j, j + o.len())[0] == d[j]);
    }
    lemma_first_is(d, o, 0, 18);
    let e: int = 31 + addr.len() as int;
    assert(d.subrange(e, e + 1) =~= QUOTE@);
    assert forall|j: int| 31 <= j < e implies !occurs_at(d, QUOTE@, j) by {
        assert(d[j] == addr[j - 31]);
        assert(d.subrange(j, j + 1)[0] == d[j]);
    }
    lemma_first_is(d, QUOTE@, 31, e);
    assert(d.subrange(31, e) =~= addr);
    assert(d.subrange(18, 29) =~= DECLARE_MARKER@);
    assert(occurs_at(d, DECLARE_MARKER@, 18));
}

/// Patching lines of which one or more is a declaration makes them declare `addr`.
proof fn lemma_patched_declares(lines: Seq<Seq<char>>, addr: Seq<char>)
    requires
        !addr.contains('"'),
        exists|i: int| 0 <= i < lines.len() && is_declaration(#[trigger] lines[i]),
    ensures
        program_id_in(patched_lines(lines, addr)) == Some(addr),
    decreases lines.len(),
{
    let p = patched_lines(lines, addr);
    lemma_declaration_carries(addr);
    if is_declaration(lines[0]) {
        assert(p[0] == declaration_line(addr));
    } else {
        assert(p[0] == lines[0]);
        lemma_program_id_needs_marker(lines[0]);
        let rest = lines.drop_first();
        let i = choose|i: int| 0 <= i < lines.len() && is_declaration(#[trigger] lines[i]);
        assert(rest[i - 1] == lines[i]);
        lemma_patched_declares(rest, addr);
        assert(p.drop_first() =~= patched_lines(rest, addr));
    }
}

/// The lines of the patched source are the patched lines.
proof fn lemma_patched_lines_of(src: Seq<char>, addr: Seq<char>)
    requires
        !addr.contains('\n'),
    ensures
        lines_of(patched_source(src, addr)) == patched_lines(lines_of(src), addr),
{
    let ls = lines_of(src);
    let p = patched_lines(ls, addr);
    crate::text::lemma_split_nonempty(src, '\n');
    lemma_split_pieces_lack_sep(src, '\n');
    reveal_strlit("pinocchio_pubkey::declare_id!(\"");
    reveal_strlit("\");");
    assert forall|i: int| 0 <= i < p.len() implies !(#[trigger] p[i]).contains('\n') by {
        if is_declaration(ls[i]) {
            let d = declaration_line(addr);
            if d.contains('\n') {
                let k = choose|k: int| 0 <= k < d.len() && d[k] == '\n';
                if 31 <= k < 31 + addr.len() {
                    assert(addr[k - 31] == '\n');
                }
            }
        } else {
            assert(ls[i] == split_on(src, '\n')[i]);
        }
    }
    lemma_lines_of_joined(p);
}

/// When no line of the source holds the declaration marker, reconciling
/// writes nothing and suggests the canonical declaration of the address.
pub proof fn lemma_missing_declaration(src: Seq<char>, addr: Seq<char>)
    requires
        forall|i: int| 0 <= i < lines_of(src).len() ==> !is_declaration(#[trigger] lines_of(src)[i]),
    ensures
        sync_decision(src, addr) == (SyncDecision::MacroMissing { suggestion: declaration_line(addr) }),
{
    lemma_no_marker_no_id(lines_of(src));
}

/// Repairing a diverged source rewrites each declaration line to the
/// canonical declaration of the new address, keeps every other line as it
/// was, and reports the identity that was there before.
pub proof fn lemma_repair_rewrites_only_declarations(src: Seq<char>, addr: Seq<char>)
    requires
        sync_decision(src, addr) is Diverged,
        !addr.contains('\n'),
    ensures
        ({
            let before = lines_of(src);
            let after = lines_of(sync_decision(src, addr)->updated);
            &&& after.len() == before.len()
            &&& forall|i: int|
                0 <= i < before.len() ==> (#[trigger] after[i]) == if is_declaration(before[i]) {
                    declaration_line(addr)
                } else {
                    before[i]
                }
            &&& sync_decision(src, addr)->previous == embedded_program_id(src)
            &&& embedded_program_id(src) != Some(addr)
        }),
{
    lemma_patched_lines_of(src, addr);
}

/// Running the reconciler again on what its first run left behind writes
/// nothing: a consistent source stays consistent, a repaired source has
/// become consistent, and a source without a declaration stays without one.
/// A repair is read back only when the address holds no quote or line feed.
pub proof fn lemma_sync_idempotent(src: Seq<char>, addr: Seq<char>)
    requires
        sync_decision(src, addr) is Diverged ==> !addr.contains('\n') && !addr.contains('"'),
    ensures
        ({
            let first = sync_decision(src, addr);
            let left = match first {
                SyncDecision::Diverged { updated, .. } => updated,
                _ => src,
            };
            match first {
                SyncDecision::MacroMissing { .. } => sync_decision(left, addr) is MacroMissing,
                _ => sync_decision(left, addr) is Consistent,
            }
        }),
{
    if sync_decision(src, addr) is Diverged {
        lemma_patched_lines_of(src, addr);
        let i = choose|i: int|
            0 <= i < lines_of(src).len() && is_declaration(#[trigger] lines_of(src)[i]);
        lemma_patched_declares(lines_of(src), addr);
    }
}

} // verus!
