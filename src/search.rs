//! Reading the free-text output of the package search, line by line, and
//! the search term that is handed to it.
use vstd::prelude::*;
use crate::error::PinocError;
use crate::text::{
    chars_of, find_from, first_at_or_after, first_index, has_prefix, lemma_first_at_or_after,
    lines_of, occurs_at, piece, split_lines, starts_with, trim, trimmed, views,
};

verus! {

/// Lines that begin with this are the tool's note on results left out.
pub const TRUNCATION_MARK: &'static str = "...";

/// Between a package's name and the rest of its line.
pub const NAME_SEPARATOR: &'static str = " = ";

/// Before a package's description.
pub const DESCRIPTION_SEPARATOR: &'static str = " # ";

pub const QUOTE: &'static str = "\"";

/// The description given to a package whose line has none.
pub const NO_DESCRIPTION: &'static str = "No description available";

/// Every search is for packages of this family.
pub const SEARCH_BASE: &'static str = "pinocchio";

/// A package as one line of the search output presents it.
#[derive(Debug)]
pub struct SearchResult {
    pub name: String,
    pub description: String,
    pub version: String,
}

/// A search result as values.
pub struct SearchEntry {
    pub name: Seq<char>,
    pub description: Seq<char>,
    pub version: Seq<char>,
}

impl View for SearchResult {
    type V = SearchEntry;

    open spec fn view(&self) -> SearchEntry {
        SearchEntry { name: self.name@, description: self.description@, version: self.version@ }
    }
}

/// What the part of a line after the name separator gives, when it holds a
/// quoted version.
pub open spec fn parse_rest(name: Seq<char>, rest: Seq<char>) -> Option<SearchEntry> {
    match first_index(rest, QUOTE@) {
        None => None,
        Some(a) => match first_at_or_after(rest, QUOTE@, a + 1) {
            None => None,
            Some(b) => Some(
                SearchEntry {
                    name,
                    version: rest.subrange(a + 1, b),
                    description: match first_index(rest, DESCRIPTION_SEPARATOR@) {
                        Some(h) => trimmed(rest.subrange(h + 3, rest.len() as int)),
                        None => NO_DESCRIPTION@,
                    },
                },
            ),
        },
    }
}

/// What one line of the search output gives: nothing for a blank line, a
/// truncation note, or a line that does not have the shape
/// `name = "version"    # description`.
pub open spec fn parse_line(line: Seq<char>) -> Option<SearchEntry> {
    if trimmed(line).len() == 0 || starts_with(line, TRUNCATION_MARK@) {
        None
    } else {
        match first_index(line, NAME_SEPARATOR@) {
            None => None,
            Some(k) => parse_rest(
                trimmed(line.subrange(0, k)),
                line.subrange(k + 3, line.len() as int),
            ),
        }
    }
}

/// The results of the lines, in order, skipping those that give none.
pub open spec fn parse_lines(lines: Seq<Seq<char>>) -> Seq<SearchEntry>
    decreases lines.len(),
{
    if lines.len() == 0 {
        Seq::empty()
    } else {
        let init = parse_lines(lines.drop_last());
        match parse_line(lines.last()) {
            Some(e) => init.push(e),
            None => init,
        }
    }
}

pub open spec fn entries(v: Seq<SearchResult>) -> Seq<SearchEntry> {
    v.map_values(|r: SearchResult| r@)
}

fn parse_rest_of(name: String, rest: &str) -> (r: Option<SearchResult>)
    ensures
        match r {
            Some(x) => parse_rest(name@, rest@) == Some(x@),
            None => parse_rest(name@, rest@) is None,
        },
{
    let v = chars_of(rest);
    let quote = chars_of(QUOTE);
    let hash = chars_of(DESCRIPTION_SEPARATOR);
    let n = v.len();
    proof {
        reveal_strlit("\"");
        reveal_strlit(" # ");
        lemma_first_at_or_after(v@, quote@, 0);
        lemma_first_at_or_after(v@, hash@, 0);
    }
    let a = match find_from(&v, &quote, 0) {
        None => return None,
        Some(a) => a,
    };
    assert(occurs_at(v@, quote@, a as int));
    let b = match find_from(&v, &quote, a + 1) {
        None => return None,
        Some(b) => b,
    };
    proof {
        lemma_first_at_or_after(v@, quote@, a + 1);
    }
    let version = piece(rest, a + 1, b);
    let description = match find_from(&v, &hash, 0) {
        Some(h) => {
            assert(occurs_at(v@, hash@, h as int));
            let d = piece(rest, h + 3, n);
            trim(d.as_str())
        },
        None => String::from_str(NO_DESCRIPTION),
    };
    Some(SearchResult { name, description, version })
}

/// The result that one line of the search output gives, if any.
pub fn parse_search_line(line: &str) -> (r: Option<SearchResult>)
    ensures
        match r {
            Some(x) => parse_line(line@) == Some(x@),
            None => parse_line(line@) is None,
        },
{
    let t = trim(line);
    if t.as_str().unicode_len() == 0 {
        return None;
    }
    let v = chars_of(line);
    let mark = chars_of(TRUNCATION_MARK);
    if has_prefix(&v, &mark) {
        return None;
    }
    let sep = chars_of(NAME_SEPARATOR);
    let n = v.len();
    proof {
        reveal_strlit(" = ");
        lemma_first_at_or_after(v@, sep@, 0);
    }
    match find_from(&v, &sep, 0) {
        None => None,
        Some(k) => {
            assert(occurs_at(v@, sep@, k as int));
            let head = piece(line, 0, k);
            let name = trim(head.as_str());
            let rest = piece(line, k + 3, n);
            parse_rest_of(name, rest.as_str())
        },
    }
}

/// The packages listed in the output of the package search. Blank lines,
/// truncation notes and lines of any other shape are skipped; this never fails.
pub fn parse_cargo_search_output(output: &str) -> (r: Result<Vec<SearchResult>, PinocError>)
    ensures
        r matches Ok(v) && entries(v@) == parse_lines(lines_of(output@)),
{
    let lines = split_lines(output);
    let ghost ls = views(lines@);
    let mut packages: Vec<SearchResult> = Vec::new();
    let mut i: usize = 0;
    assert(ls.take(0) =~= Seq::<Seq<char>>::empty());
    while i < lines.len()
        invariant
            ls == views(lines@),
            ls == lines_of(output@),
            i <= lines.len(),
            entries(packages@) == parse_lines(ls.take(i as int)),
        decreases lines.len() - i,
    {
        assert(ls.take(i + 1).drop_last() =~= ls.take(i as int));
        assert(ls.take(i + 1).last() == lines@[i as int]@);
        let ghost before = entries(packages@);
        match parse_search_line(lines[i].as_str()) {
            Some(x) => {
                packages.push(x);
                assert(entries(packages@) =~= before.push(x@));
            },
            None => {},
        }
        i = i + 1;
    }
    assert(ls.take(lines.len() as int) =~= ls);
    Ok(packages)
}

/// The term handed to the package search: the family name, followed by the
/// query when there is one.
pub fn search_term(query: Option<&str>) -> (r: String)
    ensures
        match query {
            Some(q) => r@ == SEARCH_BASE@ + seq![' '] + q@,
            None => r@ == SEARCH_BASE@,
        },
{
    match query {
        Some(q) => {
            let r = String::from_str(SEARCH_BASE).concat(" ").concat(q);
            proof {
                reveal_strlit(" ");
            }
            assert(r@ =~= SEARCH_BASE@ + seq![' '] + q@);
            r
        },
        None => String::from_str(SEARCH_BASE),
    }
}

} // verus!
