//! Regular expressions, which the `regex` crate compiles and runs.

use vstd::prelude::*;

verus! {

/// A regular expression: its text, and whether it tells small letters from
/// capital ones.
#[derive(Clone, Debug, PartialEq, Eq, Hash)]
pub struct Regex {
    pub pattern: String,
    pub case_insensitive: bool,
}

/// What compiling a pattern gives: the names of its capture groups, the
/// whole match first, or the message of the error.
pub uninterp spec fn regex_names(pattern: Seq<char>, case_insensitive: bool) -> Result<
    Seq<Option<Seq<char>>>,
    Seq<char>,
>;

/// What the first match of a pattern in a text captures: nothing where the
/// pattern does not compile or does not match; else the text of each
/// capture group that took part in the match, the whole match first.
pub uninterp spec fn regex_captures(pattern: Seq<char>, case_insensitive: bool, haystack: Seq<char>) -> Option<
    Seq<Option<Seq<char>>>,
>;

/// The view of optional texts.
pub open spec fn opt_texts_view(v: Seq<Option<String>>) -> Seq<Option<Seq<char>>> {
    Seq::new(
        v.len(),
        |i: int|
            match v[i] {
                Some(s) => Some(s@),
                None => None,
            },
    )
}

/// The view of the outcome of compiling a pattern.
pub open spec fn names_result_view(r: Result<Vec<Option<String>>, String>) -> Result<Seq<Option<Seq<char>>>, Seq<char>> {
    match r {
        Ok(v) => Ok(opt_texts_view(v@)),
        Err(e) => Err(e@),
    }
}

/// The view of optional captures.
pub open spec fn captures_view(r: Option<Vec<Option<String>>>) -> Option<Seq<Option<Seq<char>>>> {
    match r {
        Some(v) => Some(opt_texts_view(v@)),
        None => None,
    }
}

/// Builds the pattern with `regex::RegexBuilder` and asks
/// `Regex::capture_names` for the names of its groups. The contract claims
/// that the outcome is a function of the pattern and the flag, and names
/// it.
#[verifier::external_body]
pub(crate) fn compile_names(pattern: &str, case_insensitive: bool) -> (r: Result<Vec<Option<String>>, String>)
    ensures
        names_result_view(r) == regex_names(pattern@, case_insensitive),
{
    match regex::RegexBuilder::new(pattern).case_insensitive(case_insensitive).build() {
        Ok(re) => Ok(re.capture_names().map(|n| n.map(String::from)).collect()),
        Err(e) => Err(e.to_string()),
    }
}

/// Builds the pattern with `regex::RegexBuilder` and asks `Regex::captures`
/// for the first match in the text. The contract claims that the outcome is
/// a function of the pattern, the flag and the text, and names it; that
/// there is none where the pattern does not compile; and, as the crate
/// documents, that a match has as many groups as the pattern has names.
#[verifier::external_body]
pub(crate) fn captures(pattern: &str, case_insensitive: bool, haystack: &str) -> (r: Option<Vec<Option<String>>>)
    ensures
        captures_view(r) == regex_captures(pattern@, case_insensitive, haystack@),
        regex_names(pattern@, case_insensitive) is Err ==> r is None,
        r is Some ==> regex_names(pattern@, case_insensitive) is Ok && r->0@.len() == regex_names(
            pattern@,
            case_insensitive,
        )->Ok_0.len(),
{
    let re = regex::RegexBuilder::new(pattern).case_insensitive(case_insensitive).build().ok()?;
    let caps = re.captures(haystack)?;
    Some(caps.iter().map(|m| m.map(|m| m.as_str().to_owned())).collect())
}

/// What reading a text as CSV gives: for each record its fields, or
/// nothing for a record that cannot be read.
pub uninterp spec fn csv_records(text: Seq<char>, has_headers: bool) -> Seq<Option<Seq<Seq<char>>>>;

/// The view of the records of a CSV text.
pub open spec fn records_view(v: Seq<Option<Vec<String>>>) -> Seq<Option<Seq<Seq<char>>>> {
    Seq::new(
        v.len(),
        |i: int|
            match v[i] {
                Some(fields) => Some(Seq::new(fields@.len(), |k: int| fields@[k]@)),
                None => None,
            },
    )
}

/// Reads the text with a reader of `csv::ReaderBuilder` and collects its
/// records. The contract claims that the records are a function of the text
/// and the flag, and names it.
#[verifier::external_body]
pub(crate) fn read_csv(text: &str, has_headers: bool) -> (r: Vec<Option<Vec<String>>>)
    ensures
        records_view(r@) == csv_records(text@, has_headers),
{
    csv::ReaderBuilder::new()
        .has_headers(has_headers)
        .from_reader(text.as_bytes())
        .into_records()
        .map(|rec| rec.ok().map(|sr| sr.iter().map(String::from).collect()))
        .collect()
}

} // verus!
