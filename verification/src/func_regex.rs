//! Matching texts against regular expressions and LIKE patterns.

use vstd::prelude::*;
use crate::datum::{datums_view, res_view, ArrayDimension, Datum, DatumV};
use crate::error::{EvalError, EvalErrorV};
use crate::pattern::{captures, compile_names, regex_captures, regex_names, Regex};
use crate::pattern::opt_texts_view;
use crate::strings::to_chars;
use crate::table::{capture_datums, capture_row};

verus! {

/// Whether the flags of a regular expression ask to take small and capital
/// letters for the same: the last of the flags `i` and `c` decides. The
/// first character that is no flag is an error.
pub open spec fn flags_spec(flags: Seq<char>, n: int) -> Result<bool, EvalErrorV>
    decreases n,
{
    if n <= 0 || n > flags.len() {
        Ok(false)
    } else {
        match flags_spec(flags, n - 1) {
            Err(e) => Err(e),
            Ok(before) => if flags[n - 1] == 'i' {
                Ok(true)
            } else if flags[n - 1] == 'c' {
                Ok(false)
            } else {
                Err(EvalErrorV::InvalidRegexFlag(flags[n - 1]))
            },
        }
    }
}

/// The regular expression of a pattern and flags, if the flags are flags
/// and the pattern compiles.
pub open spec fn build_regex_spec(needle: Seq<char>, flags: Seq<char>) -> Result<(Seq<char>, bool), EvalErrorV> {
    match flags_spec(flags, flags.len() as int) {
        Err(e) => Err(e),
        Ok(ci) => match regex_names(needle, ci) {
            Ok(_) => Ok((needle, ci)),
            Err(msg) => Err(EvalErrorV::InvalidRegex(msg)),
        },
    }
}

/// Builds a regular expression of a pattern and flags.
pub fn build_regex(needle: &str, flags: &str) -> (r: Result<Regex, EvalError>)
    ensures
        match r {
            Ok(re) => build_regex_spec(needle@, flags@) == Ok::<(Seq<char>, bool), EvalErrorV>(
                (re.pattern@, re.case_insensitive),
            ),
            Err(e) => build_regex_spec(needle@, flags@) == Err::<(Seq<char>, bool), EvalErrorV>(e@),
        },
{
    let f = to_chars(flags);
    let mut ci = false;
    let mut i: usize = 0;
    while i < f.len()
        invariant
            i <= f.len(),
            f@ == flags@,
            flags_spec(f@, i as int) == Ok::<bool, EvalErrorV>(ci),
        decreases f.len() - i,
    {
        if f[i] == 'i' {
            ci = true;
        } else if f[i] == 'c' {
            ci = false;
        } else {
            proof {
                lemma_flags_error(f@, i + 1, f@.len() as int);
            }
            return Err(EvalError::InvalidRegexFlag(f[i]));
        }
        i += 1;
    }
    match compile_names(needle, ci) {
        Ok(_) => Ok(Regex { pattern: needle.to_owned(), case_insensitive: ci }),
        Err(msg) => Err(EvalError::InvalidRegex(msg)),
    }
}

proof fn lemma_flags_error(flags: Seq<char>, k: int, n: int)
    requires
        1 <= k <= n <= flags.len(),
        flags_spec(flags, k) is Err,
    ensures
        flags_spec(flags, n) == flags_spec(flags, k),
    decreases n - k,
{
    if k < n {
        lemma_flags_error(flags, k, n - 1);
    }
}

/// Whether a regular expression matches somewhere in a text.
pub open spec fn is_match(re: Regex, haystack: Seq<char>) -> bool {
    regex_captures(re.pattern@, re.case_insensitive, haystack) is Some
}

pub fn is_regexp_match_static(a: &Datum, needle: &Regex) -> (r: Datum)
    requires
        a@ is String,
    ensures
        r@ == DatumV::from_bool(is_match(*needle, a@->String_0)),
{
    Datum::from_bool(captures(needle.pattern.as_str(), needle.case_insensitive, a.unwrap_str()).is_some())
}

pub fn is_regexp_match_dynamic(a: &Datum, b: &Datum, case_insensitive: bool) -> (r: Result<Datum, EvalError>)
    requires
        a@ is String,
        b@ is String,
    ensures
        match build_regex_spec(
            b@->String_0,
            if case_insensitive {
                "i"@
            } else {
                ""@
            },
        ) {
            Ok((p, ci)) => res_view(r) == Ok::<DatumV, EvalErrorV>(
                DatumV::from_bool(regex_captures(p, ci, a@->String_0) is Some),
            ),
            Err(e) => res_view(r) == Err::<DatumV, EvalErrorV>(e),
        },
{
    let flags = if case_insensitive {
        "i"
    } else {
        ""
    };
    match build_regex(b.unwrap_str(), flags) {
        Ok(needle) => Ok(is_regexp_match_static(a, &needle)),
        Err(e) => Err(e),
    }
}

/// What a match of a regular expression in a text gives: an array of what
/// its groups capture, null for a group that took no part; an array of the
/// whole match for an expression without groups; null where there is no
/// match.
pub open spec fn regexp_match_spec(re: Regex, haystack: Seq<char>) -> DatumV {
    regexp_match_of(re.pattern@, re.case_insensitive, haystack)
}

/// The first match of an expression, given by its text and by whether it
/// is blind to case, in a text.
pub open spec fn regexp_match_of(pattern: Seq<char>, case_insensitive: bool, haystack: Seq<char>) -> DatumV {
    match regex_captures(pattern, case_insensitive, haystack) {
        None => DatumV::Null,
        Some(caps) => if caps.len() > 1 {
            DatumV::Array {
                dims: seq![ArrayDimension { lower_bound: 1, length: (caps.len() - 1) as usize }],
                elements: capture_datums(caps),
            }
        } else if caps.len() == 1 {
            DatumV::Array {
                dims: seq![ArrayDimension { lower_bound: 1, length: 1 }],
                elements: seq![
                    match caps[0] {
                        Some(t) => DatumV::String(t),
                        None => DatumV::Null,
                    },
                ],
            }
        } else {
            DatumV::Null
        },
    }
}

pub fn regexp_match_static(haystack: &Datum, needle: &Regex) -> (r: Result<Datum, EvalError>)
    requires
        haystack@ is String,
    ensures
        res_view(r) == Ok::<DatumV, EvalErrorV>(regexp_match_spec(*needle, haystack@->String_0)),
{
    match captures(needle.pattern.as_str(), needle.case_insensitive, haystack.unwrap_str()) {
        None => Ok(Datum::Null),
        Some(caps) => {
            let ghost cv = opt_texts_view(caps@);
            if caps.len() > 1 {
                let elements = capture_row(&caps);
                let mut dims: Vec<ArrayDimension> = Vec::new();
                dims.push(ArrayDimension { lower_bound: 1, length: caps.len() - 1 });
                assert(dims@ =~= seq![ArrayDimension { lower_bound: 1, length: (cv.len() - 1) as usize }]);
                Ok(Datum::array(dims, elements))
            } else if caps.len() == 1 {
                let whole = match &caps[0] {
                    Some(t) => Datum::String(t.clone()),
                    None => Datum::Null,
                };
                let mut elements: Vec<Datum> = Vec::new();
                elements.push(whole);
                let mut dims: Vec<ArrayDimension> = Vec::new();
                dims.push(ArrayDimension { lower_bound: 1, length: 1 });
                assert(dims@ =~= seq![ArrayDimension { lower_bound: 1, length: 1 }]);
                assert(datums_view(elements@) =~= seq![whole@]);
                assert(cv[0] == match caps@[0] {
                    Some(s) => Some(s@),
                    None => None,
                });
                Ok(Datum::array(dims, elements))
            } else {
                // A match has the group of the whole match at least.
                Ok(Datum::Null)
            }
        },
    }
}

pub fn regexp_match_dynamic(datums: &Vec<Datum>) -> (r: Result<Datum, EvalError>)
    requires
        2 <= datums@.len() <= 3,
        forall|i: int| 0 <= i < datums@.len() ==> (#[trigger] datums@[i])@ is String,
    ensures
        match build_regex_spec(
            datums@[1]@->String_0,
            if datums@.len() == 3 {
                datums@[2]@->String_0
            } else {
                ""@
            },
        ) {
            Ok((p, ci)) => res_view(r) == Ok::<DatumV, EvalErrorV>(regexp_match_of(p, ci, datums@[0]@->String_0)),
            Err(e) => res_view(r) == Err::<DatumV, EvalErrorV>(e),
        },
{
    let needle = datums[1].unwrap_str();
    let flags = if datums.len() == 3 {
        datums[2].unwrap_str()
    } else {
        ""
    };
    match build_regex(needle, flags) {
        Ok(re) => regexp_match_static(&datums[0], &re),
        Err(e) => Err(e),
    }
}

/// Whether a character means something to the regular expressions.
pub open spec fn is_meta(c: char) -> bool {
    c == '\\' || c == '.' || c == '+' || c == '*' || c == '?' || c == '(' || c == ')' || c == '|' || c == '[' || c
        == ']' || c == '{' || c == '}' || c == '^' || c == '$' || c == '#' || c == '&' || c == '-' || c == '~'
}

/// The regular expression of the first `n` characters of a LIKE pattern,
/// and whether the last of them is a backslash that escapes what follows:
/// `_` becomes `.`, `%` becomes `.*`, and any other character, or one
/// behind a backslash, stands for itself.
pub open spec fn like_body(pattern: Seq<char>, n: int) -> (Seq<char>, bool)
    decreases n,
{
    if n <= 0 || n > pattern.len() {
        (Seq::empty(), false)
    } else {
        let (before, escape) = like_body(pattern, n - 1);
        let c = pattern[n - 1];
        if c == '\\' && !escape {
            (before, true)
        } else if c == '_' && !escape {
            (before.push('.'), false)
        } else if c == '%' && !escape {
            (before + seq!['.', '*'], false)
        } else if is_meta(c) {
            (before + seq!['\\', c], false)
        } else {
            (before.push(c), false)
        }
    }
}

/// The regular expression of a LIKE pattern: one that matches the whole
/// text, a dot matching a line break too. A pattern that ends in a
/// backslash that escapes nothing has none.
pub open spec fn like_regex(pattern: Seq<char>) -> Option<Seq<char>> {
    let (body, escape) = like_body(pattern, pattern.len() as int);
    if escape {
        None
    } else {
        Some("(?s)^"@ + body + seq!['$'])
    }
}

/// Makes the regular expression of a LIKE pattern.
pub fn like_to_regex(pattern: &str) -> (r: Option<String>)
    ensures
        match r {
            Some(s) => like_regex(pattern@) == Some(s@),
            None => like_regex(pattern@) is None,
        },
{
    let p = to_chars(pattern);
    let mut out = String::new();
    vstd::string::StringExecFns::append(&mut out, "(?s)^");
    let ghost prefix = out@;
    let mut escape = false;
    let mut i: usize = 0;
    while i < p.len()
        invariant
            i <= p.len(),
            p@ == pattern@,
            prefix == "(?s)^"@,
            out@ == prefix + like_body(p@, i as int).0,
            escape == like_body(p@, i as int).1,
        decreases p.len() - i,
    {
        let c = p[i];
        let ghost before = like_body(p@, i as int).0;
        if c == '\\' && !escape {
            escape = true;
        } else if c == '_' && !escape {
            out.push('.');
            assert(out@ =~= prefix + before.push('.'));
        } else if c == '%' && !escape {
            out.push('.');
            out.push('*');
            assert(out@ =~= prefix + (before + seq!['.', '*']));
        } else {
            let meta = c == '\\' || c == '.' || c == '+' || c == '*' || c == '?' || c == '(' || c == ')' || c == '|'
                || c == '[' || c == ']' || c == '{' || c == '}' || c == '^' || c == '$' || c == '#' || c == '&' || c
                == '-' || c == '~';
            if meta {
                out.push('\\');
                out.push(c);
                assert(out@ =~= prefix + (before + seq!['\\', c]));
            } else {
                out.push(c);
                assert(out@ =~= prefix + before.push(c));
            }
            escape = false;
        }
        i += 1;
    }
    if escape {
        None
    } else {
        out.push('$');
        assert(out@ =~= prefix + like_body(p@, p@.len() as int).0 + seq!['$']);
        Some(out)
    }
}

pub open spec fn is_like_spec(haystack: Seq<char>, pattern: Seq<char>, case_insensitive: bool) -> Result<
    DatumV,
    EvalErrorV,
> {
    match like_regex(pattern) {
        None => Err(EvalErrorV::UnterminatedLikeEscapeSequence),
        Some(re) => match regex_names(re, case_insensitive) {
            Err(msg) => Err(EvalErrorV::InvalidRegex(msg)),
            Ok(_) => Ok(DatumV::from_bool(regex_captures(re, case_insensitive, haystack) is Some)),
        },
    }
}

/// Whether a text is like a pattern: `_` in the pattern stands for any one
/// character and `%` for any number of characters.
pub fn is_like_pattern_match_dynamic(a: &Datum, b: &Datum, case_insensitive: bool) -> (r: Result<Datum, EvalError>)
    requires
        a@ is String,
        b@ is String,
    ensures
        res_view(r) == is_like_spec(a@->String_0, b@->String_0, case_insensitive),
{
    match like_to_regex(b.unwrap_str()) {
        None => Err(EvalError::UnterminatedLikeEscapeSequence),
        Some(re) => match compile_names(re.as_str(), case_insensitive) {
            Err(msg) => Err(EvalError::InvalidRegex(msg)),
            Ok(_) => Ok(Datum::from_bool(captures(re.as_str(), case_insensitive, a.unwrap_str()).is_some())),
        },
    }
}

} // verus!
