//! The texts of arrays, lists and maps, split into the texts of their
//! elements: `{a,"b c",NULL,{d,e}}` and `{k=>v,"k 2"=>NULL}`.
//!
//! An element stands between double quotes, where a backslash takes the
//! character behind it as it is; or between braces, where the elements
//! are themselves lists or maps; or bare, up to the next comma or brace.
//! The bare word `NULL`, in whichever case, is an element without a text.
//! White space around elements, keys and braces is skipped.

use vstd::prelude::*;
use crate::strings::{char_is_space, from_chars_range, is_space, to_chars};

verus! {

/// The text of an element, where the element is not null, and the key that
/// stands before it in a map.
pub struct ElementText {
    pub key: Option<String>,
    pub text: Option<String>,
}

/// The view of the text of an element.
pub struct ElementTextV {
    pub key: Option<Seq<char>>,
    pub text: Option<Seq<char>>,
}

impl View for ElementText {
    type V = ElementTextV;

    open spec fn view(&self) -> ElementTextV {
        ElementTextV {
            key: match self.key {
                Some(k) => Some(k@),
                None => None,
            },
            text: match self.text {
                Some(t) => Some(t@),
                None => None,
            },
        }
    }
}

/// The views of the texts of elements.
pub open spec fn elements_view(v: Seq<ElementText>) -> Seq<ElementTextV> {
    Seq::new(v.len(), |i: int| v[i]@)
}

/// The first place from `i` on that holds no white space.
pub open spec fn spaces_end(v: Seq<char>, i: int) -> int
    decreases v.len() - i,
{
    if 0 <= i < v.len() && is_space(v[i]) {
        spaces_end(v, i + 1)
    } else {
        i
    }
}

/// The first place from `i` on that holds no white space.
pub fn skip_spaces(v: &Vec<char>, i: usize) -> (r: usize)
    requires
        i <= v@.len(),
    ensures
        r == spaces_end(v@, i as int),
        i <= r <= v@.len(),
{
    let mut j: usize = i;
    while j < v.len() && char_is_space(v[j])
        invariant
            i <= j <= v@.len(),
            spaces_end(v@, i as int) == spaces_end(v@, j as int),
        decreases v.len() - j,
    {
        j += 1;
    }
    j
}

/// Whether four characters spell the word for a null element, in
/// whichever case.
pub open spec fn is_null_word(s: Seq<char>) -> bool {
    s.len() == 4 && (s[0] == 'N' || s[0] == 'n') && (s[1] == 'U' || s[1] == 'u') && (s[2] == 'L' || s[2] == 'l') && (
    s[3] == 'L' || s[3] == 'l')
}

/// Whether the characters from `from` up to `to` spell the word for a null
/// element.
pub fn check_null_word(v: &Vec<char>, from: usize, to: usize) -> (r: bool)
    requires
        from <= to <= v@.len(),
    ensures
        r == is_null_word(v@.subrange(from as int, to as int)),
{
    let ghost s = v@.subrange(from as int, to as int);
    if to - from != 4 {
        return false;
    }
    assert(s[0] == v@[from as int] && s[1] == v@[from + 1] && s[2] == v@[from + 2] && s[3] == v@[from + 3]);
    (v[from] == 'N' || v[from] == 'n') && (v[from + 1] == 'U' || v[from + 1] == 'u') && (v[from + 2] == 'L' || v[from
        + 2] == 'l') && (v[from + 3] == 'L' || v[from + 3] == 'l')
}

/// The rest of a text between double quotes from place `j` on, behind the
/// characters read so far, and the place behind the closing quote. Nothing
/// where the quote is not closed.
pub open spec fn quoted_from(v: Seq<char>, j: int, acc: Seq<char>) -> Option<(Seq<char>, int)>
    decreases v.len() - j,
{
    if j < 0 || j >= v.len() {
        None
    } else if v[j] == '"' {
        Some((acc, j + 1))
    } else if v[j] == '\\' {
        if v.len() - j < 2 {
            None
        } else {
            quoted_from(v, j + 2, acc.push(v[j + 1]))
        }
    } else {
        quoted_from(v, j + 1, acc.push(v[j]))
    }
}

/// What is read behind `from` lies behind it.
pub proof fn lemma_quoted_from(v: Seq<char>, j: int, acc: Seq<char>)
    ensures
        quoted_from(v, j, acc) matches Some((_, e)) ==> j < e <= v.len(),
    decreases v.len() - j,
{
    if 0 <= j < v.len() && v[j] != '"' {
        if v[j] == '\\' {
            if v.len() - j >= 2 {
                lemma_quoted_from(v, j + 2, acc.push(v[j + 1]));
            }
        } else {
            lemma_quoted_from(v, j + 1, acc.push(v[j]));
        }
    }
}

/// Reads a text between double quotes that opens at `i`; a backslash
/// takes the character behind it as it is. Gives the text and the place
/// behind the closing quote.
pub fn read_quoted(v: &Vec<char>, i: usize) -> (r: Option<(String, usize)>)
    requires
        i < v@.len(),
    ensures
        match r {
            Some((s, j)) => quoted_from(v@, i + 1, Seq::empty()) == Some((s@, j as int)) && i < j <= v@.len(),
            None => quoted_from(v@, i + 1, Seq::empty()) is None,
        },
{
    let mut out: Vec<char> = Vec::new();
    let n = v.len();
    let mut j: usize = i + 1;
    while j < n
        invariant
            i < j <= n == v@.len(),
            quoted_from(v@, i + 1, Seq::empty()) == quoted_from(v@, j as int, out@),
        decreases n - j,
    {
        let c = v[j];
        if c == '"' {
            let s = from_chars_range(&out, 0, out.len());
            assert(out@.subrange(0, out@.len() as int) =~= out@);
            return Some((s, j + 1));
        }
        if c == '\\' {
            if n - j < 2 {
                return None;
            }
            out.push(v[j + 1]);
            j += 2;
        } else {
            out.push(c);
            j += 1;
        }
    }
    None
}

/// The place behind the brace that closes a text between braces, read
/// from place `j` on with `depth` braces open; the braces between double
/// quotes do not count. Nothing where a brace stays open.
pub open spec fn nested_from(v: Seq<char>, j: int, depth: nat, quoted: bool) -> Option<int>
    decreases v.len() - j,
{
    if j < 0 || j >= v.len() {
        None
    } else if quoted {
        if v[j] == '\\' && v.len() - j >= 2 {
            nested_from(v, j + 2, depth, true)
        } else {
            nested_from(v, j + 1, depth, v[j] != '"')
        }
    } else if v[j] == '"' {
        nested_from(v, j + 1, depth, true)
    } else if v[j] == '{' {
        nested_from(v, j + 1, depth + 1, false)
    } else if v[j] == '}' {
        if depth <= 1 {
            Some(j + 1)
        } else {
            nested_from(v, j + 1, (depth - 1) as nat, false)
        }
    } else {
        nested_from(v, j + 1, depth, false)
    }
}

/// Reads a text between braces that opens at `i`, with the braces inside
/// it paired and those between double quotes left alone. Gives the text
/// with its braces and the place behind it.
pub fn read_nested(v: &Vec<char>, i: usize) -> (r: Option<(String, usize)>)
    requires
        i < v@.len(),
    ensures
        match r {
            Some((s, j)) => nested_from(v@, i + 1, 1, false) == Some(j as int) && i < j <= v@.len() && s@
                == v@.subrange(i as int, j as int),
            None => nested_from(v@, i + 1, 1, false) is None,
        },
{
    let n = v.len();
    let mut depth: usize = 1;
    let mut quoted = false;
    let mut j: usize = i + 1;
    while j < n
        invariant
            i < j <= n == v@.len(),
            1 <= depth <= j - i,
            nested_from(v@, i + 1, 1, false) == nested_from(v@, j as int, depth as nat, quoted),
        decreases n - j,
    {
        let c = v[j];
        if quoted {
            if c == '\\' && n - j >= 2 {
                j += 1;
            } else if c == '"' {
                quoted = false;
            }
        } else if c == '"' {
            quoted = true;
        } else if c == '{' {
            depth += 1;
        } else if c == '}' {
            depth -= 1;
            if depth == 0 {
                return Some((from_chars_range(v, i, j + 1), j + 1));
            }
        }
        j += 1;
    }
    None
}

/// Whether a character ends a text that stands bare.
pub open spec fn ends_bare(c: char, in_key: bool) -> bool {
    c == ',' || c == '}' || c == '{' || c == '"' || (in_key && c == '=')
}

/// The first place from `i` on that ends a bare text, or the end.
pub open spec fn bare_end(v: Seq<char>, i: int, in_key: bool) -> int
    decreases v.len() - i,
{
    if 0 <= i < v.len() && !ends_bare(v[i], in_key) {
        bare_end(v, i + 1, in_key)
    } else {
        i
    }
}

/// The place behind the last character before `end` that is no white
/// space, not before `i`.
pub open spec fn trimmed_end(v: Seq<char>, i: int, end: int) -> int
    decreases end - i,
{
    if 0 <= i < end <= v.len() && is_space(v[end - 1]) {
        trimmed_end(v, i, end - 1)
    } else {
        end
    }
}

/// The text that stands bare at `i`, without the white space at its end,
/// or nothing for the word for a null element, and the place behind it.
/// An empty bare text is none.
pub open spec fn bare_at(v: Seq<char>, i: int, in_key: bool) -> Option<(Option<Seq<char>>, int)> {
    let j = bare_end(v, i, in_key);
    let end = trimmed_end(v, i, j);
    if end <= i {
        None
    } else if is_null_word(v.subrange(i, end)) {
        Some((None, j))
    } else {
        Some((Some(v.subrange(i, end)), j))
    }
}

/// Reads a text that stands bare from `i` up to the next comma, brace or
/// quote, and in a key up to `=`, without the white space at its end.
pub fn read_bare(v: &Vec<char>, i: usize, in_key: bool) -> (r: Option<(Option<String>, usize)>)
    requires
        i <= v@.len(),
    ensures
        opt_item_view(r) == bare_at(v@, i as int, in_key),
        r matches Some((_, j)) ==> i < j <= v@.len(),
{
    let mut j: usize = i;
    while j < v.len() && !(v[j] == ',' || v[j] == '}' || v[j] == '{' || v[j] == '"' || (in_key && v[j] == '='))
        invariant
            i <= j <= v@.len(),
            bare_end(v@, i as int, in_key) == bare_end(v@, j as int, in_key),
        decreases v.len() - j,
    {
        j += 1;
    }
    let mut end: usize = j;
    while end > i && char_is_space(v[end - 1])
        invariant
            i <= end <= j <= v@.len(),
            trimmed_end(v@, i as int, j as int) == trimmed_end(v@, i as int, end as int),
        decreases end,
    {
        end -= 1;
    }
    if end == i {
        return None;
    }
    if check_null_word(v, i, end) {
        Some((None, j))
    } else {
        let s = from_chars_range(v, i, end);
        Some((Some(s), j))
    }
}

/// The view of what was read of an element: its text and the place behind
/// it.
pub open spec fn opt_item_view(r: Option<(Option<String>, usize)>) -> Option<(Option<Seq<char>>, int)> {
    match r {
        Some((Some(s), j)) => Some((Some(s@), j as int)),
        Some((None, j)) => Some((None, j as int)),
        None => None,
    }
}

/// The text of the element or of the key at `i`: between quotes, between
/// braces where elements may be nested, or bare; and the place behind it.
pub open spec fn item_at(v: Seq<char>, i: int, nested: bool, in_key: bool) -> Option<(Option<Seq<char>>, int)> {
    if i < 0 || i >= v.len() {
        None
    } else if v[i] == '"' {
        match quoted_from(v, i + 1, Seq::empty()) {
            Some((s, j)) => Some((Some(s), j)),
            None => None,
        }
    } else if v[i] == '{' {
        if !nested || in_key {
            None
        } else {
            match nested_from(v, i + 1, 1, false) {
                Some(j) => Some((Some(v.subrange(i, j)), j)),
                None => None,
            }
        }
    } else {
        bare_at(v, i, in_key)
    }
}

/// Reads the text of an element or of a key at `i`.
pub fn read_item(v: &Vec<char>, i: usize, nested: bool, in_key: bool) -> (r: Option<(Option<String>, usize)>)
    requires
        i <= v@.len(),
    ensures
        opt_item_view(r) == item_at(v@, i as int, nested, in_key),
        r matches Some((_, j)) ==> i < j <= v@.len(),
{
    if i >= v.len() {
        return None;
    }
    if v[i] == '"' {
        match read_quoted(v, i) {
            Some((s, j)) => Some((Some(s), j)),
            None => None,
        }
    } else if v[i] == '{' {
        if !nested || in_key {
            return None;
        }
        match read_nested(v, i) {
            Some((s, j)) => Some((Some(s), j)),
            None => None,
        }
    } else {
        read_bare(v, i, in_key)
    }
}

/// The key that stands at `i` with `=>` behind it, and the place of what
/// follows; a key is no null and stands between no braces.
pub open spec fn key_at(v: Seq<char>, i: int) -> Option<(Seq<char>, int)> {
    match item_at(v, i, false, true) {
        Some((Some(k), j)) => {
            let p = spaces_end(v, j);
            if 0 <= p && v.len() - p >= 2 && v[p] == '=' && v[p + 1] == '>' {
                Some((k, spaces_end(v, p + 2)))
            } else {
                None
            }
        },
        _ => None,
    }
}

/// The elements from place `i` on, which is behind the opening brace or
/// behind a comma, up to the closing brace, behind which only white space
/// may stand.
pub open spec fn elements_from(v: Seq<char>, i: int, nested: bool, keyed: bool) -> Option<Seq<ElementTextV>>
    decreases v.len() - i,
{
    if i < 0 || i >= v.len() {
        None
    } else {
        let key = if keyed {
            key_at(v, i)
        } else {
            Some((Seq::empty(), i))
        };
        match key {
            None => None,
            Some((k, p)) => match item_at(v, p, nested, false) {
                None => None,
                Some((t, j)) => {
                    let e = ElementTextV {
                        key: if keyed {
                            Some(k)
                        } else {
                            None
                        },
                        text: t,
                    };
                    let q = spaces_end(v, j);
                    let next = spaces_end(v, q + 1);
                    if q < 0 || q >= v.len() {
                        None
                    } else if v[q] == '}' {
                        if next == v.len() {
                            Some(seq![e])
                        } else {
                            None
                        }
                    } else if v[q] != ',' || next <= i || next > v.len() {
                        None
                    } else {
                        match elements_from(v, next, nested, keyed) {
                            Some(rest) => Some(seq![e] + rest),
                            None => None,
                        }
                    }
                },
            },
        }
    }
}

/// The texts of the elements of the text of an array or a list, or with
/// `keyed` of a map: the text opens with a brace, and either closes at
/// once or holds elements with commas between them. Nothing where the
/// text is not of this form.
pub open spec fn split_spec(v: Seq<char>, nested: bool, keyed: bool) -> Option<Seq<ElementTextV>> {
    let i = spaces_end(v, 0);
    if i < 0 || i >= v.len() || v[i] != '{' {
        None
    } else {
        let p = spaces_end(v, i + 1);
        if 0 <= p < v.len() && v[p] == '}' {
            if spaces_end(v, p + 1) == v.len() {
                Some(Seq::empty())
            } else {
                None
            }
        } else {
            elements_from(v, p, nested, keyed)
        }
    }
}

/// Elements behind others, where there are any.
pub open spec fn elements_behind(before: Seq<ElementTextV>, rest: Option<Seq<ElementTextV>>) -> Option<
    Seq<ElementTextV>,
> {
    match rest {
        Some(r) => Some(before + r),
        None => None,
    }
}

/// Splits the text of an array or a list, or with `keyed` that of a map,
/// into the texts of its elements. With `keyed` each element has a key,
/// and without it none.
pub fn split_elements(text: &str, nested: bool, keyed: bool) -> (r: Option<Vec<ElementText>>)
    ensures
        match r {
            Some(v) => split_spec(text@, nested, keyed) == Some(elements_view(v@)),
            None => split_spec(text@, nested, keyed) is None,
        },
        r matches Some(v) ==> forall|i: int| 0 <= i < v@.len() ==> ((#[trigger] v@[i]).key is Some) == keyed,
{
    let v = to_chars(text);
    let mut out: Vec<ElementText> = Vec::new();
    let mut i: usize = skip_spaces(&v, 0);
    if i >= v.len() || v[i] != '{' {
        return None;
    }
    i = skip_spaces(&v, i + 1);
    if i < v.len() && v[i] == '}' {
        i = skip_spaces(&v, i + 1);
        assert(elements_view(out@) =~= Seq::<ElementTextV>::empty());
        return if i == v.len() {
            Some(out)
        } else {
            None
        };
    }
    assert(elements_view(out@) =~= Seq::<ElementTextV>::empty());
    assert(elements_behind(Seq::empty(), elements_from(v@, i as int, nested, keyed)) == elements_from(
        v@,
        i as int,
        nested,
        keyed,
    )) by {
        match elements_from(v@, i as int, nested, keyed) {
            Some(r) => {
                assert(Seq::<ElementTextV>::empty() + r =~= r);
            },
            None => {},
        }
    }
    while i < v.len()
        invariant
            i <= v@.len(),
            v@ == text@,
            split_spec(text@, nested, keyed) == elements_behind(
                elements_view(out@),
                elements_from(v@, i as int, nested, keyed),
            ),
            forall|k: int| 0 <= k < out@.len() ==> ((#[trigger] out@[k]).key is Some) == keyed,
        decreases v.len() - i,
    {
        let ghost start = i as int;
        let ghost done = elements_view(out@);
        let mut key: Option<String> = None;
        if keyed {
            match read_item(&v, i, false, true) {
                Some((Some(k), j)) => {
                    key = Some(k);
                    i = skip_spaces(&v, j);
                },
                _ => {
                    return None;
                },
            }
            if v.len() - i < 2 || v[i] != '=' || v[i + 1] != '>' {
                return None;
            }
            i = skip_spaces(&v, i + 2);
        }
        match read_item(&v, i, nested, false) {
            Some((t, j)) => {
                let element = ElementText { key, text: t };
                let ghost e = element@;
                out.push(element);
                assert(elements_view(out@) =~= done.push(e));
                i = skip_spaces(&v, j);
                if i >= v.len() {
                    return None;
                }
                if v[i] == '}' {
                    i = skip_spaces(&v, i + 1);
                    assert(done + seq![e] =~= done.push(e));
                    return if i == v.len() {
                        Some(out)
                    } else {
                        None
                    };
                }
                if v[i] != ',' {
                    return None;
                }
                i = skip_spaces(&v, i + 1);
                proof {
                    match elements_from(v@, i as int, nested, keyed) {
                        Some(rest) => {
                            assert(done + (seq![e] + rest) =~= done.push(e) + rest);
                        },
                        None => {},
                    }
                }
            },
            None => {
                return None;
            },
        }
    }
    None
}

} // verus!
