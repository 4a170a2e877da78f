//! Texts: their characters, and the decimal notation of integers.

use vstd::prelude::*;

verus! {

/// `String::push` appends one character to the text. The standard library
/// documents it so; the contract says no more.
pub assume_specification[ std::string::String::push ](s: &mut std::string::String, c: char)
    ensures
        final(s)@ == old(s)@.push(c),
;

/// The characters of a text.
pub fn to_chars(s: &str) -> (r: Vec<char>)
    ensures
        r@ == s@,
{
    let n = s.unicode_len();
    let mut out: Vec<char> = Vec::new();
    let mut i: usize = 0;
    while i < n
        invariant
            n == s@.len(),
            i <= n,
            out@ == s@.take(i as int),
        decreases n - i,
    {
        out.push(s.get_char(i));
        assert(s@.take(i + 1) =~= s@.take(i as int).push(s@[i as int]));
        i += 1;
    }
    assert(s@.take(n as int) =~= s@);
    out
}

/// The text of the characters from `from` up to `to`.
pub fn from_chars_range(v: &Vec<char>, from: usize, to: usize) -> (r: String)
    requires
        from <= to <= v@.len(),
    ensures
        r@ == v@.subrange(from as int, to as int),
{
    let mut out = String::new();
    let mut i: usize = from;
    while i < to
        invariant
            from <= i <= to,
            to <= v@.len(),
            out@ == v@.subrange(from as int, i as int),
        decreases to - i,
    {
        out.push(v[i]);
        assert(v@.subrange(from as int, i + 1) =~= v@.subrange(from as int, i as int).push(v@[i as int]));
        i += 1;
    }
    out
}

/// The text of the characters.
pub fn from_chars(v: &Vec<char>) -> (r: String)
    ensures
        r@ == v@,
{
    let r = from_chars_range(v, 0, v.len());
    assert(v@.subrange(0, v@.len() as int) =~= v@);
    r
}

/// The character of a decimal digit.
pub open spec fn digit_char(d: int) -> char {
    (48 + d) as u8 as char
}

/// The decimal notation of a natural number.
pub open spec fn nat_text(n: nat) -> Seq<char>
    decreases n,
{
    if n < 10 {
        seq![digit_char(n as int)]
    } else {
        nat_text(n / 10).push(digit_char((n % 10) as int))
    }
}

/// The decimal notation of an integer: a minus sign before the digits of a
/// negative one.
pub open spec fn int_text(n: int) -> Seq<char> {
    if n < 0 {
        seq!['-'] + nat_text((-n) as nat)
    } else {
        nat_text(n as nat)
    }
}

/// Whether a character is a decimal digit.
pub open spec fn is_digit(c: char) -> bool {
    48 <= c as u32 <= 57
}

/// The value of a decimal digit.
pub open spec fn digit_value(c: char) -> int {
    c as u32 - 48
}

/// Whether every character is a decimal digit.
pub open spec fn all_digits(s: Seq<char>) -> bool {
    forall|i: int| 0 <= i < s.len() ==> is_digit(#[trigger] s[i])
}

/// The number that digits denote.
pub open spec fn digits_value(s: Seq<char>) -> nat
    decreases s.len(),
{
    if s.len() == 0 {
        0
    } else {
        (digits_value(s.drop_last()) * 10 + digit_value(s.last())) as nat
    }
}

/// Whether a character is white space, as Unicode defines it.
pub open spec fn is_space(c: char) -> bool {
    let u = c as u32;
    (9 <= u <= 13) || u == 0x20 || u == 0x85 || u == 0xA0 || u == 0x1680 || (0x2000 <= u <= 0x200A) || u == 0x2028
        || u == 0x2029 || u == 0x202F || u == 0x205F || u == 0x3000
}

/// How many characters at the start of a text are white space.
pub open spec fn leading_spaces(s: Seq<char>) -> int
    decreases s.len(),
{
    if s.len() == 0 || !is_space(s[0]) {
        0
    } else {
        1 + leading_spaces(s.drop_first())
    }
}

/// How many characters at the end of a text are white space.
pub open spec fn trailing_spaces(s: Seq<char>) -> int
    decreases s.len(),
{
    if s.len() == 0 || !is_space(s.last()) {
        0
    } else {
        1 + trailing_spaces(s.drop_last())
    }
}

/// A text without the white space at its start and at its end.
pub open spec fn trimmed(s: Seq<char>) -> Seq<char> {
    let a = leading_spaces(s);
    let rest = s.skip(a);
    rest.take(rest.len() - trailing_spaces(rest))
}

/// The integer that a text denotes, if it denotes one: white space, then
/// an optional sign, then at least one digit, then white space.
pub open spec fn parse_int_spec(s: Seq<char>) -> Option<int> {
    let t = trimmed(s);
    if t.len() > 0 && (t[0] == '-' || t[0] == '+') {
        let d = t.drop_first();
        if d.len() > 0 && all_digits(d) {
            if t[0] == '-' {
                Some(-(digits_value(d) as int))
            } else {
                Some(digits_value(d) as int)
            }
        } else {
            None
        }
    } else if t.len() > 0 && all_digits(t) {
        Some(digits_value(t) as int)
    } else {
        None
    }
}

/// Whether a character is white space.
pub fn char_is_space(c: char) -> (r: bool)
    ensures
        r == is_space(c),
{
    let u = c as u32;
    (9 <= u && u <= 13) || u == 0x20 || u == 0x85 || u == 0xA0 || u == 0x1680 || (0x2000 <= u && u <= 0x200A) || u
        == 0x2028 || u == 0x2029 || u == 0x202F || u == 0x205F || u == 0x3000
}

proof fn lemma_leading_spaces(s: Seq<char>, k: int)
    requires
        0 <= k <= s.len(),
        forall|j: int| 0 <= j < k ==> is_space(#[trigger] s[j]),
        k < s.len() ==> !is_space(s[k]),
    ensures
        leading_spaces(s) == k,
    decreases k,
{
    if k > 0 {
        let t = s.drop_first();
        assert forall|j: int| 0 <= j < k - 1 implies is_space(#[trigger] t[j]) by {
            assert(t[j] == s[j + 1]);
        }
        lemma_leading_spaces(t, k - 1);
    }
}

proof fn lemma_trailing_spaces(s: Seq<char>, k: int)
    requires
        0 <= k <= s.len(),
        forall|j: int| s.len() - k <= j < s.len() ==> is_space(#[trigger] s[j]),
        k < s.len() ==> !is_space(s[s.len() - k - 1]),
    ensures
        trailing_spaces(s) == k,
    decreases k,
{
    if k > 0 {
        let t = s.drop_last();
        assert forall|j: int| t.len() - (k - 1) <= j < t.len() implies is_space(#[trigger] t[j]) by {
            assert(t[j] == s[j]);
        }
        lemma_trailing_spaces(t, k - 1);
    }
}

/// The bounds of a text without the white space around it: the place of
/// its first character and the place behind its last.
pub fn trim_bounds(v: &Vec<char>) -> (r: (usize, usize))
    ensures
        r.0 <= r.1 <= v@.len(),
        trimmed(v@) == v@.subrange(r.0 as int, r.1 as int),
{
    let mut a: usize = 0;
    while a < v.len() && char_is_space(v[a])
        invariant
            a <= v.len(),
            forall|j: int| 0 <= j < a ==> is_space(#[trigger] v@[j]),
        decreases v.len() - a,
    {
        a += 1;
    }
    let mut b: usize = v.len();
    while b > a && char_is_space(v[b - 1])
        invariant
            a <= b <= v.len(),
            forall|j: int| b <= j < v.len() ==> is_space(#[trigger] v@[j]),
        decreases b,
    {
        b -= 1;
    }
    proof {
        lemma_leading_spaces(v@, a as int);
        let rest = v@.skip(a as int);
        assert forall|j: int| rest.len() - (v.len() - b) <= j < rest.len() implies is_space(#[trigger] rest[j]) by {
            assert(rest[j] == v@[j + a]);
        }
        if v.len() - b < rest.len() {
            assert(rest[rest.len() - (v.len() - b) - 1] == v@[b - 1]);
        }
        lemma_trailing_spaces(rest, (v.len() - b) as int);
        assert(rest.take(rest.len() - (v.len() - b)) =~= v@.subrange(a as int, b as int));
    }
    (a, b)
}

/// The decimal notation of an integer.
#[verifier::loop_isolation(false)]
pub fn format_int(n: i64) -> (r: String)
    ensures
        r@ == int_text(n as int),
{
    let negative = n < 0;
    let start: u64 = if negative {
        (-(n as i128)) as u64
    } else {
        n as u64
    };
    // The digits from the last to the first.
    let mut rev: Vec<char> = Vec::new();
    let c0 = ((48 + start % 10) as u8) as char;
    rev.push(c0);
    let mut m: u64 = start / 10;
    proof {
        assert(rev@.reverse() =~= seq![c0]);
        assert(c0 == digit_char((start % 10) as int));
        if start >= 10 {
            assert(nat_text(start as nat) =~= nat_text(m as nat) + rev@.reverse());
        }
    }
    while m > 0
        invariant
            rev@.len() >= 1,
            m > 0 ==> nat_text(start as nat) == nat_text(m as nat) + rev@.reverse(),
            m == 0 ==> nat_text(start as nat) == rev@.reverse(),
        decreases m,
    {
        let ghost before = rev@;
        let c = ((48 + m % 10) as u8) as char;
        rev.push(c);
        proof {
            assert(c == digit_char((m % 10) as int));
            assert(rev@.reverse() =~= seq![c] + before.reverse());
            if m >= 10 {
                assert(nat_text(m as nat) == nat_text((m / 10) as nat).push(c));
                assert(nat_text(m as nat) + before.reverse() =~= nat_text((m / 10) as nat) + rev@.reverse());
            } else {
                assert(nat_text(m as nat) == seq![c]);
                assert(nat_text(m as nat) + before.reverse() =~= rev@.reverse());
            }
        }
        m = m / 10;
    }
    let mut out = String::new();
    if negative {
        out.push('-');
    }
    let ghost prefix = out@;
    let mut i: usize = rev.len();
    while i > 0
        invariant
            i <= rev.len(),
            out@ == prefix + rev@.reverse().take(rev.len() - i),
        decreases i,
    {
        i -= 1;
        out.push(rev[i]);
        assert(rev@.reverse().take(rev.len() - i) =~= rev@.reverse().take(rev.len() - i - 1).push(rev@[i as int]));
    }
    assert(rev@.reverse().take(rev.len() as int) =~= rev@.reverse());
    proof {
        if negative {
            assert(prefix =~= seq!['-']);
            assert(start as nat == (-(n as int)) as nat);
        } else {
            assert(prefix + rev@.reverse() =~= rev@.reverse());
        }
    }
    out
}

/// The digits of a number are digits, and denote the number.
pub proof fn lemma_nat_text(n: nat)
    ensures
        nat_text(n).len() >= 1,
        all_digits(nat_text(n)),
        digits_value(nat_text(n)) == n,
        forall|i: int| 0 <= i < nat_text(n).len() ==> !is_space(#[trigger] nat_text(n)[i]),
        nat_text(n)[0] != '-' && nat_text(n)[0] != '+',
    decreases n,
{
    if n < 10 {
        let s = nat_text(n);
        assert(s.drop_last() =~= Seq::<char>::empty());
        assert(digits_value(s.drop_last()) == 0);
    } else {
        lemma_nat_text(n / 10);
        let s = nat_text(n);
        assert(s.drop_last() =~= nat_text(n / 10));
        assert(s[0] == nat_text(n / 10)[0]);
    }
}

/// A text that neither starts nor ends with white space is trimmed
/// already.
pub proof fn lemma_trimmed_same(s: Seq<char>)
    requires
        s.len() > 0,
        !is_space(s[0]),
        !is_space(s.last()),
    ensures
        trimmed(s) == s,
{
    assert(s.skip(0) =~= s);
    assert(s.take(s.len() as int) =~= s);
}

/// The notation of an integer denotes that integer.
pub proof fn lemma_parse_format(n: int)
    ensures
        parse_int_spec(int_text(n)) == Some(n),
{
    let t = int_text(n);
    if n < 0 {
        let m = (-n) as nat;
        lemma_nat_text(m);
        assert(t.last() == nat_text(m).last());
        lemma_trimmed_same(t);
        assert(t.drop_first() =~= nat_text(m));
    } else {
        lemma_nat_text(n as nat);
        lemma_trimmed_same(t);
    }
}

/// Reads an integer of up to 64 bits from a text. Gives the integer where
/// the text denotes one within the given bounds, and nothing otherwise.
#[verifier::loop_isolation(false)]
pub fn parse_int(s: &str, min: i64, max: i64) -> (r: Option<i64>)
    requires
        min <= 0 <= max,
    ensures
        r == match parse_int_spec(s@) {
            Some(n) => if min <= n <= max {
                Some(n as i64)
            } else {
                None
            },
            None => None,
        },
{
    let v = to_chars(s);
    let (a, b) = trim_bounds(&v);
    let ghost t = v@.subrange(a as int, b as int);
    if a == b {
        return None;
    }
    let first = v[a];
    assert(t[0] == first);
    let negative = first == '-';
    let start: usize = if first == '-' || first == '+' {
        a + 1
    } else {
        a
    };
    let ghost d = v@.subrange(start as int, b as int);
    proof {
        if start > a {
            assert(d =~= t.drop_first());
        } else {
            assert(d =~= t);
        }
    }
    if start == b {
        return None;
    }
    // The value so far, kept at most 2^64: beyond that it only matters
    // that it is too large.
    let mut acc: u128 = 0;
    let mut i: usize = start;
    while i < b
        invariant
            start <= i <= b,
            b <= v@.len(),
            d == v@.subrange(start as int, b as int),
            all_digits(d.take(i - start)),
            acc <= 0x1_0000_0000_0000_0000,
            acc < 0x1_0000_0000_0000_0000 ==> acc == digits_value(d.take(i - start)),
            acc == 0x1_0000_0000_0000_0000 ==> digits_value(d.take(i - start)) >= 0x1_0000_0000_0000_0000,
        decreases b - i,
    {
        let c = v[i];
        let u = c as u32;
        proof {
            assert(d.take(i - start + 1).drop_last() =~= d.take(i - start));
            assert(d.take(i - start + 1).last() == c);
        }
        if u < 48 || u > 57 {
            assert(!is_digit(d[i - start]));
            return None;
        }
        assert(all_digits(d.take(i - start + 1))) by {
            assert forall|j: int| 0 <= j < i - start + 1 implies is_digit(#[trigger] d.take(i - start + 1)[j]) by {
                if j < i - start {
                    assert(d.take(i - start)[j] == d.take(i - start + 1)[j]);
                }
            }
        }
        if acc < 0x1_0000_0000_0000_0000 {
            acc = acc * 10 + (u - 48) as u128;
            if acc > 0x1_0000_0000_0000_0000 {
                acc = 0x1_0000_0000_0000_0000;
            }
        } else {
            assert(digits_value(d.take(i - start + 1)) >= 0x1_0000_0000_0000_0000) by (nonlinear_arith)
                requires
                    digits_value(d.take(i - start + 1)) == digits_value(d.take(i - start)) * 10 + digit_value(c),
                    digits_value(d.take(i - start)) >= 0x1_0000_0000_0000_0000,
                    digit_value(c) >= 0,
            ;
        }
        i += 1;
    }
    assert(d.take(b - start) =~= d);
    if negative {
        if acc <= (-(min as i128)) as u128 {
            Some((-(acc as i128)) as i64)
        } else {
            None
        }
    } else {
        if acc <= max as u128 {
            Some(acc as i64)
        } else {
            None
        }
    }
}

/// A text made of another, repeated.
pub open spec fn repeated(s: Seq<char>, n: nat) -> Seq<char>
    decreases n,
{
    if n == 0 {
        Seq::empty()
    } else {
        repeated(s, (n - 1) as nat) + s
    }
}

} // verus!
