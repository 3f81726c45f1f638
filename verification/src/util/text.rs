//! Building diagnostic messages from literal text and numbers.

use vstd::prelude::*;

verus! {

/// The ASCII digit character for a value below ten.
pub open spec fn digit_char(d: nat) -> char {
    (48 + d) as char
}

/// Decimal notation of a natural number, without leading zeros.
pub open spec fn decimal(n: nat) -> Seq<char>
    decreases n,
{
    if n < 10 {
        seq![digit_char(n)]
    } else {
        decimal(n / 10) + seq![digit_char(n % 10)]
    }
}

/// Decimal notation of an integer, with a leading `-` when negative.
pub open spec fn signed_decimal(n: int) -> Seq<char> {
    if n < 0 {
        seq!['-'] + decimal((-n) as nat)
    } else {
        decimal(n as nat)
    }
}

/// The one-character text of a decimal digit.
fn digit_text(d: u64) -> (s: &'static str)
    requires
        d < 10,
    ensures
        s@ == seq![digit_char(d as nat)],
{
    proof {
        reveal_strlit("0");
        reveal_strlit("1");
        reveal_strlit("2");
        reveal_strlit("3");
        reveal_strlit("4");
        reveal_strlit("5");
        reveal_strlit("6");
        reveal_strlit("7");
        reveal_strlit("8");
        reveal_strlit("9");
    }
    match d {
        0 => "0",
        1 => "1",
        2 => "2",
        3 => "3",
        4 => "4",
        5 => "5",
        6 => "6",
        7 => "7",
        8 => "8",
        _ => "9",
    }
}

/// Appends the decimal notation of `n`.
fn append_decimal(s: &mut String, n: u64)
    ensures
        final(s)@ == old(s)@ + decimal(n as nat),
    decreases n,
{
    if n >= 10 {
        append_decimal(s, n / 10);
    }
    s.append(digit_text(n % 10));
    proof {
        if n >= 10 {
            assert(decimal(n as nat) == decimal((n / 10) as nat) + seq![digit_char((n % 10) as nat)]);
        }
    }
}

/// The decimal notation of an unsigned integer, as `ToString` renders it.
fn u64_to_string(n: u64) -> (s: String)
    ensures
        s@ == decimal(n as nat),
{
    let mut s = String::new();
    append_decimal(&mut s, n);
    s
}

/// The decimal notation of a signed integer, with `-` when negative, as
/// `ToString` renders it.
fn i64_to_string(n: i64) -> (s: String)
    ensures
        s@ == signed_decimal(n as int),
{
    if n < 0 {
        proof {
            reveal_strlit("-");
        }
        let mut s = "-".to_owned();
        let magnitude: u64 = (0 - (n as i128)) as u64;
        append_decimal(&mut s, magnitude);
        s
    } else {
        u64_to_string(n as u64)
    }
}

/// Number of bytes of the UTF-8 encoding of a character.
pub open spec fn utf8_width(c: char) -> nat {
    if (c as u32) < 0x80 {
        1
    } else if (c as u32) < 0x800 {
        2
    } else if (c as u32) < 0x10000 {
        3
    } else {
        4
    }
}

/// Number of bytes of the UTF-8 encoding of a text.
pub open spec fn utf8_len(s: Seq<char>) -> nat
    decreases s.len(),
{
    if s.len() == 0 {
        0
    } else {
        utf8_len(s.drop_last()) + utf8_width(s.last())
    }
}

/// The UTF-8 length of a prefix is at most that of the whole text.
pub proof fn lemma_utf8_len_prefix(s: Seq<char>, k: int)
    requires
        0 <= k <= s.len(),
    ensures
        utf8_len(s.take(k)) <= utf8_len(s),
    decreases s.len(),
{
    if k < s.len() {
        assert(s.drop_last().take(k) =~= s.take(k));
        lemma_utf8_len_prefix(s.drop_last(), k);
    } else {
        assert(s.take(k) =~= s);
    }
}

/// `str::len` (std): the length of the text in bytes, which is the length of
/// its UTF-8 encoding. Trusted: the result is `utf8_len` of the characters.
#[verifier::external_body]
pub(crate) fn byte_len(s: &str) -> (n: usize)
    ensures
        n == utf8_len(s@),
{
    s.len()
}

/// `char::len_utf8`: the number of bytes of the UTF-8 encoding of `c`.
pub fn char_utf8_width(c: char) -> (n: usize)
    ensures
        n == utf8_width(c),
{
    let v = c as u32;
    if v < 0x80 {
        1
    } else if v < 0x800 {
        2
    } else if v < 0x10000 {
        3
    } else {
        4
    }
}

/// `prefix`, then the decimal notation of `n`, then `suffix`.
pub fn with_number(prefix: &str, n: u64, suffix: &str) -> (s: String)
    ensures
        s@ == prefix@ + decimal(n as nat) + suffix@,
{
    let mut s = prefix.to_owned();
    let digits = u64_to_string(n);
    s.append(digits.as_str());
    s.append(suffix);
    s
}

/// `prefix`, then the signed decimal notation of `n`, then `suffix`.
pub fn with_signed_number(prefix: &str, n: i64, suffix: &str) -> (s: String)
    ensures
        s@ == prefix@ + signed_decimal(n as int) + suffix@,
{
    let mut s = prefix.to_owned();
    let digits = i64_to_string(n);
    s.append(digits.as_str());
    s.append(suffix);
    s
}

/// `a`, the number `x`, `b`, the number `y`, then `c`.
pub fn with_two_numbers(a: &str, x: u64, b: &str, y: u64, c: &str) -> (s: String)
    ensures
        s@ == a@ + decimal(x as nat) + b@ + decimal(y as nat) + c@,
{
    let mut s = with_number(a, x, b);
    let digits = u64_to_string(y);
    s.append(digits.as_str());
    s.append(c);
    s
}

/// `a`, then the text `t`, then `b`.
pub fn with_text(a: &str, t: &str, b: &str) -> (s: String)
    ensures
        s@ == a@ + t@ + b@,
{
    let mut s = a.to_owned();
    s.append(t);
    s.append(b);
    s
}

/// The comma-separated decimal notation of `dims`.
pub open spec fn dims_body(dims: Seq<usize>) -> Seq<char>
    decreases dims.len(),
{
    if dims.len() == 0 {
        Seq::empty()
    } else if dims.len() == 1 {
        decimal(dims[0] as nat)
    } else {
        dims_body(dims.drop_last()) + seq![',', ' '] + decimal(dims.last() as nat)
    }
}

/// Renders a tensor shape as `(d0, d1, ...)`.
pub fn shape_text(dims: &[usize]) -> (s: String)
    ensures
        s@ == seq!['('] + dims_body(dims@) + seq![')'],
{
    proof {
        reveal_strlit("(");
        reveal_strlit(")");
        reveal_strlit(", ");
    }
    let mut s = "(".to_owned();
    let ghost open = s@;
    let mut i: usize = 0;
    while i < dims.len()
        invariant
            i <= dims@.len(),
            open == seq!['('],
            s@ == open + dims_body(dims@.take(i as int)),
        decreases dims@.len() - i,
    {
        if i > 0 {
            s.append(", ");
        }
        let digits = u64_to_string(dims[i] as u64);
        s.append(digits.as_str());
        proof {
            let t = dims@.take(i + 1);
            assert(t.drop_last() =~= dims@.take(i as int));
            assert(t.last() == dims@[i as int]);
            reveal_strlit(", ");
            if i == 0 {
                assert(dims@.take(0) =~= Seq::<usize>::empty());
            }
        }
        i += 1;
    }
    assert(dims@.take(dims@.len() as int) =~= dims@);
    s.append(")");
    proof {
        reveal_strlit("(");
        reveal_strlit(")");
    }
    s
}

/// The comma-separated signed decimal notation of `values`.
pub open spec fn signed_list_body(values: Seq<i64>) -> Seq<char>
    decreases values.len(),
{
    if values.len() == 0 {
        Seq::empty()
    } else if values.len() == 1 {
        signed_decimal(values[0] as int)
    } else {
        signed_list_body(values.drop_last()) + seq![',', ' '] + signed_decimal(values.last() as int)
    }
}

/// `values` as `{:?}` renders a slice of integers: `[v0, v1, ...]`.
pub open spec fn debug_list(values: Seq<i64>) -> Seq<char> {
    seq!['['] + signed_list_body(values) + seq![']']
}

/// Renders integers as `{:?}` renders a slice of them: `[v0, v1, ...]`.
pub fn debug_list_text(values: &[i64]) -> (s: String)
    ensures
        s@ == debug_list(values@),
{
    proof {
        reveal_strlit("[");
        reveal_strlit("]");
        reveal_strlit(", ");
    }
    let mut s = "[".to_owned();
    let ghost open = s@;
    let mut i: usize = 0;
    while i < values.len()
        invariant
            i <= values@.len(),
            open == seq!['['],
            s@ == open + signed_list_body(values@.take(i as int)),
        decreases values@.len() - i,
    {
        if i > 0 {
            s.append(", ");
        }
        let digits = i64_to_string(values[i]);
        s.append(digits.as_str());
        proof {
            let t = values@.take(i + 1);
            assert(t.drop_last() =~= values@.take(i as int));
            assert(t.last() == values@[i as int]);
            reveal_strlit(", ");
            if i == 0 {
                assert(values@.take(0) =~= Seq::<i64>::empty());
            }
        }
        i += 1;
    }
    assert(values@.take(values@.len() as int) =~= values@);
    s.append("]");
    proof {
        reveal_strlit("[");
        reveal_strlit("]");
    }
    s
}

/// Copies the characters of a string into a vector, in one pass.
pub fn chars_of(s: &str) -> (v: Vec<char>)
    ensures
        v@ == s@,
{
    broadcast use vstd::string::group_string_axioms;
    let mut v: Vec<char> = Vec::new();
    for c in it: s.chars()
        invariant
            v@ == it.seq().take(it.index() as int),
    {
        v.push(c);
        assert(v@ =~= it.seq().take(it.index() + 1));
    }
    assert(v@ =~= s@);
    v
}

} // verus!
