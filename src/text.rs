//! Small text utilities used by the table renderer and the message builders.
use vstd::prelude::*;
use vstd::utf8::{decode_utf8, encode_utf8, is_char_boundary};

verus! {

/// `n` copies of `c`.
pub open spec fn repeat_char(c: char, n: nat) -> Seq<char> {
    Seq::new(n, |i: int| c)
}

/// `s` followed by enough spaces to make it `width` characters wide
/// (left alignment, as `{:<width}` does); a longer `s` is left as it is.
pub open spec fn pad_right(s: Seq<char>, width: nat) -> Seq<char> {
    if s.len() < width {
        s + repeat_char(' ', (width - s.len()) as nat)
    } else {
        s
    }
}

/// The ASCII digit for `d < 10`.
pub open spec fn digit_char(d: nat) -> char {
    if d == 0 {
        '0'
    } else if d == 1 {
        '1'
    } else if d == 2 {
        '2'
    } else if d == 3 {
        '3'
    } else if d == 4 {
        '4'
    } else if d == 5 {
        '5'
    } else if d == 6 {
        '6'
    } else if d == 7 {
        '7'
    } else if d == 8 {
        '8'
    } else {
        '9'
    }
}

/// The decimal digits of `n`, most significant first, without leading zeros.
pub open spec fn decimal(n: nat) -> Seq<char>
    decreases n,
{
    if n < 10 {
        seq![digit_char(n)]
    } else {
        decimal(n / 10) + seq![digit_char(n % 10)]
    }
}

/// The decimal text of a signed integer, with a leading `-` when negative.
pub open spec fn signed_decimal(n: int) -> Seq<char> {
    if n < 0 {
        seq!['-'] + decimal((-n) as nat)
    } else {
        decimal(n as nat)
    }
}

/// The decimal digits of `n`, zero-padded on the left to at least `width` digits.
pub open spec fn zero_padded(n: nat, width: nat) -> Seq<char> {
    let d = decimal(n);
    if d.len() < width {
        repeat_char('0', (width - d.len()) as nat) + d
    } else {
        d
    }
}

/// Whether `s` begins with `prefix`.
pub open spec fn has_prefix(s: Seq<char>, prefix: Seq<char>) -> bool {
    prefix.len() <= s.len() && s.subrange(0, prefix.len() as int) == prefix
}

fn digit_str(d: u64) -> (r: &'static str)
    requires
        d < 10,
    ensures
        r@ == seq![digit_char(d as nat)],
{
    proof {
        reveal_strlit("0");
        reveal_strlit("1");
        reveal_strlit("2");
        reveal_strlit("3");
        reveal_strlit("4");
        reveal_strlit("5");
        reveal_strlit("6");
        reveal_strlit("7");
        reveal_strlit("8");
        reveal_strlit("9");
    }
    if d == 0 {
        "0"
    } else if d == 1 {
        "1"
    } else if d == 2 {
        "2"
    } else if d == 3 {
        "3"
    } else if d == 4 {
        "4"
    } else if d == 5 {
        "5"
    } else if d == 6 {
        "6"
    } else if d == 7 {
        "7"
    } else if d == 8 {
        "8"
    } else {
        "9"
    }
}

/// Appends the decimal digits of `n` to `out`.
pub fn push_decimal(out: &mut String, n: u64)
    ensures
        final(out)@ == old(out)@ + decimal(n as nat),
    decreases n,
{
    if n < 10 {
        out.append(digit_str(n));
    } else {
        push_decimal(out, n / 10);
        out.append(digit_str(n % 10));
        assert(final(out)@ =~= old(out)@ + decimal(n as nat));
    }
}

/// The decimal text of `n`.
pub fn decimal_text(n: u64) -> (r: String)
    ensures
        r@ == decimal(n as nat),
{
    let mut s = String::new();
    push_decimal(&mut s, n);
    assert(s@ =~= decimal(n as nat));
    s
}

/// The decimal text of a signed `n`, with a leading `-` when it is negative.
pub fn signed_decimal_text(n: i64) -> (r: String)
    ensures
        r@ == signed_decimal(n as int),
{
    if n < 0 {
        proof {
            reveal_strlit("-");
        }
        let mut s = String::from_str("-");
        let magnitude: u64 = if n == i64::MIN {
            9223372036854775808u64
        } else {
            (-n) as u64
        };
        push_decimal(&mut s, magnitude);
        assert(s@ =~= signed_decimal(n as int));
        s
    } else {
        decimal_text(n as u64)
    }
}

/// Appends `count` copies of the one-character string `unit` to `out`.
pub fn push_repeated(out: &mut String, unit: &str, count: usize)
    requires
        unit@.len() == 1,
    ensures
        final(out)@ == old(out)@ + repeat_char(unit@[0], count as nat),
{
    let mut i: usize = 0;
    while i < count
        invariant
            i <= count,
            unit@.len() == 1,
            out@ == old(out)@ + repeat_char(unit@[0], i as nat),
        decreases count - i,
    {
        out.append(unit);
        i = i + 1;
        assert(out@ =~= old(out)@ + repeat_char(unit@[0], i as nat));
    }
}

/// The decimal digits of `n`, zero-padded on the left to at least `width` digits.
pub fn zero_padded_text(n: u64, width: usize) -> (r: String)
    ensures
        r@ == zero_padded(n as nat, width as nat),
{
    let digits = decimal_text(n);
    let len = digits.as_str().unicode_len();
    if len < width {
        proof {
            reveal_strlit("0");
        }
        let mut s = String::new();
        push_repeated(&mut s, "0", width - len);
        s.append(digits.as_str());
        assert(s@ =~= zero_padded(n as nat, width as nat));
        s
    } else {
        digits
    }
}

/// `s` left-aligned in a field of `width` characters, as `format!("{:<width$}", s)` gives.
pub fn pad_right_text(s: &str, width: usize) -> (r: String)
    ensures
        r@ == pad_right(s@, width as nat),
{
    let mut out = String::from_str(s);
    let len = s.unicode_len();
    if len < width {
        proof {
            reveal_strlit(" ");
        }
        push_repeated(&mut out, " ", width - len);
    }
    out
}

/// A line of `n` dashes, as drawn under a table header.
pub fn dash_line(n: usize) -> (r: String)
    ensures
        r@ == repeat_char('-', n as nat),
{
    proof {
        reveal_strlit("-");
    }
    let mut out = String::new();
    push_repeated(&mut out, "-", n);
    assert(out@ =~= repeat_char('-', n as nat));
    out
}

/// Whether `s` begins with `prefix`.
pub fn starts_with(s: &str, prefix: &str) -> (r: bool)
    ensures
        r == has_prefix(s@, prefix@),
{
    let n = prefix.unicode_len();
    let m = s.unicode_len();
    if n > m {
        return false;
    }
    let mut i: usize = 0;
    while i < n
        invariant
            n == prefix@.len(),
            m == s@.len(),
            n <= m,
            i <= n,
            forall|j: int| 0 <= j < i ==> s@[j] == prefix@[j],
        decreases n - i,
    {
        if s.get_char(i) != prefix.get_char(i) {
            assert(s@.subrange(0, n as int)[i as int] != prefix@[i as int]);
            return false;
        }
        i = i + 1;
    }
    assert(s@.subrange(0, n as int) =~= prefix@);
    true
}

/// The length of `s` in bytes, as UTF-8.
pub open spec fn byte_len(s: Seq<char>) -> nat {
    encode_utf8(s).len()
}

/// Whether byte `i` of `s`'s UTF-8 encoding starts a character (or is its end).
pub open spec fn is_boundary(s: Seq<char>, i: int) -> bool {
    is_char_boundary(encode_utf8(s), i)
}

/// The text of the first `n` bytes of `s`.
pub open spec fn byte_prefix(s: Seq<char>, n: int) -> Seq<char> {
    decode_utf8(encode_utf8(s).subrange(0, n))
}

/// The text from byte `n` of `s` to its end.
pub open spec fn byte_suffix(s: Seq<char>, n: int) -> Seq<char> {
    decode_utf8(encode_utf8(s).subrange(n, byte_len(s) as int))
}

/// The first `n` bytes of `s`, or all of it when it is no longer.
pub open spec fn leading_bytes(s: Seq<char>, n: nat) -> Seq<char> {
    if byte_len(s) <= n {
        s
    } else {
        byte_prefix(s, n as int)
    }
}

/// The length of `s` in bytes.
pub fn byte_len_of(s: &str) -> (r: usize)
    ensures
        r == byte_len(s@),
{
    s.as_bytes().len()
}

/// Whether byte `i` of `s` starts a character (or is its end).
pub fn boundary_at(s: &str, i: usize) -> (r: bool)
    ensures
        r == is_boundary(s@, i as int),
{
    s.is_char_boundary(i)
}

/// The first `n` bytes of `s`, cut at a character boundary.
pub fn byte_prefix_text(s: &str, n: usize) -> (r: String)
    requires
        is_boundary(s@, n as int),
    ensures
        r@ == byte_prefix(s@, n as int),
{
    broadcast use vstd::utf8::encode_utf8_decode_utf8;
    let (head, _) = s.split_at(n);
    let r = String::from_str(head);
    assert(encode_utf8(r@) =~= encode_utf8(s@).subrange(0, n as int));
    r
}

/// The bytes of `s` from `n` on, cut at a character boundary.
pub fn byte_suffix_text(s: &str, n: usize) -> (r: String)
    requires
        is_boundary(s@, n as int),
    ensures
        r@ == byte_suffix(s@, n as int),
{
    broadcast use vstd::utf8::encode_utf8_decode_utf8;
    let (_, tail) = s.split_at(n);
    let r = String::from_str(tail);
    assert(encode_utf8(r@) =~= encode_utf8(s@).subrange(n as int, byte_len(s@) as int));
    r
}

/// The first `n` bytes of `s`, or all of it when it is no longer.
pub fn leading_bytes_text(s: &str, n: usize) -> (r: String)
    requires
        byte_len(s@) <= n || is_boundary(s@, n as int),
    ensures
        r@ == leading_bytes(s@, n as nat),
{
    if byte_len_of(s) <= n {
        String::from_str(s)
    } else {
        byte_prefix_text(s, n)
    }
}

} // verus!
