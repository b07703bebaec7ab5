//! Small verified string helpers: comparison, concatenation and decimal
//! rendering of integers.
use vstd::prelude::*;
use vstd::string::*;
use vstd::utf8::{decode_utf8, valid_utf8};

verus! {

/// Compares two string slices character by character.
pub fn str_eq(a: &str, b: &str) -> (r: bool)
    ensures
        r == (a@ == b@),
{
    let n = a.unicode_len();
    if n != b.unicode_len() {
        return false;
    }
    let mut i: usize = 0;
    while i < n
        invariant
            n == a@.len(),
            n == b@.len(),
            i <= n,
            forall|j: int| 0 <= j < i ==> a@[j] == b@[j],
        decreases n - i,
    {
        if a.get_char(i) != b.get_char(i) {
            return false;
        }
        i = i + 1;
    }
    assert(a@ =~= b@);
    true
}

/// Whether a string slice is empty.
pub fn str_is_empty(a: &str) -> (r: bool)
    ensures
        r == (a@.len() == 0),
{
    a.unicode_len() == 0
}

/// The decimal digit character for `d < 10`.
pub open spec fn digit_char(d: nat) -> char {
    if d == 0 { '0' }
    else if d == 1 { '1' }
    else if d == 2 { '2' }
    else if d == 3 { '3' }
    else if d == 4 { '4' }
    else if d == 5 { '5' }
    else if d == 6 { '6' }
    else if d == 7 { '7' }
    else if d == 8 { '8' }
    else { '9' }
}

/// The shortest decimal rendering of `n`.
pub open spec fn decimal(n: nat) -> Seq<char>
    decreases n,
{
    if n < 10 {
        seq![digit_char(n)]
    } else {
        decimal(n / 10).push(digit_char(n % 10))
    }
}

fn digit_str(d: u32) -> (s: &'static str)
    requires
        d < 10,
    ensures
        s@ == seq![digit_char(d as nat)],
{
    proof {
        reveal_strlit("0");
        reveal_strlit("1");
        reveal_strlit("2");
        reveal_strlit("3");
        reveal_strlit("4");
        reveal_strlit("5");
        reveal_strlit("6");
        reveal_strlit("7");
        reveal_strlit("8");
        reveal_strlit("9");
    }
    if d == 0 { "0" }
    else if d == 1 { "1" }
    else if d == 2 { "2" }
    else if d == 3 { "3" }
    else if d == 4 { "4" }
    else if d == 5 { "5" }
    else if d == 6 { "6" }
    else if d == 7 { "7" }
    else if d == 8 { "8" }
    else { "9" }
}

/// Appends the decimal rendering of `n` to `out`.
pub fn append_decimal(out: &mut String, n: u32)
    ensures
        final(out)@ == old(out)@ + decimal(n as nat),
    decreases n,
{
    if n >= 10 {
        append_decimal(out, n / 10);
    }
    out.append(digit_str(n % 10));
    proof {
        if n >= 10 {
            assert(decimal(n as nat) == decimal((n / 10) as nat).push(digit_char((n % 10) as nat)));
        }
        assert(old(out)@ + decimal(n as nat) =~= final(out)@) by {
            if n >= 10 {
                assert(decimal(n as nat) == decimal((n / 10) as nat).push(digit_char((n % 10) as nat)));
            }
        }
    }
}

/// Appends the decimal rendering of a 64-bit `n` to `out`.
pub fn append_decimal_u64(out: &mut String, n: u64)
    ensures
        final(out)@ == old(out)@ + decimal(n as nat),
    decreases n,
{
    if n >= 10 {
        append_decimal_u64(out, n / 10);
    }
    out.append(digit_str((n % 10) as u32));
    proof {
        assert(old(out)@ + decimal(n as nat) =~= final(out)@) by {
            if n >= 10 {
                assert(decimal(n as nat) == decimal((n / 10) as nat).push(digit_char((n % 10) as nat)));
            }
        }
    }
}

/// The decimal rendering of a signed integer: a minus sign before the
/// magnitude of a negative value.
pub open spec fn signed_decimal(v: int) -> Seq<char> {
    if v < 0 {
        seq!['-'] + decimal((-v) as nat)
    } else {
        decimal(v as nat)
    }
}

/// Appends the decimal rendering of a signed 32-bit `v` to `out`.
pub fn append_decimal_i32(out: &mut String, v: i32)
    ensures
        final(out)@ == old(out)@ + signed_decimal(v as int),
{
    if v < 0 {
        proof {
            reveal_strlit("-");
        }
        out.append("-");
        let magnitude: u32 = if v == i32::MIN { 0x8000_0000 } else { (-v) as u32 };
        append_decimal(out, magnitude);
        assert(out@ =~= old(out)@ + signed_decimal(v as int));
    } else {
        append_decimal(out, v as u32);
    }
}

/// The lowercase hexadecimal digit character for `d < 16`.
pub open spec fn hex_digit_char(d: nat) -> char {
    if d == 0 { '0' }
    else if d == 1 { '1' }
    else if d == 2 { '2' }
    else if d == 3 { '3' }
    else if d == 4 { '4' }
    else if d == 5 { '5' }
    else if d == 6 { '6' }
    else if d == 7 { '7' }
    else if d == 8 { '8' }
    else if d == 9 { '9' }
    else if d == 10 { 'a' }
    else if d == 11 { 'b' }
    else if d == 12 { 'c' }
    else if d == 13 { 'd' }
    else if d == 14 { 'e' }
    else { 'f' }
}

/// `v` as `0x` followed by exactly four lowercase hexadecimal digits.
pub open spec fn hex4(v: u16) -> Seq<char> {
    seq!['0', 'x', hex_digit_char((v / 4096) as nat), hex_digit_char((v / 256 % 16) as nat),
        hex_digit_char((v / 16 % 16) as nat), hex_digit_char((v % 16) as nat)]
}

fn hex_digit_str(d: u16) -> (s: &'static str)
    requires
        d < 16,
    ensures
        s@ == seq![hex_digit_char(d as nat)],
{
    proof {
        reveal_strlit("0");
        reveal_strlit("1");
        reveal_strlit("2");
        reveal_strlit("3");
        reveal_strlit("4");
        reveal_strlit("5");
        reveal_strlit("6");
        reveal_strlit("7");
        reveal_strlit("8");
        reveal_strlit("9");
        reveal_strlit("a");
        reveal_strlit("b");
        reveal_strlit("c");
        reveal_strlit("d");
        reveal_strlit("e");
        reveal_strlit("f");
    }
    if d == 0 { "0" }
    else if d == 1 { "1" }
    else if d == 2 { "2" }
    else if d == 3 { "3" }
    else if d == 4 { "4" }
    else if d == 5 { "5" }
    else if d == 6 { "6" }
    else if d == 7 { "7" }
    else if d == 8 { "8" }
    else if d == 9 { "9" }
    else if d == 10 { "a" }
    else if d == 11 { "b" }
    else if d == 12 { "c" }
    else if d == 13 { "d" }
    else if d == 14 { "e" }
    else { "f" }
}

/// Appends `v` rendered as `0x` and four lowercase hexadecimal digits.
pub fn append_hex4(out: &mut String, v: u16)
    ensures
        final(out)@ == old(out)@ + hex4(v),
{
    proof {
        reveal_strlit("0x");
    }
    out.append("0x");
    out.append(hex_digit_str(v / 4096));
    out.append(hex_digit_str(v / 256 % 16));
    out.append(hex_digit_str(v / 16 % 16));
    out.append(hex_digit_str(v % 16));
    assert(final(out)@ =~= old(out)@ + hex4(v));
}

/// `v` as `0x` followed by exactly eight lowercase hexadecimal digits.
pub open spec fn hex8(v: u32) -> Seq<char> {
    seq!['0', 'x',
        hex_digit_char((v / 0x1000_0000) as nat), hex_digit_char((v / 0x100_0000 % 16) as nat),
        hex_digit_char((v / 0x10_0000 % 16) as nat), hex_digit_char((v / 0x1_0000 % 16) as nat),
        hex_digit_char((v / 0x1000 % 16) as nat), hex_digit_char((v / 0x100 % 16) as nat),
        hex_digit_char((v / 0x10 % 16) as nat), hex_digit_char((v % 16) as nat)]
}

/// Appends `v` rendered as `0x` and eight lowercase hexadecimal digits.
pub fn append_hex8(out: &mut String, v: u32)
    ensures
        final(out)@ == old(out)@ + hex8(v),
{
    proof {
        reveal_strlit("0x");
    }
    out.append("0x");
    out.append(hex_digit_str((v / 0x1000_0000) as u16));
    out.append(hex_digit_str((v / 0x100_0000 % 16) as u16));
    out.append(hex_digit_str((v / 0x10_0000 % 16) as u16));
    out.append(hex_digit_str((v / 0x1_0000 % 16) as u16));
    out.append(hex_digit_str((v / 0x1000 % 16) as u16));
    out.append(hex_digit_str((v / 0x100 % 16) as u16));
    out.append(hex_digit_str((v / 0x10 % 16) as u16));
    out.append(hex_digit_str((v % 16) as u16));
    assert(final(out)@ =~= old(out)@ + hex8(v));
}

/// Creates a `String` holding `s` followed by `t`.
pub fn concat_str(s: &str, t: &str) -> (r: String)
    ensures
        r@ == s@ + t@,
{
    let mut out = String::from_str(s);
    out.append(t);
    out
}

/// Creates a `String` holding `a`, then `b`, then `c`.
pub fn concat3(a: &str, b: &str, c: &str) -> (r: String)
    ensures
        r@ == a@ + b@ + c@,
{
    let mut out = String::from_str(a);
    out.append(b);
    out.append(c);
    out
}

/// A name for the text that std's `Display` renders for the `Utf8Error`
/// that `std::str::from_utf8` returns on `bytes`: a function of the bytes
/// alone (where the invalid sequence starts and how long it is).
pub uninterp spec fn utf8_error_text(bytes: Seq<u8>) -> Seq<char>;

/// `std::str::from_utf8`: decodes `bytes` as UTF-8 when they are valid UTF-8
/// (the std documentation's rule, which vstd's `valid_utf8` states), else
/// renders its `Utf8Error` with `Display`.
#[verifier::external_body]
pub(crate) fn utf8_to_string(bytes: &[u8]) -> (r: Result<String, String>)
    ensures
        r is Ok <==> valid_utf8(bytes@),
        r matches Ok(s) ==> s@ == decode_utf8(bytes@),
        r matches Err(t) ==> t@ == utf8_error_text(bytes@),
{
    match std::str::from_utf8(bytes) {
        Ok(s) => Ok(s.to_owned()),
        Err(e) => Err(e.to_string()),
    }
}

} // verus!
