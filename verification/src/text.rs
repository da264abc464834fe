use vstd::prelude::*;
use vstd::string::*;

verus! {

/// The character that writes the digit `d` in base 16, lower case.
pub open spec fn digit_char(d: nat) -> char {
    if d == 0 {
        '0'
    } else if d == 1 {
        '1'
    } else if d == 2 {
        '2'
    } else if d == 3 {
        '3'
    } else if d == 4 {
        '4'
    } else if d == 5 {
        '5'
    } else if d == 6 {
        '6'
    } else if d == 7 {
        '7'
    } else if d == 8 {
        '8'
    } else if d == 9 {
        '9'
    } else if d == 10 {
        'a'
    } else if d == 11 {
        'b'
    } else if d == 12 {
        'c'
    } else if d == 13 {
        'd'
    } else if d == 14 {
        'e'
    } else {
        'f'
    }
}

/// `n` written in base 10, without leading zeros.
pub open spec fn decimal(n: nat) -> Seq<char>
    decreases n,
{
    if n < 10 {
        seq![digit_char(n)]
    } else {
        decimal(n / 10).push(digit_char(n % 10))
    }
}

/// `n` written in base 16, lower case, without leading zeros.
pub open spec fn hex(n: nat) -> Seq<char>
    decreases n,
{
    if n < 16 {
        seq![digit_char(n)]
    } else {
        hex(n / 16).push(digit_char(n % 16))
    }
}

/// A byte written as exactly two digits of base 16, lower case.
pub open spec fn hex2(b: u8) -> Seq<char> {
    seq![digit_char((b / 16) as nat), digit_char((b % 16) as nat)]
}

/// The one-character text of a digit below 16.
pub fn digit_str(d: u8) -> (r: &'static str)
    requires
        d < 16,
    ensures
        r@ == seq![digit_char(d as nat)],
{
    proof {
        reveal_strlit("0");
        reveal_strlit("1");
        reveal_strlit("2");
        reveal_strlit("3");
        reveal_strlit("4");
        reveal_strlit("5");
        reveal_strlit("6");
        reveal_strlit("7");
        reveal_strlit("8");
        reveal_strlit("9");
        reveal_strlit("a");
        reveal_strlit("b");
        reveal_strlit("c");
        reveal_strlit("d");
        reveal_strlit("e");
        reveal_strlit("f");
    }
    let r = match d {
        0 => "0",
        1 => "1",
        2 => "2",
        3 => "3",
        4 => "4",
        5 => "5",
        6 => "6",
        7 => "7",
        8 => "8",
        9 => "9",
        10 => "a",
        11 => "b",
        12 => "c",
        13 => "d",
        14 => "e",
        _ => "f",
    };
    assert(r@ =~= seq![digit_char(d as nat)]);
    r
}

/// Appends `n` in base 10 to `s`.
pub fn append_decimal(s: &mut String, n: u64)
    ensures
        final(s)@ == old(s)@ + decimal(n as nat),
    decreases n,
{
    if n >= 10 {
        append_decimal(s, n / 10);
    }
    s.append(digit_str((n % 10) as u8));
    assert(s@ =~= old(s)@ + decimal(n as nat));
}

/// Appends `n` in base 16 to `s`.
pub fn append_hex(s: &mut String, n: u64)
    ensures
        final(s)@ == old(s)@ + hex(n as nat),
    decreases n,
{
    if n >= 16 {
        append_hex(s, n / 16);
    }
    s.append(digit_str((n % 16) as u8));
    assert(s@ =~= old(s)@ + hex(n as nat));
}

/// Appends a byte as two digits of base 16 to `s`.
pub fn append_hex2(s: &mut String, b: u8)
    ensures
        final(s)@ == old(s)@ + hex2(b),
{
    s.append(digit_str(b / 16));
    s.append(digit_str(b % 16));
    assert(s@ =~= old(s)@ + hex2(b));
}

/// `n` in base 10, as a string of its own.
pub fn decimal_string(n: u64) -> (r: String)
    ensures
        r@ == decimal(n as nat),
{
    let mut s = String::new();
    append_decimal(&mut s, n);
    assert(s@ =~= decimal(n as nat));
    s
}

/// A 16-bit number in base 10.
pub open spec fn decimal_u16(n: u16) -> Seq<char> {
    decimal(n as nat)
}

/// A byte in base 10.
pub open spec fn decimal_u8(n: u8) -> Seq<char> {
    decimal(n as nat)
}

/// The length of something in memory in base 10.
pub open spec fn decimal_usize(n: usize) -> Seq<char> {
    decimal(n as nat)
}

/// Appends a 16-bit number in base 10 to `s`.
pub fn append_decimal_u16(s: &mut String, n: u16)
    ensures
        final(s)@ == old(s)@ + decimal_u16(n),
{
    append_decimal(s, n as u64);
}

/// Appends a byte in base 10 to `s`.
pub fn append_decimal_u8(s: &mut String, n: u8)
    ensures
        final(s)@ == old(s)@ + decimal_u8(n),
{
    append_decimal(s, n as u64);
}

/// Appends a length in base 10 to `s`.
pub fn append_decimal_usize(s: &mut String, n: usize)
    ensures
        final(s)@ == old(s)@ + decimal_usize(n),
{
    append_decimal(s, n as u64);
}

/// Whether `needle` stands somewhere in `hay`, character by character; the
/// empty text stands in every text.
pub open spec fn is_substring(needle: Seq<char>, hay: Seq<char>) -> bool {
    exists|i: int, j: int| 0 <= i <= j <= hay.len() && #[trigger] hay.subrange(i, j) == needle
}

/// Looks for one text in another with `str::contains` of std. Trusted: it
/// says yes exactly where `needle` stands somewhere in `hay`.
#[verifier::external_body]
pub(crate) fn str_contains(hay: &str, needle: &str) -> (r: bool)
    ensures
        r == is_substring(needle@, hay@),
{
    hay.contains(needle)
}

/// The empty text stands in every text.
pub proof fn lemma_empty_is_substring(hay: Seq<char>)
    ensures
        is_substring(Seq::<char>::empty(), hay),
{
    assert(hay.subrange(0, 0) =~= Seq::<char>::empty());
}

/// A 16-bit number in base 10, as a string of its own.
pub fn decimal_string_u16(n: u16) -> (r: String)
    ensures
        r@ == decimal_u16(n),
{
    decimal_string(n as u64)
}

/// A length in base 10, as a string of its own.
pub fn decimal_string_usize(n: usize) -> (r: String)
    ensures
        r@ == decimal_usize(n),
{
    decimal_string(n as u64)
}

} // verus!
