//! Digits and white space, as bytes and as text.

use vstd::prelude::*;

verus! {

/// An ASCII decimal digit, `0` to `9`.
pub open spec fn is_digit(b: u8) -> bool {
    0x30 <= b <= 0x39
}

/// ASCII white space: the blank, and the controls from tab to carriage return.
pub open spec fn is_space(b: u8) -> bool {
    b == 0x20 || (0x09 <= b <= 0x0d)
}

/// Every byte of `s` is a decimal digit.
pub open spec fn all_digits(s: Seq<u8>) -> bool {
    forall|i: int| 0 <= i < s.len() ==> is_digit(#[trigger] s[i])
}

/// The characters that a sequence of ASCII bytes spells.
pub open spec fn ascii_chars(s: Seq<u8>) -> Seq<char> {
    Seq::new(s.len(), |i: int| s[i] as char)
}

/// Tells whether a byte is a decimal digit.
pub fn byte_is_digit(b: u8) -> (r: bool)
    ensures
        r == is_digit(b),
{
    0x30 <= b && b <= 0x39
}

/// Tells whether a byte is white space.
pub fn byte_is_space(b: u8) -> (r: bool)
    ensures
        r == is_space(b),
{
    b == 0x20 || (0x09 <= b && b <= 0x0d)
}

/// The one-character text of a decimal digit.
fn digit_text(b: u8) -> (t: &'static str)
    requires
        is_digit(b),
    ensures
        t@ == seq![b as char],
{
    proof {
        reveal_strlit("0");
        reveal_strlit("1");
        reveal_strlit("2");
        reveal_strlit("3");
        reveal_strlit("4");
        reveal_strlit("5");
        reveal_strlit("6");
        reveal_strlit("7");
        reveal_strlit("8");
        reveal_strlit("9");
    }
    let t = if b == 0x30 {
        "0"
    } else if b == 0x31 {
        "1"
    } else if b == 0x32 {
        "2"
    } else if b == 0x33 {
        "3"
    } else if b == 0x34 {
        "4"
    } else if b == 0x35 {
        "5"
    } else if b == 0x36 {
        "6"
    } else if b == 0x37 {
        "7"
    } else if b == 0x38 {
        "8"
    } else {
        "9"
    };
    assert(t@ =~= seq![b as char]);
    t
}

/// Appends the text of a run of decimal digits to `out`.
pub(crate) fn push_digits(out: &mut String, digits: &[u8])
    requires
        all_digits(digits@),
    ensures
        final(out)@ == old(out)@ + ascii_chars(digits@),
{
    let mut i: usize = 0;
    while i < digits.len()
        invariant
            0 <= i <= digits.len(),
            all_digits(digits@),
            out@ == old(out)@ + ascii_chars(digits@.subrange(0, i as int)),
        decreases digits.len() - i,
    {
        let t = digit_text(digits[i]);
        out.append(t);
        assert(ascii_chars(digits@.subrange(0, i + 1)) =~= ascii_chars(digits@.subrange(0, i as int))
            + seq![digits@[i as int] as char]);
        i += 1;
    }
    assert(digits@.subrange(0, i as int) =~= digits@);
}

/// The decimal numeral of `n`, most significant digit first, without leading
/// zeros (`0` itself is written `0`).
pub open spec fn decimal(n: nat) -> Seq<u8>
    decreases n,
{
    if n < 10 {
        seq![(0x30 + n) as u8]
    } else {
        decimal(n / 10).push((0x30 + n % 10) as u8)
    }
}

/// A decimal numeral is never empty and holds nothing but digits.
pub proof fn lemma_decimal_is_numeric(n: nat)
    ensures
        decimal(n).len() > 0,
        all_digits(decimal(n)),
    decreases n,
{
    if n >= 10 {
        lemma_decimal_is_numeric(n / 10);
    }
}

/// Writes `n` as a decimal numeral.
pub fn decimal_digits(n: u16) -> (digits: Vec<u8>)
    ensures
        digits@ == decimal(n as nat),
        digits@.len() > 0,
        all_digits(digits@),
    decreases n,
{
    proof {
        lemma_decimal_is_numeric(n as nat);
    }
    if n < 10 {
        let d: u8 = 0x30 + n as u8;
        let mut digits: Vec<u8> = Vec::new();
        digits.push(d);
        assert(digits@ =~= decimal(n as nat));
        digits
    } else {
        let mut digits = decimal_digits(n / 10);
        let d: u8 = 0x30 + (n % 10) as u8;
        digits.push(d);
        digits
    }
}

} // verus!
