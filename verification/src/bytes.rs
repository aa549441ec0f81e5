//! Classes of bytes: what counts as whitespace, as a letter, as a digit.

use vstd::prelude::*;

verus! {

/// The byte reserved to stand for the end of input. The end of the buffer is
/// found by comparing the cursor with its length, never by this byte.
pub const EOF: u8 = 0x05;

/// Form feed.
pub const FF: u8 = 0x0C;

/// Whitespace is tab, line feed, form feed and space, and nothing else.
pub open spec fn is_space(b: u8) -> bool {
    b == 0x09 || b == 0x0A || b == FF || b == 0x20
}

/// ASCII letters.
pub open spec fn is_letter(b: u8) -> bool {
    (0x41 <= b <= 0x5A) || (0x61 <= b <= 0x7A)
}

/// Decimal digits.
pub open spec fn is_digit(b: u8) -> bool {
    0x30 <= b <= 0x39
}

/// Hexadecimal digits, in either case.
pub open spec fn is_hex_digit(b: u8) -> bool {
    is_digit(b) || (0x41 <= b <= 0x46) || (0x61 <= b <= 0x66)
}

/// ASCII letters and decimal digits.
pub open spec fn is_alphanumeric(b: u8) -> bool {
    is_letter(b) || is_digit(b)
}

/// The value of a hexadecimal digit.
pub open spec fn hex_value(b: u8) -> int {
    if is_digit(b) {
        b - 0x30
    } else if 0x41 <= b <= 0x46 {
        b - 0x41 + 10
    } else {
        b - 0x61 + 10
    }
}

pub fn byte_is_space(b: u8) -> (r: bool)
    ensures
        r == is_space(b),
{
    b == 0x09 || b == 0x0A || b == FF || b == 0x20
}

pub fn byte_is_letter(b: u8) -> (r: bool)
    ensures
        r == is_letter(b),
{
    (0x41 <= b && b <= 0x5A) || (0x61 <= b && b <= 0x7A)
}

pub fn byte_is_digit(b: u8) -> (r: bool)
    ensures
        r == is_digit(b),
{
    0x30 <= b && b <= 0x39
}

pub fn byte_is_hex_digit(b: u8) -> (r: bool)
    ensures
        r == is_hex_digit(b),
{
    byte_is_digit(b) || (0x41 <= b && b <= 0x46) || (0x61 <= b && b <= 0x66)
}

pub fn byte_is_alphanumeric(b: u8) -> (r: bool)
    ensures
        r == is_alphanumeric(b),
{
    byte_is_letter(b) || byte_is_digit(b)
}

pub fn hex_digit_value(b: u8) -> (r: u32)
    requires
        is_hex_digit(b),
    ensures
        r == hex_value(b),
{
    if byte_is_digit(b) {
        (b - 0x30) as u32
    } else if 0x41 <= b && b <= 0x46 {
        (b - 0x41) as u32 + 10
    } else {
        (b - 0x61) as u32 + 10
    }
}

/// Whether two byte strings are the same.
pub fn bytes_equal(a: &[u8], b: &[u8]) -> (r: bool)
    ensures
        r == (a@ == b@),
{
    if a.len() != b.len() {
        return false;
    }
    let mut i: usize = 0;
    while i < a.len()
        invariant
            i <= a.len(),
            a.len() == b.len(),
            forall|k: int| 0 <= k < i ==> a@[k] == b@[k],
        decreases a.len() - i,
    {
        if a[i] != b[i] {
            return false;
        }
        i += 1;
    }
    assert(a@ =~= b@);
    true
}

} // verus!
