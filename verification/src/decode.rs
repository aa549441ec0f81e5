//! Character references at decode time. Tokens bound raw bytes of the input;
//! the text that those bytes stand for is made here, on request: every
//! recognised reference is replaced by the UTF-8 bytes of its code point,
//! and everything else is kept byte for byte.

use vstd::prelude::*;

use crate::bytes::{
    byte_is_alphanumeric, byte_is_digit, byte_is_hex_digit, byte_is_letter, hex_digit_value,
    hex_value, is_alphanumeric, is_digit, is_hex_digit, is_letter,
};
use crate::tables::{lookup, table_view, Table};
use crate::tokens::{Attribute, Token};

verus! {

/// One more than the last code point: the value at which the code of a
/// numeric character reference stops growing.
pub const CODE_LIMIT: u32 = 0x11_0000;

/// The code of a numeric reference after one more digit, held at `CODE_LIMIT`
/// once it has gone beyond the last code point.
pub open spec fn accumulate(code: int, base: int, digit: int) -> int {
    if code * base + digit >= CODE_LIMIT {
        CODE_LIMIT as int
    } else {
        code * base + digit
    }
}

/// Whether `code` is a code point that a reference may stand for: a Unicode
/// scalar value other than zero.
pub open spec fn is_scalar(code: int) -> bool {
    0 < code < CODE_LIMIT && !(0xD800 <= code <= 0xDFFF)
}

/// The UTF-8 encoding of a scalar value.
pub open spec fn utf8(code: int) -> Seq<u8> {
    if code < 0x80 {
        seq![code as u8]
    } else if code < 0x800 {
        seq![(0xC0 + code / 0x40) as u8, (0x80 + code % 0x40) as u8]
    } else if code < 0x1_0000 {
        seq![
            (0xE0 + code / 0x1000) as u8,
            (0x80 + (code / 0x40) % 0x40) as u8,
            (0x80 + code % 0x40) as u8,
        ]
    } else {
        seq![
            (0xF0 + code / 0x4_0000) as u8,
            (0x80 + (code / 0x1000) % 0x40) as u8,
            (0x80 + (code / 0x40) % 0x40) as u8,
            (0x80 + code % 0x40) as u8,
        ]
    }
}

/// How many bytes the UTF-8 encoding of a scalar value takes.
pub open spec fn utf8_len(code: int) -> int {
    if code < 0x80 {
        1
    } else if code < 0x800 {
        2
    } else if code < 0x1_0000 {
        3
    } else {
        4
    }
}

/// A length as a 32-bit size: itself, or the largest 32-bit number where it
/// is beyond that.
pub open spec fn held(len: int) -> int {
    if len > u32::MAX {
        u32::MAX as int
    } else {
        len
    }
}

/// The code point that a reference of the given name stands for: what the
/// table holds under the name, if that is a scalar value.
pub open spec fn named_code(refs: Table, name: Seq<u8>) -> Option<int> {
    match refs.find(name) {
        Some(code) => if is_scalar(code as int) {
            Some(code as int)
        } else {
            None
        },
        None => None,
    }
}

/// Whether `b` can stand in the body of a reference of the given kind: a
/// name is made of letters and digits, a number of the digits of its base.
pub open spec fn in_body(b: u8, numeric: bool, hex: bool) -> bool {
    if !numeric {
        is_alphanumeric(b)
    } else if hex {
        is_hex_digit(b)
    } else {
        is_digit(b)
    }
}

/// The length of the longest run of body bytes that starts at `from`.
pub open spec fn body_len(s: Seq<u8>, from: int, numeric: bool, hex: bool) -> int
    decreases s.len() - from,
{
    if 0 <= from < s.len() && in_body(s[from], numeric, hex) {
        1 + body_len(s, from + 1, numeric, hex)
    } else {
        0
    }
}

/// The number that the `n` digits from `from` on spell in base ten or
/// sixteen, held at `CODE_LIMIT` once it has gone beyond the last code point.
pub open spec fn digits_value(s: Seq<u8>, from: int, n: int, hex: bool) -> int
    decreases n,
{
    if n <= 0 {
        0
    } else {
        let before = digits_value(s, from, n - 1, hex);
        let b = s[from + n - 1];
        if hex {
            accumulate(before, 16, hex_value(b))
        } else {
            accumulate(before, 10, b - 0x30)
        }
    }
}

/// A recognised character reference: how many bytes it takes, `&` included,
/// and the code point it stands for.
pub struct Reference {
    pub len: int,
    pub code: int,
}

/// The named reference whose `&` stands at `at`, if there is one: a name of
/// letters and digits that starts with a letter, ends with `;` and stands
/// for a code point.
pub open spec fn named_reference_at(s: Seq<u8>, refs: Table, at: int) -> Option<Reference> {
    let n = body_len(s, at + 1, false, false);
    let end = at + 1 + n;
    if end < s.len() && s[end] == 0x3B {
        match named_code(refs, s.subrange(at + 1, end)) {
            Some(code) => Some(Reference { len: n + 2, code }),
            None => None,
        }
    } else {
        None
    }
}

/// The numeric reference whose `&#` stands at `at`, if there is one: `x` or
/// `X` selects base sixteen, at least one digit follows, and the number is a
/// scalar value. A `;` behind the digits belongs to the reference.
pub open spec fn numeric_reference_at(s: Seq<u8>, at: int) -> Option<Reference> {
    let hex = at + 2 < s.len() && (s[at + 2] == 0x78 || s[at + 2] == 0x58);
    let from = if hex {
        at + 3
    } else {
        at + 2
    };
    let n = body_len(s, from, true, hex);
    let code = digits_value(s, from, n, hex);
    let end = from + n;
    if n > 0 && is_scalar(code) {
        if end < s.len() && s[end] == 0x3B {
            Some(Reference { len: end + 1 - at, code })
        } else {
            Some(Reference { len: end - at, code })
        }
    } else {
        None
    }
}

/// The character reference whose `&` stands at `at`, if one is recognised.
pub open spec fn reference_at(s: Seq<u8>, refs: Table, at: int) -> Option<Reference> {
    if at + 1 < s.len() && is_letter(s[at + 1]) {
        named_reference_at(s, refs, at)
    } else if at + 1 < s.len() && s[at + 1] == 0x23 {
        numeric_reference_at(s, at)
    } else {
        None
    }
}

/// What the bytes of `s` from `from` on stand for: each recognised reference
/// gives the UTF-8 bytes of its code point; every other byte, the `&` of an
/// unrecognised reference too, stands for itself.
pub open spec fn decoded_from(s: Seq<u8>, refs: Table, from: int) -> Seq<u8>
    decreases s.len() - from,
{
    if from < 0 || from >= s.len() {
        Seq::empty()
    } else if s[from] == 0x26 {
        match reference_at(s, refs, from) {
            Some(r) => if 0 < r.len <= s.len() - from {
                utf8(r.code) + decoded_from(s, refs, from + r.len)
            } else {
                seq![s[from]] + decoded_from(s, refs, from + 1)
            },
            None => seq![s[from]] + decoded_from(s, refs, from + 1),
        }
    } else {
        seq![s[from]] + decoded_from(s, refs, from + 1)
    }
}

/// What the bytes of `s` stand for.
pub open spec fn decoded(s: Seq<u8>, refs: Table) -> Seq<u8> {
    decoded_from(s, refs, 0)
}

/// A run of body bytes ends within the sequence.
pub proof fn body_len_bounds(s: Seq<u8>, from: int, numeric: bool, hex: bool)
    requires
        0 <= from <= s.len(),
    ensures
        0 <= body_len(s, from, numeric, hex) <= s.len() - from,
    decreases s.len() - from,
{
    if from < s.len() && in_body(s[from], numeric, hex) {
        body_len_bounds(s, from + 1, numeric, hex);
    }
}

/// A recognised reference stands for a scalar value, and ends within the
/// sequence.
pub proof fn reference_bounds(s: Seq<u8>, refs: Table, at: int)
    requires
        0 <= at < s.len(),
    ensures
        reference_at(s, refs, at) matches Some(r) ==> {
            &&& is_scalar(r.code)
            &&& 2 <= r.len <= s.len() - at
            &&& utf8(r.code).len() == utf8_len(r.code)
        },
{
    if at + 1 < s.len() {
        body_len_bounds(s, at + 1, false, false);
        if at + 2 <= s.len() {
            body_len_bounds(s, at + 2, true, false);
        }
        if at + 3 <= s.len() {
            body_len_bounds(s, at + 3, true, true);
        }
    }
}

/// Decoding never empties a text: what a byte or a reference stands for is
/// at least one byte long.
pub proof fn decoded_bounds(s: Seq<u8>, refs: Table, from: int)
    requires
        0 <= from <= s.len(),
    ensures
        from < s.len() ==> decoded_from(s, refs, from).len() > 0,
{
    if from < s.len() {
        reference_bounds(s, refs, from);
    }
}

/// Literal fallback: where no reference is recognised from `from` on, the
/// bytes stand for themselves.
pub proof fn unrecognised_is_literal(s: Seq<u8>, refs: Table, from: int)
    requires
        0 <= from <= s.len(),
        forall|at: int|
            from <= at < s.len() && s[at] == 0x26 ==> #[trigger] reference_at(s, refs, at) is None,
    ensures
        decoded_from(s, refs, from) == s.subrange(from, s.len() as int),
    decreases s.len() - from,
{
    if from < s.len() {
        unrecognised_is_literal(s, refs, from + 1);
        assert(s[from] == 0x26 ==> reference_at(s, refs, from) is None);
        assert(seq![s[from]] + s.subrange(from + 1, s.len() as int) =~= s.subrange(
            from,
            s.len() as int,
        ));
    } else {
        assert(s.subrange(from, s.len() as int) =~= Seq::<u8>::empty());
    }
}

/// A recognised reference stands for the UTF-8 bytes of its code point, and
/// decoding goes on behind it.
pub proof fn recognised_is_replaced(s: Seq<u8>, refs: Table, at: int)
    requires
        0 <= at < s.len(),
        s[at] == 0x26,
        reference_at(s, refs, at) is Some,
    ensures
        ({
            let r = reference_at(s, refs, at)->0;
            decoded_from(s, refs, at) == utf8(r.code) + decoded_from(s, refs, at + r.len)
        }),
{
    reference_bounds(s, refs, at);
}

/// Appends the UTF-8 encoding of a scalar value.
pub fn push_utf8(out: &mut Vec<u8>, code: u32)
    requires
        is_scalar(code as int),
    ensures
        final(out)@ == old(out)@ + utf8(code as int),
{
    if code < 0x80 {
        out.push(code as u8);
    } else if code < 0x800 {
        out.push((0xC0 + code / 0x40) as u8);
        out.push((0x80 + code % 0x40) as u8);
    } else if code < 0x1_0000 {
        out.push((0xE0 + code / 0x1000) as u8);
        out.push((0x80 + (code / 0x40) % 0x40) as u8);
        out.push((0x80 + code % 0x40) as u8);
    } else {
        out.push((0xF0 + code / 0x4_0000) as u8);
        out.push((0x80 + (code / 0x1000) % 0x40) as u8);
        out.push((0x80 + (code / 0x40) % 0x40) as u8);
        out.push((0x80 + code % 0x40) as u8);
    }
    assert(out@ =~= old(out)@ + utf8(code as int));
}

/// Whether `code` is a scalar value other than zero.
fn scalar(code: u32) -> (r: bool)
    ensures
        r == is_scalar(code as int),
{
    0 < code && code < CODE_LIMIT && !(0xD800 <= code && code <= 0xDFFF)
}

/// How many bytes the UTF-8 encoding of a scalar value takes.
fn scalar_len(code: u32) -> (r: u32)
    ensures
        r == utf8_len(code as int),
{
    if code < 0x80 {
        1
    } else if code < 0x800 {
        2
    } else if code < 0x1_0000 {
        3
    } else {
        4
    }
}

/// Resolves the name of a character reference through the reference table:
/// the code point that the name stands for, if it stands for one.
pub fn resolve_reference_name(refs: &phf::Map<&'static [u8], u32>, name: &[u8]) -> (r: Option<u32>)
    ensures
        match named_code(table_view(*refs), name@) {
            Some(code) => r == Some(code as u32),
            None => r is None,
        },
        r matches Some(code) ==> is_scalar(code as int),
{
    match lookup(refs, name) {
        Some(code) => if scalar(code) {
            Some(code)
        } else {
            None
        },
        None => None,
    }
}

/// Whether `b` can stand in the body of a reference of the given kind.
fn byte_in_body(b: u8, numeric: bool, hex: bool) -> (r: bool)
    ensures
        r == in_body(b, numeric, hex),
{
    if !numeric {
        byte_is_alphanumeric(b)
    } else if hex {
        byte_is_hex_digit(b)
    } else {
        byte_is_digit(b)
    }
}

/// Measures the run of body bytes that starts at `from`, and reads the
/// number that it spells where it is made of digits.
fn scan_body(bytes: &[u8], from: usize, numeric: bool, hex: bool) -> (r: (usize, u32))
    requires
        from <= bytes@.len(),
    ensures
        r.0 == body_len(bytes@, from as int, numeric, hex),
        from + r.0 <= bytes@.len(),
        numeric ==> r.1 == digits_value(bytes@, from as int, r.0 as int, hex),
{
    let len = bytes.len();
    let mut n: usize = 0;
    let mut code: u32 = 0;
    while from + n < len && byte_in_body(bytes[from + n], numeric, hex)
        invariant
            len == bytes@.len(),
            from + n <= bytes@.len(),
            body_len(bytes@, from as int, numeric, hex) == n + body_len(
                bytes@,
                from + n,
                numeric,
                hex,
            ),
            code <= CODE_LIMIT,
            numeric ==> code == digits_value(bytes@, from as int, n as int, hex),
        decreases bytes@.len() - from - n,
    {
        if numeric {
            let b = bytes[from + n];
            let next = if hex {
                code * 16 + hex_digit_value(b)
            } else {
                code * 10 + (b - 0x30) as u32
            };
            code = if next >= CODE_LIMIT {
                CODE_LIMIT
            } else {
                next
            };
        }
        n += 1;
    }
    (n, code)
}

/// Recognises the character reference whose `&` stands at `at`.
fn parse_reference(bytes: &[u8], refs: &phf::Map<&'static [u8], u32>, at: usize) -> (r: Option<
    (usize, u32),
>)
    requires
        at < bytes@.len(),
    ensures
        match reference_at(bytes@, table_view(*refs), at as int) {
            Some(reference) => r == Some((reference.len as usize, reference.code as u32)),
            None => r is None,
        },
        r matches Some(found) ==> 2 <= found.0 <= bytes@.len() - at && is_scalar(found.1 as int),
{
    proof {
        reference_bounds(bytes@, table_view(*refs), at as int);
    }
    let len = bytes.len();
    if at + 1 >= len {
        return None;
    }
    let first = bytes[at + 1];
    if byte_is_letter(first) {
        let (n, _) = scan_body(bytes, at + 1, false, false);
        let end = at + 1 + n;
        if end < len && bytes[end] == 0x3B {
            match resolve_reference_name(refs, vstd::slice::slice_subrange(bytes, at + 1, end)) {
                Some(code) => Some((n + 2, code)),
                None => None,
            }
        } else {
            None
        }
    } else if first == 0x23 {
        let hex = at + 2 < len && (bytes[at + 2] == 0x78 || bytes[at + 2] == 0x58);
        let from = if hex {
            at + 3
        } else {
            at + 2
        };
        let (n, code) = scan_body(bytes, from, true, hex);
        let end = from + n;
        if n > 0 && scalar(code) {
            if end < len && bytes[end] == 0x3B {
                Some((end + 1 - at, code))
            } else {
                Some((end - at, code))
            }
        } else {
            None
        }
    } else {
        None
    }
}

/// Decodes the character references in `bytes`: the result is the bytes
/// that `bytes` stand for, with every recognised reference resolved through
/// `refs` or by its number, and every other byte as it is.
pub fn decode(bytes: &[u8], refs: &phf::Map<&'static [u8], u32>) -> (out: Vec<u8>)
    ensures
        out@ == decoded(bytes@, table_view(*refs)),
{
    let mut out: Vec<u8> = Vec::new();
    let mut i: usize = 0;
    while i < bytes.len()
        invariant
            i <= bytes@.len(),
            out@ + decoded_from(bytes@, table_view(*refs), i as int) == decoded(
                bytes@,
                table_view(*refs),
            ),
        decreases bytes@.len() - i,
    {
        let ghost before = out@;
        let ghost rest = decoded_from(bytes@, table_view(*refs), i as int);
        let b = bytes[i];
        let mut step: usize = 1;
        if b == 0x26 {
            match parse_reference(bytes, refs, i) {
                Some((n, code)) => {
                    push_utf8(&mut out, code);
                    step = n;
                    proof {
                        reference_bounds(bytes@, table_view(*refs), i as int);
                    }
                    assert(rest == utf8(code as int) + decoded_from(
                        bytes@,
                        table_view(*refs),
                        i + n,
                    ));
                },
                None => {
                    out.push(b);
                    assert(rest == seq![b] + decoded_from(bytes@, table_view(*refs), i + 1));
                },
            }
        } else {
            out.push(b);
            assert(rest == seq![b] + decoded_from(bytes@, table_view(*refs), i + 1));
        }
        assert(out@ + decoded_from(bytes@, table_view(*refs), i + step) =~= before + rest);
        i += step;
    }
    assert(out@ + Seq::<u8>::empty() =~= out@);
    out
}

/// The length of what `bytes` stand for as a 32-bit size, found without
/// making it: the length itself, or the largest 32-bit number where the
/// length is beyond that.
pub fn decoded_size(bytes: &[u8], refs: &phf::Map<&'static [u8], u32>) -> (r: u32)
    ensures
        r == held(decoded(bytes@, table_view(*refs)).len() as int),
{
    let mut total: u32 = 0;
    let mut i: usize = 0;
    let ghost mut counted: int = 0;
    while i < bytes.len()
        invariant
            i <= bytes@.len(),
            0 <= counted,
            total == held(counted),
            counted + decoded_from(bytes@, table_view(*refs), i as int).len() == decoded(
                bytes@,
                table_view(*refs),
            ).len(),
        decreases bytes@.len() - i,
    {
        let mut step: usize = 1;
        let mut size: u32 = 1;
        proof {
            reference_bounds(bytes@, table_view(*refs), i as int);
        }
        if bytes[i] == 0x26 {
            match parse_reference(bytes, refs, i) {
                Some((n, code)) => {
                    step = n;
                    size = scalar_len(code);
                },
                None => {},
            }
        }
        total = if total as u64 + size as u64 > u32::MAX as u64 {
            u32::MAX
        } else {
            total + size
        };
        proof {
            counted = counted + size;
        }
        i += step;
    }
    total
}

/// The text payload of a token, decoded: what the bytes of the token from
/// `text_off` on stand for. For a text token that the tokenizer emitted in
/// Data or RCDATA, `text_size` is the length of the result as a 32-bit size. Nothing where the
/// token does not lie within `raw`, or its text does not start within it.
pub fn decoded_text(token: &Token, raw: &[u8], refs: &phf::Map<&'static [u8], u32>) -> (r: Option<
    Vec<u8>,
>)
    ensures
        r is Some <==> token.start + token.text_off <= token.end <= raw@.len(),
        r matches Some(text) ==> text@ == decoded(
            raw@.subrange(token.start + token.text_off, token.end as int),
            table_view(*refs),
        ),
{
    let begin = token.start as u64 + token.text_off as u64;
    let end = token.end as u64;
    if begin <= end && end <= raw.len() as u64 {
        Some(decode(vstd::slice::slice_subrange(raw, begin as usize, end as usize), refs))
    } else {
        None
    }
}

/// The value of an attribute, decoded, in a token that starts at
/// `token_start` of `raw`. Nothing where the attribute has no value, or
/// where the value would lie outside `raw`.
pub fn decoded_value(
    attribute: &Attribute,
    token_start: u32,
    raw: &[u8],
    refs: &phf::Map<&'static [u8], u32>,
) -> (r: Option<Vec<u8>>)
    ensures
        r is Some <==> attribute.has_value() && token_start + attribute.value_begin
            + attribute.value_size <= raw@.len(),
        r matches Some(value) ==> value@ == decoded(
            raw@.subrange(
                token_start + attribute.value_begin,
                token_start + attribute.value_begin + attribute.value_size,
            ),
            table_view(*refs),
        ),
{
    match attribute.value(token_start, raw) {
        Some(value) => Some(decode(value, refs)),
        None => None,
    }
}

} // verus!
