//! Token and attribute records: compact descriptions of lexical units by
//! offsets into the input buffer. A record owns no text.

use vstd::prelude::*;
use vstd::slice::slice_subrange;

use crate::bytes::{byte_is_space, is_space};
pub use crate::tag_id::TagID;

verus! {

/// One name/value pair inside a start tag. All four numbers count bytes; the
/// two offsets are relative to the start of the owning token.
#[derive(Clone, Copy, Debug, PartialEq, Eq, Structural)]
pub struct Attribute {
    pub name_begin: u32,
    pub name_size: u32,
    pub value_begin: u32,
    pub value_size: u32,
}

impl Attribute {
    pub fn new(name_begin: u32, name_size: u32, value_begin: u32, value_size: u32) -> (r: Self)
        ensures
            r == (Attribute { name_begin, name_size, value_begin, value_size }),
    {
        Attribute { name_begin, name_size, value_begin, value_size }
    }

    /// Whether the attribute was written with a value. An attribute without
    /// one keeps a value offset below its name offset; one with an empty value
    /// has a value offset behind its name and a value size of zero.
    pub open spec fn has_value(self) -> bool {
        self.value_begin >= self.name_begin
    }

    /// Whether the attribute lies within a token that spans `span` bytes: the
    /// name is not empty and does not start the token, and name and value, in
    /// this order, end inside the span.
    pub open spec fn fits(self, span: int) -> bool {
        &&& 0 < self.name_begin
        &&& 0 < self.name_size
        &&& self.name_begin + self.name_size <= span
        &&& if self.has_value() {
            &&& self.name_begin + self.name_size <= self.value_begin
            &&& self.value_begin + self.value_size <= span
        } else {
            self.value_size == 0
        }
    }

    /// Whether the attribute was written with a value.
    pub fn is_valued(&self) -> (r: bool)
        ensures
            r == self.has_value(),
    {
        self.value_begin >= self.name_begin
    }

    /// The bytes of the name, in a token that starts at `token_start` of
    /// `raw`; nothing where they would lie outside `raw`.
    pub fn name<'a>(&self, token_start: u32, raw: &'a [u8]) -> (r: Option<&'a [u8]>)
        ensures
            r is Some <==> token_start + self.name_begin + self.name_size <= raw@.len(),
            r matches Some(name) ==> name@ == raw@.subrange(
                token_start + self.name_begin,
                token_start + self.name_begin + self.name_size,
            ),
    {
        let len = raw.len() as u64;
        let begin = token_start as u64 + self.name_begin as u64;
        let end = begin + self.name_size as u64;
        if end <= len {
            Some(slice_subrange(raw, begin as usize, end as usize))
        } else {
            None
        }
    }

    /// The bytes of the value, in a token that starts at `token_start` of
    /// `raw`; nothing where the attribute has no value, or where they would
    /// lie outside `raw`. Character references in the value are not resolved.
    pub fn value<'a>(&self, token_start: u32, raw: &'a [u8]) -> (r: Option<&'a [u8]>)
        ensures
            r is Some <==> self.has_value() && token_start + self.value_begin + self.value_size
                <= raw@.len(),
            r matches Some(value) ==> value@ == raw@.subrange(
                token_start + self.value_begin,
                token_start + self.value_begin + self.value_size,
            ),
    {
        let len = raw.len() as u64;
        let begin = token_start as u64 + self.value_begin as u64;
        let end = begin + self.value_size as u64;
        if self.is_valued() && end <= len {
            Some(slice_subrange(raw, begin as usize, end as usize))
        } else {
            None
        }
    }
}

/// Orthogonal facts about a token. Each is one bit of a token's flag set;
/// `Open` is the empty set.
#[derive(Clone, Copy, Debug, PartialEq, Eq, Structural)]
pub enum Flags {
    Open,
    Close,
    CloseSelf,
    ForceQuirks,
    Done,
}

impl Flags {
    /// The bit that stands for this flag.
    pub open spec fn spec_bits(self) -> u8 {
        match self {
            Flags::Open => 0x00,
            Flags::Close => 0x01,
            Flags::CloseSelf => 0x02,
            Flags::ForceQuirks => 0x04,
            Flags::Done => 0x08,
        }
    }

    /// The bit that stands for this flag.
    pub fn bits(self) -> (r: u8)
        ensures
            r == self.spec_bits(),
    {
        match self {
            Flags::Open => 0x00,
            Flags::Close => 0x01,
            Flags::CloseSelf => 0x02,
            Flags::ForceQuirks => 0x04,
            Flags::Done => 0x08,
        }
    }
}

/// What a token holds, with its attribute list as a sequence.
pub struct TokenView {
    pub attributes: Option<Seq<Attribute>>,
    pub start: u32,
    pub end: u32,
    pub text_off: u16,
    pub text_size: u32,
    pub flags: u8,
    pub token_id: TagID,
}

impl TokenView {
    /// A token that carries text: it is not empty and has no attributes,
    /// and its payload is not empty.
    pub open spec fn is_text_run(self) -> bool {
        &&& self.token_id == TagID::Text
        &&& self.attributes is None
        &&& self.start < self.end
        &&& self.text_off == 0
        &&& 0 < self.text_size
    }

    /// A tag token: it carries no text, and a list of attributes, where it
    /// has one, is not empty and lies within the token's span.
    pub open spec fn is_tag(self) -> bool {
        &&& self.token_id != TagID::Text
        &&& self.text_off == 0
        &&& self.text_size == 0
        &&& self.start < self.end
        &&& match self.attributes {
            Some(attributes) => {
                &&& attributes.len() > 0
                &&& forall|i: int|
                    0 <= i < attributes.len() ==> (#[trigger] attributes[i]).fits(
                        self.end - self.start,
                    )
            },
            None => true,
        }
    }

    /// Span soundness: the token lies within a buffer of `len` bytes and is
    /// either a text run or a tag.
    pub open spec fn sound(self, len: int) -> bool {
        &&& self.start <= self.end <= len
        &&& (self.is_text_run() || self.is_tag())
    }
}

/// How many bytes a tag's name takes in `s` between `from` and `to`: those
/// up to the first whitespace or `/`.
pub open spec fn tag_name_len(s: Seq<u8>, from: int, to: int) -> int
    decreases to - from,
{
    if 0 <= from < to <= s.len() && !is_space(s[from]) && s[from] != 0x2F {
        1 + tag_name_len(s, from + 1, to)
    } else {
        0
    }
}

/// One lexical unit: a start tag, an end tag or a run of text.
///
/// `start` and `end` bound its bytes in the input buffer, `end` excluded. A
/// tag token starts at the first byte of its name and ends at its `>`, so
/// that it spans its attributes; its `token_id` is what its name resolves to.
/// A text token has the identifier `Text`. Its text starts `text_off` bytes
/// into the token, and `text_size` is the length of its decoded payload, of
/// what `decoded_text` returns, as a 32-bit size. In a tag token both are zero.
#[derive(Debug)]
pub struct Token {
    pub attributes: Option<Box<[Attribute]>>,
    pub start: u32,
    pub end: u32,
    pub text_off: u16,
    pub text_size: u32,
    pub flags: u8,
    pub token_id: TagID,
}

impl View for Token {
    type V = TokenView;

    open spec fn view(&self) -> TokenView {
        TokenView {
            attributes: match self.attributes {
                Some(attributes) => Some(attributes@),
                None => None,
            },
            start: self.start,
            end: self.end,
            text_off: self.text_off,
            text_size: self.text_size,
            flags: self.flags,
            token_id: self.token_id,
        }
    }
}

impl Token {
    pub fn new(
        attributes: Box<[Attribute]>,
        start: u32,
        end: u32,
        text_off: u16,
        text_size: u32,
        token_id: TagID,
        flags: u8,
    ) -> (r: Self)
        ensures
            r@ == (TokenView {
                attributes: Some(attributes@),
                start,
                end,
                text_off,
                text_size,
                flags,
                token_id,
            }),
    {
        Token { attributes: Some(attributes), start, end, text_off, text_size, token_id, flags }
    }

    pub fn new_no_attributes(
        start: u32,
        end: u32,
        text_off: u16,
        text_size: u32,
        token_id: TagID,
        flags: u8,
    ) -> (r: Self)
        ensures
            r@ == (TokenView {
                attributes: None,
                start,
                end,
                text_off,
                text_size,
                flags,
                token_id,
            }),
    {
        Token { attributes: None, start, end, text_off, text_size, token_id, flags }
    }

    /// The bytes of the token in `raw`; nothing where the token does not lie
    /// within `raw`.
    pub fn source<'a>(&self, raw: &'a [u8]) -> (r: Option<&'a [u8]>)
        ensures
            r is Some <==> self.start <= self.end <= raw@.len(),
            r matches Some(bytes) ==> bytes@ == raw@.subrange(self.start as int, self.end as int),
    {
        if self.start <= self.end && self.end as u64 <= raw.len() as u64 {
            Some(slice_subrange(raw, self.start as usize, self.end as usize))
        } else {
            None
        }
    }

    /// The name of a tag token in `raw`: the bytes of the token up to the
    /// first whitespace or `/`. Nothing where the token does not lie within
    /// `raw`.
    pub fn tag_name<'a>(&self, raw: &'a [u8]) -> (r: Option<&'a [u8]>)
        ensures
            r is Some <==> self.start <= self.end <= raw@.len(),
            r matches Some(name) ==> name@ == raw@.subrange(
                self.start as int,
                self.start + tag_name_len(raw@, self.start as int, self.end as int),
            ),
    {
        if self.start <= self.end && self.end as u64 <= raw.len() as u64 {
            let start = self.start as usize;
            let end = self.end as usize;
            let mut n: usize = 0;
            while start + n < end && !byte_is_space(raw[start + n]) && raw[start + n] != 0x2F
                invariant
                    start + n <= end <= raw@.len(),
                    tag_name_len(raw@, start as int, end as int) == n + tag_name_len(
                        raw@,
                        start + n,
                        end as int,
                    ),
                decreases end - start - n,
            {
                n += 1;
            }
            Some(slice_subrange(raw, start, start + n))
        } else {
            None
        }
    }

    /// The attributes of the token, in the order in which they were written;
    /// none for a token without attributes.
    pub fn attribute_list(&self) -> (r: Vec<Attribute>)
        ensures
            r@ == match self@.attributes {
                Some(attributes) => attributes,
                None => Seq::empty(),
            },
    {
        let mut list: Vec<Attribute> = Vec::new();
        match &self.attributes {
            Some(attributes) => {
                let mut i: usize = 0;
                while i < attributes.len()
                    invariant
                        i <= attributes@.len(),
                        list@ == attributes@.take(i as int),
                    decreases attributes@.len() - i,
                {
                    list.push(attributes[i]);
                    i += 1;
                    assert(list@ =~= attributes@.take(i as int));
                }
                assert(attributes@.take(i as int) =~= attributes@);
            },
            None => {},
        }
        list
    }

    /// Whether the token is an end tag.
    pub fn is_closing(&self) -> (r: bool)
        ensures
            r == (self.flags & 0x01 != 0),
    {
        self.flags & 0x01 != 0
    }

    /// Whether the token is a self-closing tag.
    pub fn is_self_closing(&self) -> (r: bool)
        ensures
            r == (self.flags & 0x02 != 0),
    {
        self.flags & 0x02 != 0
    }

    /// Whether the token is a run of text.
    pub fn is_text(&self) -> (r: bool)
        ensures
            r == (self.token_id == TagID::Text),
    {
        self.token_id == TagID::Text
    }

    pub fn new_empty() -> (r: Self)
        ensures
            r@ == (TokenView {
                attributes: None,
                start: 0,
                end: 0,
                text_off: 0,
                text_size: 0,
                flags: 0,
                token_id: TagID::A,
            }),
    {
        Token {
            attributes: None,
            start: 0,
            end: 0,
            text_off: 0,
            text_size: 0,
            token_id: TagID::A,
            flags: 0,
        }
    }
}

/// Calls `Vec::into_boxed_slice`, which turns a vector into a boxed slice of
/// the same elements in the same order. Nothing is proved of it.
#[verifier::external_body]
pub(crate) fn into_boxed(attributes: Vec<Attribute>) -> (r: Box<[Attribute]>)
    ensures
        r@ == attributes@,
{
    attributes.into_boxed_slice()
}

/// The views of a sequence of tokens, in order.
pub open spec fn token_views(tokens: Seq<Token>) -> Seq<TokenView> {
    tokens.map_values(|t: Token| t@)
}

} // verus!
