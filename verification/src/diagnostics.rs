//! Recoverable parse errors. The tokenizer survives each of them by a documented
//! fallback and records what it met, and where, beside the tokens.

use vstd::prelude::*;

use crate::state::State;

verus! {

/// The kinds of malformation that the tokenizer recovers from.
#[derive(Clone, Copy, Debug, PartialEq, Eq, Structural)]
pub enum ErrorKind {
    /// A null byte in content; it is passed through.
    UnexpectedNull,
    /// The byte reserved to stand for the end of input, met in content.
    UnexpectedEndOfFileByte,
    /// `<` or `</` followed by a byte that cannot start a tag name.
    InvalidFirstCharacterOfTagName,
    /// `<?`.
    UnexpectedQuestionMarkInsteadOfTagName,
    /// `</>`.
    MissingEndTagName,
    /// `=` where an attribute name should start; it starts the name.
    UnexpectedEqualsSignBeforeAttributeName,
    /// A quote or `<` inside an attribute name; it belongs to the name.
    UnexpectedCharacterInAttributeName,
    /// An attribute name that the same tag already has; the later attribute
    /// and its value are discarded.
    DuplicateAttribute,
    /// `=` followed directly by `>`.
    MissingAttributeValue,
    /// A quote, `<`, `=` or a backtick inside an unquoted attribute value; it
    /// belongs to the value.
    UnexpectedCharacterInUnquotedAttributeValue,
    /// A quoted attribute value followed directly by the next attribute.
    MissingWhitespaceBetweenAttributes,
    /// `/` inside a tag that `>` does not follow.
    UnexpectedSolidusInTag,
    /// A named character reference that the reference table does not hold.
    UnknownNamedCharacterReference,
    /// A character reference that no `;` ends.
    MissingSemicolonAfterCharacterReference,
    /// `&#` or `&#x` that no digit follows.
    AbsenceOfDigitsInNumericCharacterReference,
    /// A numeric character reference to code point zero.
    NullCharacterReference,
    /// A numeric character reference beyond the last code point.
    CharacterReferenceOutsideUnicodeRange,
    /// A numeric character reference to a surrogate.
    SurrogateCharacterReference,
    /// The input ended inside a tag; the tag is discarded.
    EofInTag,
}

/// One recorded parse error: its kind, and the offset of the byte at which the
/// tokenizer noticed it.
#[derive(Clone, Copy, Debug, PartialEq, Eq, Structural)]
pub struct ParseError {
    pub kind: ErrorKind,
    pub position: u32,
}

/// Why a scan stopped before the end of the input: it entered `state`, for
/// which the tokenizer has no handler, with the cursor at `position`. This
/// tells of a gap in the state table, not of a fault of the input.
#[derive(Clone, Copy, Debug, PartialEq, Eq, Structural)]
pub struct Unhandled {
    pub state: State,
    pub position: usize,
}

} // verus!
