//! The lexer states: one named mode for each way of reading the next bytes.

use vstd::prelude::*;

verus! {

/// A lexer state. The machine has a handler for a working subset of them;
/// the others are declared so that every transition has a name to go to.
#[derive(Clone, Copy, Debug, PartialEq, Eq, Structural)]
pub enum State {
    Data,
    Rcdata,
    Rawtext,
    ScriptData,
    Plaintext,
    TagOpen,
    EndTagOpen,
    TagName,
    RcdataLessThanSign,
    RcdataEndTagOpen,
    RcdataEndTagName,
    RawtextLessThanSign,
    RawtextEndTagOpen,
    RawtextEndTagName,
    ScriptDataLessThanSign,
    ScriptDataEndTagOpen,
    ScriptDataEndTagName,
    ScriptDataEscapeStart,
    ScriptDataEscapeStartDash,
    ScriptDataEscaped,
    ScriptDataEscapedDash,
    ScriptDataEscapedDashDash,
    ScriptDataEscapedLessThanSign,
    ScriptDataEscapedEndTagOpen,
    ScriptDataEscapedEndTagName,
    ScriptDataDoubleEscapeStart,
    ScriptDataDoubleEscaped,
    ScriptDataDoubleEscapedDash,
    ScriptDataDoubleEscapedDashDash,
    ScriptDataDoubleEscapedLessThanSign,
    ScriptDataDoubleEscapeEnd,
    BeforeAttributeName,
    AttributeName,
    AfterAttributeName,
    BeforeAttributeValue,
    AttributeValueDoubleQuoted,
    AttributeValueSingleQuoted,
    AttributeValueUnquoted,
    AfterAttributeValueQuoted,
    SelfClosingStartTag,
    BogusComment,
    MarkupDeclarationOpen,
    CommentStart,
    CommentStartDash,
    Comment,
    CommentLessThanSign,
    CommentLessThanSignBang,
    CommentLessThanSignBangDash,
    CommentLessThanSignBangDashDash,
    CommentEndDash,
    CommentEnd,
    CommentEndBang,
    Doctype,
    BeforeDoctypeName,
    DoctypeName,
    AfterDoctypeName,
    AfterDoctypePublicKeyword,
    BeforeDoctypePublicIdentifier,
    DoctypePublicIdentifierDoubleQuoted,
    DoctypePublicIdentifierSingleQuoted,
    AfterDoctypePublicIdentifier,
    BetweenDoctypePublicAndSystemIdentifiers,
    AfterDoctypeSystemKeyword,
    BeforeDoctypeSystemIdentifier,
    DoctypeSystemIdentifierDoubleQuoted,
    DoctypeSystemIdentifierSingleQuoted,
    AfterDoctypeSystemIdentifier,
    BogusDoctype,
    CdataSection,
    CdataSectionBracket,
    CdataSectionEnd,
    CharacterReference,
    NamedCharacterReference,
    AmbiguousAmpersand,
    NumericCharacterReference,
    HexadecimalCharacterReferenceStart,
    DecimalCharacterReferenceStart,
    HexadecimalCharacterReference,
    DecimalCharacterReference,
    NumericCharacterReferenceEnd,
}

impl State {
    /// Whether the machine has a handler for this state. A scan that enters
    /// any other state stops there.
    pub open spec fn handled(self) -> bool {
        match self {
            State::Data
            | State::Rcdata
            | State::Rawtext
            | State::TagOpen
            | State::EndTagOpen
            | State::TagName
            | State::RawtextLessThanSign
            | State::RawtextEndTagOpen
            | State::BeforeAttributeName
            | State::AttributeName
            | State::AfterAttributeName
            | State::BeforeAttributeValue
            | State::AttributeValueDoubleQuoted
            | State::AttributeValueSingleQuoted
            | State::AttributeValueUnquoted
            | State::AfterAttributeValueQuoted
            | State::SelfClosingStartTag
            | State::CharacterReference
            | State::NamedCharacterReference
            | State::NumericCharacterReference
            | State::HexadecimalCharacterReferenceStart
            | State::DecimalCharacterReferenceStart
            | State::HexadecimalCharacterReference
            | State::DecimalCharacterReference
            | State::NumericCharacterReferenceEnd => true,
            _ => false,
        }
    }

    /// Whether the machine has a handler for this state.
    pub fn is_handled(self) -> (r: bool)
        ensures
            r == self.handled(),
    {
        match self {
            State::Data
            | State::Rcdata
            | State::Rawtext
            | State::TagOpen
            | State::EndTagOpen
            | State::TagName
            | State::RawtextLessThanSign
            | State::RawtextEndTagOpen
            | State::BeforeAttributeName
            | State::AttributeName
            | State::AfterAttributeName
            | State::BeforeAttributeValue
            | State::AttributeValueDoubleQuoted
            | State::AttributeValueSingleQuoted
            | State::AttributeValueUnquoted
            | State::AfterAttributeValueQuoted
            | State::SelfClosingStartTag
            | State::CharacterReference
            | State::NamedCharacterReference
            | State::NumericCharacterReference
            | State::HexadecimalCharacterReferenceStart
            | State::DecimalCharacterReferenceStart
            | State::HexadecimalCharacterReference
            | State::DecimalCharacterReference
            | State::NumericCharacterReferenceEnd => true,
            _ => false,
        }
    }

    /// Whether the state reads text: the bytes it passes over belong to a
    /// run of text.
    pub open spec fn is_content(self) -> bool {
        self == State::Data || self == State::Rcdata || self == State::Rawtext
    }

    /// Whether the state reads text.
    pub fn reads_content(self) -> (r: bool)
        ensures
            r == self.is_content(),
    {
        match self {
            State::Data | State::Rcdata | State::Rawtext => true,
            _ => false,
        }
    }

    /// Whether the state reads text in which `&` starts no character
    /// reference.
    pub open spec fn is_plain(self) -> bool {
        match self {
            State::Rawtext
            | State::RawtextLessThanSign
            | State::RawtextEndTagOpen
            | State::RawtextEndTagName => true,
            _ => false,
        }
    }

    /// Whether the state reads text in which `&` starts no character
    /// reference.
    pub fn reads_plain(self) -> (r: bool)
        ensures
            r == self.is_plain(),
    {
        match self {
            State::Rawtext
            | State::RawtextLessThanSign
            | State::RawtextEndTagOpen
            | State::RawtextEndTagName => true,
            _ => false,
        }
    }

    /// Whether the state reads the value of an attribute.
    pub open spec fn is_value(self) -> bool {
        self == State::AttributeValueDoubleQuoted || self == State::AttributeValueSingleQuoted
            || self == State::AttributeValueUnquoted
    }

    /// Whether the state belongs to the recognition of a character reference.
    pub open spec fn is_reference(self) -> bool {
        match self {
            State::CharacterReference
            | State::NamedCharacterReference
            | State::NumericCharacterReference
            | State::HexadecimalCharacterReferenceStart
            | State::DecimalCharacterReferenceStart
            | State::HexadecimalCharacterReference
            | State::DecimalCharacterReference
            | State::NumericCharacterReferenceEnd => true,
            _ => false,
        }
    }
}

} // verus!
