//! The tokenizer as a mathematical state machine: what the machine holds, what
//! one step does to it in each state, and what a whole scan amounts to. The
//! executable tokenizer is proved to compute exactly this.

use vstd::prelude::*;

use crate::bytes::{
    hex_value, is_alphanumeric, is_digit, is_hex_digit, is_letter, is_space, EOF,
};
use crate::decode::{accumulate, decoded, held, named_code, CODE_LIMIT};
use crate::diagnostics::{ErrorKind, ParseError};
use crate::state::State;
use crate::tables::Table;
use crate::tokens::{Attribute, TagID, TokenView};

verus! {

/// Flag bit of an end tag.
pub const CLOSE: u8 = 0x01;

/// Flag bit of a self-closing tag.
pub const CLOSE_SELF: u8 = 0x02;

/// The tag identifier that the tag table gives a name. A name that the table
/// does not hold, or holds with a code that stands for no element, resolves
/// to `Undef`; no name resolves to the identifiers kept for text and for the
/// end of input.
pub open spec fn resolve(tags: Table, name: Seq<u8>) -> TagID {
    match tags.find(name) {
        Some(code) => {
            let id = TagID::spec_from_code(code as int);
            if id == TagID::Text || id == TagID::EndOfFile {
                TagID::Undef
            } else {
                id
            }
        },
        None => TagID::Undef,
    }
}

/// The bytes of an attribute's name, in a token that starts at `start`.
pub open spec fn name_bytes(input: Seq<u8>, start: int, attribute: Attribute) -> Seq<u8> {
    input.subrange(
        start + attribute.name_begin,
        start + attribute.name_begin + attribute.name_size,
    )
}

/// Whether the last attribute of a list has the name of an earlier one.
pub open spec fn name_taken(input: Seq<u8>, start: int, attributes: Seq<Attribute>) -> bool {
    exists|i: int|
        0 <= i < attributes.len() - 1 && #[trigger] name_bytes(input, start, attributes[i])
            == name_bytes(input, start, attributes.last())
}

/// The state that `<` leads to from a content state.
pub open spec fn less_than_state(state: State) -> State {
    match state {
        State::Rcdata => State::RcdataLessThanSign,
        State::Rawtext => State::RawtextLessThanSign,
        _ => State::TagOpen,
    }
}

/// The state in which the scan goes on after a character reference: the
/// saved return state, which is a content state or an attribute-value state.
pub open spec fn resume_state(return_state: State) -> State {
    if return_state.is_content() || return_state.is_value() {
        return_state
    } else {
        State::Data
    }
}

/// Everything the tokenizer holds during a scan, but the input and the tables.
#[verifier::ext_equal]
pub struct Machine {
    /// The current state.
    pub state: State,
    /// The state to resume after a character reference.
    pub return_state: State,
    /// The scan cursor.
    pub position: int,
    /// Where the pending run of text starts.
    pub token_start: int,
    /// The text accumulator: how many bytes the pending run of text holds.
    pub cur_text_size: int,
    /// Where the name of the tag in progress starts.
    pub cur_start: int,
    /// Where the name of the tag in progress ends.
    pub cur_end: int,
    /// The flags of the tag in progress.
    pub cur_flags: u8,
    /// The attributes of the tag in progress.
    pub attributes: Seq<Attribute>,
    /// Whether the last attribute is still being written. It is not once its
    /// value is complete, or once it has been discarded as a duplicate.
    pub attribute_open: bool,
    /// The bytes of the character reference in progress, `&` included.
    pub temp: Seq<u8>,
    /// The code of the numeric character reference in progress.
    pub ref_code: int,
    /// The tokens emitted so far.
    pub tokens: Seq<TokenView>,
    /// The parse errors met so far.
    pub errors: Seq<ParseError>,
}

impl Machine {
    /// The machine before the first byte, in a given content state.
    pub open spec fn initial(state: State) -> Machine {
        Machine {
            state,
            return_state: State::Data,
            position: 0,
            token_start: 0,
            cur_text_size: 0,
            cur_start: 0,
            cur_end: 0,
            cur_flags: 0,
            attributes: Seq::empty(),
            attribute_open: false,
            temp: Seq::empty(),
            ref_code: 0,
            tokens: Seq::empty(),
            errors: Seq::empty(),
        }
    }

    /// The cursor moves on by one byte.
    pub open spec fn advance(self) -> Machine {
        Machine { position: self.position + 1, ..self }
    }

    /// The machine moves to `state`.
    pub open spec fn to(self, state: State) -> Machine {
        Machine { state, ..self }
    }

    /// Records a parse error at the cursor.
    pub open spec fn error(self, kind: ErrorKind) -> Machine {
        Machine {
            errors: self.errors.push(ParseError { kind, position: self.position as u32 }),
            ..self
        }
    }

    /// Adds `n` bytes to the text accumulator.
    pub open spec fn text(self, n: int) -> Machine {
        Machine { cur_text_size: self.cur_text_size + n, ..self }
    }

    /// The bytes of the pending run of text.
    pub open spec fn text_bytes(self, input: Seq<u8>) -> Seq<u8> {
        input.subrange(self.token_start, self.token_start + self.cur_text_size)
    }

    /// The pending run of text as a token. Its text size is the length of
    /// its decoded payload as a 32-bit size: of what its bytes stand for once
    /// their character references are resolved, or, for `plain` text, of the
    /// bytes themselves.
    pub open spec fn text_token(self, input: Seq<u8>, refs: Table, plain: bool) -> TokenView {
        TokenView {
            attributes: None,
            start: self.token_start as u32,
            end: (self.token_start + self.cur_text_size) as u32,
            text_off: 0,
            text_size: if plain {
                self.cur_text_size as u32
            } else {
                held(decoded(self.text_bytes(input), refs).len() as int) as u32
            },
            flags: 0,
            token_id: TagID::Text,
        }
    }

    /// Text emission: the pending run of text becomes a token, unless it is
    /// empty, and the text accumulator is cleared.
    pub open spec fn flush_text(self, input: Seq<u8>, refs: Table, plain: bool) -> Machine {
        if self.cur_text_size > 0 {
            Machine {
                tokens: self.tokens.push(self.text_token(input, refs, plain)),
                cur_text_size: 0,
                ..self
            }
        } else {
            self
        }
    }

    /// Opens a tag at the cursor, after flushing the pending text.
    pub open spec fn open_tag(self, flags: u8, input: Seq<u8>, refs: Table) -> Machine {
        Machine {
            cur_start: self.position,
            cur_end: self.position,
            cur_flags: flags,
            attributes: Seq::empty(),
            attribute_open: false,
            ..self.flush_text(input, refs, false)
        }
    }

    /// The tag's name ends at the cursor.
    pub open spec fn close_tag_name(self) -> Machine {
        Machine { cur_end: self.position, ..self }
    }

    /// The tag in progress as a token that ends at the cursor.
    pub open spec fn tag_token(self, input: Seq<u8>, tags: Table, flags: u8) -> TokenView {
        TokenView {
            attributes: if self.attributes.len() == 0 {
                None
            } else {
                Some(self.attributes)
            },
            start: self.cur_start as u32,
            end: self.position as u32,
            text_off: 0,
            text_size: 0,
            flags: self.cur_flags | flags,
            token_id: resolve(tags, input.subrange(self.cur_start, self.cur_end)),
        }
    }

    /// Tag emission: the tag in progress becomes a token that ends at the
    /// cursor, and all accumulators are cleared. The cursor and the state
    /// stay as they are.
    pub open spec fn emit_tag(self, input: Seq<u8>, tags: Table, flags: u8) -> Machine {
        Machine {
            cur_text_size: 0,
            cur_start: 0,
            cur_end: 0,
            cur_flags: 0,
            attributes: Seq::empty(),
            attribute_open: false,
            tokens: self.tokens.push(self.tag_token(input, tags, flags)),
            ..self
        }
    }

    /// The `>` under the cursor closes a tag: the cursor moves behind it,
    /// the machine goes back to Data, and text starts there.
    pub open spec fn leave_tag(self) -> Machine {
        Machine {
            state: State::Data,
            position: self.position + 1,
            token_start: self.position + 1,
            ..self
        }
    }

    /// Starts an attribute whose name begins with the byte at the cursor.
    pub open spec fn start_attribute(self) -> Machine {
        Machine {
            attributes: self.attributes.push(
                Attribute {
                    name_begin: (self.position - self.cur_start) as u32,
                    name_size: 1,
                    value_begin: 0,
                    value_size: 0,
                },
            ),
            attribute_open: true,
            ..self
        }
    }

    /// Whether there is an attribute to write to.
    pub open spec fn writing(self) -> bool {
        self.attribute_open && self.attributes.len() > 0
    }

    /// The list of attributes with the last one replaced.
    pub open spec fn with_last(self, attribute: Attribute) -> Machine {
        Machine {
            attributes: self.attributes.update(self.attributes.len() - 1, attribute),
            ..self
        }
    }

    /// The name of the attribute in progress grows by one byte.
    pub open spec fn extend_name(self) -> Machine {
        if self.writing() {
            let last = self.attributes.last();
            self.with_last(Attribute { name_size: (last.name_size + 1) as u32, ..last })
        } else {
            self
        }
    }

    /// The name of the attribute in progress is complete. Where the tag has
    /// an earlier attribute of that name, the new one is discarded, and so
    /// will its value be.
    pub open spec fn close_attribute_name(self, input: Seq<u8>) -> Machine {
        if self.writing() && name_taken(input, self.cur_start, self.attributes) {
            Machine {
                attributes: self.attributes.drop_last(),
                attribute_open: false,
                ..self.error(ErrorKind::DuplicateAttribute)
            }
        } else {
            self
        }
    }

    /// The value of the attribute in progress starts at `at`, and is empty.
    pub open spec fn begin_value(self, at: int) -> Machine {
        if self.writing() {
            let last = self.attributes.last();
            self.with_last(
                Attribute { value_begin: (at - self.cur_start) as u32, value_size: 0, ..last },
            )
        } else {
            self
        }
    }

    /// The value of the attribute in progress grows by `n` bytes.
    pub open spec fn extend_value(self, n: int) -> Machine {
        if self.writing() {
            let last = self.attributes.last();
            self.with_last(Attribute { value_size: (last.value_size + n) as u32, ..last })
        } else {
            self
        }
    }

    /// The value of the attribute in progress is complete.
    pub open spec fn close_value(self) -> Machine {
        Machine { attribute_open: false, ..self }
    }

    /// `&` was met in state `from`: a character reference starts.
    pub open spec fn enter_reference(self, from: State) -> Machine {
        Machine {
            state: State::CharacterReference,
            return_state: from,
            temp: seq![0x26u8],
            ref_code: 0,
            ..self
        }
    }

    /// The byte at the cursor joins the bytes of the reference.
    pub open spec fn push_temp(self, b: u8) -> Machine {
        Machine { temp: self.temp.push(b), ..self }
    }

    /// The end of a character reference. Its bytes are appended to the one
    /// write target that the return state selects: the value of the attribute
    /// in progress, or else the text accumulator. Then the scan resumes.
    pub open spec fn flush_reference(self) -> Machine {
        let target = if self.return_state.is_value() {
            self.extend_value(self.temp.len() as int)
        } else {
            self.text(self.temp.len() as int)
        };
        Machine { state: resume_state(self.return_state), temp: Seq::empty(), ..target }
    }

    /// The machine with the error, if any, that the code of a numeric
    /// reference calls for.
    pub open spec fn check_code(self) -> Machine {
        if self.ref_code == 0 {
            self.error(ErrorKind::NullCharacterReference)
        } else if self.ref_code >= CODE_LIMIT {
            self.error(ErrorKind::CharacterReferenceOutsideUnicodeRange)
        } else if 0xD800 <= self.ref_code <= 0xDFFF {
            self.error(ErrorKind::SurrogateCharacterReference)
        } else {
            self
        }
    }
}

/// One step in Data, RCDATA or RAWTEXT.
pub open spec fn step_content(input: Seq<u8>, m: Machine) -> Machine {
    let b = input[m.position];
    if b == 0x26 && m.state != State::Rawtext {
        m.enter_reference(m.state).advance()
    } else if b == 0x3C {
        m.to(less_than_state(m.state)).advance()
    } else if b == 0 {
        m.error(ErrorKind::UnexpectedNull).text(1).advance()
    } else if b == EOF {
        m.error(ErrorKind::UnexpectedEndOfFileByte).text(1).advance()
    } else {
        m.text(1).advance()
    }
}

/// One step behind `<` in Data.
pub open spec fn step_tag_open(input: Seq<u8>, refs: Table, m: Machine) -> Machine {
    let b = input[m.position];
    if is_letter(b) {
        m.open_tag(0, input, refs).to(State::TagName)
    } else if b == 0x21 {
        m.flush_text(input, refs, false).to(State::MarkupDeclarationOpen).advance()
    } else if b == 0x2F {
        m.to(State::EndTagOpen).advance()
    } else if b == 0x3F {
        m.error(ErrorKind::UnexpectedQuestionMarkInsteadOfTagName).to(State::BogusComment)
    } else {
        m.error(ErrorKind::InvalidFirstCharacterOfTagName).text(1).to(State::Data)
    }
}

/// One step behind `</`.
pub open spec fn step_end_tag_open(input: Seq<u8>, refs: Table, m: Machine) -> Machine {
    let b = input[m.position];
    if is_letter(b) {
        m.open_tag(CLOSE, input, refs).to(State::TagName)
    } else if b == 0x3E {
        let flushed = m.error(ErrorKind::MissingEndTagName).flush_text(input, refs, false);
        Machine {
            state: State::Data,
            position: m.position + 1,
            token_start: m.position + 1,
            cur_text_size: 0,
            ..flushed
        }
    } else {
        m.error(ErrorKind::InvalidFirstCharacterOfTagName).to(State::BogusComment)
    }
}

/// One step inside a tag's name.
pub open spec fn step_tag_name(input: Seq<u8>, tags: Table, m: Machine) -> Machine {
    let b = input[m.position];
    if is_space(b) {
        m.close_tag_name().to(State::BeforeAttributeName).advance()
    } else if b == 0x2F {
        m.close_tag_name().to(State::SelfClosingStartTag).advance()
    } else if b == 0x3E {
        m.close_tag_name().emit_tag(input, tags, 0).leave_tag()
    } else if b == 0 {
        m.error(ErrorKind::UnexpectedNull).advance()
    } else if b == EOF {
        m.error(ErrorKind::UnexpectedEndOfFileByte).advance()
    } else {
        m.advance()
    }
}

/// One step behind `<` in RAWTEXT.
pub open spec fn step_rawtext_less_than_sign(input: Seq<u8>, m: Machine) -> Machine {
    let b = input[m.position];
    if b == 0x2F {
        Machine { temp: Seq::empty(), ..m }.to(State::RawtextEndTagOpen).advance()
    } else {
        m.text(1).to(State::Rawtext)
    }
}

/// One step behind `</` in RAWTEXT.
pub open spec fn step_rawtext_end_tag_open(input: Seq<u8>, m: Machine) -> Machine {
    let b = input[m.position];
    if is_letter(b) {
        m.to(State::RawtextEndTagName)
    } else {
        m.text(2).to(State::Rawtext)
    }
}

/// One step where an attribute name may start.
pub open spec fn step_before_attribute_name(input: Seq<u8>, m: Machine) -> Machine {
    let b = input[m.position];
    if is_space(b) {
        m.advance()
    } else if b == 0x2F || b == 0x3E || b == EOF {
        m.to(State::AfterAttributeName)
    } else if b == 0x3D {
        m.error(ErrorKind::UnexpectedEqualsSignBeforeAttributeName).start_attribute().to(
            State::AttributeName,
        ).advance()
    } else if b == 0 {
        m.error(ErrorKind::UnexpectedNull).start_attribute().to(State::AttributeName).advance()
    } else {
        m.start_attribute().to(State::AttributeName).advance()
    }
}

/// One step inside an attribute's name.
pub open spec fn step_attribute_name(input: Seq<u8>, m: Machine) -> Machine {
    let b = input[m.position];
    if is_space(b) || b == 0x2F || b == 0x3E || b == EOF {
        m.close_attribute_name(input).to(State::AfterAttributeName)
    } else if b == 0x3D {
        m.close_attribute_name(input).to(State::BeforeAttributeValue).advance()
    } else if b == 0 {
        m.error(ErrorKind::UnexpectedNull).extend_name().advance()
    } else if b == 0x22 || b == 0x27 || b == 0x3C {
        m.error(ErrorKind::UnexpectedCharacterInAttributeName).extend_name().advance()
    } else {
        m.extend_name().advance()
    }
}

/// One step behind an attribute's name.
pub open spec fn step_after_attribute_name(input: Seq<u8>, tags: Table, m: Machine) -> Machine {
    let b = input[m.position];
    if is_space(b) {
        m.advance()
    } else if b == 0x2F {
        m.to(State::SelfClosingStartTag).advance()
    } else if b == 0x3D {
        m.to(State::BeforeAttributeValue).advance()
    } else if b == 0x3E {
        m.emit_tag(input, tags, 0).leave_tag()
    } else if b == EOF {
        m.error(ErrorKind::UnexpectedEndOfFileByte).advance()
    } else {
        m.to(State::BeforeAttributeName)
    }
}

/// One step behind `=`.
pub open spec fn step_before_attribute_value(input: Seq<u8>, tags: Table, m: Machine) -> Machine {
    let b = input[m.position];
    if is_space(b) {
        m.advance()
    } else if b == 0x22 {
        m.begin_value(m.position + 1).to(State::AttributeValueDoubleQuoted).advance()
    } else if b == 0x27 {
        m.begin_value(m.position + 1).to(State::AttributeValueSingleQuoted).advance()
    } else if b == 0x3E {
        m.error(ErrorKind::MissingAttributeValue).emit_tag(input, tags, 0).leave_tag()
    } else {
        m.begin_value(m.position).to(State::AttributeValueUnquoted)
    }
}

/// One step inside an attribute value between two `quote` bytes.
pub open spec fn step_attribute_value_quoted(input: Seq<u8>, m: Machine, quote: u8) -> Machine {
    let b = input[m.position];
    if b == quote {
        m.close_value().to(State::AfterAttributeValueQuoted).advance()
    } else if b == 0x26 {
        m.enter_reference(m.state).advance()
    } else if b == 0 {
        m.error(ErrorKind::UnexpectedNull).extend_value(1).advance()
    } else if b == EOF {
        m.error(ErrorKind::UnexpectedEndOfFileByte).extend_value(1).advance()
    } else {
        m.extend_value(1).advance()
    }
}

/// One step inside an attribute value without quotes.
pub open spec fn step_attribute_value_unquoted(input: Seq<u8>, tags: Table, m: Machine) -> Machine {
    let b = input[m.position];
    if is_space(b) {
        m.close_value().to(State::BeforeAttributeName).advance()
    } else if b == 0x26 {
        m.enter_reference(m.state).advance()
    } else if b == 0x3E {
        m.emit_tag(input, tags, 0).leave_tag()
    } else if b == 0 {
        m.error(ErrorKind::UnexpectedNull).extend_value(1).advance()
    } else if b == 0x22 || b == 0x27 || b == 0x3C || b == 0x3D || b == 0x60 {
        m.error(ErrorKind::UnexpectedCharacterInUnquotedAttributeValue).extend_value(1).advance()
    } else {
        m.extend_value(1).advance()
    }
}

/// One step behind the closing quote of an attribute value.
pub open spec fn step_after_attribute_value_quoted(
    input: Seq<u8>,
    tags: Table,
    m: Machine,
) -> Machine {
    let b = input[m.position];
    if is_space(b) {
        m.to(State::BeforeAttributeName).advance()
    } else if b == 0x2F {
        m.to(State::SelfClosingStartTag).advance()
    } else if b == 0x3E {
        m.emit_tag(input, tags, 0).leave_tag()
    } else {
        m.error(ErrorKind::MissingWhitespaceBetweenAttributes).to(State::BeforeAttributeName)
    }
}

/// One step behind `/` inside a tag.
pub open spec fn step_self_closing_start_tag(input: Seq<u8>, tags: Table, m: Machine) -> Machine {
    let b = input[m.position];
    if b == 0x3E {
        m.emit_tag(input, tags, CLOSE_SELF).leave_tag()
    } else {
        m.error(ErrorKind::UnexpectedSolidusInTag).to(State::BeforeAttributeName)
    }
}

/// One step behind `&`.
pub open spec fn step_character_reference(input: Seq<u8>, m: Machine) -> Machine {
    let b = input[m.position];
    if is_letter(b) {
        m.to(State::NamedCharacterReference)
    } else if b == 0x23 {
        m.push_temp(b).to(State::NumericCharacterReference).advance()
    } else {
        m.flush_reference()
    }
}

/// The name of the reference whose bytes are `temp`: what stands between `&`
/// and `;`.
pub open spec fn reference_name(temp: Seq<u8>) -> Seq<u8> {
    temp.subrange(1, temp.len() - 1)
}

/// One step inside the name of a character reference.
pub open spec fn step_named_character_reference(
    input: Seq<u8>,
    refs: Table,
    m: Machine,
) -> Machine {
    let b = input[m.position];
    if is_alphanumeric(b) {
        m.push_temp(b).advance()
    } else if b == 0x3B {
        let named = m.push_temp(b);
        if named_code(refs, reference_name(named.temp)) is Some {
            named.flush_reference().advance()
        } else {
            named.error(ErrorKind::UnknownNamedCharacterReference).flush_reference().advance()
        }
    } else {
        m.error(ErrorKind::MissingSemicolonAfterCharacterReference).flush_reference()
    }
}

/// One step behind `&#`.
pub open spec fn step_numeric_character_reference(input: Seq<u8>, m: Machine) -> Machine {
    let b = input[m.position];
    if b == 0x78 || b == 0x58 {
        m.push_temp(b).to(State::HexadecimalCharacterReferenceStart).advance()
    } else {
        m.to(State::DecimalCharacterReferenceStart)
    }
}

/// One step where the digits of a numeric reference must start.
pub open spec fn step_reference_start(input: Seq<u8>, m: Machine, hex: bool) -> Machine {
    let b = input[m.position];
    if hex && is_hex_digit(b) {
        m.to(State::HexadecimalCharacterReference)
    } else if !hex && is_digit(b) {
        m.to(State::DecimalCharacterReference)
    } else {
        m.error(ErrorKind::AbsenceOfDigitsInNumericCharacterReference).flush_reference()
    }
}

/// One step inside the digits of a numeric reference.
pub open spec fn step_reference_digits(input: Seq<u8>, m: Machine, hex: bool) -> Machine {
    let b = input[m.position];
    if hex && is_hex_digit(b) {
        Machine { ref_code: accumulate(m.ref_code, 16, hex_value(b)), ..m.push_temp(b) }.advance()
    } else if !hex && is_digit(b) {
        Machine { ref_code: accumulate(m.ref_code, 10, b - 0x30), ..m.push_temp(b) }.advance()
    } else if b == 0x3B {
        m.push_temp(b).to(State::NumericCharacterReferenceEnd).advance()
    } else {
        m.error(ErrorKind::MissingSemicolonAfterCharacterReference).to(
            State::NumericCharacterReferenceEnd,
        )
    }
}

/// The step that ends a numeric reference. It reads no byte.
pub open spec fn step_numeric_character_reference_end(m: Machine) -> Machine {
    m.check_code().flush_reference()
}

/// One step of the machine: the handler of the current state looks at the byte
/// under the cursor. It either consumes that byte, or moves to another state
/// that will look at it again.
#[verifier::opaque]
pub open spec fn step(input: Seq<u8>, tags: Table, refs: Table, m: Machine) -> Machine {
    match m.state {
        State::Data | State::Rcdata | State::Rawtext => step_content(input, m),
        State::TagOpen => step_tag_open(input, refs, m),
        State::EndTagOpen => step_end_tag_open(input, refs, m),
        State::TagName => step_tag_name(input, tags, m),
        State::RawtextLessThanSign => step_rawtext_less_than_sign(input, m),
        State::RawtextEndTagOpen => step_rawtext_end_tag_open(input, m),
        State::BeforeAttributeName => step_before_attribute_name(input, m),
        State::AttributeName => step_attribute_name(input, m),
        State::AfterAttributeName => step_after_attribute_name(input, tags, m),
        State::BeforeAttributeValue => step_before_attribute_value(input, tags, m),
        State::AttributeValueDoubleQuoted => step_attribute_value_quoted(input, m, 0x22),
        State::AttributeValueSingleQuoted => step_attribute_value_quoted(input, m, 0x27),
        State::AttributeValueUnquoted => step_attribute_value_unquoted(input, tags, m),
        State::AfterAttributeValueQuoted => step_after_attribute_value_quoted(input, tags, m),
        State::SelfClosingStartTag => step_self_closing_start_tag(input, tags, m),
        State::CharacterReference => step_character_reference(input, m),
        State::NamedCharacterReference => step_named_character_reference(input, refs, m),
        State::NumericCharacterReference => step_numeric_character_reference(input, m),
        State::HexadecimalCharacterReferenceStart => step_reference_start(input, m, true),
        State::DecimalCharacterReferenceStart => step_reference_start(input, m, false),
        State::HexadecimalCharacterReference => step_reference_digits(input, m, true),
        State::DecimalCharacterReference => step_reference_digits(input, m, false),
        State::NumericCharacterReferenceEnd => step_numeric_character_reference_end(m),
        _ => m,
    }
}

/// An upper bound on the number of steps that a state can take on byte `b`
/// before one of them consumes it.
pub open spec fn rank(state: State, b: u8) -> nat {
    match state {
        State::TagOpen
        | State::EndTagOpen
        | State::RawtextLessThanSign
        | State::RawtextEndTagOpen
        | State::BeforeAttributeValue
        | State::NamedCharacterReference
        | State::NumericCharacterReferenceEnd => 1,
        State::BeforeAttributeName => if b == 0x2F || b == 0x3E || b == EOF {
            1
        } else {
            0
        },
        State::AttributeName => if is_space(b) || b == 0x2F || b == 0x3E || b == EOF {
            1
        } else {
            0
        },
        State::AfterAttributeName => if is_space(b) || b == 0x2F || b == 0x3D || b == 0x3E || b
            == EOF {
            0
        } else {
            1
        },
        State::AfterAttributeValueQuoted
        | State::SelfClosingStartTag
        | State::CharacterReference
        | State::HexadecimalCharacterReference
        | State::DecimalCharacterReference => 2,
        State::HexadecimalCharacterReferenceStart | State::DecimalCharacterReferenceStart => 3,
        State::NumericCharacterReference => 4,
        _ => 0,
    }
}

/// Whether the scan goes on from `m`: there is a byte under the cursor, and
/// the state has a handler.
pub open spec fn running(input: Seq<u8>, m: Machine) -> bool {
    0 <= m.position < input.len() && m.state.handled()
}

/// The machine's rank on the byte under the cursor.
pub open spec fn rank_at(input: Seq<u8>, m: Machine) -> nat {
    if 0 <= m.position < input.len() {
        rank(m.state, input[m.position])
    } else {
        0
    }
}

/// Every step makes progress: it consumes the byte under the cursor, or it
/// leaves the cursor in place, moves to another state and lowers the
/// machine's rank on that byte.
pub proof fn step_progress(input: Seq<u8>, tags: Table, refs: Table, m: Machine)
    requires
        running(input, m),
    ensures
        ({
            let n = step(input, tags, refs, m);
            n.position == m.position + 1 || (n.position == m.position && n.state != m.state
                && rank_at(input, n) < rank_at(input, m))
        }),
{
    reveal(step);
}

/// The machine in which a scan that starts from `m` comes to rest: step by
/// step until the input is used up or a state without a handler is entered.
#[verifier::opaque]
pub open spec fn run(input: Seq<u8>, tags: Table, refs: Table, m: Machine) -> Machine
    decreases input.len() - m.position, rank_at(input, m),
    via run_decreases
{
    if running(input, m) {
        run(input, tags, refs, step(input, tags, refs, m))
    } else {
        m
    }
}

#[via_fn]
proof fn run_decreases(input: Seq<u8>, tags: Table, refs: Table, m: Machine) {
    if running(input, m) {
        step_progress(input, tags, refs, m);
    }
}

/// The machine at which the handler of the current state hands over: step by
/// step while the state stays the same and a byte is left. A handler that
/// moves to another state does so in its last step.
#[verifier::opaque]
pub open spec fn handed_over(input: Seq<u8>, tags: Table, refs: Table, m: Machine) -> Machine
    decreases input.len() - m.position,
    via handed_over_decreases
{
    if running(input, m) {
        let n = step(input, tags, refs, m);
        if n.state == m.state {
            handed_over(input, tags, refs, n)
        } else {
            n
        }
    } else {
        m
    }
}

#[via_fn]
proof fn handed_over_decreases(input: Seq<u8>, tags: Table, refs: Table, m: Machine) {
    if running(input, m) {
        step_progress(input, tags, refs, m);
    }
}

/// What `handed_over` is, one step unfolded.
pub proof fn handed_over_unfold(input: Seq<u8>, tags: Table, refs: Table, m: Machine)
    ensures
        handed_over(input, tags, refs, m) == (if running(input, m) {
            let n = step(input, tags, refs, m);
            if n.state == m.state {
                handed_over(input, tags, refs, n)
            } else {
                n
            }
        } else {
            m
        }),
{
    reveal(handed_over);
}

/// Whether the machine is inside a tag: what it reads belongs to a tag that
/// `>` has not closed yet.
pub open spec fn in_tag(state: State, return_state: State) -> bool {
    match state {
        State::TagName
        | State::BeforeAttributeName
        | State::AttributeName
        | State::AfterAttributeName
        | State::BeforeAttributeValue
        | State::AttributeValueDoubleQuoted
        | State::AttributeValueSingleQuoted
        | State::AttributeValueUnquoted
        | State::AfterAttributeValueQuoted
        | State::SelfClosingStartTag => true,
        _ => state.is_reference() && return_state.is_value(),
    }
}

/// The end of the input. Outside a tag, what follows the last token is a run
/// of text and becomes the last token, unless it is empty. Inside a tag, the
/// tag is discarded and `EofInTag` recorded. Either way the machine comes to
/// rest in Data with nothing pending.
pub open spec fn finish(input: Seq<u8>, refs: Table, m: Machine) -> Machine {
    if in_tag(m.state, m.return_state) {
        Machine {
            state: State::Data,
            token_start: m.position,
            cur_text_size: 0,
            cur_start: 0,
            cur_end: 0,
            cur_flags: 0,
            attributes: Seq::empty(),
            attribute_open: false,
            temp: Seq::empty(),
            ..m.error(ErrorKind::EofInTag)
        }
    } else {
        let trailing = Machine { cur_text_size: m.position - m.token_start, ..m }.flush_text(
            input,
            refs,
            m.state.is_plain(),
        );
        Machine {
            state: State::Data,
            token_start: m.position,
            cur_text_size: 0,
            temp: Seq::empty(),
            ..trailing
        }
    }
}

/// A whole scan from `m`: the machine runs until it rests. If it used up the
/// input, the end of the input is dealt with; if it entered a state without
/// a handler, it stays as it stopped, in that state.
pub open spec fn scan(input: Seq<u8>, tags: Table, refs: Table, m: Machine) -> Machine {
    let rest = run(input, tags, refs, m);
    if rest.state.handled() {
        finish(input, refs, rest)
    } else {
        rest
    }
}

/// The tokenization of `input`, read from a given content state.
pub open spec fn tokenization(input: Seq<u8>, tags: Table, refs: Table, state: State) -> Machine {
    scan(input, tags, refs, Machine::initial(state))
}

} // verus!
