//! What holds of the machine at every moment of a scan, and the proof that
//! every step keeps it. Span soundness of the emitted tokens is part of it.

use vstd::prelude::*;

use crate::bytes::is_letter;
use crate::decode::{decoded_bounds, CODE_LIMIT};
use crate::model::{
    finish, handed_over, handed_over_unfold, in_tag, rank_at, run, running, scan, step,
    step_progress, tokenization, Machine,
};
use crate::state::State;
use crate::tables::Table;

verus! {

impl Machine {
    /// Every token emitted so far is sound.
    pub open spec fn tokens_sound(self, len: int) -> bool {
        forall|i: int| 0 <= i < self.tokens.len() ==> (#[trigger] self.tokens[i]).sound(len)
    }

    /// The tokens emitted so far stand in the order of the input and do not
    /// overlap.
    pub open spec fn tokens_ordered(self) -> bool {
        forall|i: int, j: int|
            0 <= i < j < self.tokens.len() ==> (#[trigger] self.tokens[i]).end <= (
            #[trigger] self.tokens[j]).start
    }

    /// Every token emitted so far ends at or before the cursor, in whatever
    /// state the machine is.
    pub open spec fn tokens_passed(self) -> bool {
        forall|i: int|
            0 <= i < self.tokens.len() ==> (#[trigger] self.tokens[i]).end <= self.position
    }

    /// Where the token in progress starts: the name of the tag inside a tag,
    /// the pending text outside.
    pub open spec fn mark(self) -> int {
        if in_tag(self.state, self.return_state) {
            self.cur_start
        } else {
            self.token_start
        }
    }

    /// Every token emitted so far ends before the token in progress starts.
    pub open spec fn tokens_behind(self) -> bool {
        forall|i: int| 0 <= i < self.tokens.len() ==> (#[trigger] self.tokens[i]).end <= self.mark()
    }

    /// Every attribute of the tag in progress lies between the tag's start
    /// and the cursor.
    pub open spec fn attributes_fit(self) -> bool {
        forall|i: int|
            0 <= i < self.attributes.len() ==> (#[trigger] self.attributes[i]).fits(
                self.position - self.cur_start,
            )
    }

    /// Inside a tag and behind its name: the name is not empty and the
    /// attributes fit.
    pub open spec fn tag_inv(self) -> bool {
        &&& 0 <= self.cur_start < self.cur_end <= self.position
        &&& self.attributes_fit()
        &&& self.attribute_open ==> self.attributes.len() > 0
    }

    /// Inside the value of an attribute, with `pending` bytes of a character
    /// reference not yet added to it: the value, where it is being written,
    /// has started, and ends at or before the cursor with those bytes added.
    pub open spec fn value_inv(self, pending: int) -> bool {
        &&& self.tag_inv()
        &&& self.writing() ==> {
            let last = self.attributes.last();
            &&& last.has_value()
            &&& last.value_begin + last.value_size + pending <= self.position - self.cur_start
        }
    }

    /// Outside a tag, with `pending` bytes behind the pending text that the
    /// text accumulator does not count yet: the text ends at the cursor.
    pub open spec fn text_inv(self, pending: int) -> bool {
        self.token_start + self.cur_text_size + pending == self.position
    }

    /// The invariant of the scan over `input`.
    pub open spec fn inv(self, input: Seq<u8>) -> bool {
        &&& 0 <= self.token_start <= self.position <= input.len() <= u32::MAX
        &&& 0 <= self.cur_text_size
        &&& 0 <= self.ref_code <= CODE_LIMIT
        &&& self.tokens_sound(input.len() as int)
        &&& self.tokens_ordered()
        &&& self.tokens_passed()
        &&& self.state.handled() ==> self.tokens_behind()
        &&& match self.state {
            State::Data | State::Rcdata | State::Rawtext => self.text_inv(0),
            State::TagOpen | State::RawtextLessThanSign => self.text_inv(1),
            State::EndTagOpen | State::RawtextEndTagOpen => self.text_inv(2),
            State::TagName => {
                &&& 0 <= self.cur_start <= self.position
                &&& self.cur_start < input.len()
                &&& is_letter(input[self.cur_start])
                &&& self.attributes.len() == 0
                &&& !self.attribute_open
            },
            State::AttributeName => {
                &&& self.tag_inv()
                &&& self.attribute_open
                &&& !self.attributes.last().has_value()
            },
            State::BeforeAttributeName
            | State::AfterAttributeName
            | State::BeforeAttributeValue
            | State::AfterAttributeValueQuoted
            | State::SelfClosingStartTag => self.tag_inv(),
            State::AttributeValueDoubleQuoted
            | State::AttributeValueSingleQuoted
            | State::AttributeValueUnquoted => self.value_inv(0),
            State::CharacterReference
            | State::NamedCharacterReference
            | State::NumericCharacterReference
            | State::HexadecimalCharacterReferenceStart
            | State::DecimalCharacterReferenceStart
            | State::HexadecimalCharacterReference
            | State::DecimalCharacterReference
            | State::NumericCharacterReferenceEnd => {
                &&& 1 <= self.temp.len() <= self.position
                &&& if self.return_state.is_value() {
                    self.value_inv(self.temp.len() as int)
                } else {
                    self.return_state.is_content() && self.text_inv(self.temp.len() as int)
                }
            },
            _ => true,
        }
    }
}

/// A machine that has not started is within the invariant, in any content
/// state.
pub proof fn initial_inv(input: Seq<u8>, state: State)
    requires
        input.len() <= u32::MAX,
        state.is_content(),
    ensures
        Machine::initial(state).inv(input),
{
}

proof fn step_inv_content(input: Seq<u8>, tags: Table, refs: Table, m: Machine)
    requires
        m.inv(input),
        running(input, m),
        m.state.is_content(),
    ensures
        step(input, tags, refs, m).inv(input),
{
    reveal(step);
}

proof fn step_inv_tag_open(input: Seq<u8>, tags: Table, refs: Table, m: Machine)
    requires
        m.inv(input),
        running(input, m),
        m.state == State::TagOpen || m.state == State::EndTagOpen,
    ensures
        step(input, tags, refs, m).inv(input),
{
    reveal(step);
    decoded_bounds(m.text_bytes(input), refs, 0);
}

proof fn step_inv_tag_name(input: Seq<u8>, tags: Table, refs: Table, m: Machine)
    requires
        m.inv(input),
        running(input, m),
        m.state == State::TagName,
    ensures
        step(input, tags, refs, m).inv(input),
{
    reveal(step);
}

proof fn step_inv_rawtext(input: Seq<u8>, tags: Table, refs: Table, m: Machine)
    requires
        m.inv(input),
        running(input, m),
        m.state == State::RawtextLessThanSign || m.state == State::RawtextEndTagOpen,
    ensures
        step(input, tags, refs, m).inv(input),
{
    reveal(step);
}

proof fn step_inv_before_attribute_name(input: Seq<u8>, tags: Table, refs: Table, m: Machine)
    requires
        m.inv(input),
        running(input, m),
        m.state == State::BeforeAttributeName,
    ensures
        step(input, tags, refs, m).inv(input),
{
    reveal(step);
}

proof fn step_inv_attribute_name(input: Seq<u8>, tags: Table, refs: Table, m: Machine)
    requires
        m.inv(input),
        running(input, m),
        m.state == State::AttributeName,
    ensures
        step(input, tags, refs, m).inv(input),
{
    reveal(step);
}

proof fn step_inv_after_attribute_name(input: Seq<u8>, tags: Table, refs: Table, m: Machine)
    requires
        m.inv(input),
        running(input, m),
        m.state == State::AfterAttributeName,
    ensures
        step(input, tags, refs, m).inv(input),
{
    reveal(step);
}

proof fn step_inv_before_attribute_value(input: Seq<u8>, tags: Table, refs: Table, m: Machine)
    requires
        m.inv(input),
        running(input, m),
        m.state == State::BeforeAttributeValue,
    ensures
        step(input, tags, refs, m).inv(input),
{
    reveal(step);
}

proof fn step_inv_attribute_value(input: Seq<u8>, tags: Table, refs: Table, m: Machine)
    requires
        m.inv(input),
        running(input, m),
        m.state.is_value(),
    ensures
        step(input, tags, refs, m).inv(input),
{
    reveal(step);
}

proof fn step_inv_after_attribute_value(input: Seq<u8>, tags: Table, refs: Table, m: Machine)
    requires
        m.inv(input),
        running(input, m),
        m.state == State::AfterAttributeValueQuoted || m.state == State::SelfClosingStartTag,
    ensures
        step(input, tags, refs, m).inv(input),
{
    reveal(step);
}

proof fn step_inv_reference_start(input: Seq<u8>, tags: Table, refs: Table, m: Machine)
    requires
        m.inv(input),
        running(input, m),
        m.state == State::CharacterReference
            || m.state == State::NumericCharacterReference
            || m.state == State::HexadecimalCharacterReferenceStart
            || m.state == State::DecimalCharacterReferenceStart,
    ensures
        step(input, tags, refs, m).inv(input),
{
    reveal(step);
}

proof fn step_inv_reference_body(input: Seq<u8>, tags: Table, refs: Table, m: Machine)
    requires
        m.inv(input),
        running(input, m),
        m.state == State::NamedCharacterReference
            || m.state == State::HexadecimalCharacterReference
            || m.state == State::DecimalCharacterReference
            || m.state == State::NumericCharacterReferenceEnd,
    ensures
        step(input, tags, refs, m).inv(input),
{
    reveal(step);
}

/// Every step keeps the invariant.
pub proof fn step_inv(input: Seq<u8>, tags: Table, refs: Table, m: Machine)
    requires
        m.inv(input),
        running(input, m),
    ensures
        step(input, tags, refs, m).inv(input),
{
    match m.state {
        State::Data | State::Rcdata | State::Rawtext => step_inv_content(input, tags, refs, m),
        State::TagOpen | State::EndTagOpen => step_inv_tag_open(input, tags, refs, m),
        State::TagName => step_inv_tag_name(input, tags, refs, m),
        State::RawtextLessThanSign | State::RawtextEndTagOpen => step_inv_rawtext(
            input,
            tags,
            refs,
            m,
        ),
        State::BeforeAttributeName => step_inv_before_attribute_name(input, tags, refs, m),
        State::AttributeName => step_inv_attribute_name(input, tags, refs, m),
        State::AfterAttributeName => step_inv_after_attribute_name(input, tags, refs, m),
        State::BeforeAttributeValue => step_inv_before_attribute_value(input, tags, refs, m),
        State::AttributeValueDoubleQuoted
        | State::AttributeValueSingleQuoted
        | State::AttributeValueUnquoted => step_inv_attribute_value(input, tags, refs, m),
        State::AfterAttributeValueQuoted | State::SelfClosingStartTag => {
            step_inv_after_attribute_value(input, tags, refs, m)
        },
        State::CharacterReference
        | State::NumericCharacterReference
        | State::HexadecimalCharacterReferenceStart
        | State::DecimalCharacterReferenceStart => step_inv_reference_start(input, tags, refs, m),
        State::NamedCharacterReference
        | State::HexadecimalCharacterReference
        | State::DecimalCharacterReference
        | State::NumericCharacterReferenceEnd => step_inv_reference_body(input, tags, refs, m),
        _ => {},
    }
}

/// A run keeps the invariant.
pub proof fn run_inv(input: Seq<u8>, tags: Table, refs: Table, m: Machine)
    requires
        m.inv(input),
    ensures
        run(input, tags, refs, m).inv(input),
    decreases input.len() - m.position, rank_at(input, m),
{
    reveal(run);
    if running(input, m) {
        step_inv(input, tags, refs, m);
        step_progress(input, tags, refs, m);
        run_inv(input, tags, refs, step(input, tags, refs, m));
    }
}

/// The end of the input keeps the invariant.
pub proof fn finish_inv(input: Seq<u8>, refs: Table, m: Machine)
    requires
        m.inv(input),
        m.state.handled(),
    ensures
        finish(input, refs, m).inv(input),
{
    decoded_bounds(input.subrange(m.token_start, m.position), refs, 0);
}

/// Span soundness of a whole scan: from a machine within the invariant, a
/// scan ends within the invariant. So every token that it has emitted lies
/// within the input, every text token is a non-empty run, and every
/// attribute lies within the span of its tag.
pub proof fn scan_inv(input: Seq<u8>, tags: Table, refs: Table, m: Machine)
    requires
        m.inv(input),
    ensures
        scan(input, tags, refs, m).inv(input),
        scan(input, tags, refs, m).tokens_sound(input.len() as int),
        scan(input, tags, refs, m).tokens_ordered(),
        scan(input, tags, refs, m).tokens_passed(),
{
    run_inv(input, tags, refs, m);
    if run(input, tags, refs, m).state.handled() {
        finish_inv(input, refs, run(input, tags, refs, m));
    }
}

/// Span soundness of a tokenization: whatever the input and the tables,
/// every token of the tokenization is sound.
pub proof fn tokenization_sound(input: Seq<u8>, tags: Table, refs: Table, state: State)
    requires
        input.len() <= u32::MAX,
        state.is_content(),
    ensures
        tokenization(input, tags, refs, state).tokens_sound(input.len() as int),
        tokenization(input, tags, refs, state).tokens_ordered(),
{
    initial_inv(input, state);
    scan_inv(input, tags, refs, Machine::initial(state));
}

/// Whether `after` is `before` with at most one token appended: the tokens
/// emitted earlier stay as they are, in place.
pub open spec fn extends(before: Machine, after: Machine) -> bool {
    after.tokens == before.tokens || (after.tokens.len() == before.tokens.len() + 1
        && after.tokens.drop_last() == before.tokens)
}

/// A step emits at most one token, and none while it stays in its state.
pub proof fn step_extends(input: Seq<u8>, tags: Table, refs: Table, m: Machine)
    requires
        running(input, m),
    ensures
        extends(m, step(input, tags, refs, m)),
        step(input, tags, refs, m).state == m.state ==> step(input, tags, refs, m).tokens
            == m.tokens,
{
    reveal(step);
    let n = step(input, tags, refs, m);
    if n.tokens.len() == m.tokens.len() + 1 {
        assert(n.tokens.drop_last() =~= m.tokens);
    }
}

/// A handler emits at most one token, in its last step; the tokens emitted
/// earlier stay as they are.
pub proof fn handed_over_extends(input: Seq<u8>, tags: Table, refs: Table, m: Machine)
    ensures
        extends(m, handed_over(input, tags, refs, m)),
    decreases input.len() - m.position,
{
    handed_over_unfold(input, tags, refs, m);
    if running(input, m) {
        let n = step(input, tags, refs, m);
        step_extends(input, tags, refs, m);
        if n.state == m.state {
            step_progress(input, tags, refs, m);
            handed_over_extends(input, tags, refs, n);
        }
    }
}

/// A handler keeps the invariant.
pub proof fn handed_over_inv(input: Seq<u8>, tags: Table, refs: Table, m: Machine)
    requires
        m.inv(input),
    ensures
        handed_over(input, tags, refs, m).inv(input),
    decreases input.len() - m.position,
{
    handed_over_unfold(input, tags, refs, m);
    if running(input, m) {
        let n = step(input, tags, refs, m);
        step_inv(input, tags, refs, m);
        if n.state == m.state {
            step_progress(input, tags, refs, m);
            handed_over_inv(input, tags, refs, n);
        }
    }
}

} // verus!
