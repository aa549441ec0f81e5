//! The handlers of the states that read the attributes of a tag.

use vstd::prelude::*;

use crate::bytes::{byte_is_space, EOF};
use crate::diagnostics::ErrorKind;
use crate::model::{
    handed_over, running, step, step_after_attribute_name, step_after_attribute_value_quoted,
    step_attribute_name, step_attribute_value_quoted, step_attribute_value_unquoted,
    step_before_attribute_name, step_before_attribute_value,
};
use crate::state::State;
use crate::tokenizer::Tokenizer;

verus! {

impl<'a> Tokenizer<'a> {
    /// One step of this state: the byte under the cursor is dealt with. The
    /// result tells whether the state hands over.
    pub(super) fn before_attribute_name_step(&mut self) -> (done: bool)
        requires
            old(self).wf(),
            old(self).state == State::BeforeAttributeName,
            running(old(self).raw_html@, old(self)@),
        ensures
            final(self).same_source(old(self)),
            final(self)@ == step(
                old(self).raw_html@,
                old(self).tag_table(),
                old(self).ref_table(),
                old(self)@,
            ),
            final(self)@ == step_before_attribute_name(old(self).raw_html@, old(self)@),
            done == (final(self).state != State::BeforeAttributeName),
            !done ==> final(self).position == old(self).position + 1,
    {
        proof {
            reveal(Tokenizer::wf);
            reveal(step);
        }
        let b = self.raw_html[self.position];
        let mut done = false;
        if byte_is_space(b) {
            self.position += 1;
        } else if b == 0x2F || b == 0x3E || b == EOF {
            self.state = State::AfterAttributeName;
            done = true;
        } else {
            if b == 0x3D {
                self.record(ErrorKind::UnexpectedEqualsSignBeforeAttributeName);
            } else if b == 0 {
                self.record(ErrorKind::UnexpectedNull);
            }
            self.create_empty_attribute();
            self.state = State::AttributeName;
            self.position += 1;
            done = true;
        }
        assert(self@ =~= step_before_attribute_name(old(self).raw_html@, old(self)@));
        done
    }

    /// Whitespace before an attribute name; the first other byte starts one.
    pub(super) fn before_attribute_name_state(&mut self)
        requires
            old(self).wf(),
            old(self).state == State::BeforeAttributeName,
            running(old(self).raw_html@, old(self)@),
        ensures
            final(self).follows(old(self)),
            final(self)@ == handed_over(
                old(self).raw_html@,
                old(self).tag_table(),
                old(self).ref_table(),
                old(self)@,
            ),
    {
        let ghost mut moved = false;
        while self.position < self.raw_html.len()
            invariant_except_break
                self.state == State::BeforeAttributeName,
                !moved ==> *self == *old(self),
                self.handed() == old(self).handed(),
                self.position >= self.raw_html@.len() ==> self.handed() == self@,
            invariant
                self.wf(),
                self.same_source(old(self)),
                moved ==> self.follows(old(self)),
                running(old(self).raw_html@, old(self)@),
            ensures
                self.follows(old(self)),
                self@ == old(self).handed(),
            decreases self.raw_html.len() - self.position,
        {
            let ghost before = *self;
            let done = self.before_attribute_name_step();
            proof {
                self.stepped(&before);
                if moved {
                    self.follows_transitive(&before, old(self));
                }
                moved = true;
                before.handed_unfold();
                self.handed_unfold();
            }
            if done {
                break ;
            }
        }
    }

    /// One step of this state: the byte under the cursor is dealt with. The
    /// result tells whether the state hands over.
    pub(super) fn attribute_name_step(&mut self) -> (done: bool)
        requires
            old(self).wf(),
            old(self).state == State::AttributeName,
            running(old(self).raw_html@, old(self)@),
        ensures
            final(self).same_source(old(self)),
            final(self)@ == step(
                old(self).raw_html@,
                old(self).tag_table(),
                old(self).ref_table(),
                old(self)@,
            ),
            final(self)@ == step_attribute_name(old(self).raw_html@, old(self)@),
            done == (final(self).state != State::AttributeName),
            !done ==> final(self).position == old(self).position + 1,
    {
        proof {
            reveal(Tokenizer::wf);
            reveal(step);
        }
        let b = self.raw_html[self.position];
        let mut done = false;
        if byte_is_space(b) || b == 0x2F || b == 0x3E || b == EOF {
            self.close_attribute_name();
            self.state = State::AfterAttributeName;
            done = true;
        } else if b == 0x3D {
            self.close_attribute_name();
            self.state = State::BeforeAttributeValue;
            self.position += 1;
            done = true;
        } else {
            if b == 0 {
                self.record(ErrorKind::UnexpectedNull);
            } else if b == 0x22 || b == 0x27 || b == 0x3C {
                self.record(ErrorKind::UnexpectedCharacterInAttributeName);
            }
            self.extend_name();
            self.position += 1;
        }
        assert(self@ =~= step_attribute_name(old(self).raw_html@, old(self)@));
        done
    }

    /// The name of an attribute, up to whitespace, `/`, `>` or `=`. A name that the
    /// tag already has is discarded there.
    pub(super) fn attribute_name_state(&mut self)
        requires
            old(self).wf(),
            old(self).state == State::AttributeName,
            running(old(self).raw_html@, old(self)@),
        ensures
            final(self).follows(old(self)),
            final(self)@ == handed_over(
                old(self).raw_html@,
                old(self).tag_table(),
                old(self).ref_table(),
                old(self)@,
            ),
    {
        let ghost mut moved = false;
        while self.position < self.raw_html.len()
            invariant_except_break
                self.state == State::AttributeName,
                !moved ==> *self == *old(self),
                self.handed() == old(self).handed(),
                self.position >= self.raw_html@.len() ==> self.handed() == self@,
            invariant
                self.wf(),
                self.same_source(old(self)),
                moved ==> self.follows(old(self)),
                running(old(self).raw_html@, old(self)@),
            ensures
                self.follows(old(self)),
                self@ == old(self).handed(),
            decreases self.raw_html.len() - self.position,
        {
            let ghost before = *self;
            let done = self.attribute_name_step();
            proof {
                self.stepped(&before);
                if moved {
                    self.follows_transitive(&before, old(self));
                }
                moved = true;
                before.handed_unfold();
                self.handed_unfold();
            }
            if done {
                break ;
            }
        }
    }

    /// One step of this state: the byte under the cursor is dealt with. The
    /// result tells whether the state hands over.
    pub(super) fn after_attribute_name_step(&mut self) -> (done: bool)
        requires
            old(self).wf(),
            old(self).state == State::AfterAttributeName,
            running(old(self).raw_html@, old(self)@),
        ensures
            final(self).same_source(old(self)),
            final(self)@ == step(
                old(self).raw_html@,
                old(self).tag_table(),
                old(self).ref_table(),
                old(self)@,
            ),
            final(self)@ == step_after_attribute_name(
                old(self).raw_html@,
                old(self).tag_table(),
                old(self)@,
            ),
            done == (final(self).state != State::AfterAttributeName),
            !done ==> final(self).position == old(self).position + 1,
    {
        proof {
            reveal(Tokenizer::wf);
            reveal(step);
        }
        let b = self.raw_html[self.position];
        let mut done = false;
        if byte_is_space(b) {
            self.position += 1;
        } else if b == 0x2F {
            self.state = State::SelfClosingStartTag;
            self.position += 1;
            done = true;
        } else if b == 0x3D {
            self.state = State::BeforeAttributeValue;
            self.position += 1;
            done = true;
        } else if b == 0x3E {
            self.emit_current_token_no_text(0);
            self.state = State::Data;
            self.position += 1;
            self.token_start = self.position;
            done = true;
        } else if b == EOF {
            self.record(ErrorKind::UnexpectedEndOfFileByte);
            self.position += 1;
        } else {
            self.state = State::BeforeAttributeName;
            done = true;
        }
        assert(self@ =~= step_after_attribute_name(
            old(self).raw_html@,
            old(self).tag_table(),
            old(self)@,
        ));
        done
    }

    /// Behind an attribute name: `=` leads to its value, `>` closes the tag,
    /// another byte starts the next attribute.
    pub(super) fn after_attribute_name_state(&mut self)
        requires
            old(self).wf(),
            old(self).state == State::AfterAttributeName,
            running(old(self).raw_html@, old(self)@),
        ensures
            final(self).follows(old(self)),
            final(self)@ == handed_over(
                old(self).raw_html@,
                old(self).tag_table(),
                old(self).ref_table(),
                old(self)@,
            ),
    {
        let ghost mut moved = false;
        while self.position < self.raw_html.len()
            invariant_except_break
                self.state == State::AfterAttributeName,
                !moved ==> *self == *old(self),
                self.handed() == old(self).handed(),
                self.position >= self.raw_html@.len() ==> self.handed() == self@,
            invariant
                self.wf(),
                self.same_source(old(self)),
                moved ==> self.follows(old(self)),
                running(old(self).raw_html@, old(self)@),
            ensures
                self.follows(old(self)),
                self@ == old(self).handed(),
            decreases self.raw_html.len() - self.position,
        {
            let ghost before = *self;
            let done = self.after_attribute_name_step();
            proof {
                self.stepped(&before);
                if moved {
                    self.follows_transitive(&before, old(self));
                }
                moved = true;
                before.handed_unfold();
                self.handed_unfold();
            }
            if done {
                break ;
            }
        }
    }

    /// One step of this state: the byte under the cursor is dealt with. The
    /// result tells whether the state hands over.
    pub(super) fn before_attribute_value_step(&mut self) -> (done: bool)
        requires
            old(self).wf(),
            old(self).state == State::BeforeAttributeValue,
            running(old(self).raw_html@, old(self)@),
        ensures
            final(self).same_source(old(self)),
            final(self)@ == step(
                old(self).raw_html@,
                old(self).tag_table(),
                old(self).ref_table(),
                old(self)@,
            ),
            final(self)@ == step_before_attribute_value(
                old(self).raw_html@,
                old(self).tag_table(),
                old(self)@,
            ),
            done == (final(self).state != State::BeforeAttributeValue),
            !done ==> final(self).position == old(self).position + 1,
    {
        proof {
            reveal(Tokenizer::wf);
            reveal(step);
        }
        let b = self.raw_html[self.position];
        let mut done = false;
        if byte_is_space(b) {
            self.position += 1;
        } else if b == 0x22 {
            self.begin_value(self.position + 1);
            self.state = State::AttributeValueDoubleQuoted;
            self.position += 1;
            done = true;
        } else if b == 0x27 {
            self.begin_value(self.position + 1);
            self.state = State::AttributeValueSingleQuoted;
            self.position += 1;
            done = true;
        } else if b == 0x3E {
            self.record(ErrorKind::MissingAttributeValue);
            self.emit_current_token_no_text(0);
            self.state = State::Data;
            self.position += 1;
            self.token_start = self.position;
            done = true;
        } else {
            self.begin_value(self.position);
            self.state = State::AttributeValueUnquoted;
            done = true;
        }
        assert(self@ =~= step_before_attribute_value(
            old(self).raw_html@,
            old(self).tag_table(),
            old(self)@,
        ));
        done
    }

    /// Behind `=`: a quote opens a quoted value behind it, another byte starts an
    /// unquoted one.
    pub(super) fn before_attribute_value_state(&mut self)
        requires
            old(self).wf(),
            old(self).state == State::BeforeAttributeValue,
            running(old(self).raw_html@, old(self)@),
        ensures
            final(self).follows(old(self)),
            final(self)@ == handed_over(
                old(self).raw_html@,
                old(self).tag_table(),
                old(self).ref_table(),
                old(self)@,
            ),
    {
        let ghost mut moved = false;
        while self.position < self.raw_html.len()
            invariant_except_break
                self.state == State::BeforeAttributeValue,
                !moved ==> *self == *old(self),
                self.handed() == old(self).handed(),
                self.position >= self.raw_html@.len() ==> self.handed() == self@,
            invariant
                self.wf(),
                self.same_source(old(self)),
                moved ==> self.follows(old(self)),
                running(old(self).raw_html@, old(self)@),
            ensures
                self.follows(old(self)),
                self@ == old(self).handed(),
            decreases self.raw_html.len() - self.position,
        {
            let ghost before = *self;
            let done = self.before_attribute_value_step();
            proof {
                self.stepped(&before);
                if moved {
                    self.follows_transitive(&before, old(self));
                }
                moved = true;
                before.handed_unfold();
                self.handed_unfold();
            }
            if done {
                break ;
            }
        }
    }

    /// One step of this state: the byte under the cursor is dealt with. The
    /// result tells whether the state hands over.
    pub(super) fn attribute_value_double_quoted_step(&mut self) -> (done: bool)
        requires
            old(self).wf(),
            old(self).state == State::AttributeValueDoubleQuoted,
            running(old(self).raw_html@, old(self)@),
        ensures
            final(self).same_source(old(self)),
            final(self)@ == step(
                old(self).raw_html@,
                old(self).tag_table(),
                old(self).ref_table(),
                old(self)@,
            ),
            final(self)@ == step_attribute_value_quoted(old(self).raw_html@, old(self)@, 0x22),
            done == (final(self).state != State::AttributeValueDoubleQuoted),
            !done ==> final(self).position == old(self).position + 1,
    {
        proof {
            reveal(Tokenizer::wf);
            reveal(step);
        }
        let b = self.raw_html[self.position];
        let mut done = false;
        if b == 0x22 {
            self.attribute_open = false;
            self.state = State::AfterAttributeValueQuoted;
            self.position += 1;
            done = true;
        } else if b == 0x26 {
            self.enter_reference(State::AttributeValueDoubleQuoted);
            self.position += 1;
            done = true;
        } else {
            if b == 0 {
                self.record(ErrorKind::UnexpectedNull);
            } else if b == EOF {
                self.record(ErrorKind::UnexpectedEndOfFileByte);
            }
            self.extend_value(1);
            self.position += 1;
        }
        assert(self@ =~= step_attribute_value_quoted(old(self).raw_html@, old(self)@, 0x22));
        done
    }

    /// An attribute value between double quotes.
    pub(super) fn attribute_value_double_quoted_state(&mut self)
        requires
            old(self).wf(),
            old(self).state == State::AttributeValueDoubleQuoted,
            running(old(self).raw_html@, old(self)@),
        ensures
            final(self).follows(old(self)),
            final(self)@ == handed_over(
                old(self).raw_html@,
                old(self).tag_table(),
                old(self).ref_table(),
                old(self)@,
            ),
    {
        let ghost mut moved = false;
        while self.position < self.raw_html.len()
            invariant_except_break
                self.state == State::AttributeValueDoubleQuoted,
                !moved ==> *self == *old(self),
                self.handed() == old(self).handed(),
                self.position >= self.raw_html@.len() ==> self.handed() == self@,
            invariant
                self.wf(),
                self.same_source(old(self)),
                moved ==> self.follows(old(self)),
                running(old(self).raw_html@, old(self)@),
            ensures
                self.follows(old(self)),
                self@ == old(self).handed(),
            decreases self.raw_html.len() - self.position,
        {
            let ghost before = *self;
            let done = self.attribute_value_double_quoted_step();
            proof {
                self.stepped(&before);
                if moved {
                    self.follows_transitive(&before, old(self));
                }
                moved = true;
                before.handed_unfold();
                self.handed_unfold();
            }
            if done {
                break ;
            }
        }
    }

    /// One step of this state: the byte under the cursor is dealt with. The
    /// result tells whether the state hands over.
    pub(super) fn attribute_value_single_quoted_step(&mut self) -> (done: bool)
        requires
            old(self).wf(),
            old(self).state == State::AttributeValueSingleQuoted,
            running(old(self).raw_html@, old(self)@),
        ensures
            final(self).same_source(old(self)),
            final(self)@ == step(
                old(self).raw_html@,
                old(self).tag_table(),
                old(self).ref_table(),
                old(self)@,
            ),
            final(self)@ == step_attribute_value_quoted(old(self).raw_html@, old(self)@, 0x27),
            done == (final(self).state != State::AttributeValueSingleQuoted),
            !done ==> final(self).position == old(self).position + 1,
    {
        proof {
            reveal(Tokenizer::wf);
            reveal(step);
        }
        let b = self.raw_html[self.position];
        let mut done = false;
        if b == 0x27 {
            self.attribute_open = false;
            self.state = State::AfterAttributeValueQuoted;
            self.position += 1;
            done = true;
        } else if b == 0x26 {
            self.enter_reference(State::AttributeValueSingleQuoted);
            self.position += 1;
            done = true;
        } else {
            if b == 0 {
                self.record(ErrorKind::UnexpectedNull);
            } else if b == EOF {
                self.record(ErrorKind::UnexpectedEndOfFileByte);
            }
            self.extend_value(1);
            self.position += 1;
        }
        assert(self@ =~= step_attribute_value_quoted(old(self).raw_html@, old(self)@, 0x27));
        done
    }

    /// An attribute value between single quotes.
    pub(super) fn attribute_value_single_quoted_state(&mut self)
        requires
            old(self).wf(),
            old(self).state == State::AttributeValueSingleQuoted,
            running(old(self).raw_html@, old(self)@),
        ensures
            final(self).follows(old(self)),
            final(self)@ == handed_over(
                old(self).raw_html@,
                old(self).tag_table(),
                old(self).ref_table(),
                old(self)@,
            ),
    {
        let ghost mut moved = false;
        while self.position < self.raw_html.len()
            invariant_except_break
                self.state == State::AttributeValueSingleQuoted,
                !moved ==> *self == *old(self),
                self.handed() == old(self).handed(),
                self.position >= self.raw_html@.len() ==> self.handed() == self@,
            invariant
                self.wf(),
                self.same_source(old(self)),
                moved ==> self.follows(old(self)),
                running(old(self).raw_html@, old(self)@),
            ensures
                self.follows(old(self)),
                self@ == old(self).handed(),
            decreases self.raw_html.len() - self.position,
        {
            let ghost before = *self;
            let done = self.attribute_value_single_quoted_step();
            proof {
                self.stepped(&before);
                if moved {
                    self.follows_transitive(&before, old(self));
                }
                moved = true;
                before.handed_unfold();
                self.handed_unfold();
            }
            if done {
                break ;
            }
        }
    }

    /// One step of this state: the byte under the cursor is dealt with. The
    /// result tells whether the state hands over.
    pub(super) fn attribute_value_unquoted_step(&mut self) -> (done: bool)
        requires
            old(self).wf(),
            old(self).state == State::AttributeValueUnquoted,
            running(old(self).raw_html@, old(self)@),
        ensures
            final(self).same_source(old(self)),
            final(self)@ == step(
                old(self).raw_html@,
                old(self).tag_table(),
                old(self).ref_table(),
                old(self)@,
            ),
            final(self)@ == step_attribute_value_unquoted(
                old(self).raw_html@,
                old(self).tag_table(),
                old(self)@,
            ),
            done == (final(self).state != State::AttributeValueUnquoted),
            !done ==> final(self).position == old(self).position + 1,
    {
        proof {
            reveal(Tokenizer::wf);
            reveal(step);
        }
        let b = self.raw_html[self.position];
        let mut done = false;
        if byte_is_space(b) {
            self.attribute_open = false;
            self.state = State::BeforeAttributeName;
            self.position += 1;
            done = true;
        } else if b == 0x26 {
            self.enter_reference(State::AttributeValueUnquoted);
            self.position += 1;
            done = true;
        } else if b == 0x3E {
            self.emit_current_token_no_text(0);
            self.state = State::Data;
            self.position += 1;
            self.token_start = self.position;
            done = true;
        } else {
            if b == 0 {
                self.record(ErrorKind::UnexpectedNull);
            } else if b == 0x22 || b == 0x27 || b == 0x3C || b == 0x3D || b == 0x60 {
                self.record(ErrorKind::UnexpectedCharacterInUnquotedAttributeValue);
            }
            self.extend_value(1);
            self.position += 1;
        }
        assert(self@ =~= step_attribute_value_unquoted(
            old(self).raw_html@,
            old(self).tag_table(),
            old(self)@,
        ));
        done
    }

    /// An attribute value without quotes, up to whitespace or `>`.
    pub(super) fn attribute_value_unquoted_state(&mut self)
        requires
            old(self).wf(),
            old(self).state == State::AttributeValueUnquoted,
            running(old(self).raw_html@, old(self)@),
        ensures
            final(self).follows(old(self)),
            final(self)@ == handed_over(
                old(self).raw_html@,
                old(self).tag_table(),
                old(self).ref_table(),
                old(self)@,
            ),
    {
        let ghost mut moved = false;
        while self.position < self.raw_html.len()
            invariant_except_break
                self.state == State::AttributeValueUnquoted,
                !moved ==> *self == *old(self),
                self.handed() == old(self).handed(),
                self.position >= self.raw_html@.len() ==> self.handed() == self@,
            invariant
                self.wf(),
                self.same_source(old(self)),
                moved ==> self.follows(old(self)),
                running(old(self).raw_html@, old(self)@),
            ensures
                self.follows(old(self)),
                self@ == old(self).handed(),
            decreases self.raw_html.len() - self.position,
        {
            let ghost before = *self;
            let done = self.attribute_value_unquoted_step();
            proof {
                self.stepped(&before);
                if moved {
                    self.follows_transitive(&before, old(self));
                }
                moved = true;
                before.handed_unfold();
                self.handed_unfold();
            }
            if done {
                break ;
            }
        }
    }

    /// Behind the closing quote of an attribute value.
    pub(super) fn after_attribute_value_quoted_state(&mut self)
        requires
            old(self).wf(),
            old(self).state == State::AfterAttributeValueQuoted,
            running(old(self).raw_html@, old(self)@),
        ensures
            final(self).follows(old(self)),
            final(self)@ == step(
                old(self).raw_html@,
                old(self).tag_table(),
                old(self).ref_table(),
                old(self)@,
            ),
            final(self)@ == step_after_attribute_value_quoted(
                old(self).raw_html@,
                old(self).tag_table(),
                old(self)@,
            ),
            final(self)@ == handed_over(
                old(self).raw_html@,
                old(self).tag_table(),
                old(self).ref_table(),
                old(self)@,
            ),
    {
        proof {
            reveal(Tokenizer::wf);
            reveal(step);
        }
        let b = self.raw_html[self.position];
        if byte_is_space(b) {
            self.state = State::BeforeAttributeName;
            self.position += 1;
        } else if b == 0x2F {
            self.state = State::SelfClosingStartTag;
            self.position += 1;
        } else if b == 0x3E {
            self.emit_current_token_no_text(0);
            self.state = State::Data;
            self.position += 1;
            self.token_start = self.position;
        } else {
            self.record(ErrorKind::MissingWhitespaceBetweenAttributes);
            self.state = State::BeforeAttributeName;
        }
        proof {
            assert(self@ =~= step_after_attribute_value_quoted(
                old(self).raw_html@,
                old(self).tag_table(),
                old(self)@,
            ));
            self.stepped(old(self));
            old(self).handed_unfold();
        }
    }
}

} // verus!
