//! The handlers of the states that open, name and close a tag.

use vstd::prelude::*;

use crate::bytes::{byte_is_letter, byte_is_space, EOF};
use crate::diagnostics::ErrorKind;
use crate::model::{
    handed_over, running, step, step_end_tag_open, step_self_closing_start_tag, step_tag_name,
    step_tag_open, CLOSE, CLOSE_SELF,
};
use crate::state::State;
use crate::tokenizer::Tokenizer;

verus! {

impl<'a> Tokenizer<'a> {
    /// Behind `<`: a letter opens a start tag, `/` may open an end tag; anything
    /// else leaves the `<` to the text.
    pub(super) fn tag_open_state(&mut self)
        requires
            old(self).wf(),
            old(self).state == State::TagOpen,
            running(old(self).raw_html@, old(self)@),
        ensures
            final(self).follows(old(self)),
            final(self)@ == step(
                old(self).raw_html@,
                old(self).tag_table(),
                old(self).ref_table(),
                old(self)@,
            ),
            final(self)@ == step_tag_open(old(self).raw_html@, old(self).ref_table(), old(self)@),
            final(self)@ == handed_over(
                old(self).raw_html@,
                old(self).tag_table(),
                old(self).ref_table(),
                old(self)@,
            ),
    {
        proof {
            reveal(Tokenizer::wf);
            reveal(step);
        }
        let b = self.raw_html[self.position];
        if byte_is_letter(b) {
            self.open_tag(0);
            self.state = State::TagName;
        } else if b == 0x21 {
            self.emit_current_token_as_text(false);
            self.state = State::MarkupDeclarationOpen;
            self.position += 1;
        } else if b == 0x2F {
            self.state = State::EndTagOpen;
            self.position += 1;
        } else if b == 0x3F {
            self.record(ErrorKind::UnexpectedQuestionMarkInsteadOfTagName);
            self.state = State::BogusComment;
        } else {
            self.record(ErrorKind::InvalidFirstCharacterOfTagName);
            self.cur_text_size += 1;
            self.state = State::Data;
        }
        proof {
            assert(self@ =~= step_tag_open(old(self).raw_html@, old(self).ref_table(), old(self)@));
            self.stepped(old(self));
            old(self).handed_unfold();
        }
    }

    /// Behind `</`: a letter opens an end tag; `>` ends the text before it and is
    /// dropped with it.
    pub(super) fn end_tag_open_state(&mut self)
        requires
            old(self).wf(),
            old(self).state == State::EndTagOpen,
            running(old(self).raw_html@, old(self)@),
        ensures
            final(self).follows(old(self)),
            final(self)@ == step(
                old(self).raw_html@,
                old(self).tag_table(),
                old(self).ref_table(),
                old(self)@,
            ),
            final(self)@ == step_end_tag_open(
                old(self).raw_html@,
                old(self).ref_table(),
                old(self)@,
            ),
            final(self)@ == handed_over(
                old(self).raw_html@,
                old(self).tag_table(),
                old(self).ref_table(),
                old(self)@,
            ),
    {
        proof {
            reveal(Tokenizer::wf);
            reveal(step);
        }
        let b = self.raw_html[self.position];
        if byte_is_letter(b) {
            self.open_tag(CLOSE);
            self.state = State::TagName;
        } else if b == 0x3E {
            self.record(ErrorKind::MissingEndTagName);
            self.emit_current_token_as_text(false);
            self.cur_text_size = 0;
            self.state = State::Data;
            self.position += 1;
            self.token_start = self.position;
        } else {
            self.record(ErrorKind::InvalidFirstCharacterOfTagName);
            self.state = State::BogusComment;
        }
        proof {
            assert(self@ =~= step_end_tag_open(
                old(self).raw_html@,
                old(self).ref_table(),
                old(self)@,
            ));
            self.stepped(old(self));
            old(self).handed_unfold();
        }
    }

    /// One step of this state: the byte under the cursor is dealt with. The
    /// result tells whether the state hands over.
    pub(super) fn tag_name_step(&mut self) -> (done: bool)
        requires
            old(self).wf(),
            old(self).state == State::TagName,
            running(old(self).raw_html@, old(self)@),
        ensures
            final(self).same_source(old(self)),
            final(self)@ == step(
                old(self).raw_html@,
                old(self).tag_table(),
                old(self).ref_table(),
                old(self)@,
            ),
            final(self)@ == step_tag_name(old(self).raw_html@, old(self).tag_table(), old(self)@),
            done == (final(self).state != State::TagName),
            !done ==> final(self).position == old(self).position + 1,
    {
        proof {
            reveal(Tokenizer::wf);
            reveal(step);
        }
        let b = self.raw_html[self.position];
        let mut done = false;
        if byte_is_space(b) {
            self.cur_end = self.position as u32;
            self.state = State::BeforeAttributeName;
            self.position += 1;
            done = true;
        } else if b == 0x2F {
            self.cur_end = self.position as u32;
            self.state = State::SelfClosingStartTag;
            self.position += 1;
            done = true;
        } else if b == 0x3E {
            self.cur_end = self.position as u32;
            self.emit_current_token_no_text(0);
            self.state = State::Data;
            self.position += 1;
            self.token_start = self.position;
            done = true;
        } else {
            if b == 0 {
                self.record(ErrorKind::UnexpectedNull);
            } else if b == EOF {
                self.record(ErrorKind::UnexpectedEndOfFileByte);
            }
            self.position += 1;
        }
        assert(self@ =~= step_tag_name(old(self).raw_html@, old(self).tag_table(), old(self)@));
        done
    }

    /// The name of a tag, up to whitespace, `/` or `>`.
    pub(super) fn tag_name_state(&mut self)
        requires
            old(self).wf(),
            old(self).state == State::TagName,
            running(old(self).raw_html@, old(self)@),
        ensures
            final(self).follows(old(self)),
            final(self)@ == handed_over(
                old(self).raw_html@,
                old(self).tag_table(),
                old(self).ref_table(),
                old(self)@,
            ),
    {
        let ghost mut moved = false;
        while self.position < self.raw_html.len()
            invariant_except_break
                self.state == State::TagName,
                !moved ==> *self == *old(self),
                self.handed() == old(self).handed(),
                self.position >= self.raw_html@.len() ==> self.handed() == self@,
            invariant
                self.wf(),
                self.same_source(old(self)),
                moved ==> self.follows(old(self)),
                running(old(self).raw_html@, old(self)@),
            ensures
                self.follows(old(self)),
                self@ == old(self).handed(),
            decreases self.raw_html.len() - self.position,
        {
            let ghost before = *self;
            let done = self.tag_name_step();
            proof {
                self.stepped(&before);
                if moved {
                    self.follows_transitive(&before, old(self));
                }
                moved = true;
                before.handed_unfold();
                self.handed_unfold();
            }
            if done {
                break ;
            }
        }
    }

    /// Behind `/` inside a tag: `>` closes the tag as self-closing.
    pub(super) fn self_closing_start_tag_state(&mut self)
        requires
            old(self).wf(),
            old(self).state == State::SelfClosingStartTag,
            running(old(self).raw_html@, old(self)@),
        ensures
            final(self).follows(old(self)),
            final(self)@ == step(
                old(self).raw_html@,
                old(self).tag_table(),
                old(self).ref_table(),
                old(self)@,
            ),
            final(self)@ == step_self_closing_start_tag(
                old(self).raw_html@,
                old(self).tag_table(),
                old(self)@,
            ),
            final(self)@ == handed_over(
                old(self).raw_html@,
                old(self).tag_table(),
                old(self).ref_table(),
                old(self)@,
            ),
    {
        proof {
            reveal(Tokenizer::wf);
            reveal(step);
        }
        let b = self.raw_html[self.position];
        if b == 0x3E {
            self.emit_current_token_no_text(CLOSE_SELF);
            self.state = State::Data;
            self.position += 1;
            self.token_start = self.position;
        } else {
            self.record(ErrorKind::UnexpectedSolidusInTag);
            self.state = State::BeforeAttributeName;
        }
        proof {
            assert(self@ =~= step_self_closing_start_tag(
                old(self).raw_html@,
                old(self).tag_table(),
                old(self)@,
            ));
            self.stepped(old(self));
            old(self).handed_unfold();
        }
    }
}

} // verus!
