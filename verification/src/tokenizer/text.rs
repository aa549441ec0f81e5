//! The handlers of the states that read text.

use vstd::prelude::*;

use crate::bytes::{byte_is_letter, EOF};
use crate::diagnostics::ErrorKind;
use crate::model::{
    handed_over, running, step, step_content, step_rawtext_end_tag_open,
    step_rawtext_less_than_sign,
};
use crate::state::State;
use crate::tokenizer::Tokenizer;

verus! {

impl<'a> Tokenizer<'a> {
    /// One step of this state: the byte under the cursor is dealt with. The
    /// result tells whether the state hands over.
    pub(super) fn data_step(&mut self) -> (done: bool)
        requires
            old(self).wf(),
            old(self).state == State::Data,
            running(old(self).raw_html@, old(self)@),
        ensures
            final(self).same_source(old(self)),
            final(self)@ == step(
                old(self).raw_html@,
                old(self).tag_table(),
                old(self).ref_table(),
                old(self)@,
            ),
            final(self)@ == step_content(old(self).raw_html@, old(self)@),
            done == (final(self).state != State::Data),
            !done ==> final(self).position == old(self).position + 1,
    {
        proof {
            reveal(Tokenizer::wf);
            reveal(step);
        }
        let b = self.raw_html[self.position];
        let mut done = false;
        if b == 0x26 {
            self.enter_reference(State::Data);
            self.position += 1;
            done = true;
        } else if b == 0x3C {
            self.state = State::TagOpen;
            self.position += 1;
            done = true;
        } else {
            if b == 0 {
                self.record(ErrorKind::UnexpectedNull);
            } else if b == EOF {
                self.record(ErrorKind::UnexpectedEndOfFileByte);
            }
            self.cur_text_size += 1;
            self.position += 1;
        }
        assert(self@ =~= step_content(old(self).raw_html@, old(self)@));
        done
    }

    /// Data: text up to `&` or `<`.
    pub(super) fn data_state(&mut self)
        requires
            old(self).wf(),
            old(self).state == State::Data,
            running(old(self).raw_html@, old(self)@),
        ensures
            final(self).follows(old(self)),
            final(self)@ == handed_over(
                old(self).raw_html@,
                old(self).tag_table(),
                old(self).ref_table(),
                old(self)@,
            ),
    {
        let ghost mut moved = false;
        while self.position < self.raw_html.len()
            invariant_except_break
                self.state == State::Data,
                !moved ==> *self == *old(self),
                self.handed() == old(self).handed(),
                self.position >= self.raw_html@.len() ==> self.handed() == self@,
            invariant
                self.wf(),
                self.same_source(old(self)),
                moved ==> self.follows(old(self)),
                running(old(self).raw_html@, old(self)@),
            ensures
                self.follows(old(self)),
                self@ == old(self).handed(),
            decreases self.raw_html.len() - self.position,
        {
            let ghost before = *self;
            let done = self.data_step();
            proof {
                self.stepped(&before);
                if moved {
                    self.follows_transitive(&before, old(self));
                }
                moved = true;
                before.handed_unfold();
                self.handed_unfold();
            }
            if done {
                break ;
            }
        }
    }

    /// One step of this state: the byte under the cursor is dealt with. The
    /// result tells whether the state hands over.
    pub(super) fn rcdata_step(&mut self) -> (done: bool)
        requires
            old(self).wf(),
            old(self).state == State::Rcdata,
            running(old(self).raw_html@, old(self)@),
        ensures
            final(self).same_source(old(self)),
            final(self)@ == step(
                old(self).raw_html@,
                old(self).tag_table(),
                old(self).ref_table(),
                old(self)@,
            ),
            final(self)@ == step_content(old(self).raw_html@, old(self)@),
            done == (final(self).state != State::Rcdata),
            !done ==> final(self).position == old(self).position + 1,
    {
        proof {
            reveal(Tokenizer::wf);
            reveal(step);
        }
        let b = self.raw_html[self.position];
        let mut done = false;
        if b == 0x26 {
            self.enter_reference(State::Rcdata);
            self.position += 1;
            done = true;
        } else if b == 0x3C {
            self.state = State::RcdataLessThanSign;
            self.position += 1;
            done = true;
        } else {
            if b == 0 {
                self.record(ErrorKind::UnexpectedNull);
            } else if b == EOF {
                self.record(ErrorKind::UnexpectedEndOfFileByte);
            }
            self.cur_text_size += 1;
            self.position += 1;
        }
        assert(self@ =~= step_content(old(self).raw_html@, old(self)@));
        done
    }

    /// RCDATA: text up to `&` or `<`.
    pub(super) fn rcdata_state(&mut self)
        requires
            old(self).wf(),
            old(self).state == State::Rcdata,
            running(old(self).raw_html@, old(self)@),
        ensures
            final(self).follows(old(self)),
            final(self)@ == handed_over(
                old(self).raw_html@,
                old(self).tag_table(),
                old(self).ref_table(),
                old(self)@,
            ),
    {
        let ghost mut moved = false;
        while self.position < self.raw_html.len()
            invariant_except_break
                self.state == State::Rcdata,
                !moved ==> *self == *old(self),
                self.handed() == old(self).handed(),
                self.position >= self.raw_html@.len() ==> self.handed() == self@,
            invariant
                self.wf(),
                self.same_source(old(self)),
                moved ==> self.follows(old(self)),
                running(old(self).raw_html@, old(self)@),
            ensures
                self.follows(old(self)),
                self@ == old(self).handed(),
            decreases self.raw_html.len() - self.position,
        {
            let ghost before = *self;
            let done = self.rcdata_step();
            proof {
                self.stepped(&before);
                if moved {
                    self.follows_transitive(&before, old(self));
                }
                moved = true;
                before.handed_unfold();
                self.handed_unfold();
            }
            if done {
                break ;
            }
        }
    }

    /// One step of this state: the byte under the cursor is dealt with. The
    /// result tells whether the state hands over.
    pub(super) fn rawtext_step(&mut self) -> (done: bool)
        requires
            old(self).wf(),
            old(self).state == State::Rawtext,
            running(old(self).raw_html@, old(self)@),
        ensures
            final(self).same_source(old(self)),
            final(self)@ == step(
                old(self).raw_html@,
                old(self).tag_table(),
                old(self).ref_table(),
                old(self)@,
            ),
            final(self)@ == step_content(old(self).raw_html@, old(self)@),
            done == (final(self).state != State::Rawtext),
            !done ==> final(self).position == old(self).position + 1,
    {
        proof {
            reveal(Tokenizer::wf);
            reveal(step);
        }
        let b = self.raw_html[self.position];
        let mut done = false;
        if b == 0x3C {
            self.state = State::RawtextLessThanSign;
            self.position += 1;
            done = true;
        } else {
            if b == 0 {
                self.record(ErrorKind::UnexpectedNull);
            } else if b == EOF {
                self.record(ErrorKind::UnexpectedEndOfFileByte);
            }
            self.cur_text_size += 1;
            self.position += 1;
        }
        assert(self@ =~= step_content(old(self).raw_html@, old(self)@));
        done
    }

    /// RAWTEXT: text up to `<`; `&` is text.
    pub(super) fn rawtext_state(&mut self)
        requires
            old(self).wf(),
            old(self).state == State::Rawtext,
            running(old(self).raw_html@, old(self)@),
        ensures
            final(self).follows(old(self)),
            final(self)@ == handed_over(
                old(self).raw_html@,
                old(self).tag_table(),
                old(self).ref_table(),
                old(self)@,
            ),
    {
        let ghost mut moved = false;
        while self.position < self.raw_html.len()
            invariant_except_break
                self.state == State::Rawtext,
                !moved ==> *self == *old(self),
                self.handed() == old(self).handed(),
                self.position >= self.raw_html@.len() ==> self.handed() == self@,
            invariant
                self.wf(),
                self.same_source(old(self)),
                moved ==> self.follows(old(self)),
                running(old(self).raw_html@, old(self)@),
            ensures
                self.follows(old(self)),
                self@ == old(self).handed(),
            decreases self.raw_html.len() - self.position,
        {
            let ghost before = *self;
            let done = self.rawtext_step();
            proof {
                self.stepped(&before);
                if moved {
                    self.follows_transitive(&before, old(self));
                }
                moved = true;
                before.handed_unfold();
                self.handed_unfold();
            }
            if done {
                break ;
            }
        }
    }

    /// Behind `<` in RAWTEXT: only `/` may lead out of the text.
    pub(super) fn rawtext_less_than_sign_state(&mut self)
        requires
            old(self).wf(),
            old(self).state == State::RawtextLessThanSign,
            running(old(self).raw_html@, old(self)@),
        ensures
            final(self).follows(old(self)),
            final(self)@ == step(
                old(self).raw_html@,
                old(self).tag_table(),
                old(self).ref_table(),
                old(self)@,
            ),
            final(self)@ == step_rawtext_less_than_sign(old(self).raw_html@, old(self)@),
            final(self)@ == handed_over(
                old(self).raw_html@,
                old(self).tag_table(),
                old(self).ref_table(),
                old(self)@,
            ),
    {
        proof {
            reveal(Tokenizer::wf);
            reveal(step);
        }
        let b = self.raw_html[self.position];
        if b == 0x2F {
            self.temp_buffer.clear();
            self.state = State::RawtextEndTagOpen;
            self.position += 1;
        } else {
            self.cur_text_size += 1;
            self.state = State::Rawtext;
        }
        proof {
            assert(self@ =~= step_rawtext_less_than_sign(old(self).raw_html@, old(self)@));
            self.stepped(old(self));
            old(self).handed_unfold();
        }
    }

    /// Behind `</` in RAWTEXT: only a letter may lead out of the text.
    pub(super) fn rawtext_end_tag_open_state(&mut self)
        requires
            old(self).wf(),
            old(self).state == State::RawtextEndTagOpen,
            running(old(self).raw_html@, old(self)@),
        ensures
            final(self).follows(old(self)),
            final(self)@ == step(
                old(self).raw_html@,
                old(self).tag_table(),
                old(self).ref_table(),
                old(self)@,
            ),
            final(self)@ == step_rawtext_end_tag_open(old(self).raw_html@, old(self)@),
            final(self)@ == handed_over(
                old(self).raw_html@,
                old(self).tag_table(),
                old(self).ref_table(),
                old(self)@,
            ),
    {
        proof {
            reveal(Tokenizer::wf);
            reveal(step);
        }
        let b = self.raw_html[self.position];
        if byte_is_letter(b) {
            self.state = State::RawtextEndTagName;
        } else {
            self.cur_text_size += 2;
            self.state = State::Rawtext;
        }
        proof {
            assert(self@ =~= step_rawtext_end_tag_open(old(self).raw_html@, old(self)@));
            self.stepped(old(self));
            old(self).handed_unfold();
        }
    }
}

} // verus!
