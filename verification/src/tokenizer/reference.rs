//! The handlers of the states that recognise a character reference.

use vstd::prelude::*;

use crate::bytes::{
    byte_is_alphanumeric, byte_is_digit, byte_is_hex_digit, byte_is_letter, hex_digit_value,
};
use crate::decode::{CODE_LIMIT};
use crate::diagnostics::ErrorKind;
use crate::model::{
    handed_over, running, step, step_character_reference, step_named_character_reference,
    step_numeric_character_reference, step_numeric_character_reference_end, step_reference_digits,
    step_reference_start,
};
use crate::state::State;
use crate::tokenizer::Tokenizer;

verus! {

impl<'a> Tokenizer<'a> {
    /// Behind `&`: a letter starts a named reference, `#` a numeric one; anything
    /// else leaves the `&` to the enclosing text or value.
    pub(super) fn character_reference_state(&mut self)
        requires
            old(self).wf(),
            old(self).state == State::CharacterReference,
            running(old(self).raw_html@, old(self)@),
        ensures
            final(self).follows(old(self)),
            final(self)@ == step(
                old(self).raw_html@,
                old(self).tag_table(),
                old(self).ref_table(),
                old(self)@,
            ),
            final(self)@ == step_character_reference(old(self).raw_html@, old(self)@),
            final(self)@ == handed_over(
                old(self).raw_html@,
                old(self).tag_table(),
                old(self).ref_table(),
                old(self)@,
            ),
    {
        proof {
            reveal(Tokenizer::wf);
            reveal(step);
        }
        let b = self.raw_html[self.position];
        if byte_is_letter(b) {
            self.state = State::NamedCharacterReference;
        } else if b == 0x23 {
            self.temp_buffer.push(b);
            self.state = State::NumericCharacterReference;
            self.position += 1;
        } else {
            self.flush_reference();
        }
        proof {
            assert(self@ =~= step_character_reference(old(self).raw_html@, old(self)@));
            self.stepped(old(self));
            old(self).handed_unfold();
        }
    }

    /// One step of this state: the byte under the cursor is dealt with. The
    /// result tells whether the state hands over.
    pub(super) fn named_character_reference_step(&mut self) -> (done: bool)
        requires
            old(self).wf(),
            old(self).state == State::NamedCharacterReference,
            running(old(self).raw_html@, old(self)@),
        ensures
            final(self).same_source(old(self)),
            final(self)@ == step(
                old(self).raw_html@,
                old(self).tag_table(),
                old(self).ref_table(),
                old(self)@,
            ),
            final(self)@ == step_named_character_reference(
                old(self).raw_html@,
                old(self).ref_table(),
                old(self)@,
            ),
            done == (final(self).state != State::NamedCharacterReference),
            !done ==> final(self).position == old(self).position + 1,
    {
        proof {
            reveal(Tokenizer::wf);
            reveal(step);
        }
        let b = self.raw_html[self.position];
        let mut done = false;
        if byte_is_alphanumeric(b) {
            self.temp_buffer.push(b);
            self.position += 1;
        } else if b == 0x3B {
            self.temp_buffer.push(b);
            if !self.reference_is_known() {
                self.record(ErrorKind::UnknownNamedCharacterReference);
            }
            self.flush_reference();
            self.position += 1;
            done = true;
        } else {
            self.record(ErrorKind::MissingSemicolonAfterCharacterReference);
            self.flush_reference();
            done = true;
        }
        assert(self@ =~= step_named_character_reference(
            old(self).raw_html@,
            old(self).ref_table(),
            old(self)@,
        ));
        done
    }

    /// The name of a character reference, up to `;`. The reference table says
    /// whether the name is known.
    pub(super) fn named_character_reference_state(&mut self)
        requires
            old(self).wf(),
            old(self).state == State::NamedCharacterReference,
            running(old(self).raw_html@, old(self)@),
        ensures
            final(self).follows(old(self)),
            final(self)@ == handed_over(
                old(self).raw_html@,
                old(self).tag_table(),
                old(self).ref_table(),
                old(self)@,
            ),
    {
        let ghost mut moved = false;
        while self.position < self.raw_html.len()
            invariant_except_break
                self.state == State::NamedCharacterReference,
                !moved ==> *self == *old(self),
                self.handed() == old(self).handed(),
                self.position >= self.raw_html@.len() ==> self.handed() == self@,
            invariant
                self.wf(),
                self.same_source(old(self)),
                moved ==> self.follows(old(self)),
                running(old(self).raw_html@, old(self)@),
            ensures
                self.follows(old(self)),
                self@ == old(self).handed(),
            decreases self.raw_html.len() - self.position,
        {
            let ghost before = *self;
            let done = self.named_character_reference_step();
            proof {
                self.stepped(&before);
                if moved {
                    self.follows_transitive(&before, old(self));
                }
                moved = true;
                before.handed_unfold();
                self.handed_unfold();
            }
            if done {
                break ;
            }
        }
    }

    /// Behind `&#`: `x` selects base sixteen, anything else base ten.
    pub(super) fn numeric_character_reference_state(&mut self)
        requires
            old(self).wf(),
            old(self).state == State::NumericCharacterReference,
            running(old(self).raw_html@, old(self)@),
        ensures
            final(self).follows(old(self)),
            final(self)@ == step(
                old(self).raw_html@,
                old(self).tag_table(),
                old(self).ref_table(),
                old(self)@,
            ),
            final(self)@ == step_numeric_character_reference(old(self).raw_html@, old(self)@),
            final(self)@ == handed_over(
                old(self).raw_html@,
                old(self).tag_table(),
                old(self).ref_table(),
                old(self)@,
            ),
    {
        proof {
            reveal(Tokenizer::wf);
            reveal(step);
        }
        let b = self.raw_html[self.position];
        if b == 0x78 || b == 0x58 {
            self.temp_buffer.push(b);
            self.state = State::HexadecimalCharacterReferenceStart;
            self.position += 1;
        } else {
            self.state = State::DecimalCharacterReferenceStart;
        }
        proof {
            assert(self@ =~= step_numeric_character_reference(old(self).raw_html@, old(self)@));
            self.stepped(old(self));
            old(self).handed_unfold();
        }
    }

    /// Behind `&#x`: a digit must follow.
    pub(super) fn hexadecimal_character_reference_start_state(&mut self)
        requires
            old(self).wf(),
            old(self).state == State::HexadecimalCharacterReferenceStart,
            running(old(self).raw_html@, old(self)@),
        ensures
            final(self).follows(old(self)),
            final(self)@ == step(
                old(self).raw_html@,
                old(self).tag_table(),
                old(self).ref_table(),
                old(self)@,
            ),
            final(self)@ == step_reference_start(old(self).raw_html@, old(self)@, true),
            final(self)@ == handed_over(
                old(self).raw_html@,
                old(self).tag_table(),
                old(self).ref_table(),
                old(self)@,
            ),
    {
        proof {
            reveal(Tokenizer::wf);
            reveal(step);
        }
        let b = self.raw_html[self.position];
        if byte_is_hex_digit(b) {
            self.state = State::HexadecimalCharacterReference;
        } else {
            self.record(ErrorKind::AbsenceOfDigitsInNumericCharacterReference);
            self.flush_reference();
        }
        proof {
            assert(self@ =~= step_reference_start(old(self).raw_html@, old(self)@, true));
            self.stepped(old(self));
            old(self).handed_unfold();
        }
    }

    /// Behind `&#`: a digit must follow.
    pub(super) fn decimal_character_reference_start_state(&mut self)
        requires
            old(self).wf(),
            old(self).state == State::DecimalCharacterReferenceStart,
            running(old(self).raw_html@, old(self)@),
        ensures
            final(self).follows(old(self)),
            final(self)@ == step(
                old(self).raw_html@,
                old(self).tag_table(),
                old(self).ref_table(),
                old(self)@,
            ),
            final(self)@ == step_reference_start(old(self).raw_html@, old(self)@, false),
            final(self)@ == handed_over(
                old(self).raw_html@,
                old(self).tag_table(),
                old(self).ref_table(),
                old(self)@,
            ),
    {
        proof {
            reveal(Tokenizer::wf);
            reveal(step);
        }
        let b = self.raw_html[self.position];
        if byte_is_digit(b) {
            self.state = State::DecimalCharacterReference;
        } else {
            self.record(ErrorKind::AbsenceOfDigitsInNumericCharacterReference);
            self.flush_reference();
        }
        proof {
            assert(self@ =~= step_reference_start(old(self).raw_html@, old(self)@, false));
            self.stepped(old(self));
            old(self).handed_unfold();
        }
    }

    /// One step of this state: the byte under the cursor is dealt with. The
    /// result tells whether the state hands over.
    pub(super) fn hexadecimal_character_reference_step(&mut self) -> (done: bool)
        requires
            old(self).wf(),
            old(self).state == State::HexadecimalCharacterReference,
            running(old(self).raw_html@, old(self)@),
        ensures
            final(self).same_source(old(self)),
            final(self)@ == step(
                old(self).raw_html@,
                old(self).tag_table(),
                old(self).ref_table(),
                old(self)@,
            ),
            final(self)@ == step_reference_digits(old(self).raw_html@, old(self)@, true),
            done == (final(self).state != State::HexadecimalCharacterReference),
            !done ==> final(self).position == old(self).position + 1,
    {
        proof {
            reveal(Tokenizer::wf);
            reveal(step);
        }
        let b = self.raw_html[self.position];
        let mut done = false;
        if byte_is_hex_digit(b) {
            self.temp_buffer.push(b);
            let code = self.ref_code * 16 + hex_digit_value(b);
            self.ref_code = if code >= CODE_LIMIT {
                CODE_LIMIT
            } else {
                code
            };
            self.position += 1;
        } else if b == 0x3B {
            self.temp_buffer.push(b);
            self.state = State::NumericCharacterReferenceEnd;
            self.position += 1;
            done = true;
        } else {
            self.record(ErrorKind::MissingSemicolonAfterCharacterReference);
            self.state = State::NumericCharacterReferenceEnd;
            done = true;
        }
        assert(self@ =~= step_reference_digits(old(self).raw_html@, old(self)@, true));
        done
    }

    /// The digits of a hexadecimal reference, up to `;`.
    pub(super) fn hexadecimal_character_reference_state(&mut self)
        requires
            old(self).wf(),
            old(self).state == State::HexadecimalCharacterReference,
            running(old(self).raw_html@, old(self)@),
        ensures
            final(self).follows(old(self)),
            final(self)@ == handed_over(
                old(self).raw_html@,
                old(self).tag_table(),
                old(self).ref_table(),
                old(self)@,
            ),
    {
        let ghost mut moved = false;
        while self.position < self.raw_html.len()
            invariant_except_break
                self.state == State::HexadecimalCharacterReference,
                !moved ==> *self == *old(self),
                self.handed() == old(self).handed(),
                self.position >= self.raw_html@.len() ==> self.handed() == self@,
            invariant
                self.wf(),
                self.same_source(old(self)),
                moved ==> self.follows(old(self)),
                running(old(self).raw_html@, old(self)@),
            ensures
                self.follows(old(self)),
                self@ == old(self).handed(),
            decreases self.raw_html.len() - self.position,
        {
            let ghost before = *self;
            let done = self.hexadecimal_character_reference_step();
            proof {
                self.stepped(&before);
                if moved {
                    self.follows_transitive(&before, old(self));
                }
                moved = true;
                before.handed_unfold();
                self.handed_unfold();
            }
            if done {
                break ;
            }
        }
    }

    /// One step of this state: the byte under the cursor is dealt with. The
    /// result tells whether the state hands over.
    pub(super) fn decimal_character_reference_step(&mut self) -> (done: bool)
        requires
            old(self).wf(),
            old(self).state == State::DecimalCharacterReference,
            running(old(self).raw_html@, old(self)@),
        ensures
            final(self).same_source(old(self)),
            final(self)@ == step(
                old(self).raw_html@,
                old(self).tag_table(),
                old(self).ref_table(),
                old(self)@,
            ),
            final(self)@ == step_reference_digits(old(self).raw_html@, old(self)@, false),
            done == (final(self).state != State::DecimalCharacterReference),
            !done ==> final(self).position == old(self).position + 1,
    {
        proof {
            reveal(Tokenizer::wf);
            reveal(step);
        }
        let b = self.raw_html[self.position];
        let mut done = false;
        if byte_is_digit(b) {
            self.temp_buffer.push(b);
            let code = self.ref_code * 10 + (b - 0x30) as u32;
            self.ref_code = if code >= CODE_LIMIT {
                CODE_LIMIT
            } else {
                code
            };
            self.position += 1;
        } else if b == 0x3B {
            self.temp_buffer.push(b);
            self.state = State::NumericCharacterReferenceEnd;
            self.position += 1;
            done = true;
        } else {
            self.record(ErrorKind::MissingSemicolonAfterCharacterReference);
            self.state = State::NumericCharacterReferenceEnd;
            done = true;
        }
        assert(self@ =~= step_reference_digits(old(self).raw_html@, old(self)@, false));
        done
    }

    /// The digits of a decimal reference, up to `;`.
    pub(super) fn decimal_character_reference_state(&mut self)
        requires
            old(self).wf(),
            old(self).state == State::DecimalCharacterReference,
            running(old(self).raw_html@, old(self)@),
        ensures
            final(self).follows(old(self)),
            final(self)@ == handed_over(
                old(self).raw_html@,
                old(self).tag_table(),
                old(self).ref_table(),
                old(self)@,
            ),
    {
        let ghost mut moved = false;
        while self.position < self.raw_html.len()
            invariant_except_break
                self.state == State::DecimalCharacterReference,
                !moved ==> *self == *old(self),
                self.handed() == old(self).handed(),
                self.position >= self.raw_html@.len() ==> self.handed() == self@,
            invariant
                self.wf(),
                self.same_source(old(self)),
                moved ==> self.follows(old(self)),
                running(old(self).raw_html@, old(self)@),
            ensures
                self.follows(old(self)),
                self@ == old(self).handed(),
            decreases self.raw_html.len() - self.position,
        {
            let ghost before = *self;
            let done = self.decimal_character_reference_step();
            proof {
                self.stepped(&before);
                if moved {
                    self.follows_transitive(&before, old(self));
                }
                moved = true;
                before.handed_unfold();
                self.handed_unfold();
            }
            if done {
                break ;
            }
        }
    }

    /// The end of a numeric reference: its code is checked, and its bytes go
    /// to the enclosing text or value. No byte is read.
    pub(super) fn numeric_character_reference_end_state(&mut self)
        requires
            old(self).wf(),
            old(self).state == State::NumericCharacterReferenceEnd,
            running(old(self).raw_html@, old(self)@),
        ensures
            final(self).follows(old(self)),
            final(self)@ == step(
                old(self).raw_html@,
                old(self).tag_table(),
                old(self).ref_table(),
                old(self)@,
            ),
            final(self)@ == step_numeric_character_reference_end(old(self)@),
            final(self)@ == handed_over(
                old(self).raw_html@,
                old(self).tag_table(),
                old(self).ref_table(),
                old(self)@,
            ),
    {
        proof {
            reveal(Tokenizer::wf);
            reveal(step);
        }
        if self.ref_code == 0 {
            self.record(ErrorKind::NullCharacterReference);
        } else if self.ref_code >= CODE_LIMIT {
            self.record(ErrorKind::CharacterReferenceOutsideUnicodeRange);
        } else if 0xD800 <= self.ref_code && self.ref_code <= 0xDFFF {
            self.record(ErrorKind::SurrogateCharacterReference);
        }
        self.flush_reference();
        proof {
            assert(self@ =~= step_numeric_character_reference_end(old(self)@));
            self.stepped(old(self));
            old(self).handed_unfold();
        }
    }
}

} // verus!
