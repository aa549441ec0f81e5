//! Text tokens measure their payload: the text size of every text token is
//! the length of what its bytes stand for. In Data and RCDATA that is the
//! length of the bytes with their character references resolved; in RAWTEXT,
//! where `&` starts no reference, the length of the bytes themselves.

use vstd::prelude::*;

use crate::decode::{decoded, decoded_bounds, held};
use crate::model::{finish, rank_at, run, running, step, step_progress, tokenization, Machine};
use crate::soundness::{initial_inv, run_inv, step_inv};
use crate::state::State;
use crate::tables::Table;
use crate::tokens::{TagID, TokenView};

verus! {

/// The length, as a 32-bit size, of the payload of a text token that bounds
/// the bytes of `input` from `start` to `end`.
pub open spec fn payload_len(
    input: Seq<u8>,
    refs: Table,
    plain: bool,
    start: int,
    end: int,
) -> int {
    if plain {
        end - start
    } else {
        held(decoded(input.subrange(start, end), refs).len() as int)
    }
}

/// Whether a token, if it is a text token, has the length of its payload for
/// its text size.
pub open spec fn token_measured(
    token: TokenView,
    input: Seq<u8>,
    refs: Table,
    plain: bool,
) -> bool {
    token.token_id == TagID::Text ==> token.text_size == payload_len(
        input,
        refs,
        plain,
        token.start as int,
        token.end as int,
    )
}

impl Machine {
    /// Every token emitted so far is measured.
    pub open spec fn tokens_measured(self, input: Seq<u8>, refs: Table, plain: bool) -> bool {
        forall|i: int|
            0 <= i < self.tokens.len() ==> token_measured(
                #[trigger] self.tokens[i],
                input,
                refs,
                plain,
            )
    }

    /// The tokens are measured, and the scan stays in the kind of text that
    /// it started in.
    pub open spec fn measured(self, input: Seq<u8>, refs: Table, plain: bool) -> bool {
        &&& self.tokens_measured(input, refs, plain)
        &&& self.state.is_plain() == plain
        &&& self.state.is_reference() ==> !self.return_state.is_plain()
    }
}

/// Every step keeps the tokens measured.
pub proof fn step_measured(
    input: Seq<u8>,
    tags: Table,
    refs: Table,
    m: Machine,
    plain: bool,
)
    requires
        m.inv(input),
        m.measured(input, refs, plain),
        running(input, m),
    ensures
        step(input, tags, refs, m).measured(input, refs, plain),
{
    reveal(step);
    let n = step(input, tags, refs, m);
    decoded_bounds(m.text_bytes(input), refs, 0);
    assert(n.tokens_measured(input, refs, plain));
}

/// A run keeps the tokens measured.
pub proof fn run_measured(input: Seq<u8>, tags: Table, refs: Table, m: Machine, plain: bool)
    requires
        m.inv(input),
        m.measured(input, refs, plain),
    ensures
        run(input, tags, refs, m).measured(input, refs, plain),
    decreases input.len() - m.position, rank_at(input, m),
{
    reveal(run);
    if running(input, m) {
        step_inv(input, tags, refs, m);
        step_measured(input, tags, refs, m, plain);
        step_progress(input, tags, refs, m);
        run_measured(input, tags, refs, step(input, tags, refs, m), plain);
    }
}

/// The text size of every text token of a tokenization is the length of its
/// decoded payload, whatever the input and the tables; of a tokenization
/// read as RAWTEXT, the length of its bytes.
pub proof fn tokenization_measured(input: Seq<u8>, tags: Table, refs: Table, state: State)
    requires
        input.len() <= u32::MAX,
        state.is_content(),
    ensures
        tokenization(input, tags, refs, state).tokens_measured(
            input,
            refs,
            state == State::Rawtext,
        ),
{
    let plain = state == State::Rawtext;
    let start = Machine::initial(state);
    initial_inv(input, state);
    run_inv(input, tags, refs, start);
    run_measured(input, tags, refs, start, plain);
    let rest = run(input, tags, refs, start);
    if rest.state.handled() {
        decoded_bounds(input.subrange(rest.token_start, rest.position), refs, 0);
        assert(finish(input, refs, rest).tokens_measured(input, refs, plain));
    }
}

} // verus!
