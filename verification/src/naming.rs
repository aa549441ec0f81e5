//! Tag tokens name themselves: the identifier of every tag token is the
//! resolution of the name that the token's own bytes start with. A consumer
//! that holds the input and the tag table can check every identifier.

use vstd::prelude::*;

use crate::bytes::is_space;
use crate::model::{
    finish, in_tag, rank_at, resolve, run, running, step, step_progress, tokenization, Machine,
};
use crate::soundness::{initial_inv, run_inv, step_inv};
use crate::state::State;
use crate::tables::Table;
use crate::tokens::{tag_name_len, TagID, TokenView};

verus! {

/// Whether `b` can stand inside a tag's name.
pub open spec fn is_name_byte(b: u8) -> bool {
    !is_space(b) && b != 0x2F && b != 0x3E
}

/// Whether the bytes of `s` between `from` and `to` can all stand inside a
/// tag's name.
pub open spec fn all_name_bytes(s: Seq<u8>, from: int, to: int) -> bool {
    forall|k: int| from <= k < to ==> is_name_byte(#[trigger] s[k])
}

/// Whether a token's identifier is what its own name resolves to. A text
/// token has no name and the identifier `Text`.
pub open spec fn token_resolved(token: TokenView, input: Seq<u8>, tags: Table) -> bool {
    token.token_id != TagID::Text ==> token.token_id == resolve(
        tags,
        input.subrange(
            token.start as int,
            token.start + tag_name_len(input, token.start as int, token.end as int),
        ),
    )
}

impl Machine {
    /// Every token emitted so far is resolved.
    pub open spec fn tokens_resolved(self, input: Seq<u8>, tags: Table) -> bool {
        forall|i: int|
            0 <= i < self.tokens.len() ==> token_resolved(#[trigger] self.tokens[i], input, tags)
    }

    /// What holds of the name of the tag in progress: inside the name, all
    /// its bytes so far are name bytes; behind it, it is bounded by the
    /// whitespace or `/` that ended it.
    pub open spec fn naming(self, input: Seq<u8>, tags: Table) -> bool {
        &&& self.tokens_resolved(input, tags)
        &&& if self.state == State::TagName {
            all_name_bytes(input, self.cur_start, self.position)
        } else if in_tag(self.state, self.return_state) {
            &&& all_name_bytes(input, self.cur_start, self.cur_end)
            &&& self.cur_end < self.position
            &&& (is_space(input[self.cur_end]) || input[self.cur_end] == 0x2F)
        } else {
            true
        }
    }
}

/// A name that fills its whole span.
proof fn name_len_full(s: Seq<u8>, from: int, to: int)
    requires
        0 <= from <= to <= s.len(),
        all_name_bytes(s, from, to),
    ensures
        tag_name_len(s, from, to) == to - from,
    decreases to - from,
{
    if from < to {
        name_len_full(s, from + 1, to);
    }
}

/// A name that whitespace or `/` ends within its span.
proof fn name_len_stops(s: Seq<u8>, from: int, mid: int, to: int)
    requires
        0 <= from <= mid < to <= s.len(),
        all_name_bytes(s, from, mid),
        is_space(s[mid]) || s[mid] == 0x2F,
    ensures
        tag_name_len(s, from, to) == mid - from,
    decreases mid - from,
{
    if from < mid {
        name_len_stops(s, from + 1, mid, to);
    }
}

/// Every step keeps the tokens resolved.
pub proof fn step_naming(input: Seq<u8>, tags: Table, refs: Table, m: Machine)
    requires
        m.inv(input),
        m.naming(input, tags),
        running(input, m),
    ensures
        step(input, tags, refs, m).naming(input, tags),
{
    reveal(step);
    let n = step(input, tags, refs, m);
    if m.state == State::TagName {
        name_len_full(input, m.cur_start, m.position);
    } else if in_tag(m.state, m.return_state) {
        name_len_stops(input, m.cur_start, m.cur_end, m.position);
    }
    assert(n.tokens_resolved(input, tags));
}

/// A run keeps the tokens resolved.
pub proof fn run_naming(input: Seq<u8>, tags: Table, refs: Table, m: Machine)
    requires
        m.inv(input),
        m.naming(input, tags),
    ensures
        run(input, tags, refs, m).naming(input, tags),
    decreases input.len() - m.position, rank_at(input, m),
{
    reveal(run);
    if running(input, m) {
        step_inv(input, tags, refs, m);
        step_naming(input, tags, refs, m);
        step_progress(input, tags, refs, m);
        run_naming(input, tags, refs, step(input, tags, refs, m));
    }
}

/// Every tag token of a tokenization carries the identifier that its own name
/// resolves to, whatever the input and the tables.
pub proof fn tokenization_resolved(input: Seq<u8>, tags: Table, refs: Table, state: State)
    requires
        input.len() <= u32::MAX,
        state.is_content(),
    ensures
        tokenization(input, tags, refs, state).tokens_resolved(input, tags),
{
    let start = Machine::initial(state);
    initial_inv(input, state);
    run_inv(input, tags, refs, start);
    run_naming(input, tags, refs, start);
    let rest = run(input, tags, refs, start);
    assert(finish(input, refs, rest).tokens_resolved(input, tags));
}

} // verus!
