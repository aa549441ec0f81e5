//! No tag token has two attributes of the same name: of the attributes that
//! a tag was written with under one name, the first is kept and the later
//! ones are discarded.

use vstd::prelude::*;

use crate::model::{
    finish, in_tag, name_bytes, name_taken, rank_at, run, running, step, step_progress,
    tokenization, Machine,
};
use crate::soundness::{initial_inv, run_inv, step_inv};
use crate::state::State;
use crate::tables::Table;
use crate::tokens::{Attribute, TokenView};

verus! {

/// Whether the attributes of a list, in a token that starts at `start`, have
/// names that differ from one another.
pub open spec fn distinct_names(input: Seq<u8>, start: int, attributes: Seq<Attribute>) -> bool {
    forall|i: int, j: int|
        0 <= i < j < attributes.len() ==> #[trigger] name_bytes(input, start, attributes[i])
            != #[trigger] name_bytes(input, start, attributes[j])
}

/// Whether a token has no two attributes of the same name.
pub open spec fn token_distinct(token: TokenView, input: Seq<u8>) -> bool {
    match token.attributes {
        Some(attributes) => distinct_names(input, token.start as int, attributes),
        None => true,
    }
}

impl Machine {
    /// No token emitted so far has two attributes of the same name.
    pub open spec fn tokens_distinct(self, input: Seq<u8>) -> bool {
        forall|i: int|
            0 <= i < self.tokens.len() ==> token_distinct(#[trigger] self.tokens[i], input)
    }

    /// What holds of the names of the attributes of the tag in progress:
    /// they differ from one another, but for the one whose name is still
    /// being read.
    pub open spec fn unique(self, input: Seq<u8>) -> bool {
        &&& self.tokens_distinct(input)
        &&& if self.state == State::AttributeName {
            distinct_names(input, self.cur_start, self.attributes.drop_last())
        } else if in_tag(self.state, self.return_state) {
            distinct_names(input, self.cur_start, self.attributes)
        } else {
            true
        }
    }
}

/// Names that differ still do once the last attribute has changed in
/// anything but its name.
proof fn distinct_after_update(
    input: Seq<u8>,
    start: int,
    attributes: Seq<Attribute>,
    last: Attribute,
)
    requires
        attributes.len() > 0,
        distinct_names(input, start, attributes),
        last.name_begin == attributes.last().name_begin,
        last.name_size == attributes.last().name_size,
    ensures
        distinct_names(input, start, attributes.update(attributes.len() - 1, last)),
{
    let updated = attributes.update(attributes.len() - 1, last);
    assert forall|i: int, j: int| 0 <= i < j < updated.len() implies name_bytes(
        input,
        start,
        updated[i],
    ) != name_bytes(input, start, updated[j]) by {
        assert(name_bytes(input, start, updated[i]) == name_bytes(input, start, attributes[i]));
        assert(name_bytes(input, start, updated[j]) == name_bytes(input, start, attributes[j]));
    }
}

/// Names that differ still do with one more attribute whose name is not
/// taken.
proof fn distinct_with_last(input: Seq<u8>, start: int, attributes: Seq<Attribute>)
    requires
        attributes.len() > 0,
        distinct_names(input, start, attributes.drop_last()),
        !name_taken(input, start, attributes),
    ensures
        distinct_names(input, start, attributes),
{
    let earlier = attributes.drop_last();
    assert forall|i: int, j: int| 0 <= i < j < attributes.len() implies name_bytes(
        input,
        start,
        attributes[i],
    ) != name_bytes(input, start, attributes[j]) by {
        assert(attributes[i] == earlier[i]);
        if j < attributes.len() - 1 {
            assert(attributes[j] == earlier[j]);
        } else {
            assert(attributes[j] == attributes.last());
        }
    }
}

/// Every step keeps the names apart.
pub proof fn step_unique(input: Seq<u8>, tags: Table, refs: Table, m: Machine)
    requires
        m.inv(input),
        m.unique(input),
        running(input, m),
    ensures
        step(input, tags, refs, m).unique(input),
{
    reveal(step);
    let n = step(input, tags, refs, m);
    let start = m.cur_start;
    if m.state == State::AttributeName {
        if m.writing() && !name_taken(input, start, m.attributes) {
            distinct_with_last(input, start, m.attributes);
        }
        if n.state == State::AttributeName {
            assert(n.attributes.drop_last() =~= m.attributes.drop_last());
        }
    } else if m.state == State::BeforeAttributeName {
        if n.state == State::AttributeName {
            assert(n.attributes.drop_last() =~= m.attributes);
        }
    } else if in_tag(m.state, m.return_state) && m.writing() && n.attributes.len()
        == m.attributes.len() {
        distinct_after_update(input, start, m.attributes, n.attributes.last());
        assert(n.attributes =~= m.attributes.update(m.attributes.len() - 1, n.attributes.last()));
    }
    assert(n.tokens_distinct(input));
}

/// A run keeps the names apart.
pub proof fn run_unique(input: Seq<u8>, tags: Table, refs: Table, m: Machine)
    requires
        m.inv(input),
        m.unique(input),
    ensures
        run(input, tags, refs, m).unique(input),
    decreases input.len() - m.position, rank_at(input, m),
{
    reveal(run);
    if running(input, m) {
        step_inv(input, tags, refs, m);
        step_unique(input, tags, refs, m);
        step_progress(input, tags, refs, m);
        run_unique(input, tags, refs, step(input, tags, refs, m));
    }
}

/// The attributes of every tag token of a tokenization have names that
/// differ from one another, whatever the input and the tables.
pub proof fn tokenization_distinct(input: Seq<u8>, tags: Table, refs: Table, state: State)
    requires
        input.len() <= u32::MAX,
        state.is_content(),
    ensures
        tokenization(input, tags, refs, state).tokens_distinct(input),
{
    let start = Machine::initial(state);
    initial_inv(input, state);
    run_inv(input, tags, refs, start);
    run_unique(input, tags, refs, start);
    let rest = run(input, tags, refs, start);
    assert(finish(input, refs, rest).tokens_distinct(input));
}

} // verus!
