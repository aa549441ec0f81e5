//! Laws of the machine: what resolving and single operations do,
//! and that every scan comes to rest and stays there.

use vstd::prelude::*;

use crate::model::{
    finish, rank_at, resolve, run, running, scan, step, step_progress, Machine, CLOSE_SELF,
};
use crate::soundness::run_inv;
use crate::tables::Table;
use crate::tokens::TagID;

verus! {

/// Resolving is a function of the name and the table alone: the same bytes
/// resolve to the same identifier, however often they are asked for.
pub proof fn resolve_is_stable(tags: Table, first: Seq<u8>, second: Seq<u8>)
    requires
        first =~= second,
    ensures
        resolve(tags, first) == resolve(tags, second),
{
}

/// Every name that the table does not hold resolves to one and the same
/// identifier, `Undef`.
pub proof fn resolve_unknown(tags: Table, name: Seq<u8>)
    requires
        tags.find(name) is None,
    ensures
        resolve(tags, name) == TagID::Undef,
{
}

/// Totality: a run comes to rest. From any machine, on any input, the run
/// ends with the input used up or in a state without a handler.
pub proof fn run_rests(input: Seq<u8>, tags: Table, refs: Table, m: Machine)
    ensures
        !running(input, run(input, tags, refs, m)),
    decreases input.len() - m.position, rank_at(input, m),
{
    reveal(run);
    if running(input, m) {
        step_progress(input, tags, refs, m);
        run_rests(input, tags, refs, step(input, tags, refs, m));
    }
}

/// Text suppression: an empty run of text is dropped, not emitted as a
/// token of no length.
pub proof fn empty_text_is_dropped(m: Machine, input: Seq<u8>, refs: Table, plain: bool)
    requires
        m.cur_text_size == 0,
    ensures
        m.flush_text(input, refs, plain) == m,
{
}

/// An attribute that has just been started has no value: its value offset
/// lies below its name offset.
pub proof fn started_attribute_has_no_value(m: Machine)
    requires
        0 < m.position - m.cur_start <= u32::MAX,
    ensures
        !m.start_attribute().attributes.last().has_value(),
{
}

/// An attribute whose value has begun has a value, be it empty: its value
/// offset does not lie below its name offset.
pub proof fn begun_value_is_present(m: Machine, at: int)
    requires
        m.writing(),
        m.attributes.last().name_begin <= at - m.cur_start <= u32::MAX,
    ensures
        m.begin_value(at).attributes.last().has_value(),
        m.begin_value(at).attributes.last().value_size == 0,
{
}

/// A character reference has one write target, selected by the return
/// state: its bytes go to the value of the attribute in progress or to the
/// text accumulator, and never to both.
pub proof fn reference_has_one_target(m: Machine)
    ensures
        m.return_state.is_value() ==> m.flush_reference().cur_text_size == m.cur_text_size,
        !m.return_state.is_value() ==> {
            &&& m.flush_reference().attributes == m.attributes
            &&& m.flush_reference().cur_text_size == m.cur_text_size + m.temp.len()
        },
        m.return_state.is_value() && m.writing() ==> {
            let before = m.attributes.last();
            let after = m.flush_reference().attributes.last();
            &&& m.flush_reference().attributes.len() == m.attributes.len()
            &&& after.value_size == (before.value_size + m.temp.len()) as u32
            &&& after.value_begin == before.value_begin
        },
{
}

/// A self-closing tag is one token, with the self-closing flag set.
pub proof fn self_closing_is_one_token(m: Machine, input: Seq<u8>, tags: Table)
    ensures
        m.emit_tag(input, tags, CLOSE_SELF).tokens == m.tokens.push(
            m.tag_token(input, tags, CLOSE_SELF),
        ),
        m.tag_token(input, tags, CLOSE_SELF).flags & CLOSE_SELF == CLOSE_SELF,
{
    let flags = m.cur_flags;
    assert((flags | 0x02) & 0x02 == 0x02) by (bit_vector);
}

/// A scan is final: a second scan from where a first one came to rest
/// changes nothing.
pub proof fn scan_twice(input: Seq<u8>, tags: Table, refs: Table, m: Machine)
    requires
        m.inv(input),
    ensures
        ({
            let once = scan(input, tags, refs, m);
            scan(input, tags, refs, once) == once
        }),
{
    reveal(run);
    let rest = run(input, tags, refs, m);
    let once = scan(input, tags, refs, m);
    run_inv(input, tags, refs, m);
    run_rests(input, tags, refs, m);
    assert(run(input, tags, refs, once) == once);
    if once.state.handled() {
        assert(finish(input, refs, once) =~= once);
    }
}

} // verus!
