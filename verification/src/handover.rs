//! Where a handler hands over. The handler of a state scans the bytes on
//! which it stays in its state, and hands over with the step that it takes
//! on the first other byte, or at the end of the input. What the scan does
//! to the machine is told here field by field.

use vstd::prelude::*;

use crate::bytes::{is_alphanumeric, is_digit, is_hex_digit, is_space, EOF};
use crate::model::{
    handed_over, handed_over_unfold, less_than_state, name_taken, resolve, running, step, Machine,
};
use crate::soundness::step_inv;
use crate::state::State;
use crate::tables::Table;
use crate::tokens::{Attribute, TokenView};

verus! {

/// Whether the handler of `state` stays in its state on byte `b`: it consumes
/// the byte and looks at the next.
pub open spec fn stays(state: State, b: u8) -> bool {
    match state {
        State::Data | State::Rcdata => b != 0x26 && b != 0x3C,
        State::Rawtext => b != 0x3C,
        State::TagName => !is_space(b) && b != 0x2F && b != 0x3E,
        State::BeforeAttributeName | State::BeforeAttributeValue => is_space(b),
        State::AttributeName => !is_space(b) && b != 0x2F && b != 0x3E && b != EOF && b != 0x3D,
        State::AfterAttributeName => is_space(b) || b == EOF,
        State::AttributeValueDoubleQuoted => b != 0x22 && b != 0x26,
        State::AttributeValueSingleQuoted => b != 0x27 && b != 0x26,
        State::AttributeValueUnquoted => !is_space(b) && b != 0x26 && b != 0x3E,
        State::NamedCharacterReference => is_alphanumeric(b),
        State::HexadecimalCharacterReference => is_hex_digit(b),
        State::DecimalCharacterReference => is_digit(b),
        _ => false,
    }
}

/// Whether the handler of `m`'s state stays in its state on every byte from
/// the cursor up to `to`.
pub open spec fn stays_until(input: Seq<u8>, m: Machine, to: int) -> bool {
    forall|j: int| m.position <= j < to ==> stays(m.state, #[trigger] input[j])
}

/// What `count` bytes on which a handler stays do to the machine. The cursor
/// passes them. In a content state they join the pending text; in an
/// attribute's name or value they join the name or the value, where one is
/// being written. No token is emitted, and nothing else of the token in
/// progress changes.
pub open spec fn advanced(m: Machine, n: Machine, count: int) -> bool {
    &&& n.state == m.state
    &&& n.return_state == m.return_state
    &&& n.position == m.position + count
    &&& n.tokens == m.tokens
    &&& n.token_start == m.token_start
    &&& n.cur_start == m.cur_start
    &&& n.cur_end == m.cur_end
    &&& n.cur_flags == m.cur_flags
    &&& n.attribute_open == m.attribute_open
    &&& n.attributes.len() == m.attributes.len()
    &&& n.cur_text_size == m.cur_text_size + (if m.state.is_content() {
        count
    } else {
        0
    })
    &&& m.attributes.len() > 0 ==> {
        let before = m.attributes.last();
        let after = n.attributes.last();
        &&& n.attributes.drop_last() == m.attributes.drop_last()
        &&& after.name_begin == before.name_begin
        &&& after.value_begin == before.value_begin
        &&& after.name_size == before.name_size + (if m.state == State::AttributeName
            && m.writing() {
            count
        } else {
            0
        })
        &&& after.value_size == before.value_size + (if m.state.is_value() && m.writing() {
            count
        } else {
            0
        })
    }
}

/// A step stays in its state exactly on the bytes of `stays`, and then does
/// to the machine what one such byte does.
pub proof fn step_stays(input: Seq<u8>, tags: Table, refs: Table, m: Machine)
    requires
        m.inv(input),
        running(input, m),
    ensures
        (step(input, tags, refs, m).state == m.state) == stays(m.state, input[m.position]),
        stays(m.state, input[m.position]) ==> advanced(m, step(input, tags, refs, m), 1),
{
    reveal(step);
    let n = step(input, tags, refs, m);
    if stays(m.state, input[m.position]) && m.attributes.len() > 0 {
        assert(n.attributes.drop_last() =~= m.attributes.drop_last());
    }
}

/// The handler passes the bytes on which it stays: from `m`, with nothing
/// but such bytes up to `to`, it hands over where it does from a machine
/// `n` that has the cursor at `to` and is `m` advanced by those bytes. If a
/// byte is left there on which the handler does not stay, it hands over with
/// the step that it takes from `n` on that byte; at the end of the input it
/// hands over as `n`.
pub proof fn hands_over_behind(
    input: Seq<u8>,
    tags: Table,
    refs: Table,
    m: Machine,
    to: int,
) -> (n: Machine)
    requires
        m.inv(input),
        m.state.handled(),
        0 <= m.position <= to <= input.len(),
        stays_until(input, m, to),
    ensures
        n.inv(input),
        advanced(m, n, to - m.position),
        handed_over(input, tags, refs, m) == handed_over(input, tags, refs, n),
        to < input.len() && !stays(m.state, input[to]) ==> handed_over(input, tags, refs, m)
            == step(input, tags, refs, n),
        to == input.len() ==> handed_over(input, tags, refs, m) == n,
    decreases to - m.position,
{
    if m.position < to {
        let next = step(input, tags, refs, m);
        assert(stays(m.state, input[m.position]));
        step_stays(input, tags, refs, m);
        step_inv(input, tags, refs, m);
        handed_over_unfold(input, tags, refs, m);
        assert forall|j: int| next.position <= j < to implies stays(
            next.state,
            #[trigger] input[j],
        ) by {}
        let n = hands_over_behind(input, tags, refs, next, to);
        if m.attributes.len() > 0 {
            assert(n.attributes.drop_last() == m.attributes.drop_last());
        }
        n
    } else {
        handed_over_unfold(input, tags, refs, m);
        if to < input.len() && !stays(m.state, input[to]) {
            step_stays(input, tags, refs, m);
        }
        m
    }
}

/// A content handler scans to the first `<`, or `&` where `&` starts a
/// reference: it hands over behind that byte, in the state that the byte
/// leads to, with the bytes before it added to the pending text and no token
/// emitted.
pub proof fn content_hands_over(input: Seq<u8>, tags: Table, refs: Table, m: Machine, at: int)
    requires
        m.inv(input),
        m.state.is_content(),
        0 <= m.position <= at < input.len(),
        stays_until(input, m, at),
        !stays(m.state, input[at]),
    ensures
        ({
            let n = handed_over(input, tags, refs, m);
            &&& n.position == at + 1
            &&& n.tokens == m.tokens
            &&& n.token_start == m.token_start
            &&& n.cur_text_size == m.cur_text_size + (at - m.position)
            &&& if input[at] == 0x3C {
                n.state == less_than_state(m.state)
            } else {
                n.state == State::CharacterReference && n.return_state == m.state
            }
        }),
{
    let before = hands_over_behind(input, tags, refs, m, at);
    reveal(step);
}

/// The tag name handler scans to the first whitespace, `/` or `>`. At
/// whitespace or `/` the name ends there and no token is emitted. At `>` the
/// tag is emitted: one token from the start of the name to the `>`, with the
/// identifier that the name resolves to, and the machine is back in Data
/// behind the `>` with nothing in progress.
pub proof fn tag_name_hands_over(input: Seq<u8>, tags: Table, refs: Table, m: Machine, at: int)
    requires
        m.inv(input),
        m.state == State::TagName,
        0 <= m.position <= at < input.len(),
        stays_until(input, m, at),
        !stays(m.state, input[at]),
    ensures
        ({
            let n = handed_over(input, tags, refs, m);
            &&& n.position == at + 1
            &&& if input[at] == 0x3E {
                &&& n.state == State::Data
                &&& n.tokens == m.tokens.push(
                    TokenView {
                        attributes: None,
                        start: m.cur_start as u32,
                        end: at as u32,
                        text_off: 0,
                        text_size: 0,
                        flags: m.cur_flags | 0,
                        token_id: resolve(tags, input.subrange(m.cur_start, at)),
                    },
                )
                &&& n.token_start == at + 1
                &&& n.cur_text_size == 0
                &&& n.attributes.len() == 0
            } else {
                &&& n.state == (if input[at] == 0x2F {
                    State::SelfClosingStartTag
                } else {
                    State::BeforeAttributeName
                })
                &&& n.tokens == m.tokens
                &&& n.cur_start == m.cur_start
                &&& n.cur_end == at
            }
        }),
{
    let before = hands_over_behind(input, tags, refs, m, at);
    reveal(step);
}

/// The attribute name handler scans to the end of the name. The name has
/// grown by the bytes passed. If the tag already has an attribute of that
/// name, the new attribute is dropped there and the others stay as they
/// are; else all stay.
pub proof fn attribute_name_hands_over(
    input: Seq<u8>,
    tags: Table,
    refs: Table,
    m: Machine,
    at: int,
)
    requires
        m.inv(input),
        m.state == State::AttributeName,
        0 <= m.position <= at < input.len(),
        stays_until(input, m, at),
        !stays(m.state, input[at]),
    ensures
        ({
            let n = handed_over(input, tags, refs, m);
            let last = m.attributes.last();
            let named = m.attributes.drop_last().push(
                Attribute {
                    name_size: (last.name_size + (at - m.position)) as u32,
                    ..last
                },
            );
            &&& n.tokens == m.tokens
            &&& if input[at] == 0x3D {
                n.state == State::BeforeAttributeValue && n.position == at + 1
            } else {
                n.state == State::AfterAttributeName && n.position == at
            }
            &&& if name_taken(input, m.cur_start, named) {
                n.attributes == m.attributes.drop_last() && !n.attribute_open
            } else {
                n.attributes == named && n.attribute_open
            }
        }),
{
    let before = hands_over_behind(input, tags, refs, m, at);
    reveal(step);
    let last = m.attributes.last();
    let named = m.attributes.drop_last().push(
        Attribute { name_size: (last.name_size + (at - m.position)) as u32, ..last },
    );
    assert(before.attributes =~= named);
    assert(named.drop_last() =~= m.attributes.drop_last());
}

/// Where an attribute name may start, the handler skips whitespace. On `/`,
/// `>` or the end-of-input byte it hands the byte on, with the attributes
/// as they are. Any other byte starts exactly one attribute: its name
/// begins at that byte, holds that byte alone, and it has no value; the
/// cursor is behind the byte.
pub proof fn before_attribute_name_hands_over(
    input: Seq<u8>,
    tags: Table,
    refs: Table,
    m: Machine,
    at: int,
)
    requires
        m.inv(input),
        m.state == State::BeforeAttributeName,
        0 <= m.position <= at < input.len(),
        stays_until(input, m, at),
        !stays(m.state, input[at]),
    ensures
        ({
            let n = handed_over(input, tags, refs, m);
            &&& n.tokens == m.tokens
            &&& if input[at] == 0x2F || input[at] == 0x3E || input[at] == EOF {
                &&& n.state == State::AfterAttributeName
                &&& n.position == at
                &&& n.attributes == m.attributes
            } else {
                &&& n.state == State::AttributeName
                &&& n.position == at + 1
                &&& n.attribute_open
                &&& n.attributes == m.attributes.push(
                    Attribute {
                        name_begin: (at - m.cur_start) as u32,
                        name_size: 1,
                        value_begin: 0,
                        value_size: 0,
                    },
                )
                &&& !n.attributes.last().has_value()
            }
        }),
{
    let before = hands_over_behind(input, tags, refs, m, at);
    reveal(step);
    if m.attributes.len() > 0 {
        assert(before.attributes =~= before.attributes.drop_last().push(before.attributes.last()));
        assert(m.attributes =~= m.attributes.drop_last().push(m.attributes.last()));
    }
    assert(before.attributes =~= m.attributes);
}

/// Behind an attribute name, the handler skips whitespace. `>` emits the
/// tag with the attributes as they are; `=` leads to the value and `/` to
/// the end of a self-closing tag, both behind the byte; any other byte is
/// handed on to start the next attribute, and none is started here.
pub proof fn after_attribute_name_hands_over(
    input: Seq<u8>,
    tags: Table,
    refs: Table,
    m: Machine,
    at: int,
)
    requires
        m.inv(input),
        m.state == State::AfterAttributeName,
        0 <= m.position <= at < input.len(),
        stays_until(input, m, at),
        !stays(m.state, input[at]),
    ensures
        ({
            let n = handed_over(input, tags, refs, m);
            if input[at] == 0x3E {
                &&& n.state == State::Data
                &&& n.position == at + 1
                &&& n.tokens.len() == m.tokens.len() + 1
                &&& n.tokens.drop_last() == m.tokens
                &&& n.tokens.last().start == m.cur_start
                &&& n.tokens.last().end == at
                &&& n.tokens.last().attributes == (if m.attributes.len() == 0 {
                    None
                } else {
                    Some(m.attributes)
                })
                &&& n.attributes.len() == 0
            } else {
                &&& n.tokens == m.tokens
                &&& n.attributes == m.attributes
                &&& if input[at] == 0x2F {
                    n.state == State::SelfClosingStartTag && n.position == at + 1
                } else if input[at] == 0x3D {
                    n.state == State::BeforeAttributeValue && n.position == at + 1
                } else {
                    n.state == State::BeforeAttributeName && n.position == at
                }
            }
        }),
{
    let before = hands_over_behind(input, tags, refs, m, at);
    reveal(step);
    if m.attributes.len() > 0 {
        assert(before.attributes =~= before.attributes.drop_last().push(before.attributes.last()));
        assert(m.attributes =~= m.attributes.drop_last().push(m.attributes.last()));
    }
    assert(before.attributes =~= m.attributes);
    let n = handed_over(input, tags, refs, m);
    if input[at] == 0x3E {
        assert(n.tokens.drop_last() =~= m.tokens);
    }
}

/// Behind `=`, the handler skips whitespace. A quote then opens a quoted
/// value: the machine is behind the quote in the state of that quote, and
/// the attribute being written has an empty value that starts there.
pub proof fn before_attribute_value_hands_over(
    input: Seq<u8>,
    tags: Table,
    refs: Table,
    m: Machine,
    at: int,
)
    requires
        m.inv(input),
        m.state == State::BeforeAttributeValue,
        0 <= m.position <= at < input.len(),
        stays_until(input, m, at),
        input[at] == 0x22 || input[at] == 0x27,
    ensures
        ({
            let n = handed_over(input, tags, refs, m);
            &&& n.position == at + 1
            &&& n.state == (if input[at] == 0x22 {
                State::AttributeValueDoubleQuoted
            } else {
                State::AttributeValueSingleQuoted
            })
            &&& n.tokens == m.tokens
            &&& m.writing() ==> {
                &&& n.attributes.len() == m.attributes.len()
                &&& n.attributes.last().value_begin == at + 1 - m.cur_start
                &&& n.attributes.last().value_size == 0
                &&& n.attributes.last().has_value()
                &&& n.attributes.last().name_begin == m.attributes.last().name_begin
                &&& n.attributes.last().name_size == m.attributes.last().name_size
            }
        }),
{
    let before = hands_over_behind(input, tags, refs, m, at);
    reveal(step);
}

/// A value handler scans to the end of the value or to `&`. The value being
/// written has grown by the bytes passed; at `>` behind an unquoted value
/// the tag is emitted with its attributes, the last one with that value.
pub proof fn attribute_value_hands_over(
    input: Seq<u8>,
    tags: Table,
    refs: Table,
    m: Machine,
    at: int,
)
    requires
        m.inv(input),
        m.state.is_value(),
        0 <= m.position <= at < input.len(),
        stays_until(input, m, at),
        !stays(m.state, input[at]),
    ensures
        ({
            let n = handed_over(input, tags, refs, m);
            let last = m.attributes.last();
            let valued = if m.writing() {
                m.attributes.drop_last().push(
                    Attribute {
                        value_size: (last.value_size + (at - m.position)) as u32,
                        ..last
                    },
                )
            } else {
                m.attributes
            };
            &&& n.position == at + 1
            &&& if input[at] == 0x26 {
                &&& n.state == State::CharacterReference
                &&& n.return_state == m.state
                &&& n.tokens == m.tokens
                &&& n.attributes == valued
            } else if input[at] == 0x3E {
                &&& n.state == State::Data
                &&& n.tokens.len() == m.tokens.len() + 1
                &&& n.tokens.drop_last() == m.tokens
                &&& n.tokens.last().start == m.cur_start
                &&& n.tokens.last().end == at
                &&& n.tokens.last().attributes == (if valued.len() == 0 {
                    None
                } else {
                    Some(valued)
                })
                &&& n.tokens.last().token_id == resolve(
                    tags,
                    input.subrange(m.cur_start, m.cur_end),
                )
                &&& n.attributes.len() == 0
            } else {
                &&& n.state == (if m.state == State::AttributeValueUnquoted {
                    State::BeforeAttributeName
                } else {
                    State::AfterAttributeValueQuoted
                })
                &&& n.tokens == m.tokens
                &&& n.attributes == valued
                &&& !n.attribute_open
            }
        }),
{
    let before = hands_over_behind(input, tags, refs, m, at);
    reveal(step);
    if m.writing() {
        let last = m.attributes.last();
        let valued = m.attributes.drop_last().push(
            Attribute {
                value_size: (last.value_size + (at - m.position)) as u32,
                ..last
            },
        );
        assert(before.attributes =~= valued);
    } else {
        if m.attributes.len() > 0 {
            assert(before.attributes =~= before.attributes.drop_last().push(
                before.attributes.last(),
            ));
            assert(m.attributes =~= m.attributes.drop_last().push(m.attributes.last()));
        }
        assert(before.attributes =~= m.attributes);
    }
    let n = handed_over(input, tags, refs, m);
    if input[at] == 0x3E {
        assert(n.tokens.drop_last() =~= m.tokens);
    }
}

/// At the end of the input a handler hands over where it is, with the bytes
/// passed and no token emitted: a tag that `>` has not closed leaves the
/// tokens as they were.
pub proof fn hands_over_at_end(input: Seq<u8>, tags: Table, refs: Table, m: Machine)
    requires
        m.inv(input),
        m.state.handled(),
        stays_until(input, m, input.len() as int),
    ensures
        advanced(m, handed_over(input, tags, refs, m), input.len() - m.position),
        handed_over(input, tags, refs, m).tokens == m.tokens,
{
    let n = hands_over_behind(input, tags, refs, m, input.len() as int);
}

} // verus!
