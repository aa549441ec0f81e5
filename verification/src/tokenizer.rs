//! The tokenizer: a cursor over an immutable byte buffer, a current state, and
//! the accumulators of the token in progress. Each state has a handler that
//! scans the bytes it owns and hands over on a byte that changes the state.

use vstd::prelude::*;
use vstd::slice::slice_subrange;
use vstd::string::StringSliceAdditionalSpecFns;

use crate::bytes::bytes_equal;
use crate::decode::{decoded_size, named_code, resolve_reference_name};
use crate::diagnostics::{ErrorKind, ParseError, Unhandled};
use crate::model::{
    finish, handed_over, handed_over_unfold, in_tag, name_bytes, name_taken, rank_at,
    reference_name, resolve, run, running, scan, step, step_progress, Machine,
};
use crate::soundness::{extends, finish_inv, handed_over_extends, step_inv};
use crate::state::State;
use crate::tables::{lookup, table_view, Table};
use crate::tokens::{into_boxed, token_views, Attribute, TagID, Token};

mod attribute;
mod reference;
mod tag;
mod text;

verus! {

/// Resolves a tag name through the tag table. Resolving never fails: a name
/// that the table does not hold gets the identifier of unknown elements.
pub fn resolve_tag_name(tags: &phf::Map<&'static [u8], u32>, name: &[u8]) -> (r: TagID)
    ensures
        r == resolve(table_view(*tags), name@),
{
    match lookup(tags, name) {
        Some(code) => {
            match TagID::from_code(code) {
                TagID::Text | TagID::EndOfFile => TagID::Undef,
                id => id,
            }
        },
        None => TagID::Undef,
    }
}

/// The scanner: one per input buffer, bound to the two lookup tables. Its
/// view is the machine of the model.
pub struct Tokenizer<'a> {
    /// The input. It is never written to.
    raw_html: &'a [u8],
    /// Tag names to tag codes.
    tags: &'a phf::Map<&'static [u8], u32>,
    /// Character reference names to code points.
    refs: &'a phf::Map<&'static [u8], u32>,
    state: State,
    return_state: State,
    /// The scan cursor.
    position: usize,
    /// Where the pending run of text starts.
    token_start: usize,
    tokens: Vec<Token>,
    errors: Vec<ParseError>,
    /// The bytes of the character reference in progress.
    temp_buffer: Vec<u8>,
    cur_attributes: Vec<Attribute>,
    /// Whether the last attribute is still being written.
    attribute_open: bool,
    /// Where the name of the tag in progress starts, and where it ends.
    cur_start: u32,
    cur_end: u32,
    /// How many bytes the pending run of text holds.
    cur_text_size: u32,
    cur_flags: u8,
    /// The code of the numeric character reference in progress.
    ref_code: u32,
}

impl<'a> View for Tokenizer<'a> {
    type V = Machine;

    closed spec fn view(&self) -> Machine {
        Machine {
            state: self.state,
            return_state: self.return_state,
            position: self.position as int,
            token_start: self.token_start as int,
            cur_text_size: self.cur_text_size as int,
            cur_start: self.cur_start as int,
            cur_end: self.cur_end as int,
            cur_flags: self.cur_flags,
            attributes: self.cur_attributes@,
            attribute_open: self.attribute_open,
            temp: self.temp_buffer@,
            ref_code: self.ref_code as int,
            tokens: token_views(self.tokens@),
            errors: self.errors@,
        }
    }
}

/// Whether `after` is further on than `before` in a scan of `input`: its
/// cursor is, or else its rank on the byte under the cursor is lower.
spec fn ahead(input: Seq<u8>, before: Machine, after: Machine) -> bool {
    after.position > before.position || (after.position == before.position && rank_at(
        input,
        after,
    ) < rank_at(input, before))
}

impl<'a> Tokenizer<'a> {
    /// The input buffer.
    pub closed spec fn input(&self) -> Seq<u8> {
        self.raw_html@
    }

    /// The contents of the tag table.
    pub closed spec fn tag_table(&self) -> Table {
        table_view(*self.tags)
    }

    /// The contents of the character reference table.
    pub closed spec fn ref_table(&self) -> Table {
        table_view(*self.refs)
    }

    /// The tokenizer is within the invariant of the scan.
    #[verifier::opaque]
    pub closed spec fn wf(&self) -> bool {
        self@.inv(self.raw_html@)
    }

    /// A tokenizer within the invariant has a machine within the invariant
    /// of the model; so what the laws of the model ask of a machine holds of
    /// it.
    pub proof fn wf_is_inv(&self)
        ensures
            self.wf() == self@.inv(self.input()),
    {
        reveal(Tokenizer::wf);
    }

    /// Whether `self` reads the same input with the same tables as `other`.
    spec fn same_source(&self, other: &Self) -> bool {
        &&& self.raw_html == other.raw_html
        &&& self.tags == other.tags
        &&& self.refs == other.refs
    }

    /// Whether `self` goes on from `before` on the same input and tables,
    /// in that one or more steps lead from `before` to it.
    spec fn follows(&self, before: &Self) -> bool {
        &&& self.same_source(before)
        &&& self.wf()
        &&& ahead(self.raw_html@, before@, self@)
        &&& run(self.raw_html@, self.tag_table(), self.ref_table(), self@) == run(
            before.raw_html@,
            before.tag_table(),
            before.ref_table(),
            before@,
        )
    }

    /// A tokenizer at the start of `raw_html`, in Data. It resolves tag names
    /// through `tags` and character reference names through `refs`. The
    /// input must be one that 32-bit offsets can address; `new_in` finds out
    /// by itself.
    pub fn new(
        raw_html: &'a str,
        tags: &'a phf::Map<&'static [u8], u32>,
        refs: &'a phf::Map<&'static [u8], u32>,
    ) -> (r: Self)
        requires
            raw_html.spec_bytes().len() <= u32::MAX,
        ensures
            r.wf(),
            r.input() == raw_html.spec_bytes(),
            r.tag_table() == table_view(*tags),
            r.ref_table() == table_view(*refs),
            r@ == Machine::initial(State::Data),
    {
        let r = Tokenizer {
            raw_html: raw_html.as_bytes(),
            tags,
            refs,
            state: State::Data,
            return_state: State::Data,
            position: 0usize,
            token_start: 0usize,
            tokens: Vec::new(),
            errors: Vec::new(),
            temp_buffer: Vec::with_capacity(10),
            cur_attributes: Vec::new(),
            attribute_open: false,
            cur_start: 0u32,
            cur_end: 0u32,
            cur_text_size: 0u32,
            cur_flags: 0u8,
            ref_code: 0u32,
        };
        proof {
            reveal(Tokenizer::wf);
            assert(r@ =~= Machine::initial(State::Data));
        }
        r
    }

    /// A tokenizer at the start of `raw_html` that reads it as the content of
    /// an element: in Data, in RCDATA or in RAWTEXT. There is none for a state
    /// that does not read text, and none for an input that 32-bit offsets
    /// cannot address.
    pub fn new_in(
        raw_html: &'a str,
        tags: &'a phf::Map<&'static [u8], u32>,
        refs: &'a phf::Map<&'static [u8], u32>,
        state: State,
    ) -> (r: Option<Self>)
        ensures
            r is Some <==> state.is_content() && raw_html.spec_bytes().len() <= u32::MAX,
            r matches Some(t) ==> {
                &&& t.wf()
                &&& t.input() == raw_html.spec_bytes()
                &&& t.tag_table() == table_view(*tags)
                &&& t.ref_table() == table_view(*refs)
                &&& t@ == Machine::initial(state)
            },
    {
        if state.reads_content() && raw_html.as_bytes().len() as u64 <= u32::MAX as u64 {
            let mut t = Tokenizer::new(raw_html, tags, refs);
            t.state = state;
            proof {
                reveal(Tokenizer::wf);
                assert(t@ =~= Machine::initial(state));
            }
            Some(t)
        } else {
            None
        }
    }

    /// The tokens emitted so far, in the order of the input.
    pub fn tokens(&self) -> (r: &Vec<Token>)
        ensures
            token_views(r@) == self@.tokens,
    {
        &self.tokens
    }

    /// The parse errors recorded so far, in the order in which they were met.
    pub fn errors(&self) -> (r: &Vec<ParseError>)
        ensures
            r@ == self@.errors,
    {
        &self.errors
    }

    /// Gives up the tokenizer for its tokens.
    pub fn into_tokens(self) -> (r: Vec<Token>)
        ensures
            token_views(r@) == self@.tokens,
    {
        self.tokens
    }

    /// The machine at which the handler of the current state hands over.
    spec fn handed(&self) -> Machine {
        handed_over(self.raw_html@, self.tag_table(), self.ref_table(), self@)
    }

    /// What `handed` is, one step unfolded.
    proof fn handed_unfold(&self)
        ensures
            self.handed() == (if running(self.raw_html@, self@) {
                let n = step(self.raw_html@, self.tag_table(), self.ref_table(), self@);
                if n.state == self@.state {
                    handed_over(self.raw_html@, self.tag_table(), self.ref_table(), n)
                } else {
                    n
                }
            } else {
                self@
            }),
    {
        handed_over_unfold(self.raw_html@, self.tag_table(), self.ref_table(), self@);
    }

    /// Records a parse error at the cursor.
    fn record(&mut self, kind: ErrorKind)
        requires
            old(self).position <= u32::MAX,
        ensures
            final(self)@ == old(self)@.error(kind),
            final(self).same_source(old(self)),
    {
        self.errors.push(ParseError { kind, position: self.position as u32 });
        assert(self@ =~= old(self)@.error(kind));
    }

    /// The step that `self` has just taken from `before` is a step of the
    /// machine: the scan goes on from here as it did from there.
    proof fn stepped(&self, before: &Self)
        requires
            before.wf(),
            running(before.raw_html@, before@),
            self.same_source(before),
            self@ == step(before.raw_html@, before.tag_table(), before.ref_table(), before@),
        ensures
            self.follows(before),
    {
        reveal(Tokenizer::wf);
        reveal(run);
        step_inv(before.raw_html@, before.tag_table(), before.ref_table(), before@);
        step_progress(before.raw_html@, before.tag_table(), before.ref_table(), before@);
    }

    /// Two stretches of a scan make one.
    proof fn follows_transitive(&self, middle: &Self, before: &Self)
        requires
            middle.follows(before),
            self.follows(middle),
        ensures
            self.follows(before),
    {
    }

    /// The identifier of the tag whose name lies between `start` and `end`.
    fn find_tag_id(&self, start: usize, end: usize) -> (r: TagID)
        requires
            start <= end <= self.raw_html@.len(),
        ensures
            r == resolve(self.tag_table(), self.raw_html@.subrange(start as int, end as int)),
    {
        resolve_tag_name(self.tags, slice_subrange(self.raw_html, start, end))
    }

    /// Starts an attribute whose name begins with the byte at the cursor.
    fn create_empty_attribute(&mut self)
        requires
            old(self).cur_start <= old(self).position <= u32::MAX,
        ensures
            final(self)@ == old(self)@.start_attribute(),
            final(self).same_source(old(self)),
    {
        let attr_start = (self.position - self.cur_start as usize) as u32;
        self.cur_attributes.push(Attribute::new(attr_start, 1, 0, 0));
        self.attribute_open = true;
        assert(self@ =~= old(self)@.start_attribute());
    }

    /// Text emission: the pending run of text becomes a token, unless it is
    /// empty. The token's text size is the length of its decoded payload, or,
    /// for `plain` text, of its bytes.
    fn emit_current_token_as_text(&mut self, plain: bool)
        requires
            old(self).token_start + old(self).cur_text_size <= old(self).raw_html@.len(),
            old(self).raw_html@.len() <= u32::MAX,
        ensures
            final(self)@ == old(self)@.flush_text(
                old(self).raw_html@,
                old(self).ref_table(),
                plain,
            ),
            final(self).same_source(old(self)),
    {
        if self.cur_text_size > 0 {
            let start = self.token_start;
            let end = start + self.cur_text_size as usize;
            let text_size = if plain {
                self.cur_text_size
            } else {
                decoded_size(slice_subrange(self.raw_html, start, end), self.refs)
            };
            self.tokens.push(
                Token::new_no_attributes(start as u32, end as u32, 0, text_size, TagID::Text, 0),
            );
            self.cur_text_size = 0;
            assert(self@ =~= old(self)@.flush_text(
                old(self).raw_html@,
                old(self).ref_table(),
                plain,
            ));
        }
    }

    /// Opens a tag at the cursor, after flushing the pending text.
    fn open_tag(&mut self, flags: u8)
        requires
            old(self).token_start + old(self).cur_text_size <= old(self).raw_html@.len(),
            old(self).position <= old(self).raw_html@.len() <= u32::MAX,
        ensures
            final(self)@ == old(self)@.open_tag(flags, old(self).raw_html@, old(self).ref_table()),
            final(self).same_source(old(self)),
    {
        self.emit_current_token_as_text(false);
        self.cur_start = self.position as u32;
        self.cur_end = self.position as u32;
        self.cur_flags = flags;
        self.cur_attributes.clear();
        self.attribute_open = false;
        assert(self@ =~= old(self)@.open_tag(
            flags,
            old(self).raw_html@,
            old(self).ref_table(),
        ));
    }

    /// Tag emission: the tag in progress becomes a token that ends at the
    /// cursor, with its resolved identifier and its attributes, and all
    /// accumulators are cleared. The cursor and the state stay as they are:
    /// the transition is the calling handler's.
    fn emit_current_token_no_text(&mut self, flags: u8)
        requires
            old(self).cur_start <= old(self).cur_end <= old(self).raw_html@.len(),
            old(self).position <= old(self).raw_html@.len() <= u32::MAX,
        ensures
            final(self)@ == old(self)@.emit_tag(old(self).raw_html@, old(self).tag_table(), flags),
            final(self)@.tokens == old(self)@.tokens.push(
                old(self)@.tag_token(old(self).raw_html@, old(self).tag_table(), flags),
            ),
            final(self)@.position == old(self)@.position,
            final(self)@.state == old(self)@.state,
            final(self)@.return_state == old(self)@.return_state,
            final(self)@.attributes.len() == 0,
            final(self)@.cur_start == 0 && final(self)@.cur_end == 0 && final(self)@.cur_flags == 0,
            final(self).same_source(old(self)),
    {
        let token_id = self.find_tag_id(self.cur_start as usize, self.cur_end as usize);
        let end = self.position as u32;
        let token = if self.cur_attributes.is_empty() {
            Token::new_no_attributes(self.cur_start, end, 0, 0, token_id, self.cur_flags | flags)
        } else {
            let mut attributes = Vec::new();
            core::mem::swap(&mut attributes, &mut self.cur_attributes);
            Token::new(
                into_boxed(attributes),
                self.cur_start,
                end,
                0,
                0,
                token_id,
                self.cur_flags | flags,
            )
        };
        self.tokens.push(token);
        self.clear_current_token();
        assert(self@ =~= old(self)@.emit_tag(old(self).raw_html@, old(self).tag_table(), flags));
    }

    /// Clears the accumulators of the token in progress.
    fn clear_current_token(&mut self)
        ensures
            final(self)@ == (Machine {
                cur_text_size: 0,
                cur_start: 0,
                cur_end: 0,
                cur_flags: 0,
                attributes: Seq::empty(),
                attribute_open: false,
                ..old(self)@
            }),
            final(self).same_source(old(self)),
    {
        self.cur_end = 0;
        self.cur_start = 0;
        self.cur_flags = 0;
        self.cur_text_size = 0;
        self.cur_attributes.clear();
        self.attribute_open = false;
        assert(self@ =~= (Machine {
            cur_text_size: 0,
            cur_start: 0,
            cur_end: 0,
            cur_flags: 0,
            attributes: Seq::empty(),
            attribute_open: false,
            ..old(self)@
        }));
    }

    /// `&` was met in state `from`: a character reference starts.
    fn enter_reference(&mut self, from: State)
        ensures
            final(self)@ == old(self)@.enter_reference(from),
            final(self).same_source(old(self)),
    {
        self.return_state = from;
        self.state = State::CharacterReference;
        self.temp_buffer.clear();
        self.temp_buffer.push(0x26);
        self.ref_code = 0;
        assert(self@ =~= old(self)@.enter_reference(from));
    }

    /// The name of the attribute in progress grows by one byte.
    fn extend_name(&mut self)
        requires
            old(self)@.writing() ==> old(self).cur_attributes@.last().name_size < u32::MAX,
        ensures
            final(self)@ == old(self)@.extend_name(),
            final(self).same_source(old(self)),
    {
        let n = self.cur_attributes.len();
        if self.attribute_open && n > 0 {
            let mut last = self.cur_attributes[n - 1];
            last.name_size = last.name_size + 1;
            self.cur_attributes[n - 1] = last;
            assert(self@ =~= old(self)@.extend_name());
        }
    }

    /// Whether the last attribute of the tag in progress has the name of an
    /// earlier one.
    fn name_is_taken(&self) -> (r: bool)
        requires
            self.cur_attributes@.len() > 0,
            self.raw_html@.len() <= u32::MAX,
            forall|i: int|
                0 <= i < self.cur_attributes@.len() ==> self.cur_start + (
                #[trigger] self.cur_attributes@[i]).name_begin + self.cur_attributes@[i].name_size
                    <= self.raw_html@.len(),
        ensures
            r == name_taken(self.raw_html@, self.cur_start as int, self.cur_attributes@),
    {
        let start = self.cur_start as usize;
        let n = self.cur_attributes.len() - 1;
        let last = self.cur_attributes[n];
        assert(self.cur_start + self.cur_attributes@[n as int].name_begin
            + self.cur_attributes@[n as int].name_size <= self.raw_html@.len());
        let last_begin = start + last.name_begin as usize;
        let last_name = slice_subrange(
            self.raw_html,
            last_begin,
            last_begin + last.name_size as usize,
        );
        let mut i: usize = 0;
        while i < n
            invariant
                i <= n,
                n == self.cur_attributes@.len() - 1,
                start == self.cur_start,
                last == self.cur_attributes@.last(),
                last_name@ == name_bytes(self.raw_html@, start as int, last),
                self.raw_html@.len() <= u32::MAX,
                forall|k: int|
                    0 <= k < self.cur_attributes@.len() ==> self.cur_start + (
                    #[trigger] self.cur_attributes@[k]).name_begin
                        + self.cur_attributes@[k].name_size <= self.raw_html@.len(),
                forall|k: int|
                    0 <= k < i ==> #[trigger] name_bytes(
                        self.raw_html@,
                        start as int,
                        self.cur_attributes@[k],
                    ) != last_name@,
            decreases n - i,
        {
            let earlier = self.cur_attributes[i];
            assert(self.cur_start + self.cur_attributes@[i as int].name_begin
                + self.cur_attributes@[i as int].name_size <= self.raw_html@.len());
            let begin = start + earlier.name_begin as usize;
            let name = slice_subrange(self.raw_html, begin, begin + earlier.name_size as usize);
            if bytes_equal(name, last_name) {
                assert(name_bytes(self.raw_html@, start as int, self.cur_attributes@[i as int])
                    == name_bytes(self.raw_html@, start as int, self.cur_attributes@.last()));
                return true;
            }
            i += 1;
        }
        false
    }

    /// The name of the attribute in progress is complete. Where the tag has
    /// an earlier attribute of that name, the new one is discarded.
    fn close_attribute_name(&mut self)
        requires
            old(self).position <= old(self).raw_html@.len() <= u32::MAX,
            forall|i: int|
                0 <= i < old(self).cur_attributes@.len() ==> old(self).cur_start + (
                #[trigger] old(self).cur_attributes@[i]).name_begin
                    + old(self).cur_attributes@[i].name_size <= old(self).raw_html@.len(),
        ensures
            final(self)@ == old(self)@.close_attribute_name(old(self).raw_html@),
            final(self).same_source(old(self)),
    {
        if self.attribute_open && self.cur_attributes.len() > 0 {
            if self.name_is_taken() {
                self.record(ErrorKind::DuplicateAttribute);
                self.cur_attributes.pop();
                self.attribute_open = false;
                assert(self@ =~= old(self)@.close_attribute_name(old(self).raw_html@));
            }
        }
    }

    /// The value of the attribute in progress starts at `at`, and is empty.
    fn begin_value(&mut self, at: usize)
        requires
            old(self).cur_start <= at <= u32::MAX,
        ensures
            final(self)@ == old(self)@.begin_value(at as int),
            final(self).same_source(old(self)),
    {
        let n = self.cur_attributes.len();
        if self.attribute_open && n > 0 {
            let mut last = self.cur_attributes[n - 1];
            last.value_begin = (at - self.cur_start as usize) as u32;
            last.value_size = 0;
            self.cur_attributes[n - 1] = last;
            assert(self@ =~= old(self)@.begin_value(at as int));
        }
    }

    /// The value of the attribute in progress grows by `n` bytes.
    fn extend_value(&mut self, n: u32)
        requires
            old(self)@.writing() ==> old(self).cur_attributes@.last().value_size + n <= u32::MAX,
        ensures
            final(self)@ == old(self)@.extend_value(n as int),
            final(self).same_source(old(self)),
    {
        let len = self.cur_attributes.len();
        if self.attribute_open && len > 0 {
            let mut last = self.cur_attributes[len - 1];
            last.value_size = last.value_size + n;
            self.cur_attributes[len - 1] = last;
            assert(self@ =~= old(self)@.extend_value(n as int));
        }
    }

    /// Whether the reference whose bytes, from `&` to `;`, are in the scratch
    /// buffer has a name that stands for a code point.
    fn reference_is_known(&self) -> (r: bool)
        requires
            self.temp_buffer@.len() >= 2,
        ensures
            r == (named_code(self.ref_table(), reference_name(self.temp_buffer@)) is Some),
    {
        let name = slice_subrange(self.temp_buffer.as_slice(), 1, self.temp_buffer.len() - 1);
        resolve_reference_name(self.refs, name).is_some()
    }

    /// The end of a character reference. Its bytes are appended to the one
    /// write target that the return state selects, and the scan resumes in
    /// that state.
    fn flush_reference(&mut self)
        requires
            old(self).temp_buffer@.len() <= u32::MAX,
            old(self).return_state.is_value() && old(self)@.writing() ==> old(
                self,
            ).cur_attributes@.last().value_size + old(self).temp_buffer@.len() <= u32::MAX,
            !old(self).return_state.is_value() ==> old(self).cur_text_size + old(
                self,
            ).temp_buffer@.len() <= u32::MAX,
        ensures
            final(self)@ == old(self)@.flush_reference(),
            final(self).same_source(old(self)),
    {
        let n = self.temp_buffer.len() as u32;
        match self.return_state {
            State::AttributeValueDoubleQuoted
            | State::AttributeValueSingleQuoted
            | State::AttributeValueUnquoted => {
                self.extend_value(n);
                self.state = self.return_state;
            },
            State::Data | State::Rcdata | State::Rawtext => {
                self.cur_text_size += n;
                self.state = self.return_state;
            },
            _ => {
                self.cur_text_size += n;
                self.state = State::Data;
            },
        }
        self.temp_buffer.clear();
        assert(self@ =~= old(self)@.flush_reference());
    }

    /// One turn of the dispatcher: the handler of the current state runs
    /// until it hands over. The tokens emitted before stay as they are, at
    /// most one is added, and all of them lie in order behind the cursor.
    fn induce_state(&mut self)
        requires
            old(self).wf(),
            running(old(self).raw_html@, old(self)@),
        ensures
            final(self).follows(old(self)),
            final(self)@ == handed_over(
                old(self).raw_html@,
                old(self).tag_table(),
                old(self).ref_table(),
                old(self)@,
            ),
            extends(old(self)@, final(self)@),
            final(self)@.tokens_ordered(),
            final(self)@.tokens_passed(),
    {
        proof {
            handed_over_extends(self.raw_html@, self.tag_table(), self.ref_table(), self@);
        }
        match self.state {
            State::Data => self.data_state(),
            State::Rcdata => self.rcdata_state(),
            State::Rawtext => self.rawtext_state(),
            State::TagOpen => self.tag_open_state(),
            State::EndTagOpen => self.end_tag_open_state(),
            State::TagName => self.tag_name_state(),
            State::RawtextLessThanSign => self.rawtext_less_than_sign_state(),
            State::RawtextEndTagOpen => self.rawtext_end_tag_open_state(),
            State::BeforeAttributeName => self.before_attribute_name_state(),
            State::AttributeName => self.attribute_name_state(),
            State::AfterAttributeName => self.after_attribute_name_state(),
            State::BeforeAttributeValue => self.before_attribute_value_state(),
            State::AttributeValueDoubleQuoted => self.attribute_value_double_quoted_state(),
            State::AttributeValueSingleQuoted => self.attribute_value_single_quoted_state(),
            State::AttributeValueUnquoted => self.attribute_value_unquoted_state(),
            State::AfterAttributeValueQuoted => self.after_attribute_value_quoted_state(),
            State::SelfClosingStartTag => self.self_closing_start_tag_state(),
            State::CharacterReference => self.character_reference_state(),
            State::NamedCharacterReference => self.named_character_reference_state(),
            State::NumericCharacterReference => self.numeric_character_reference_state(),
            State::HexadecimalCharacterReferenceStart => {
                self.hexadecimal_character_reference_start_state()
            },
            State::DecimalCharacterReferenceStart => {
                self.decimal_character_reference_start_state()
            },
            State::HexadecimalCharacterReference => self.hexadecimal_character_reference_state(),
            State::DecimalCharacterReference => self.decimal_character_reference_state(),
            State::NumericCharacterReferenceEnd => self.numeric_character_reference_end_state(),
            _ => {},
        }
        proof {
            reveal(Tokenizer::wf);
        }
    }

    /// Whether the tokenizer is inside a tag.
    fn is_in_tag(&self) -> (r: bool)
        ensures
            r == in_tag(self.state, self.return_state),
    {
        match self.state {
            State::TagName
            | State::BeforeAttributeName
            | State::AttributeName
            | State::AfterAttributeName
            | State::BeforeAttributeValue
            | State::AttributeValueDoubleQuoted
            | State::AttributeValueSingleQuoted
            | State::AttributeValueUnquoted
            | State::AfterAttributeValueQuoted
            | State::SelfClosingStartTag => true,
            State::CharacterReference
            | State::NamedCharacterReference
            | State::NumericCharacterReference
            | State::HexadecimalCharacterReferenceStart
            | State::DecimalCharacterReferenceStart
            | State::HexadecimalCharacterReference
            | State::DecimalCharacterReference
            | State::NumericCharacterReferenceEnd => {
                match self.return_state {
                    State::AttributeValueDoubleQuoted
                    | State::AttributeValueSingleQuoted
                    | State::AttributeValueUnquoted => true,
                    _ => false,
                }
            },
            _ => false,
        }
    }

    /// The end of the input: trailing text becomes the last token; a tag
    /// that `>` has not closed is discarded.
    fn finish(&mut self)
        requires
            old(self).wf(),
            old(self).state.handled(),
        ensures
            final(self).wf(),
            final(self).same_source(old(self)),
            final(self)@ == finish(old(self).raw_html@, old(self).ref_table(), old(self)@),
    {
        proof {
            reveal(Tokenizer::wf);
            finish_inv(self.raw_html@, self.ref_table(), self@);
        }
        if self.is_in_tag() {
            self.record(ErrorKind::EofInTag);
            self.clear_current_token();
        } else {
            let plain = self.state.reads_plain();
            self.cur_text_size = (self.position - self.token_start) as u32;
            self.emit_current_token_as_text(plain);
            self.cur_text_size = 0;
        }
        self.state = State::Data;
        self.token_start = self.position;
        self.temp_buffer.clear();
        assert(self@ =~= finish(old(self).raw_html@, old(self).ref_table(), old(self)@));
    }

    /// Scans the input to its end and leaves the tokens in `tokens()` and
    /// the parse errors in `errors()`: those of `scan`, exactly.
    ///
    /// Malformed input never makes the scan fail: each malformation has its
    /// fallback. The scan stops early, with an error that names the state and
    /// the offset, exactly where the run enters a state for which the
    /// tokenizer has no handler; the tokens emitted up to there are kept.
    pub fn tokenize(&mut self) -> (r: Result<(), Unhandled>)
        requires
            old(self).wf(),
        ensures
            final(self).wf(),
            final(self).input() == old(self).input(),
            final(self).tag_table() == old(self).tag_table(),
            final(self).ref_table() == old(self).ref_table(),
            final(self)@ == scan(
                old(self).input(),
                old(self).tag_table(),
                old(self).ref_table(),
                old(self)@,
            ),
            final(self)@.tokens_sound(old(self).input().len() as int),
            final(self)@.tokens_ordered(),
            final(self)@.tokens_passed(),
            r is Ok <==> run(
                old(self).input(),
                old(self).tag_table(),
                old(self).ref_table(),
                old(self)@,
            ).state.handled(),
            match r {
                Ok(_) => final(self)@.state == State::Data,
                Err(e) => !e.state.handled() && e.state == final(self)@.state && e.position
                    == final(self)@.position,
            },
    {
        while self.position < self.raw_html.len() && self.state.is_handled()
            invariant
                self.wf(),
                self.same_source(old(self)),
                run(self.raw_html@, self.tag_table(), self.ref_table(), self@) == run(
                    old(self).raw_html@,
                    old(self).tag_table(),
                    old(self).ref_table(),
                    old(self)@,
                ),
            decreases self.raw_html@.len() - self.position, rank_at(self.raw_html@, self@),
        {
            self.induce_state();
            proof {
                reveal(Tokenizer::wf);
            }
        }
        proof {
            reveal(run);
            reveal(Tokenizer::wf);
        }
        if self.state.is_handled() {
            self.finish();
            proof {
                reveal(Tokenizer::wf);
            }
            Ok(())
        } else {
            Err(Unhandled { state: self.state, position: self.position })
        }
    }
}

} // verus!
