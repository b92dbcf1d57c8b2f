//! The demultiplexing session: a resumable state machine that refills the
//! buffer, frames one record at a time, copies it out and hands it over.
//! Reading from the byte source is the caller's part: when the session asks
//! for bytes, the caller reads and passes what it got to `supply`.
use vstd::prelude::*;
use vstd::slice::slice_subrange;
use crate::buffer::SlidingBuffer;
use crate::frame::{
    FlvHeader, Parse, FILE_HEADER_LEN, TAG_HEADER_LEN, parse_file_header, frame_record,
    magic_agrees, file_header_of, record_malformed, record_short, record_span, record_header,
    record_payload,
};
use crate::types::{Tag, data_matches};

verus! {

/// A fatal condition of a session.
#[derive(Clone, Copy, Debug, PartialEq, Eq, Structural)]
pub enum DemuxError {
    /// The file header breaks the grammar, or the source ended inside it.
    MalformedHeader { offset: u64 },
    /// A record breaks the grammar at this byte offset of the stream.
    MalformedRecord { offset: u64 },
    /// More space was needed but the buffer is already at its ceiling.
    CapacityLimitExceeded { capacity: usize },
    /// The byte source reported a failure.
    SourceReadFailure,
}

/// Where a session stands between two calls.
#[derive(Clone, Copy, Debug, PartialEq, Eq, Structural)]
pub enum State {
    /// Waiting for the caller to `supply` bytes.
    Filling,
    /// Ready to frame what the buffer holds.
    Parsing,
    /// The source is drained; the number of records emitted.
    Done(u64),
    /// The session stopped on an error.
    Failed(DemuxError),
}

/// What `resume` hands to the caller.
#[derive(Clone, Debug, PartialEq, Eq)]
pub enum Step {
    /// Read at most `writable_len()` bytes from the source and `supply` them.
    NeedBytes,
    /// The next record, owned by the caller.
    Record(Tag),
    /// The session is over; the number of records emitted.
    Done(u64),
    /// The session stopped on this error.
    Failed(DemuxError),
}

/// Sum of a sequence of lengths.
pub open spec fn total(s: Seq<nat>) -> nat
    decreases s.len(),
{
    if s.len() == 0 {
        0
    } else {
        total(s.drop_last()) + s.last()
    }
}

/// A session as mathematical values.
pub ghost struct DemuxView {
    /// Every byte supplied so far, in order.
    pub received: Seq<u8>,
    /// The unread bytes in the buffer.
    pub window: Seq<u8>,
    /// Bytes consumed so far.
    pub consumed: nat,
    /// The byte span of each item consumed so far, file header first.
    pub spans: Seq<nat>,
    /// Records emitted so far.
    pub count: nat,
    /// The file header, once parsed.
    pub header: Option<FlvHeader>,
    pub state: State,
    /// A `supply` of no bytes has been seen.
    pub source_ended: bool,
    /// Consumed bytes that still occupy the front of the buffer.
    pub position: nat,
    pub capacity: nat,
    pub max_capacity: nat,
}

impl DemuxView {
    /// Bytes the buffer can still take.
    pub open spec fn space(self) -> int {
        self.capacity - self.position - self.window.len()
    }

    /// The file header is parsed, or is complete in the window.
    pub open spec fn header_ready(self) -> bool {
        self.header is Some || (magic_agrees(self.window) && self.window.len() >= FILE_HEADER_LEN)
    }

    /// The capacity that a full buffer grows to.
    pub open spec fn next_capacity(self) -> nat {
        if 2 * self.capacity <= self.max_capacity {
            2 * self.capacity
        } else {
            self.max_capacity
        }
    }
}

/// The read cursor after `count` bytes are consumed from a buffer whose
/// cursor was at `position`: the unread bytes move to the front once the
/// cursor passes half of the capacity.
pub open spec fn position_after(position: nat, count: nat, capacity: nat) -> nat {
    if position + count > capacity / 2 {
        0
    } else {
        position + count
    }
}

/// The session once a complete file header at the front of the window has
/// been consumed; unchanged if the header was already parsed or is not yet
/// complete.
pub open spec fn after_header(o: DemuxView) -> DemuxView {
    if o.header is None && o.header_ready() {
        DemuxView {
            window: o.window.skip(FILE_HEADER_LEN as int),
            consumed: o.consumed + FILE_HEADER_LEN as nat,
            spans: o.spans.push(FILE_HEADER_LEN as nat),
            header: Some(file_header_of(o.window)),
            position: position_after(o.position, FILE_HEADER_LEN as nat, o.capacity),
            ..o
        }
    } else {
        o
    }
}

/// `f` is `o` with only the state changed to `state`.
pub open spec fn with_state(o: DemuxView, f: DemuxView, state: State) -> bool {
    f == (DemuxView { state, ..o })
}

/// What the session does when the window holds only part of the next item
/// (the file header if `in_header`, else a record): at the end of the source
/// a partial header is an error and a partial record ends the session;
/// otherwise it asks for bytes, first doubling the buffer (up to its ceiling)
/// when no space is left.
pub open spec fn incomplete_outcome(o: DemuxView, f: DemuxView, r: Step, in_header: bool) -> bool {
    if o.source_ended {
        if in_header {
            let e = DemuxError::MalformedHeader { offset: o.consumed as u64 };
            r == Step::Failed(e) && with_state(o, f, State::Failed(e))
        } else {
            r == Step::Done(o.count as u64) && with_state(o, f, State::Done(o.count as u64))
        }
    } else if o.space() == 0 && o.capacity >= o.max_capacity {
        let e = DemuxError::CapacityLimitExceeded { capacity: o.capacity as usize };
        r == Step::Failed(e) && with_state(o, f, State::Failed(e))
    } else {
        &&& r == Step::NeedBytes
        &&& o.space() == 0 ==> f == (DemuxView {
            state: State::Filling,
            capacity: o.next_capacity(),
            position: 0,
            ..o
        })
        &&& o.space() != 0 ==> with_state(o, f, State::Filling)
        &&& f.space() > 0
    }
}

/// `f` is `m` after the record at the front of its window was handed out as
/// `t`: the record's bytes are consumed and counted.
pub open spec fn emitted(m: DemuxView, f: DemuxView, t: Tag) -> bool {
    let w = m.window;
    let span = record_span(w);
    &&& t.header == record_header(w)
    &&& data_matches(t.data, t.header.tag_type, record_payload(w))
    &&& f == (DemuxView {
        window: w.skip(span),
        consumed: m.consumed + span as nat,
        spans: m.spans.push(span as nat),
        count: m.count + 1,
        position: position_after(m.position, span as nat, m.capacity),
        ..m
    })
}

/// One parsing step from `o`: take out the file header if it is still due,
/// then frame the record at the front of the window.
pub open spec fn parsing_outcome(o: DemuxView, f: DemuxView, r: Step) -> bool {
    if !o.header_ready() {
        if !magic_agrees(o.window) {
            let e = DemuxError::MalformedHeader { offset: o.consumed as u64 };
            r == Step::Failed(e) && with_state(o, f, State::Failed(e))
        } else {
            incomplete_outcome(o, f, r, true)
        }
    } else {
        let m = after_header(o);
        if record_malformed(m.window) {
            let e = DemuxError::MalformedRecord { offset: m.consumed as u64 };
            r == Step::Failed(e) && with_state(m, f, State::Failed(e))
        } else if record_short(m.window) {
            incomplete_outcome(m, f, r, false)
        } else {
            r matches Step::Record(t) && emitted(m, f, t)
        }
    }
}

/// One demultiplexing session over one byte source.
pub struct Demuxer {
    buf: SlidingBuffer,
    max_capacity: usize,
    consumed: u64,
    count: u64,
    header: Option<FlvHeader>,
    state: State,
    source_ended: bool,
    received: Ghost<Seq<u8>>,
    spans: Ghost<Seq<nat>>,
}

impl View for Demuxer {
    type V = DemuxView;

    closed spec fn view(&self) -> DemuxView {
        DemuxView {
            received: self.received@,
            window: self.buf@.data,
            consumed: self.consumed as nat,
            spans: self.spans@,
            count: self.count as nat,
            header: self.header,
            state: self.state,
            source_ended: self.source_ended,
            position: self.buf@.position,
            capacity: self.buf@.capacity,
            max_capacity: self.max_capacity as nat,
        }
    }
}

impl Demuxer {
    /// The buffer is consistent, it holds exactly the received bytes not yet
    /// consumed, and the consumed bytes are the spans of the items taken out.
    pub closed spec fn wf(&self) -> bool {
        &&& self.buf.wf()
        &&& 0 < self.buf@.capacity <= self.max_capacity <= isize::MAX
        &&& self.consumed <= self.received@.len()
        &&& self.buf@.data == self.received@.skip(self.consumed as int)
        &&& self.consumed == total(self.spans@)
        &&& self.count <= self.consumed
        &&& (self.header is None ==> self.consumed == 0)
        &&& (self.state is Filling ==> !self.source_ended)
        &&& self.received@.len() <= u64::MAX
    }

    /// A session whose buffer starts with `capacity` bytes and may grow up to
    /// `max_capacity`.
    pub fn new(capacity: usize, max_capacity: usize) -> (r: Demuxer)
        requires
            0 < capacity <= max_capacity <= isize::MAX,
        ensures
            r.wf(),
            r@.received == Seq::<u8>::empty(),
            r@.window == Seq::<u8>::empty(),
            r@.consumed == 0,
            r@.spans == Seq::<nat>::empty(),
            r@.count == 0,
            r@.header is None,
            r@.state == State::Filling,
            !r@.source_ended,
            r@.capacity == capacity,
            r@.position == 0,
            r@.max_capacity == max_capacity,
    {
        let r = Demuxer {
            buf: SlidingBuffer::new(capacity),
            max_capacity,
            consumed: 0,
            count: 0,
            header: None,
            state: State::Filling,
            source_ended: false,
            received: Ghost(Seq::empty()),
            spans: Ghost(Seq::empty()),
        };
        proof {
            assert(r.received@.skip(0) =~= Seq::<u8>::empty());
        }
        r
    }

    /// Takes the bytes that the caller read from the source: as many as fit in
    /// the buffer's free space are kept, and their number returned. Passing no
    /// bytes tells the session that the source has ended. Outside the
    /// `Filling` state nothing happens.
    pub fn supply(&mut self, bytes: &[u8]) -> (r: usize)
        requires
            old(self).wf(),
            old(self)@.received.len() + bytes@.len() <= u64::MAX,
        ensures
            final(self).wf(),
            old(self)@.state != State::Filling ==> r == 0 && final(self)@ == old(self)@,
            old(self)@.state == State::Filling ==> {
                &&& r == if bytes@.len() <= old(self)@.space() { bytes@.len() as int } else { old(self)@.space() }
                &&& final(self)@.received == old(self)@.received + bytes@.take(r as int)
                &&& final(self)@.window == old(self)@.window + bytes@.take(r as int)
                &&& final(self)@.state == State::Parsing
                &&& final(self)@.source_ended == (bytes@.len() == 0)
                &&& final(self)@.consumed == old(self)@.consumed
                &&& final(self)@.spans == old(self)@.spans
                &&& final(self)@.count == old(self)@.count
                &&& final(self)@.header == old(self)@.header
                &&& final(self)@.capacity == old(self)@.capacity
                &&& final(self)@.max_capacity == old(self)@.max_capacity
                &&& (final(self)@.position == 0 || final(self)@.position == old(self)@.position)
            },
    {
        if self.state != State::Filling {
            return 0;
        }
        let n = self.buf.fill(bytes);
        proof {
            let old_received = self.received@;
            self.received@ = old_received + bytes@.take(n as int);
            assert(self.received@.skip(self.consumed as int) =~= old_received.skip(self.consumed as int) + bytes@.take(n as int));
        }
        if bytes.len() == 0 {
            self.source_ended = true;
        }
        self.state = State::Parsing;
        n
    }

    /// Hands out the next step of the session. In `Filling` it asks for
    /// bytes; in `Parsing` it takes out the file header if due, then frames one
    /// record, copies it out of the buffer, consumes its bytes and returns it,
    /// or waits, grows, ends or fails as `parsing_outcome` says. A session that
    /// is done or failed returns the same result again.
    pub fn resume(&mut self) -> (r: Step)
        requires
            old(self).wf(),
        ensures
            final(self).wf(),
            old(self)@.state == State::Filling ==> r == Step::NeedBytes && final(self)@ == old(self)@,
            old(self)@.state is Done ==> r == Step::Done(old(self)@.state->Done_0) && final(self)@ == old(self)@,
            old(self)@.state is Failed ==> r == Step::Failed(old(self)@.state->Failed_0) && final(self)@ == old(self)@,
            old(self)@.state == State::Parsing ==> parsing_outcome(old(self)@, final(self)@, r),
    {
        match self.state {
            State::Filling => {
                return Step::NeedBytes;
            },
            State::Done(n) => {
                return Step::Done(n);
            },
            State::Failed(e) => {
                return Step::Failed(e);
            },
            State::Parsing => {},
        }
        if self.header.is_none() {
            let data = self.buf.data();
            match parse_file_header(data) {
                Parse::Complete(h, n) => {
                    let ghost old_spans_h = self.spans@;
                    self.buf.consume(n);
                    self.consumed = self.consumed + n as u64;
                    self.header = Some(h);
                    proof {
                        let old_spans = self.spans@;
                        self.spans@ = old_spans.push(n as nat);
                        assert(self.spans@.drop_last() =~= old_spans);
                        assert(self.buf@.data =~= self.received@.skip(self.consumed as int));
                    }
                    assert(total(self.spans@) == total(old_spans_h) + FILE_HEADER_LEN);
                    assert(self.wf());
                    assert(self@ == after_header(old(self)@));
                },
                Parse::Incomplete => {
                    return self.on_incomplete(true);
                },
                Parse::Malformed => {
                    let e = DemuxError::MalformedHeader { offset: self.consumed };
                    self.state = State::Failed(e);
                    return Step::Failed(e);
                },
            }
        }
        let ghost m = self@;
        let data = self.buf.data();
        match frame_record(data) {
            Parse::Complete(h, n) => {
                let end = TAG_HEADER_LEN + h.data_size as usize;
                let payload = slice_subrange(data, TAG_HEADER_LEN, end);
                let tag = Tag::new(h, payload);
                self.buf.consume(n);
                self.consumed = self.consumed + n as u64;
                self.count = self.count + 1;
                proof {
                    let old_spans = self.spans@;
                    self.spans@ = old_spans.push(n as nat);
                    assert(self.spans@.drop_last() =~= old_spans);
                    assert(self.buf@.data =~= self.received@.skip(self.consumed as int));
                }
                assert(self.header is Some);
                assert(self.count <= self.consumed);
                assert(self.consumed == total(self.spans@));
                assert(self.buf@.data == self.received@.skip(self.consumed as int));
                assert(emitted(m, self@, tag));
                Step::Record(tag)
            },
            Parse::Incomplete => self.on_incomplete(false),
            Parse::Malformed => {
                let e = DemuxError::MalformedRecord { offset: self.consumed };
                self.state = State::Failed(e);
                Step::Failed(e)
            },
        }
    }

    /// The window holds only part of the next item.
    fn on_incomplete(&mut self, in_header: bool) -> (r: Step)
        requires
            old(self).wf(),
            old(self)@.state == State::Parsing,
        ensures
            final(self).wf(),
            incomplete_outcome(old(self)@, final(self)@, r, in_header),
    {
        if self.source_ended {
            if in_header {
                let e = DemuxError::MalformedHeader { offset: self.consumed };
                self.state = State::Failed(e);
                return Step::Failed(e);
            } else {
                self.state = State::Done(self.count);
                return Step::Done(self.count);
            }
        }
        if self.buf.available_space() == 0 {
            let capacity = self.buf.capacity();
            if capacity >= self.max_capacity {
                let e = DemuxError::CapacityLimitExceeded { capacity };
                self.state = State::Failed(e);
                return Step::Failed(e);
            }
            let next = if capacity <= self.max_capacity - capacity {
                capacity * 2
            } else {
                self.max_capacity
            };
            self.buf.grow(next);
        }
        self.state = State::Filling;
        Step::NeedBytes
    }

    /// Records that the byte source failed; the session stops.
    pub fn fail_source(&mut self)
        requires
            old(self).wf(),
        ensures
            final(self).wf(),
            final(self)@ == (DemuxView { state: State::Failed(DemuxError::SourceReadFailure), ..old(self)@ }),
    {
        self.state = State::Failed(DemuxError::SourceReadFailure);
    }

    /// Number of bytes the next `supply` can take.
    pub fn writable_len(&self) -> (r: usize)
        requires
            self.wf(),
        ensures
            r == self@.space(),
    {
        self.buf.available_space()
    }

    /// Records emitted so far.
    pub fn count(&self) -> (r: u64)
        requires
            self.wf(),
        ensures
            r == self@.count,
    {
        self.count
    }

    /// Bytes consumed so far.
    pub fn consumed(&self) -> (r: u64)
        requires
            self.wf(),
        ensures
            r == self@.consumed,
    {
        self.consumed
    }

    /// Current state.
    pub fn state(&self) -> (r: State)
        requires
            self.wf(),
        ensures
            r == self@.state,
    {
        self.state
    }

    /// The file header, once parsed.
    pub fn header(&self) -> (r: Option<FlvHeader>)
        requires
            self.wf(),
        ensures
            r == self@.header,
    {
        self.header
    }

    /// Current capacity of the buffer.
    pub fn capacity(&self) -> (r: usize)
        requires
            self.wf(),
        ensures
            r == self@.capacity,
    {
        self.buf.capacity()
    }
}

/// The consumed bytes are exactly the spans of the items taken out, one
/// after another with no gap or overlap, and every received byte is either
/// consumed or still unread in the buffer. So once nothing is left unread,
/// the spans add up to the whole input.
pub proof fn lemma_spans_cover_input(d: &Demuxer)
    requires
        d.wf(),
    ensures
        total(d@.spans) == d@.consumed,
        d@.consumed + d@.window.len() == d@.received.len(),
        d@.window == d@.received.skip(d@.consumed as int),
        d@.window.len() == 0 ==> total(d@.spans) == d@.received.len(),
{
}

} // verus!
