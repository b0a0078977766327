//! Bounded control encoding, line reading, and byte-accounted priority
//! delivery.

use crate::driver::{
    limit_exceeded, overloaded, transport_failure, Error, ErrorView, IoErrorKind,
};
use crate::limits::{Budget, TransportLimits};
use crate::methods;
use crate::text::{opt_text, same_text};
use crate::wire::Message;
use std::collections::VecDeque;
use vstd::prelude::*;
use vstd::slice::{slice_subrange, slice_to_vec};

verus! {

/// The byte that ends a line.
pub const NEWLINE: u8 = 10;

/// What one look at the buffered input gives.
#[derive(Debug)]
pub enum LineRead {
    /// The input ended between two lines.
    End,
    /// A whole line, its newline with it.
    Line(Vec<u8>),
    /// The line is not complete yet.
    More,
}

/// Why a line cannot be read.
#[derive(Clone, Copy, Debug, PartialEq, Eq, Structural)]
pub enum LineError {
    /// The input ended within a line.
    Incomplete,
    /// The line is over the limit.
    TooLong,
}

impl LineError {
    /// What the failure says.
    pub fn message(self) -> (message: &'static str)
        ensures
            message@ == match self {
                LineError::Incomplete => "incomplete control message"@,
                LineError::TooLong => "control message limit exceeded"@,
            },
    {
        match self {
            LineError::Incomplete => "incomplete control message",
            LineError::TooLong => "control message limit exceeded",
        }
    }

    /// The kind of I/O failure that it is: an early end, or malformed input.
    pub fn kind(self) -> (kind: IoErrorKind)
        ensures
            kind == match self {
                LineError::Incomplete => IoErrorKind::UnexpectedEof,
                LineError::TooLong => IoErrorKind::InvalidData,
            },
    {
        match self {
            LineError::Incomplete => IoErrorKind::UnexpectedEof,
            LineError::TooLong => IoErrorKind::InvalidData,
        }
    }
}

/// What comes of one look at the buffered input.
pub enum LineView {
    End,
    Line { line: Seq<u8>, consumed: nat },
    More { partial: Seq<u8> },
    Refused(LineError),
}

/// Where the first newline is.
pub open spec fn first_newline(bytes: Seq<u8>) -> Option<nat>
    decreases bytes.len(),
{
    if bytes.len() == 0 {
        None
    } else if bytes[0] == NEWLINE {
        Some(0)
    } else {
        match first_newline(bytes.skip(1)) {
            Some(at) => Some(at + 1),
            None => None,
        }
    }
}

/// How much of the input belongs to the current line.
pub open spec fn line_part(available: Seq<u8>) -> nat {
    match first_newline(available) {
        Some(at) => at + 1,
        None => available.len(),
    }
}

/// What comes of a look at the input behind what is kept of a line. Empty
/// input is the end of the stream.
pub open spec fn line_step(partial: Seq<u8>, available: Seq<u8>, max: nat) -> LineView {
    if available.len() == 0 {
        if partial.len() == 0 {
            LineView::End
        } else {
            LineView::Refused(LineError::Incomplete)
        }
    } else if partial.len() + line_part(available) > max {
        LineView::Refused(LineError::TooLong)
    } else if first_newline(available) is Some {
        LineView::Line {
            line: partial + available.take(line_part(available) as int),
            consumed: line_part(available),
        }
    } else {
        LineView::More { partial: partial + available }
    }
}

proof fn lemma_first_newline(bytes: Seq<u8>, at: int)
    requires
        0 <= at <= bytes.len(),
        forall|i: int| 0 <= i < at ==> bytes[i] != NEWLINE,
        at < bytes.len() ==> bytes[at] == NEWLINE,
    ensures
        first_newline(bytes) == if at < bytes.len() {
            Some(at as nat)
        } else {
            None
        },
    decreases bytes.len(),
{
    if bytes.len() > 0 && bytes[0] != NEWLINE {
        lemma_first_newline(bytes.skip(1), at - 1);
    }
}

proof fn lemma_newline_place(bytes: Seq<u8>)
    ensures
        match first_newline(bytes) {
            Some(at) => {
                &&& at < bytes.len()
                &&& bytes[at as int] == NEWLINE
                &&& forall|i: int| 0 <= i < at ==> bytes[i] != NEWLINE
            },
            None => forall|i: int| 0 <= i < bytes.len() ==> bytes[i] != NEWLINE,
        },
    decreases bytes.len(),
{
    if bytes.len() > 0 && bytes[0] != NEWLINE {
        let rest = bytes.skip(1);
        lemma_newline_place(rest);
        match first_newline(rest) {
            Some(at) => {
                assert forall|i: int| 0 <= i < at + 1 implies bytes[i] != NEWLINE by {
                    if i > 0 {
                        assert(bytes[i] == rest[i - 1]);
                    }
                }
            },
            None => {
                assert forall|i: int| 0 <= i < bytes.len() implies bytes[i] != NEWLINE by {
                    if i > 0 {
                        assert(bytes[i] == rest[i - 1]);
                    }
                }
            },
        }
    }
}

/// Looks at the buffered input for the end of the current line. The caller
/// keeps the partial line between two looks, so nothing is lost when it
/// stops looking. Gives how much of the input was used, too.
pub fn read_line(partial: &mut Vec<u8>, available: &[u8], max: usize) -> (read: Result<
    (LineRead, usize),
    LineError,
>)
    ensures
        match read {
            Ok((LineRead::End, consumed)) => {
                &&& line_step(old(partial)@, available@, max as nat) is End
                &&& consumed == 0
                &&& final(partial)@ == old(partial)@
            },
            Ok((LineRead::Line(line), consumed)) => {
                &&& line_step(old(partial)@, available@, max as nat) == (LineView::Line {
                    line: line@,
                    consumed: consumed as nat,
                })
                &&& final(partial)@ == Seq::<u8>::empty()
            },
            Ok((LineRead::More, consumed)) => {
                &&& line_step(old(partial)@, available@, max as nat) == (LineView::More {
                    partial: final(partial)@,
                })
                &&& consumed == available@.len()
            },
            Err(error) => {
                &&& line_step(old(partial)@, available@, max as nat) == LineView::Refused(error)
                &&& final(partial)@ == old(partial)@
            },
        },
{
    if available.len() == 0 {
        return if partial.len() == 0 {
            Ok((LineRead::End, 0))
        } else {
            Err(LineError::Incomplete)
        };
    }
    let mut at: usize = 0;
    while at < available.len() && available[at] != NEWLINE
        invariant
            at <= available@.len(),
            forall|i: int| 0 <= i < at ==> available@[i] != NEWLINE,
        decreases available@.len() - at,
    {
        at = at + 1;
    }
    proof {
        lemma_first_newline(available@, at as int);
    }
    let found = at < available.len();
    let take: usize = if found {
        at + 1
    } else {
        at
    };
    let room: usize = if partial.len() < max {
        max - partial.len()
    } else {
        0
    };
    if take > room {
        return Err(LineError::TooLong);
    }
    let ghost before = partial@;
    let mut part = slice_to_vec(slice_subrange(available, 0, take));
    partial.append(&mut part);
    assert(available@.subrange(0, take as int) =~= available@.take(take as int));
    if found {
        let mut line: Vec<u8> = Vec::new();
        std::mem::swap(&mut line, partial);
        Ok((LineRead::Line(line), take))
    } else {
        assert(available@.take(take as int) =~= available@);
        Ok((LineRead::More, take))
    }
}

/// A line is within the limit, ends with its only newline, and is made of
/// what was kept and the part of the input that was used.
pub proof fn a_line_ends_with_its_only_newline(partial: Seq<u8>, available: Seq<u8>, max: nat)
    requires
        forall|i: int| 0 <= i < partial.len() ==> partial[i] != NEWLINE,
    ensures
        match line_step(partial, available, max) {
            LineView::Line { line, consumed } => {
                &&& 0 < line.len() <= max
                &&& line.last() == NEWLINE
                &&& forall|i: int| 0 <= i < line.len() - 1 ==> line[i] != NEWLINE
                &&& consumed <= available.len()
                &&& line == partial + available.take(consumed as int)
            },
            LineView::More { partial: kept } => {
                &&& kept.len() <= max
                &&& forall|i: int| 0 <= i < kept.len() ==> kept[i] != NEWLINE
            },
            _ => true,
        },
{
    lemma_newline_place(available);
}

/// It makes no difference in how many portions the input comes: looking at
/// two portions one after the other gives what looking at both at once
/// gives.
pub proof fn portions_make_no_difference(
    partial: Seq<u8>,
    first: Seq<u8>,
    second: Seq<u8>,
    max: nat,
)
    requires
        first.len() > 0,
        second.len() > 0,
    ensures
        match line_step(partial, first, max) {
            LineView::More { partial: kept } => match line_step(kept, second, max) {
                LineView::Line { line, consumed } => line_step(partial, first + second, max) == (
                LineView::Line { line, consumed: first.len() + consumed }),
                other => line_step(partial, first + second, max) == other,
            },
            other => line_step(partial, first + second, max) == other,
        },
{
    let both = first + second;
    lemma_newline_place(first);
    lemma_newline_place(second);
    match first_newline(first) {
        Some(at) => {
            lemma_first_newline(both, at as int);
            assert(both.take(at + 1 as int) =~= first.take(at + 1 as int));
        },
        None => {
            match first_newline(second) {
                Some(at) => {
                    lemma_first_newline(both, first.len() + at as int);
                    assert(partial + both.take(first.len() + at + 1 as int) =~= (partial + first)
                        + second.take(at + 1 as int));
                },
                None => {
                    lemma_first_newline(both, both.len() as int);
                    assert(partial + both =~= (partial + first) + second);
                },
            }
        },
    }
}

/// Counts the bytes of a message, up to a limit.
#[derive(Debug)]
pub struct MessageSize {
    pub bytes: usize,
    pub max: usize,
}

impl MessageSize {
    /// Within the limit so far.
    pub open spec fn wf(self) -> bool {
        self.bytes <= self.max
    }

    /// Nothing counted yet.
    pub fn new(max: usize) -> (size: Self)
        ensures
            size == (MessageSize { bytes: 0, max }),
            size.wf(),
    {
        MessageSize { bytes: 0, max }
    }

    /// Counts some more bytes, or refuses them.
    pub fn write(&mut self, bytes: &[u8]) -> (counted: Option<usize>)
        requires
            old(self).wf(),
        ensures
            final(self).wf(),
            final(self).max == old(self).max,
            match counted {
                Some(counted) => {
                    &&& old(self).bytes + bytes@.len() <= old(self).max
                    &&& counted == bytes@.len()
                    &&& final(self).bytes == old(self).bytes + bytes@.len()
                },
                None => {
                    &&& old(self).bytes + bytes@.len() > old(self).max
                    &&& *final(self) == *old(self)
                },
            },
    {
        if bytes.len() > self.max - self.bytes {
            return None;
        }
        self.bytes = self.bytes + bytes.len();
        Some(bytes.len())
    }
}

/// The size of a message whose JSON text is this, its newline counted, or
/// that it is over the limit.
pub fn message_size(text: &[u8], max: usize) -> (size: Result<usize, Error>)
    ensures
        match size {
            Ok(size) => size == text@.len() + 1 && size <= max,
            Err(error) => text@.len() + 1 > max && error@ == limit_exceeded(
                "control_message_bytes"@,
                max,
            ),
        },
{
    let mut size = MessageSize::new(max);
    let newline: [u8; 1] = [NEWLINE];
    if size.write(text).is_none() || size.write(&newline).is_none() {
        return Err(Error::limit_exceeded("control_message_bytes", max));
    }
    Ok(size.bytes)
}

/// A message as it goes out: its JSON text and a newline.
#[derive(Debug)]
pub struct Encoded {
    pub bytes: Vec<u8>,
}

/// Ends a message's JSON text with a newline.
pub fn encode(text: Vec<u8>) -> (encoded: Encoded)
    ensures
        encoded.bytes@ == text@.push(NEWLINE),
{
    let mut bytes = text;
    bytes.push(NEWLINE);
    Encoded { bytes }
}

/// The bytes of queued messages.
pub open spec fn total_bytes(queue: Seq<Encoded>) -> nat
    decreases queue.len(),
{
    if queue.len() == 0 {
        0
    } else {
        total_bytes(queue.drop_last()) + queue.last().bytes@.len()
    }
}

proof fn lemma_total_without_first(queue: Seq<Encoded>)
    requires
        queue.len() > 0,
    ensures
        total_bytes(queue) == queue[0].bytes@.len() + total_bytes(queue.skip(1)),
    decreases queue.len(),
{
    if queue.len() == 1 {
        assert(queue.skip(1) =~= Seq::<Encoded>::empty());
        assert(queue.drop_last() =~= Seq::<Encoded>::empty());
    } else {
        lemma_total_without_first(queue.drop_last());
        assert(queue.drop_last().skip(1) =~= queue.skip(1).drop_last());
    }
}

/// Messages of one class on their way to the writer: at most so many
/// messages and so many bytes. The bytes of a message stay accounted for
/// until it has been written.
pub struct Lane {
    pub queue: VecDeque<Encoded>,
    pub slots: usize,
    pub bytes: Budget,
}

impl Lane {
    /// Within both limits, with every queued byte accounted for.
    pub open spec fn wf(self) -> bool {
        &&& self.bytes.wf()
        &&& self.queue@.len() <= self.slots
        &&& total_bytes(self.queue@) <= self.bytes.used
    }

    /// Why a message of so many bytes cannot be queued.
    pub open spec fn refusal(self, bytes: nat, closed: bool) -> Option<ErrorView> {
        if self.bytes.used + bytes > self.bytes.limit {
            Some(overloaded("queued_control_bytes"@))
        } else if closed {
            Some(transport_failure("control writer closed"@))
        } else if self.queue@.len() >= self.slots {
            Some(overloaded("queued_control_messages"@))
        } else {
            None
        }
    }

    /// An empty lane.
    pub fn new(slots: usize, bytes: usize) -> (lane: Self)
        ensures
            lane.wf(),
            lane.queue@ == Seq::<Encoded>::empty(),
            lane.slots == slots,
            lane.bytes == (Budget { limit: bytes, used: 0 }),
    {
        Lane { queue: VecDeque::new(), slots, bytes: Budget::new(bytes) }
    }

    fn offer(&mut self, encoded: Encoded, closed: bool) -> (outcome: Result<(), Error>)
        requires
            old(self).wf(),
        ensures
            final(self).wf(),
            final(self).slots == old(self).slots,
            final(self).bytes.limit == old(self).bytes.limit,
            match outcome {
                Ok(()) => {
                    &&& old(self).refusal(encoded.bytes@.len(), closed) is None
                    &&& final(self).queue@ == old(self).queue@.push(encoded)
                    &&& final(self).bytes.used == old(self).bytes.used + encoded.bytes@.len()
                },
                Err(error) => {
                    &&& old(self).refusal(encoded.bytes@.len(), closed) == Some(error@)
                    &&& final(self).queue@ == old(self).queue@
                    &&& final(self).bytes == old(self).bytes
                },
            },
    {
        let count: usize = encoded.bytes.len();
        self.bytes.acquire_many(count, "queued_control_bytes")?;
        if closed {
            self.bytes.release(count);
            return Err(Error::transport("control writer closed"));
        }
        if self.queue.len() >= self.slots {
            self.bytes.release(count);
            return Err(Error::overloaded("queued_control_messages"));
        }
        let ghost before = self.queue@;
        self.queue.push_back(encoded);
        assert(self.queue@.drop_last() =~= before);
        Ok(())
    }

    fn take(&mut self) -> (encoded: Option<Encoded>)
        requires
            old(self).wf(),
        ensures
            final(self).wf(),
            final(self).slots == old(self).slots,
            final(self).bytes == old(self).bytes,
            match encoded {
                Some(encoded) => {
                    &&& old(self).queue@.len() > 0
                    &&& encoded == old(self).queue@[0]
                    &&& final(self).queue@ == old(self).queue@.skip(1)
                    &&& total_bytes(final(self).queue@) + encoded.bytes@.len() <= final(self).bytes.used
                },
                None => old(self).queue@.len() == 0 && *final(self) == *old(self),
            },
    {
        if self.queue.len() == 0 {
            return None;
        }
        let ghost before = self.queue@;
        let taken = self.queue.pop_front();
        proof {
            lemma_total_without_first(before);
            assert(self.queue@ =~= before.skip(1));
        }
        taken
    }
}

/// The class of a control message.
#[derive(Clone, Copy, Debug, PartialEq, Eq, Structural)]
pub enum LaneKind {
    Priority,
    Normal,
    Events,
}

/// The control messages on their way to the writer.
pub struct ControlQueue {
    pub normal: Lane,
    pub events: Lane,
    pub priority: Lane,
    pub max_message: usize,
    /// Whether the writer is gone.
    pub closed: bool,
}

/// What came of a reply that may wait for room.
pub enum DeliverStep {
    Queued,
    /// There is no room yet; the text comes back.
    Wait(Vec<u8>),
}

/// The lane of a message: events have one of their own, everything else goes
/// by its priority.
pub open spec fn lane_for(method: Option<Seq<char>>, priority: bool) -> LaneKind {
    if method == Some(methods::HOST_EVENT@) {
        LaneKind::Events
    } else if priority {
        LaneKind::Priority
    } else {
        LaneKind::Normal
    }
}

/// The queue of a connection with these limits.
pub fn queue(limits: &TransportLimits) -> (queue: ControlQueue)
    ensures
        queue.wf(),
        !queue.closed,
        queue.max_message == limits.control_message_bytes,
        forall|kind: LaneKind| (#[trigger] queue.lane(kind)).queue@ == Seq::<Encoded>::empty()
            && queue.lane(kind).bytes.used == 0,
        queue.normal.slots == limits.provider_requests,
        queue.normal.bytes.limit == limits.queued_control_bytes,
        queue.events.slots == limits.event_queue_messages,
        queue.events.bytes.limit == limits.event_queue_bytes,
        queue.priority.slots == limits.reserved_requests,
        queue.priority.bytes.limit == limits.reserved_control_bytes,
{
    ControlQueue {
        normal: Lane::new(limits.provider_requests, limits.queued_control_bytes),
        events: Lane::new(limits.event_queue_messages, limits.event_queue_bytes),
        priority: Lane::new(limits.reserved_requests, limits.reserved_control_bytes),
        max_message: limits.control_message_bytes,
        closed: false,
    }
}

impl ControlQueue {
    /// The lane of a class.
    pub open spec fn lane(self, kind: LaneKind) -> Lane {
        match kind {
            LaneKind::Priority => self.priority,
            LaneKind::Normal => self.normal,
            LaneKind::Events => self.events,
        }
    }

    /// Every lane is within its limits.
    pub open spec fn wf(self) -> bool {
        &&& self.normal.wf()
        &&& self.events.wf()
        &&& self.priority.wf()
    }

    /// Nothing but one lane differs.
    pub open spec fn same_but(self, other: Self, kind: LaneKind) -> bool {
        &&& self.max_message == other.max_message
        &&& self.closed == other.closed
        &&& kind != LaneKind::Priority ==> self.priority == other.priority
        &&& kind != LaneKind::Normal ==> self.normal == other.normal
        &&& kind != LaneKind::Events ==> self.events == other.events
        &&& self.lane(kind).slots == other.lane(kind).slots
        &&& self.lane(kind).bytes.limit == other.lane(kind).bytes.limit
    }

    /// Why a message whose JSON text has so many bytes cannot be queued.
    pub open spec fn refusal(self, kind: LaneKind, text: nat) -> Option<ErrorView> {
        if text + 1 > self.max_message {
            Some(limit_exceeded("control_message_bytes"@, self.max_message))
        } else {
            self.lane(kind).refusal(text + 1, self.closed)
        }
    }

    /// Whether a message with this JSON text came to the end of a lane and
    /// nothing else changed.
    pub open spec fn queues(self, after: Self, kind: LaneKind, text: Seq<u8>) -> bool {
        &&& after.same_but(self, kind)
        &&& after.lane(kind).queue@.len() == self.lane(kind).queue@.len() + 1
        &&& after.lane(kind).queue@.drop_last() == self.lane(kind).queue@
        &&& after.lane(kind).queue@.last().bytes@ == text.push(NEWLINE)
        &&& after.lane(kind).bytes.used == self.lane(kind).bytes.used + text.len() + 1
    }

    /// Whether this is the next message to write, taken from the front of
    /// its lane.
    pub open spec fn gives(self, after: Self, kind: LaneKind, encoded: Encoded) -> bool {
        &&& after.same_but(self, kind)
        &&& self.lane(kind).queue@.len() > 0
        &&& encoded == self.lane(kind).queue@[0]
        &&& after.lane(kind).queue@ == self.lane(kind).queue@.skip(1)
        &&& after.lane(kind).bytes == self.lane(kind).bytes
        &&& kind != LaneKind::Priority ==> self.priority.queue@.len() == 0
        &&& kind == LaneKind::Events ==> self.normal.queue@.len() == 0
    }

    fn offer(&mut self, kind: LaneKind, text: Vec<u8>) -> (outcome: Result<(), Error>)
        requires
            old(self).wf(),
        ensures
            final(self).wf(),
            final(self).same_but(*old(self), kind),
            match outcome {
                Ok(()) => {
                    &&& old(self).refusal(kind, text@.len()) is None
                    &&& final(self).lane(kind).queue@.len() == old(self).lane(kind).queue@.len() + 1
                    &&& final(self).lane(kind).queue@.drop_last() == old(self).lane(kind).queue@
                    &&& final(self).lane(kind).queue@.last().bytes@ == text@.push(NEWLINE)
                    &&& final(self).lane(kind).bytes.used == old(self).lane(kind).bytes.used
                        + text@.len() + 1
                },
                Err(error) => {
                    &&& old(self).refusal(kind, text@.len()) == Some(error@)
                    &&& final(self).lane(kind).queue@ == old(self).lane(kind).queue@
                    &&& final(self).lane(kind).bytes == old(self).lane(kind).bytes
                },
            },
    {
        message_size(text.as_slice(), self.max_message)?;
        let encoded = encode(text);
        let closed = self.closed;
        let outcome = match kind {
            LaneKind::Priority => self.priority.offer(encoded, closed),
            LaneKind::Normal => self.normal.offer(encoded, closed),
            LaneKind::Events => self.events.offer(encoded, closed),
        };
        proof {
            if outcome is Ok {
                let before = old(self).lane(kind).queue@;
                assert(before.push(encoded).drop_last() =~= before);
            }
        }
        outcome
    }

    /// Queues a message with this JSON text at once, or refuses it. Only
    /// callers that have not sent a request can expose the refusal as a
    /// rejected admission; a failed reply fails the transport.
    pub fn send(&mut self, message: &Message, text: Vec<u8>, priority: bool) -> (outcome: Result<
        (),
        Error,
    >)
        requires
            old(self).wf(),
        ensures
            final(self).wf(),
            ({
                let kind = lane_for(opt_text(message.method), priority);
                &&& final(self).same_but(*old(self), kind)
                &&& match outcome {
                    Ok(()) => {
                        &&& old(self).refusal(kind, text@.len()) is None
                        &&& old(self).queues(*final(self), kind, text@)
                        &&& final(self).lane(kind).queue@.len() == old(self).lane(kind).queue@.len()
                            + 1
                        &&& final(self).lane(kind).queue@.drop_last() == old(self).lane(kind).queue@
                        &&& final(self).lane(kind).queue@.last().bytes@ == text@.push(NEWLINE)
                        &&& final(self).lane(kind).bytes.used == old(self).lane(kind).bytes.used
                            + text@.len() + 1
                    },
                    Err(error) => {
                        &&& old(self).refusal(kind, text@.len()) == Some(error@)
                        &&& final(self).lane(kind).queue@ == old(self).lane(kind).queue@
                        &&& final(self).lane(kind).bytes == old(self).lane(kind).bytes
                    },
                }
            }),
    {
        let event = match &message.method {
            Some(method) => same_text(method.as_str(), methods::HOST_EVENT),
            None => false,
        };
        let kind = if event {
            LaneKind::Events
        } else if priority {
            LaneKind::Priority
        } else {
            LaneKind::Normal
        };
        self.offer(kind, text)
    }

    /// Queues a reply with this JSON text, or has it wait for room. What
    /// waits is tried again until the delivery timeout.
    pub fn deliver(&mut self, text: Vec<u8>, priority: bool) -> (step: Result<DeliverStep, Error>)
        requires
            old(self).wf(),
        ensures
            final(self).wf(),
            ({
                let kind = lane_for(None, priority);
                let refusal = old(self).refusal(kind, text@.len());
                &&& final(self).same_but(*old(self), kind)
                &&& match step {
                    Ok(DeliverStep::Queued) => {
                        &&& refusal is None
                        &&& old(self).queues(*final(self), kind, text@)
                        &&& final(self).lane(kind).queue@.len() == old(self).lane(kind).queue@.len()
                            + 1
                        &&& final(self).lane(kind).queue@.drop_last() == old(self).lane(kind).queue@
                        &&& final(self).lane(kind).queue@.last().bytes@ == text@.push(NEWLINE)
                        &&& final(self).lane(kind).bytes.used == old(self).lane(kind).bytes.used
                            + text@.len() + 1
                    },
                    Ok(DeliverStep::Wait(back)) => {
                        &&& refusal matches Some(ErrorView::Overloaded { .. })
                        &&& back@ == text@
                        &&& final(self).lane(kind).queue@ == old(self).lane(kind).queue@
                        &&& final(self).lane(kind).bytes == old(self).lane(kind).bytes
                    },
                    Err(error) => {
                        &&& refusal == Some(error@)
                        &&& !(refusal matches Some(ErrorView::Overloaded { .. }))
                        &&& final(self).lane(kind).queue@ == old(self).lane(kind).queue@
                        &&& final(self).lane(kind).bytes == old(self).lane(kind).bytes
                    },
                }
            }),
    {
        let kind = if priority {
            LaneKind::Priority
        } else {
            LaneKind::Normal
        };
        let count: usize = message_size(text.as_slice(), self.max_message)?;
        let room = if priority {
            self.priority.bytes.available() >= count && (self.closed || self.priority.queue.len()
                < self.priority.slots)
        } else {
            self.normal.bytes.available() >= count && (self.closed || self.normal.queue.len()
                < self.normal.slots)
        };
        if !room {
            return Ok(DeliverStep::Wait(text));
        }
        match self.offer(kind, text) {
            Ok(()) => Ok(DeliverStep::Queued),
            Err(error) => Err(error),
        }
    }

    /// The next message to write: what is urgent first, then replies and
    /// requests, then events; within a class in the order in which they were
    /// queued. Nothing where nothing is queued.
    pub fn recv(&mut self) -> (received: Option<(LaneKind, Encoded)>)
        requires
            old(self).wf(),
        ensures
            final(self).wf(),
            match received {
                Some((kind, encoded)) => {
                    &&& kind == if old(self).priority.queue@.len() > 0 {
                        LaneKind::Priority
                    } else if old(self).normal.queue@.len() > 0 {
                        LaneKind::Normal
                    } else {
                        LaneKind::Events
                    }
                    &&& old(self).lane(kind).queue@.len() > 0
                    &&& encoded == old(self).lane(kind).queue@[0]
                    &&& final(self).lane(kind).queue@ == old(self).lane(kind).queue@.skip(1)
                    &&& final(self).lane(kind).bytes == old(self).lane(kind).bytes
                    &&& final(self).same_but(*old(self), kind)
                    &&& final(self).unwritten(kind) >= encoded.bytes@.len()
                    &&& old(self).gives(*final(self), kind, encoded)
                },
                None => {
                    &&& forall|kind: LaneKind| (#[trigger] old(self).lane(kind)).queue@.len() == 0
                    &&& *final(self) == *old(self)
                },
            },
    {
        if let Some(encoded) = self.priority.take() {
            return Some((LaneKind::Priority, encoded));
        }
        assert(old(self).lane(LaneKind::Priority).queue@.len() == 0);
        if let Some(encoded) = self.normal.take() {
            return Some((LaneKind::Normal, encoded));
        }
        assert(old(self).lane(LaneKind::Normal).queue@.len() == 0);
        if let Some(encoded) = self.events.take() {
            return Some((LaneKind::Events, encoded));
        }
        assert(old(self).lane(LaneKind::Events).queue@.len() == 0);
        None
    }

    /// The bytes of a lane that were received and are still accounted for.
    pub open spec fn unwritten(self, kind: LaneKind) -> int {
        self.lane(kind).bytes.used - total_bytes(self.lane(kind).queue@)
    }

    /// A received message has been written: its bytes are free again.
    pub fn written(&mut self, kind: LaneKind, bytes: usize)
        requires
            old(self).wf(),
            bytes <= old(self).unwritten(kind),
        ensures
            final(self).wf(),
            final(self).same_but(*old(self), kind),
            final(self).lane(kind).queue@ == old(self).lane(kind).queue@,
            final(self).lane(kind).bytes.used == old(self).lane(kind).bytes.used - bytes,
    {
        match kind {
            LaneKind::Priority => self.priority.bytes.release(bytes),
            LaneKind::Normal => self.normal.bytes.release(bytes),
            LaneKind::Events => self.events.bytes.release(bytes),
        }
    }

    /// The writer is gone: nothing more is queued.
    pub fn close(&mut self)
        requires
            old(self).wf(),
        ensures
            final(self).wf(),
            *final(self) == (ControlQueue { closed: true, ..*old(self) }),
    {
        self.closed = true;
    }
}

/// What a reply fails with that found no room in time.
pub fn delivery_timeout() -> (error: Error)
    ensures
        error@ == transport_failure("control response delivery timed out"@),
{
    Error::transport("control response delivery timed out")
}

/// A class with room takes a message however full the others are: whether it
/// is refused depends on its own lane alone.
pub proof fn a_full_lane_blocks_no_other(
    one: ControlQueue,
    other: ControlQueue,
    kind: LaneKind,
    text: nat,
)
    requires
        one.max_message == other.max_message,
        one.closed == other.closed,
        one.lane(kind) == other.lane(kind),
    ensures
        one.refusal(kind, text) == other.refusal(kind, text),
{
}

/// A message is taken exactly when the writer is there, the message is within
/// the limit of one message, its lane has bytes left for it and its newline,
/// and its lane has a slot left. What is refused is refused by the limit that
/// it is over, or because the writer is gone.
pub proof fn a_message_with_room_is_taken(queue: ControlQueue, kind: LaneKind, text: nat)
    ensures
        ({
            let lane = queue.lane(kind);
            &&& queue.refusal(kind, text) is None <==> {
                &&& !queue.closed
                &&& text < queue.max_message
                &&& lane.bytes.used + text < lane.bytes.limit
                &&& lane.queue@.len() < lane.slots
            }
            &&& text >= queue.max_message <==> queue.refusal(kind, text) is Some
                && queue.refusal(kind, text)->Some_0 is LimitExceeded
        }),
        queue.refusal(kind, text) matches Some(ErrorView::Overloaded { limit }) ==> {
            let lane = queue.lane(kind);
            ||| limit == "queued_control_bytes"@ && lane.bytes.used + text >= lane.bytes.limit
            ||| limit == "queued_control_messages"@ && lane.queue@.len() >= lane.slots
        },
        queue.refusal(kind, text) matches Some(error) ==> queue.closed || error is LimitExceeded
            || error is Overloaded,
{
}

/// Only events wait in the lane of events; everything else waits by its
/// urgency.
pub proof fn messages_wait_in_their_own_lane(method: Option<Seq<char>>, urgent: bool)
    ensures
        lane_for(method, urgent) is Events <==> method == Some(methods::HOST_EVENT@),
        method != Some(methods::HOST_EVENT@) ==> (lane_for(method, urgent) is Priority <==> urgent),
{
}

/// The bytes that messages with these JSON texts take.
pub open spec fn message_bytes(texts: Seq<Seq<u8>>) -> nat
    decreases texts.len(),
{
    if texts.len() == 0 {
        0
    } else {
        message_bytes(texts.drop_last()) + texts.last().len() + 1
    }
}

/// A lane takes every run of messages that it has slots and bytes for, and
/// keeps them in the order in which they came, each with its newline.
pub proof fn a_lane_takes_as_many_as_it_has_room_for(
    states: Seq<ControlQueue>,
    kind: LaneKind,
    texts: Seq<Seq<u8>>,
)
    requires
        states.len() == texts.len() + 1,
        !states[0].closed,
        forall|i: int| 0 <= i < texts.len() ==> (#[trigger] texts[i]).len() < states[0].max_message,
        states[0].lane(kind).queue@.len() + texts.len() <= states[0].lane(kind).slots,
        states[0].lane(kind).bytes.used + message_bytes(texts) <= states[0].lane(kind).bytes.limit,
        forall|i: int|
            0 <= i < texts.len() && states[i].refusal(kind, (#[trigger] texts[i]).len()) is None
                ==> states[i].queues(states[i + 1], kind, texts[i]),
    ensures
        forall|i: int|
            0 <= i < texts.len() ==> states[i].refusal(kind, (#[trigger] texts[i]).len()) is None,
        states.last().same_but(states[0], kind),
        states.last().lane(kind).queue@.len() == states[0].lane(kind).queue@.len() + texts.len(),
        states.last().lane(kind).bytes.used == states[0].lane(kind).bytes.used + message_bytes(
            texts,
        ),
        forall|i: int|
            0 <= i < states[0].lane(kind).queue@.len() ==> #[trigger] states.last().lane(
                kind,
            ).queue@[i] == states[0].lane(kind).queue@[i],
        forall|i: int|
            #![trigger texts[i]]
            0 <= i < texts.len() ==> states.last().lane(kind).queue@[states[0].lane(
                kind,
            ).queue@.len() + i].bytes@ == texts[i].push(NEWLINE),
    decreases texts.len(),
{
    if texts.len() > 0 {
        let n = texts.len() - 1;
        let before = states.drop_last();
        let rest = texts.drop_last();
        assert forall|i: int|
            0 <= i < rest.len() && before[i].refusal(kind, (#[trigger] rest[i]).len())
                is None implies before[i].queues(before[i + 1], kind, rest[i]) by {
            assert(rest[i] == texts[i]);
        }
        assert forall|i: int| 0 <= i < rest.len() implies (#[trigger] rest[i]).len()
            < before[0].max_message by {
            assert(rest[i] == texts[i]);
        }
        a_lane_takes_as_many_as_it_has_room_for(before, kind, rest);
        let last = states[n];
        assert(before.last() == last);
        assert(texts[n].len() < states[0].max_message);
        a_message_with_room_is_taken(last, kind, texts[n].len());
        assert(last.refusal(kind, texts[n].len()) is None);
        assert(last.queues(states[n + 1], kind, texts[n]));
        assert forall|i: int| 0 <= i < texts.len() implies states[i].refusal(
            kind,
            (#[trigger] texts[i]).len(),
        ) is None by {
            if i < n {
                assert(rest[i] == texts[i]);
                assert(before[i] == states[i]);
            }
        }
        let kept = last.lane(kind).queue@;
        let now = states.last().lane(kind).queue@;
        assert(now.drop_last() == kept);
        assert forall|i: int| 0 <= i < kept.len() implies #[trigger] now[i] == kept[i] by {
            assert(now.drop_last()[i] == now[i]);
        }
        let start = states[0].lane(kind).queue@.len();
        assert forall|i: int|
            #![trigger texts[i]]
            0 <= i < texts.len() implies now[start + i].bytes@ == texts[i].push(NEWLINE) by {
            if i < n {
                assert(rest[i] == texts[i]);
                assert(now[start + i] == kept[start + i]);
            } else {
                assert(now[start + i] == now.last());
            }
        }
        assert forall|i: int| 0 <= i < start implies #[trigger] now[i]
            == states[0].lane(kind).queue@[i] by {
            assert(now[i] == kept[i]);
        }
    }
}

/// Messages leave a lane in the order in which they stand in it, however
/// many are taken: the first that is taken is the first that came.
pub proof fn messages_leave_in_the_order_they_came(
    states: Seq<ControlQueue>,
    kind: LaneKind,
    taken: Seq<Encoded>,
)
    requires
        states.len() == taken.len() + 1,
        forall|i: int|
            0 <= i < taken.len() ==> states[i].gives(states[i + 1], kind, #[trigger] taken[i]),
    ensures
        taken.len() <= states[0].lane(kind).queue@.len(),
        taken == states[0].lane(kind).queue@.take(taken.len() as int),
        states.last().lane(kind).queue@ == states[0].lane(kind).queue@.skip(taken.len() as int),
    decreases taken.len(),
{
    let all = states[0].lane(kind).queue@;
    if taken.len() == 0 {
        assert(all.take(0) =~= taken);
        assert(all.skip(0) =~= all);
    } else {
        let n = taken.len() - 1;
        let before = states.drop_last();
        let rest = taken.drop_last();
        assert forall|i: int| 0 <= i < rest.len() implies before[i].gives(
            before[i + 1],
            kind,
            #[trigger] rest[i],
        ) by {
            assert(rest[i] == taken[i]);
        }
        messages_leave_in_the_order_they_came(before, kind, rest);
        assert(before.last() == states[n]);
        assert(states[n].gives(states[n + 1], kind, taken[n]));
        assert(all.skip(n as int)[0] == all[n as int]);
        assert(taken =~= all.take(taken.len() as int));
        assert(all.skip(n as int).skip(1) =~= all.skip(taken.len() as int));
    }
}

/// What is urgent leaves first: a reply or a request leaves only where
/// nothing urgent waits, and an event only where nothing else does.
pub proof fn what_is_urgent_leaves_first(
    before: ControlQueue,
    after: ControlQueue,
    kind: LaneKind,
    encoded: Encoded,
)
    requires
        before.gives(after, kind, encoded),
    ensures
        before.priority.queue@.len() > 0 ==> kind is Priority,
        before.normal.queue@.len() > 0 ==> !(kind is Events),
{
}

/// A line within the limit is read whole as soon as its newline is there; one
/// over the limit is refused; what has no newline yet is kept. The end of the
/// input is an end between two lines and a failure within one.
pub proof fn a_line_within_its_limit_is_read(
    partial: Seq<u8>,
    body: Seq<u8>,
    more: Seq<u8>,
    max: nat,
)
    requires
        forall|i: int| 0 <= i < body.len() ==> body[i] != NEWLINE,
    ensures
        ({
            let line = partial + body.push(NEWLINE);
            &&& line.len() <= max ==> line_step(partial, body.push(NEWLINE) + more, max) == (
            LineView::Line { line, consumed: body.len() + 1 })
            &&& line.len() > max ==> line_step(partial, body.push(NEWLINE) + more, max)
                == LineView::Refused(LineError::TooLong)
            &&& body.len() > 0 && partial.len() + body.len() <= max ==> line_step(
                partial,
                body,
                max,
            ) == (LineView::More { partial: partial + body })
            &&& body.len() > 0 && partial.len() + body.len() > max ==> line_step(
                partial,
                body,
                max,
            ) == LineView::Refused(LineError::TooLong)
            &&& partial.len() > 0 ==> line_step(partial, Seq::empty(), max) == LineView::Refused(
                LineError::Incomplete,
            )
            &&& partial.len() == 0 ==> line_step(partial, Seq::empty(), max) is End
        }),
{
    let input = body.push(NEWLINE) + more;
    assert forall|i: int| 0 <= i < body.len() implies input[i] != NEWLINE by {
        assert(input[i] == body[i]);
    }
    lemma_first_newline(input, body.len() as int);
    lemma_first_newline(body, body.len() as int);
    assert(input.take((body.len() + 1) as int) =~= body.push(NEWLINE));
}

/// Every class has a lane of its own.
pub proof fn every_class_has_its_own_lane(queue: ControlQueue)
    ensures
        queue.lane(LaneKind::Priority) == queue.priority,
        queue.lane(LaneKind::Normal) == queue.normal,
        queue.lane(LaneKind::Events) == queue.events,
{
}

/// A change of one lane leaves the others, the limits and the state of the
/// writer as they are.
pub proof fn a_lane_changes_alone(before: ControlQueue, after: ControlQueue, kind: LaneKind, other: LaneKind)
    requires
        after.same_but(before, kind),
        other != kind,
    ensures
        after.lane(other) == before.lane(other),
        after.max_message == before.max_message,
        after.closed == before.closed,
        after.lane(kind).slots == before.lane(kind).slots,
        after.lane(kind).bytes.limit == before.lane(kind).bytes.limit,
{
}

} // verus!
