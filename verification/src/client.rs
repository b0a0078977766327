//! The host side: requests that await an answer, events on their way to
//! their observers, and what is left when the connection ends.

use crate::channel::ChannelListener;
use crate::diagnostics::{ClientDiagnostics, ServerDiagnostics, TransportDiagnostics};
use crate::driver::{
    micros_of, nanos_of, overloaded, saturating_micros, transport_failure, transport_failure_from,
    Error, ErrorView, StopLevel, TransportError, TransportView,
};
use crate::limits::{acquire, is_reserved, reserved, Budget, TransportLimits};
use crate::methods as m;
use crate::registry::{inserted, Registry};
use crate::server::{blank, is_blank};
use crate::text::{
    concat3, decimal, decimal_text, lemma_numbered_texts_differ, opt_text, same_text,
};
use crate::wire::{error_in, Message};
use serde_json::Value;
use std::collections::HashSet;
use std::time::Duration;
use vstd::prelude::*;

verus! {

broadcast use vstd::std_specs::hash::group_hash_axioms;

/// What an optional transport failure says.
pub open spec fn opt_failure(failure: Option<TransportError>) -> Option<TransportView> {
    match failure {
        Some(failure) => Some(failure@),
        None => None,
    }
}

/// A failure without a source.
pub open spec fn failure_of(context: Seq<char>) -> TransportView {
    TransportView { context, source: Seq::empty() }
}

/// The number after another, starting over after the last.
pub open spec fn next_number(number: u64) -> u64 {
    if number == u64::MAX {
        0
    } else {
        (number + 1) as u64
    }
}

/// A request that was let out.
#[derive(Clone, Copy, Debug)]
pub struct Call {
    pub id: u64,
    /// Whether it runs on the reserved budget.
    pub priority: bool,
}

/// What the host holds for one connection. The application keeps the
/// observers of events under the numbers registered here.
pub struct Client {
    pub limits: TransportLimits,
    pub request_budget: Budget,
    pub reserved_budget: Budget,
    pub event_byte_budget: Budget,
    pub event_slot_budget: Budget,
    /// Why the history of events is incomplete.
    pub event_failure: Option<TransportError>,
    pub next_id: u64,
    pub next_exec: u64,
    pub next_stream: u64,
    pub next_operation: u64,
    pub stop_requests: u64,
    pub stop_acknowledgments: u64,
    pub max_stop_acknowledgment_us: u64,
    /// Set when either half of the transport ends: every pending and later
    /// call fails at once.
    pub closed: bool,
    pub closed_error: Option<TransportError>,
    /// The requests that await an answer.
    pub pending: HashSet<u64>,
    pub event_contexts: Registry<u64>,
    /// Observers of operations under way, under a route id of their own, so
    /// that events can come before a resource has an id.
    pub event_routes: Registry<u64>,
    /// What failed while resources were given back.
    pub failed_cleanups: Vec<TransportError>,
}

/// What ended a transport.
#[derive(Debug)]
pub enum TransportEnd {
    /// The writer made no progress in time.
    WriteStalled,
    WriteFailed { source: String },
    WriterShutdownFailed { source: String },
    /// Nothing is left to write.
    WriterDone,
    ReadFailed { source: String },
    ListenerFailed,
    /// A line is no message.
    Undecodable { source: String },
    /// A message that a route refused.
    Unroutable(TransportError),
    /// The plugin closed its output.
    ReaderDone,
}

/// The failure that a transport's end is reported as.
pub open spec fn end_failure(end: TransportEnd) -> TransportView {
    match end {
        TransportEnd::WriteStalled => failure_of("plugin control writer made no progress"@),
        TransportEnd::WriteFailed { source } => TransportView {
            context: "writing plugin request"@,
            source: seq![source@],
        },
        TransportEnd::WriterShutdownFailed { source } => TransportView {
            context: "shutting down plugin writer"@,
            source: seq![source@],
        },
        TransportEnd::WriterDone => failure_of("plugin request transport closed"@),
        TransportEnd::ReadFailed { source } => TransportView {
            context: "reading plugin response"@,
            source: seq![source@],
        },
        TransportEnd::ListenerFailed => failure_of("data listener failed"@),
        TransportEnd::Undecodable { source } => TransportView {
            context: "decoding plugin response"@,
            source: seq![source@],
        },
        TransportEnd::Unroutable(failure) => failure@,
        TransportEnd::ReaderDone => failure_of("plugin response transport closed"@),
    }
}

/// The failure that a transport's end is reported as.
pub fn transport_end(end: TransportEnd) -> (failure: TransportError)
    ensures
        failure@ == end_failure(end),
{
    match end {
        TransportEnd::WriteStalled => TransportError::new("plugin control writer made no progress"),
        TransportEnd::WriteFailed { source } => TransportError::with_source(
            "writing plugin request",
            source,
        ),
        TransportEnd::WriterShutdownFailed { source } => TransportError::with_source(
            "shutting down plugin writer",
            source,
        ),
        TransportEnd::WriterDone => TransportError::new("plugin request transport closed"),
        TransportEnd::ReadFailed { source } => TransportError::with_source(
            "reading plugin response",
            source,
        ),
        TransportEnd::ListenerFailed => TransportError::new("data listener failed"),
        TransportEnd::Undecodable { source } => TransportError::with_source(
            "decoding plugin response",
            source,
        ),
        TransportEnd::Unroutable(failure) => failure,
        TransportEnd::ReaderDone => TransportError::new("plugin response transport closed"),
    }
}

/// What the reader of responses comes upon.
#[derive(Debug)]
pub enum ReadEvent {
    /// A line, or none at the end of the input.
    Line(Option<Vec<u8>>),
    /// Reading failed, with the rendered error.
    Failed(String),
    /// The listener for data channels failed.
    ListenerFailed,
    /// A line is no message, with the rendered error.
    Undecodable(String),
    /// A message went where it belongs, or could not.
    Routed(Result<(), TransportError>),
    /// Nobody is left to read for.
    Abandoned,
}

/// What the reader of responses does next.
#[derive(Debug)]
pub enum ReadStep {
    /// Read on.
    Continue,
    /// Take a line as a message.
    Decode(Vec<u8>),
    /// Stop reading, which closes the connection.
    Stop(TransportEnd),
}

/// What the reader of responses does next. Blank lines are skipped; anything
/// that is no message ends the connection.
pub fn read_event(event: ReadEvent) -> (step: ReadStep)
    ensures
        step == match event {
            ReadEvent::Line(Some(line)) => if blank(line@) {
                ReadStep::Continue
            } else {
                ReadStep::Decode(line)
            },
            ReadEvent::Line(None) => ReadStep::Stop(TransportEnd::ReaderDone),
            ReadEvent::Failed(source) => ReadStep::Stop(TransportEnd::ReadFailed { source }),
            ReadEvent::ListenerFailed => ReadStep::Stop(TransportEnd::ListenerFailed),
            ReadEvent::Undecodable(source) => ReadStep::Stop(TransportEnd::Undecodable { source }),
            ReadEvent::Routed(Ok(())) => ReadStep::Continue,
            ReadEvent::Routed(Err(failure)) => ReadStep::Stop(TransportEnd::Unroutable(failure)),
            ReadEvent::Abandoned => ReadStep::Stop(TransportEnd::ReaderDone),
        },
{
    match event {
        ReadEvent::Line(Some(line)) => {
            if is_blank(line.as_slice()) {
                ReadStep::Continue
            } else {
                ReadStep::Decode(line)
            }
        },
        ReadEvent::Line(None) => ReadStep::Stop(TransportEnd::ReaderDone),
        ReadEvent::Failed(source) => ReadStep::Stop(TransportEnd::ReadFailed { source }),
        ReadEvent::ListenerFailed => ReadStep::Stop(TransportEnd::ListenerFailed),
        ReadEvent::Undecodable(source) => ReadStep::Stop(TransportEnd::Undecodable { source }),
        ReadEvent::Routed(Ok(())) => ReadStep::Continue,
        ReadEvent::Routed(Err(failure)) => ReadStep::Stop(TransportEnd::Unroutable(failure)),
        ReadEvent::Abandoned => ReadStep::Stop(TransportEnd::ReaderDone),
    }
}

/// What a closing connection leaves to be told.
pub struct Closing {
    /// Whether the connection was open until now.
    pub first: bool,
    /// The failure that everything pending ends with.
    pub error: TransportError,
    /// The requests that awaited an answer.
    pub pending: HashSet<u64>,
}

/// What a message from the plugin asks for.
pub enum Routed {
    /// Nothing: it is no answer to a pending request and no event.
    Ignored,
    /// End a pending request. A success without a result is null.
    Answer { id: u64, outcome: Result<Option<Value>, Error> },
    /// Read the parameters, null if there are none, as an event.
    Event { params: Option<Value> },
}

/// Where an event goes.
#[derive(Debug)]
pub struct EventAddress {
    pub route_id: Option<String>,
    /// The sandbox that the event is about, if it is about one with an id.
    pub sandbox_id: Option<String>,
}

/// How a request ended.
#[derive(Debug)]
pub enum CallEvent {
    /// Its parameters cannot be written as JSON.
    Unencodable { source: String },
    /// It was not sent.
    Unsent(Error),
    /// Its answer was given up.
    Dropped { source: String },
    /// It was refused or failed.
    Failed(Error),
    /// Its result is not of the expected shape.
    Undecodable { source: String },
}

/// The failure that a request's end is reported as.
pub open spec fn call_failure_of(event: CallEvent) -> ErrorView {
    match event {
        CallEvent::Unencodable { source } => transport_failure_from(
            "encoding plugin request parameters"@,
            source@,
        ),
        CallEvent::Unsent(error) => error@,
        CallEvent::Dropped { source } => transport_failure_from(
            "receiving plugin response"@,
            source@,
        ),
        CallEvent::Failed(error) => error@,
        CallEvent::Undecodable { source } => transport_failure_from(
            "decoding plugin response result"@,
            source@,
        ),
    }
}

/// The failure that a request's end is reported as.
pub fn call_failure(event: CallEvent) -> (error: Error)
    ensures
        error@ == call_failure_of(event),
{
    match event {
        CallEvent::Unencodable { source } => Error::transport_from(
            "encoding plugin request parameters",
            source,
        ),
        CallEvent::Unsent(error) => error,
        CallEvent::Dropped { source } => Error::transport_from("receiving plugin response", source),
        CallEvent::Failed(error) => error,
        CallEvent::Undecodable { source } => Error::transport_from(
            "decoding plugin response result",
            source,
        ),
    }
}

/// How the giving back of a resource ended.
#[derive(Debug)]
pub enum CleanupEnd {
    Done,
    Failed,
    TimedOut,
    /// Nothing could run it.
    NoRuntime,
}

/// What a cleanup's end is remembered as.
pub open spec fn cleanup_failure(end: CleanupEnd) -> Option<TransportView> {
    match end {
        CleanupEnd::Done => None,
        CleanupEnd::Failed => Some(failure_of("resource cleanup failed"@)),
        CleanupEnd::TimedOut => Some(failure_of("resource cleanup timed out"@)),
        CleanupEnd::NoRuntime => Some(failure_of("cleanup could not run without a runtime"@)),
    }
}

/// Whether the events of an operation were routed to its observer, under
/// the route that the request names. Without an observer there is no route.
pub open spec fn registers_events(
    before: Client,
    after: Client,
    context: Option<u64>,
    correlation_id: Option<String>,
    request: Option<m::EventRequest>,
) -> bool {
    match (context, request) {
        (Some(context), Some(request)) => {
            let route = numbered("event"@, before.next_operation);
            &&& request.route_id@ == route
            &&& request.correlation_id == correlation_id
            &&& inserted(
                before.event_routes@,
                after.event_routes@,
                route,
                context,
                before.event_routes@.dom().len() >= before.limits.cached_handles,
            )
            &&& after == (Client {
                event_routes: after.event_routes,
                next_operation: next_number(before.next_operation),
                ..before
            })
        },
        (None, None) => after == before,
        _ => false,
    }
}

/// Whether a request was let out: it took a place on its budget, and the
/// next number.
pub open spec fn lets_out(before: Client, after: Client, method: Seq<char>, call: Call) -> bool {
    let priority = is_reserved(method);
    let budget = before.budget_for(priority);
    &&& budget.used < budget.limit
    &&& call == (Call { id: before.next_id, priority })
    &&& after.budget_for(priority) == (Budget { used: (budget.used + 1) as usize, ..budget })
    &&& after.budget_for(!priority) == before.budget_for(!priority)
    &&& after == (Client {
        request_budget: after.request_budget,
        reserved_budget: after.reserved_budget,
        next_id: next_number(before.next_id),
        ..before
    })
}

/// Whether a request is through: its place is free, and no answer to it is
/// awaited.
pub open spec fn ends(before: Client, after: Client, call: Call) -> bool {
    let budget = before.budget_for(call.priority);
    &&& after.pending@ == before.pending@.remove(call.id)
    &&& after.budget_for(call.priority) == (Budget { used: (budget.used - 1) as usize, ..budget })
    &&& after.budget_for(!call.priority) == before.budget_for(!call.priority)
    &&& after == (Client {
        request_budget: after.request_budget,
        reserved_budget: after.reserved_budget,
        pending: after.pending,
        ..before
    })
}

/// A call leaves nothing taken, however it ends: answered, refused or given
/// up, it frees its place and awaits nothing any more.
pub proof fn calls_leave_nothing_taken(
    before: Client,
    out: Client,
    waiting: Client,
    through: Client,
    method: Seq<char>,
    call: Call,
)
    requires
        before.wf(),
        !before.pending@.contains(call.id),
        lets_out(before, out, method, call),
        waiting == (Client { pending: waiting.pending, ..out }),
        waiting.pending@ == out.pending@ || waiting.pending@ == out.pending@.insert(call.id),
        ends(waiting, through, call),
    ensures
        through.request_budget == before.request_budget,
        through.reserved_budget == before.reserved_budget,
        through.pending@ == before.pending@,
{
    assert(through.pending@ =~= before.pending@);
}

impl Client {
    /// The budgets are those of the limits, neither cache of observers is
    /// over its limit, and a closed connection has a reason and awaits no
    /// answer.
    pub open spec fn wf(self) -> bool {
        &&& self.request_budget.wf()
        &&& self.reserved_budget.wf()
        &&& self.event_byte_budget.wf()
        &&& self.event_slot_budget.wf()
        &&& self.request_budget.limit == self.limits.provider_requests
        &&& self.reserved_budget.limit == self.limits.reserved_requests
        &&& self.event_byte_budget.limit == self.limits.event_queue_bytes
        &&& self.event_slot_budget.limit == self.limits.event_queue_messages
        &&& self.pending@.finite()
        &&& self.closed ==> self.pending@ == Set::<u64>::empty()
        &&& self.closed == (self.closed_error is Some)
        &&& self.limits.cached_handles > 0
        &&& self.event_contexts@.dom().len() <= self.limits.cached_handles
        &&& self.event_routes@.dom().len() <= self.limits.cached_handles
    }

    /// A connection on which nothing was said yet.
    pub fn start(limits: TransportLimits) -> (client: Self)
        requires
            limits.cached_handles > 0,
        ensures
            client.wf(),
            client.limits == limits,
            client.request_budget == (Budget { limit: limits.provider_requests, used: 0 }),
            client.reserved_budget == (Budget { limit: limits.reserved_requests, used: 0 }),
            client.event_byte_budget == (Budget { limit: limits.event_queue_bytes, used: 0 }),
            client.event_slot_budget == (Budget { limit: limits.event_queue_messages, used: 0 }),
            client.event_failure is None,
            client.next_id == 1,
            client.next_exec == 1,
            client.next_stream == 1,
            client.next_operation == 1,
            client.stop_requests == 0,
            client.stop_acknowledgments == 0,
            client.max_stop_acknowledgment_us == 0,
            !client.closed,
            client.closed_error is None,
            client.pending@ == Set::<u64>::empty(),
            client.event_contexts@ == Map::<Seq<char>, u64>::empty(),
            client.event_routes@ == Map::<Seq<char>, u64>::empty(),
            client.failed_cleanups@ == Seq::<TransportError>::empty(),
    {
        Client {
            request_budget: Budget::new(limits.provider_requests),
            reserved_budget: Budget::new(limits.reserved_requests),
            event_byte_budget: Budget::new(limits.event_queue_bytes),
            event_slot_budget: Budget::new(limits.event_queue_messages),
            event_failure: None,
            next_id: 1,
            next_exec: 1,
            next_stream: 1,
            next_operation: 1,
            stop_requests: 0,
            stop_acknowledgments: 0,
            max_stop_acknowledgment_us: 0,
            closed: false,
            closed_error: None,
            pending: HashSet::new(),
            event_contexts: Registry::new(),
            event_routes: Registry::new(),
            failed_cleanups: Vec::new(),
            limits,
        }
    }

    /// What calls on a closed connection end with.
    pub open spec fn closing_view(self) -> ErrorView {
        match self.closed_error {
            Some(error) => ErrorView::Transport(error@),
            None => transport_failure("plugin transport closed"@),
        }
    }

    /// Marks the transport dead and hands out everything pending. The first
    /// failure stays the one that is reported.
    pub fn mark_closed(&mut self, error: TransportError) -> (closing: Closing)
        requires
            old(self).wf(),
        ensures
            final(self).wf(),
            final(self).closed,
            opt_failure(final(self).closed_error) == Some(
                match old(self).closed_error {
                    Some(first) => first@,
                    None => error@,
                },
            ),
            closing.first == !old(self).closed,
            Some(closing.error@) == opt_failure(final(self).closed_error),
            closing.pending@ == old(self).pending@,
            final(self).pending@ == Set::<u64>::empty(),
            final(self).event_contexts@ == Map::<Seq<char>, u64>::empty(),
            final(self).event_routes@ == Map::<Seq<char>, u64>::empty(),
            *final(self) == (Client {
                closed: true,
                closed_error: final(self).closed_error,
                pending: final(self).pending,
                event_contexts: final(self).event_contexts,
                event_routes: final(self).event_routes,
                ..*old(self)
            }),
    {
        let first = !self.closed;
        self.closed = true;
        let kept = match &self.closed_error {
            Some(kept) => kept.copy(),
            None => error,
        };
        let told = kept.copy();
        self.closed_error = Some(kept);
        let mut pending: HashSet<u64> = HashSet::new();
        std::mem::swap(&mut pending, &mut self.pending);
        self.event_contexts = Registry::new();
        self.event_routes = Registry::new();
        Closing { first, error: told, pending }
    }

    /// What calls on a closed connection end with.
    pub fn closed_error(&self) -> (error: Error)
        ensures
            error@ == self.closing_view(),
    {
        match &self.closed_error {
            Some(error) => Error::Transport(error.copy()),
            None => Error::transport("plugin transport closed"),
        }
    }

    /// Whether the control transport ended.
    pub fn is_closed(&self) -> (closed: bool)
        ensures
            closed == self.closed,
    {
        self.closed
    }

    /// The budget that a request is let out on.
    pub open spec fn budget_for(self, priority: bool) -> Budget {
        if priority {
            self.reserved_budget
        } else {
            self.request_budget
        }
    }

    /// Lets a request out, or refuses it at once when its budget is spent.
    pub fn begin_call(&mut self, method: &str) -> (call: Result<Call, Error>)
        requires
            old(self).wf(),
        ensures
            final(self).wf(),
            match call {
                Ok(call) => lets_out(*old(self), *final(self), method@, call),
                Err(error) => {
                    let priority = is_reserved(method@);
                    let before = old(self).budget_for(priority);
                    &&& before.used == before.limit
                    &&& *final(self) == *old(self)
                    &&& error@ == overloaded(
                        if priority {
                            "reserved_requests"@
                        } else {
                            "provider_requests"@
                        },
                    )
                },
            },
    {
        let priority = reserved(method);
        if priority {
            acquire(&mut self.reserved_budget, "reserved_requests")?;
        } else {
            acquire(&mut self.request_budget, "provider_requests")?;
        }
        let id: u64 = self.next_id;
        self.next_id = id.wrapping_add(1);
        Ok(Call { id, priority })
    }

    /// Awaits the answer to a request, unless the connection is closed.
    pub fn await_answer(&mut self, call: &Call) -> (outcome: Result<(), Error>)
        requires
            old(self).wf(),
        ensures
            final(self).wf(),
            match outcome {
                Ok(()) => {
                    &&& !old(self).closed
                    &&& final(self).pending@ == old(self).pending@.insert(call.id)
                    &&& *final(self) == (Client { pending: final(self).pending, ..*old(self) })
                },
                Err(error) => {
                    &&& old(self).closed
                    &&& *final(self) == *old(self)
                    &&& error@ == old(self).closing_view()
                },
            },
    {
        if self.closed {
            return Err(self.closed_error());
        }
        self.pending.insert(call.id);
        Ok(())
    }

    /// A request is through, answered or given up: its answer is no longer
    /// awaited and its place is free.
    pub fn end_call(&mut self, call: Call)
        requires
            old(self).wf(),
            old(self).budget_for(call.priority).used > 0,
        ensures
            final(self).wf(),
            ends(*old(self), *final(self), call),
    {
        self.pending.remove(&call.id);
        proof {
            assert(old(self).closed ==> self.pending@ =~= Set::<u64>::empty());
        }
        if call.priority {
            self.reserved_budget.release(1);
        } else {
            self.request_budget.release(1);
        }
    }

    /// A name for a stream: the prefix and a number.
    pub fn next_stream_id(&mut self, prefix: &str) -> (id: String)
        requires
            old(self).wf(),
        ensures
            final(self).wf(),
            id@ == numbered(prefix@, old(self).next_stream),
            *final(self) == (Client {
                next_stream: next_number(old(self).next_stream),
                ..*old(self)
            }),
    {
        let number: u64 = self.next_stream;
        self.next_stream = number.wrapping_add(1);
        number_text(prefix, number)
    }

    /// A name for a command in a sandbox.
    pub fn next_exec_id(&mut self, sandbox_id: &str) -> (id: String)
        requires
            old(self).wf(),
        ensures
            final(self).wf(),
            id@ == numbered("x"@ + sandbox_id@, old(self).next_exec),
            *final(self) == (Client { next_exec: next_number(old(self).next_exec), ..*old(self) }),
    {
        let number: u64 = self.next_exec;
        self.next_exec = number.wrapping_add(1);
        let mut prefix = "x".to_owned();
        prefix.append(sandbox_id);
        number_text(prefix.as_str(), number)
    }

    /// Routes later events of a sandbox to an observer. The cache is bounded:
    /// once it is full an arbitrary entry is evicted, and an event of an
    /// evicted sandbox fails the subscription rather than disappearing.
    pub fn remember_event_context(&mut self, id: String, context: u64)
        requires
            old(self).wf(),
        ensures
            final(self).wf(),
            inserted(
                old(self).event_contexts@,
                final(self).event_contexts@,
                id@,
                context,
                old(self).event_contexts@.dom().len() >= old(self).limits.cached_handles,
            ),
            *final(self) == (Client {
                event_contexts: final(self).event_contexts,
                ..*old(self)
            }),
    {
        self.event_contexts.insert_evicting(id, context, self.limits.cached_handles);
    }

    /// Routes the events of an operation to its observer, if it has one: the
    /// request names the route. Answers can overtake events, so a finished
    /// operation keeps its route until it is evicted.
    pub fn register_events(&mut self, context: Option<u64>, correlation_id: Option<String>) -> (
    request: Option<m::EventRequest>)
        requires
            old(self).wf(),
        ensures
            final(self).wf(),
            registers_events(*old(self), *final(self), context, correlation_id, request),
    {
        match context {
            Some(context) => {
                let number: u64 = self.next_operation;
                self.next_operation = number.wrapping_add(1);
                let route_id = number_text("event", number);
                let key = route_id.clone();
                self.event_routes.insert_evicting(key, context, self.limits.cached_handles);
                Some(m::EventRequest { route_id, correlation_id })
            },
            None => None,
        }
    }

    /// What a message from the plugin asks for. An answer ends its request,
    /// and what nobody awaits is ignored.
    pub fn route(&mut self, message: Message) -> (routed: Routed)
        requires
            old(self).wf(),
        ensures
            final(self).wf(),
            routes(*old(self), *final(self), message, routed),
            match message.id {
                Some(id) => {
                    &&& final(self).pending@ == old(self).pending@.remove(id)
                    &&& *final(self) == (Client { pending: final(self).pending, ..*old(self) })
                    &&& if old(self).pending@.contains(id) {
                        &&& routed matches Routed::Answer { id: answered, outcome }
                        &&& answered == id
                        &&& answers(message, outcome)
                    } else {
                        routed is Ignored
                    }
                },
                None => {
                    let method = opt_text(message.method);
                    &&& if method == Some(m::HOST_EVENT@) {
                        routed == (Routed::Event { params: message.params })
                    } else {
                        routed is Ignored
                    }
                    &&& if method == Some(m::HOST_EVENT_FAILED@) {
                        &&& opt_failure(final(self).event_failure) == Some(
                            failure_of(
                                "plugin event subscription exceeded its delivery capacity"@,
                            ),
                        )
                        &&& *final(self) == (Client {
                            event_failure: final(self).event_failure,
                            ..*old(self)
                        })
                    } else {
                        *final(self) == *old(self)
                    }
                },
            },
    {
        match message.id {
            Some(id) => {
                let awaited = self.pending.remove(&id);
                proof {
                    assert(old(self).closed ==> self.pending@ =~= Set::<u64>::empty());
                }
                if !awaited {
                    return Routed::Ignored;
                }
                let outcome = match message.error {
                    Some(error) => Err(error.into_error()),
                    None => Ok(message.result),
                };
                Routed::Answer { id, outcome }
            },
            None => {
                proof {
                    reveal_strlit("host/event");
                    reveal_strlit("host/event_failed");
                    assert(m::HOST_EVENT@.len() != m::HOST_EVENT_FAILED@.len());
                }
                match message.method {
                    Some(method) => {
                        if same_text(method.as_str(), m::HOST_EVENT_FAILED) {
                            self.event_failure = Some(
                                TransportError::new(
                                    "plugin event subscription exceeded its delivery capacity",
                                ),
                            );
                        }
                        if same_text(method.as_str(), m::HOST_EVENT) {
                            Routed::Event { params: message.params }
                        } else {
                            Routed::Ignored
                        }
                    },
                    None => Routed::Ignored,
                }
            },
        }
    }

    /// The observer of an event: that of its route, else that of its
    /// sandbox.
    pub open spec fn observer(self, address: EventAddress) -> Option<u64> {
        match opt_text(address.route_id) {
            Some(route) if self.event_routes@.contains_key(route) => Some(
                self.event_routes@[route],
            ),
            _ => match opt_text(address.sandbox_id) {
                Some(sandbox) if self.event_contexts@.contains_key(sandbox) => Some(
                    self.event_contexts@[sandbox],
                ),
                _ => None,
            },
        }
    }

    /// Whether an event of this size can be queued.
    pub open spec fn has_event_room(self, bytes: usize) -> bool {
        &&& self.event_byte_budget.used + bytes <= self.event_byte_budget.limit
        &&& self.event_slot_budget.used < self.event_slot_budget.limit
    }

    fn find_observer(&self, address: &EventAddress) -> (observer: Option<u64>)
        ensures
            observer == self.observer(*address),
    {
        match &address.route_id {
            Some(route) => match self.event_routes.get(route.as_str()) {
                Some(context) => {
                    return Some(context);
                },
                None => {},
            },
            None => {},
        }
        match &address.sandbox_id {
            Some(sandbox) => self.event_contexts.get(sandbox.as_str()),
            None => None,
        }
    }

    /// Queues an event that came in a line of this many bytes for its
    /// observer, if it has one and nothing was lost before. What cannot be
    /// delivered makes the subscription incomplete; control goes on.
    pub fn route_event(&mut self, event: Result<EventAddress, String>, bytes: usize) -> (queued:
        Result<Option<u64>, TransportError>)
        requires
            old(self).wf(),
            bytes <= u32::MAX,
        ensures
            final(self).wf(),
            event matches Ok(address) ==> queues_event(
                *old(self),
                *final(self),
                address,
                bytes,
                queued,
            ),
            match event {
                Err(source) => {
                    &&& *final(self) == *old(self)
                    &&& queued matches Err(failure)
                    &&& failure@ == (TransportView {
                        context: "decoding plugin host event"@,
                        source: seq![source@],
                    })
                },
                Ok(address) => match old(self).observer(address) {
                    None => {
                        &&& queued == Ok::<Option<u64>, TransportError>(None)
                        &&& opt_failure(final(self).event_failure) == Some(
                            failure_of("event route expired; event subscription is incomplete"@),
                        )
                        &&& *final(self) == (Client {
                            event_failure: final(self).event_failure,
                            ..*old(self)
                        })
                    },
                    Some(context) => if old(self).event_failure is Some {
                        &&& queued == Ok::<Option<u64>, TransportError>(None)
                        &&& *final(self) == *old(self)
                    } else if old(self).has_event_room(bytes) {
                        &&& queued == Ok::<Option<u64>, TransportError>(Some(context))
                        &&& *final(self) == (Client {
                            event_byte_budget: Budget {
                                used: (old(self).event_byte_budget.used + bytes) as usize,
                                ..old(self).event_byte_budget
                            },
                            event_slot_budget: Budget {
                                used: (old(self).event_slot_budget.used + 1) as usize,
                                ..old(self).event_slot_budget
                            },
                            ..*old(self)
                        })
                    } else {
                        &&& queued == Ok::<Option<u64>, TransportError>(None)
                        &&& opt_failure(final(self).event_failure) == Some(
                            failure_of(
                                "event delivery capacity exceeded; event subscription is incomplete"@,
                            ),
                        )
                        &&& *final(self) == (Client {
                            event_failure: final(self).event_failure,
                            ..*old(self)
                        })
                    },
                },
            },
    {
        let address = match event {
            Ok(address) => address,
            Err(source) => {
                return Err(TransportError::with_source("decoding plugin host event", source));
            },
        };
        let context: u64 = match self.find_observer(&address) {
            Some(context) => context,
            None => {
                self.event_failure = Some(
                    TransportError::new("event route expired; event subscription is incomplete"),
                );
                return Ok(None);
            },
        };
        if self.event_failure.is_some() {
            return Ok(None);
        }
        let bytes_left: usize = self.event_byte_budget.available();
        let slots_left: usize = self.event_slot_budget.available();
        if bytes > bytes_left || slots_left == 0 {
            self.event_failure = Some(
                TransportError::new(
                    "event delivery capacity exceeded; event subscription is incomplete",
                ),
            );
            return Ok(None);
        }
        self.event_byte_budget = Budget {
            limit: self.event_byte_budget.limit,
            used: self.event_byte_budget.used + bytes,
        };
        self.event_slot_budget = Budget {
            limit: self.event_slot_budget.limit,
            used: self.event_slot_budget.used + 1,
        };
        Ok(Some(context))
    }

    /// Takes an event out of the queue: whether it is to be forwarded, which
    /// nothing is once something was lost.
    pub fn take_event(&mut self) -> (forward: bool)
        requires
            old(self).wf(),
            old(self).event_slot_budget.used > 0,
        ensures
            final(self).wf(),
            forward == (old(self).event_failure is None),
            *final(self) == (Client {
                event_slot_budget: Budget {
                    used: (old(self).event_slot_budget.used - 1) as usize,
                    ..old(self).event_slot_budget
                },
                ..*old(self)
            }),
    {
        self.event_slot_budget.release(1);
        self.event_failure.is_none()
    }

    /// An event that was taken out of the queue is through. An observer that
    /// took too long makes the subscription incomplete.
    pub fn end_event(&mut self, bytes: usize, timed_out: bool)
        requires
            old(self).wf(),
            bytes <= old(self).event_byte_budget.used,
        ensures
            final(self).wf(),
            timed_out ==> opt_failure(final(self).event_failure) == Some(
                failure_of("event observer timed out; event subscription is incomplete"@),
            ),
            !timed_out ==> final(self).event_failure == old(self).event_failure,
            *final(self) == (Client {
                event_byte_budget: Budget {
                    used: (old(self).event_byte_budget.used - bytes) as usize,
                    ..old(self).event_byte_budget
                },
                event_failure: final(self).event_failure,
                ..*old(self)
            }),
    {
        self.event_byte_budget.release(bytes);
        if timed_out {
            self.event_failure = Some(
                TransportError::new("event observer timed out; event subscription is incomplete"),
            );
        }
    }

    /// Why the history of events is incomplete, if it is. Control calls go
    /// on.
    pub fn event_delivery_error(&self) -> (failure: Option<TransportError>)
        ensures
            opt_failure(failure) == opt_failure(self.event_failure),
    {
        match &self.event_failure {
            Some(failure) => Some(failure.copy()),
            None => None,
        }
    }

    /// Remembers how a cleanup ended, unless it succeeded.
    pub fn own_cleanup(&mut self, end: CleanupEnd)
        requires
            old(self).wf(),
        ensures
            final(self).wf(),
            match cleanup_failure(end) {
                None => *final(self) == *old(self),
                Some(failure) => {
                    &&& final(self).failed_cleanups@.len() == old(self).failed_cleanups@.len() + 1
                    &&& final(self).failed_cleanups@.drop_last() == old(self).failed_cleanups@
                    &&& final(self).failed_cleanups@.last()@ == failure
                    &&& *final(self) == (Client {
                        failed_cleanups: final(self).failed_cleanups,
                        ..*old(self)
                    })
                },
            },
    {
        let failure = match end {
            CleanupEnd::Done => {
                return;
            },
            CleanupEnd::Failed => TransportError::new("resource cleanup failed"),
            CleanupEnd::TimedOut => TransportError::new("resource cleanup timed out"),
            CleanupEnd::NoRuntime => TransportError::new("cleanup could not run without a runtime"),
        };
        self.failed_cleanups.push(failure);
        proof {
            assert(self.failed_cleanups@.drop_last() =~= old(self).failed_cleanups@);
        }
    }

    /// How the last cleanup that failed did.
    pub fn cleanup_error(&self) -> (failure: Option<TransportError>)
        ensures
            match failure {
                Some(failure) => self.failed_cleanups@.len() > 0 && failure@
                    == self.failed_cleanups@.last()@,
                None => self.failed_cleanups@.len() == 0,
            },
    {
        if self.failed_cleanups.len() == 0 {
            None
        } else {
            Some(self.failed_cleanups[self.failed_cleanups.len() - 1].copy())
        }
    }

    /// A stop is on its way to the plugin.
    pub fn begin_stop(&mut self)
        requires
            old(self).wf(),
        ensures
            final(self).wf(),
            *final(self) == (Client {
                stop_requests: next_number(old(self).stop_requests),
                ..*old(self)
            }),
    {
        self.stop_requests = self.stop_requests.wrapping_add(1);
    }

    /// What an attempt to deliver a stop came to, this long after it was
    /// first tried. A full budget is tried again: the stop must not be lost.
    pub fn send_stop(&mut self, outcome: Result<(), Error>, elapsed: &Duration) -> (step: StopStep)
        requires
            old(self).wf(),
        ensures
            final(self).wf(),
            match outcome {
                Ok(()) => {
                    let micros = micros_of(nanos_of(*elapsed));
                    &&& step == StopStep::Acknowledged
                    &&& *final(self) == (Client {
                        stop_acknowledgments: next_number(old(self).stop_acknowledgments),
                        max_stop_acknowledgment_us: if micros
                            > old(self).max_stop_acknowledgment_us {
                            micros
                        } else {
                            old(self).max_stop_acknowledgment_us
                        },
                        ..*old(self)
                    })
                },
                Err(error) => {
                    &&& *final(self) == *old(self)
                    &&& step == if error@ is Overloaded {
                        StopStep::TryAgain
                    } else {
                        StopStep::Failed
                    }
                },
            },
    {
        match outcome {
            Ok(()) => {
                self.stop_acknowledgments = self.stop_acknowledgments.wrapping_add(1);
                let micros: u64 = saturating_micros(elapsed);
                if micros > self.max_stop_acknowledgment_us {
                    self.max_stop_acknowledgment_us = micros;
                }
                StopStep::Acknowledged
            },
            Err(Error::Overloaded { .. }) => StopStep::TryAgain,
            Err(_) => StopStep::Failed,
        }
    }

    /// Both sides of the connection, as [`Client::transport_diagnostics`]
    /// gives them.
    pub open spec fn diagnostics_of(
        self,
        listener: ChannelListener,
        server: ServerDiagnostics,
        cleanup_tasks: usize,
        runtime_tasks: usize,
    ) -> TransportDiagnostics {
        TransportDiagnostics {
            server,
            client: ClientDiagnostics {
                active_io: listener.io_budget.used,
                pending_opens: listener.open_budget.used,
                handshakes: listener.handshake_budget.used,
                accept_backoffs: listener.measurements.backoffs,
                authenticated_opens: listener.measurements.opened,
                pending_requests: self.pending@.len() as usize,
                cleanup_tasks,
                failed_cleanups: self.failed_cleanups@.len() as usize,
                event_routes: self.event_routes@.dom().len() as usize,
                event_contexts: self.event_contexts@.dom().len() as usize,
                runtime_tasks,
                setup_samples_lost: listener.measurements.lost,
                stop_requests: self.stop_requests,
                stop_acknowledgments: self.stop_acknowledgments,
                max_stop_acknowledgment_us: self.max_stop_acknowledgment_us,
            },
        }
    }

    /// Both sides of the connection: what the plugin reports, what the
    /// listener owns, and what this side awaits. The number of cleanups and
    /// of tasks is the runtime's.
    pub fn transport_diagnostics(
        &self,
        listener: &ChannelListener,
        server: ServerDiagnostics,
        cleanup_tasks: usize,
        runtime_tasks: usize,
    ) -> (diagnostics: TransportDiagnostics)
        requires
            self.wf(),
            listener.wf(),
        ensures
            self.event_routes@.dom().finite(),
            self.event_contexts@.dom().finite(),
            diagnostics == self.diagnostics_of(*listener, server, cleanup_tasks, runtime_tasks),
    {
        let mut client = listener.diagnostics();
        client.stop_requests = self.stop_requests;
        client.stop_acknowledgments = self.stop_acknowledgments;
        client.max_stop_acknowledgment_us = self.max_stop_acknowledgment_us;
        client.pending_requests = self.pending.len();
        client.cleanup_tasks = cleanup_tasks;
        client.failed_cleanups = self.failed_cleanups.len();
        client.event_routes = self.event_routes.len();
        client.event_contexts = self.event_contexts.len();
        client.runtime_tasks = runtime_tasks;
        TransportDiagnostics { client, server }
    }
}

/// What a message answers a request with: its error if it has one, else its
/// result, else null.
pub open spec fn answers(message: Message, outcome: Result<Option<Value>, Error>) -> bool {
    match (message.error, outcome) {
        (Some(wire), Err(error)) => error@ == error_in(wire@),
        (None, Ok(result)) => result == message.result,
        _ => false,
    }
}

/// A prefix, a hyphen and a number.
pub open spec fn numbered(prefix: Seq<char>, number: u64) -> Seq<char> {
    prefix + "-"@ + decimal_text(number as nat)
}

fn number_text(prefix: &str, number: u64) -> (text: String)
    ensures
        text@ == numbered(prefix@, number),
{
    let digits = decimal(number);
    concat3(prefix, "-", digits.as_str())
}

/// What becomes of a stop.
#[derive(Clone, Copy, Debug, PartialEq, Eq, Structural)]
pub enum StopStep {
    /// The plugin answered.
    Acknowledged,
    /// Send it again in a millisecond.
    TryAgain,
    Failed,
}

/// What becomes of a call that must get through.
#[derive(Debug)]
pub enum Retry<T> {
    /// Send it again in a millisecond.
    TryAgain,
    Done(Result<T, Error>),
}

/// A call that gives a resource back is repeated for as long as its budget
/// is spent; any other outcome stands.
pub fn cleanup_call<T>(outcome: Result<T, Error>) -> (retry: Retry<T>)
    ensures
        retry == match outcome {
            Err(Error::Overloaded { limit }) => Retry::<T>::TryAgain,
            _ => Retry::Done(outcome),
        },
{
    match outcome {
        Err(Error::Overloaded { .. }) => Retry::TryAgain,
        outcome => Retry::Done(outcome),
    }
}

/// Where the forwarding of a command's stops stands.
#[derive(Clone, Copy, Debug, PartialEq, Eq, Structural)]
pub enum StopForwarding {
    /// No stop is on its way; whether one to terminate was sent.
    Waiting { term_sent: bool },
    SendingTerm,
    SendingKill,
    Done,
}

/// What happens to a command's stops.
#[derive(Clone, Copy, Debug, PartialEq, Eq, Structural)]
pub enum StopEvent {
    /// The caller asked to terminate.
    Term,
    /// The caller asked to kill.
    Kill,
    /// The stop on its way is through: whether the plugin answered it.
    Sent { acknowledged: bool },
}

/// What is to be done about a command's stops.
#[derive(Clone, Copy, Debug, PartialEq, Eq, Structural)]
pub enum StopAction {
    Nothing,
    /// Send a stop, giving up the one on its way.
    Send(StopLevel),
    /// Remember whether the plugin answered the kill; no stop follows.
    Finish { acknowledged: bool },
}

/// The forwarding after an event, and what it asks for: a term goes once,
/// a kill overtakes it and ends the forwarding.
pub open spec fn stop_transition(state: StopForwarding, event: StopEvent) -> (
    StopForwarding,
    StopAction,
) {
    match (state, event) {
        (StopForwarding::Waiting { term_sent: false }, StopEvent::Term) => (
            StopForwarding::SendingTerm,
            StopAction::Send(StopLevel::Term),
        ),
        (StopForwarding::Waiting { .. }, StopEvent::Kill) => (
            StopForwarding::SendingKill,
            StopAction::Send(StopLevel::Kill),
        ),
        (StopForwarding::SendingTerm, StopEvent::Kill) => (
            StopForwarding::SendingKill,
            StopAction::Send(StopLevel::Kill),
        ),
        (StopForwarding::SendingTerm, StopEvent::Sent { .. }) => (
            StopForwarding::Waiting { term_sent: true },
            StopAction::Nothing,
        ),
        (StopForwarding::SendingKill, StopEvent::Sent { acknowledged }) => (
            StopForwarding::Done,
            StopAction::Finish { acknowledged },
        ),
        _ => (state, StopAction::Nothing),
    }
}

impl StopForwarding {
    /// Forwards the stops of a command that its caller can stop at all.
    pub fn forward_stops(term: bool, kill: bool) -> (forwarding: Option<Self>)
        ensures
            forwarding == if term || kill {
                Some(StopForwarding::Waiting { term_sent: false })
            } else {
                None::<StopForwarding>
            },
    {
        if term || kill {
            Some(StopForwarding::Waiting { term_sent: false })
        } else {
            None
        }
    }

    /// Takes an event and says what it asks for.
    pub fn step(&mut self, event: StopEvent) -> (action: StopAction)
        ensures
            (*final(self), action) == stop_transition(*old(self), event),
    {
        match (*self, event) {
            (StopForwarding::Waiting { term_sent: false }, StopEvent::Term) => {
                *self = StopForwarding::SendingTerm;
                StopAction::Send(StopLevel::Term)
            },
            (StopForwarding::Waiting { .. }, StopEvent::Kill) => {
                *self = StopForwarding::SendingKill;
                StopAction::Send(StopLevel::Kill)
            },
            (StopForwarding::SendingTerm, StopEvent::Kill) => {
                *self = StopForwarding::SendingKill;
                StopAction::Send(StopLevel::Kill)
            },
            (StopForwarding::SendingTerm, StopEvent::Sent { .. }) => {
                *self = StopForwarding::Waiting { term_sent: true };
                StopAction::Nothing
            },
            (StopForwarding::SendingKill, StopEvent::Sent { acknowledged }) => {
                *self = StopForwarding::Done;
                StopAction::Finish { acknowledged }
            },
            _ => StopAction::Nothing,
        }
    }
}

/// What a run of events asks for, event by event.
pub open spec fn stop_actions(state: StopForwarding, events: Seq<StopEvent>) -> Seq<StopAction>
    decreases events.len(),
{
    if events.len() == 0 {
        Seq::empty()
    } else {
        let (next, action) = stop_transition(state, events[0]);
        seq![action] + stop_actions(next, events.skip(1))
    }
}

/// Whatever the caller asks for, the plugin is sent at most one term and,
/// after a kill, no stop at all.
pub proof fn a_kill_is_the_last_stop(state: StopForwarding, events: Seq<StopEvent>, i: int, j: int)
    requires
        0 <= i < j < events.len(),
    ensures
        stop_actions(state, events).len() == events.len(),
        stop_actions(state, events)[i] == StopAction::Send(StopLevel::Kill) ==> stop_actions(
            state,
            events,
        )[j] !is Send,
        stop_actions(state, events)[i] == StopAction::Send(StopLevel::Term) ==> stop_actions(
            state,
            events,
        )[j] != StopAction::Send(StopLevel::Term),
    decreases events.len(),
{
    let (next, action) = stop_transition(state, events[0]);
    let rest = events.skip(1);
    lemma_actions_match_events(next, rest);
    assert(stop_actions(state, events)[j] == stop_actions(next, rest)[j - 1]);
    if i == 0 {
        if action == StopAction::Send(StopLevel::Kill) {
            lemma_nothing_after_a_kill(next, rest, j - 1);
        }
        if action == StopAction::Send(StopLevel::Term) {
            lemma_no_second_term(next, rest, j - 1);
        }
    } else {
        assert(stop_actions(state, events)[i] == stop_actions(next, rest)[i - 1]);
        a_kill_is_the_last_stop(next, rest, i - 1, j - 1);
    }
}

proof fn lemma_actions_match_events(state: StopForwarding, events: Seq<StopEvent>)
    ensures
        stop_actions(state, events).len() == events.len(),
    decreases events.len(),
{
    if events.len() > 0 {
        let (next, _) = stop_transition(state, events[0]);
        lemma_actions_match_events(next, events.skip(1));
    }
}

proof fn lemma_nothing_after_a_kill(state: StopForwarding, events: Seq<StopEvent>, i: int)
    requires
        state is SendingKill || state is Done,
        0 <= i < events.len(),
    ensures
        stop_actions(state, events)[i] !is Send,
    decreases events.len(),
{
    let (next, action) = stop_transition(state, events[0]);
    lemma_actions_match_events(next, events.skip(1));
    if i > 0 {
        assert(stop_actions(state, events)[i] == stop_actions(next, events.skip(1))[i - 1]);
        lemma_nothing_after_a_kill(next, events.skip(1), i - 1);
    }
}

proof fn lemma_no_second_term(state: StopForwarding, events: Seq<StopEvent>, i: int)
    requires
        state != (StopForwarding::Waiting { term_sent: false }),
        0 <= i < events.len(),
    ensures
        stop_actions(state, events)[i] != StopAction::Send(StopLevel::Term),
    decreases events.len(),
{
    let (next, action) = stop_transition(state, events[0]);
    lemma_actions_match_events(next, events.skip(1));
    if i > 0 {
        assert(stop_actions(state, events)[i] == stop_actions(next, events.skip(1))[i - 1]);
        lemma_no_second_term(next, events.skip(1), i - 1);
    }
}

/// A connection never gives one name twice: names with different numbers
/// differ, whatever stands before the number.
pub proof fn names_are_not_given_twice(
    first_prefix: Seq<char>,
    first: u64,
    second_prefix: Seq<char>,
    second: u64,
)
    requires
        first != second,
    ensures
        numbered(first_prefix, first) != numbered(second_prefix, second),
{
    lemma_numbered_texts_differ(first_prefix, first as nat, second_prefix, second as nat);
}

/// A stop is let out whatever ordinary requests are under way: it does not
/// share their budget.
pub proof fn stops_are_let_out_whatever_runs(client: Client, ordinary: Seq<char>, stop: Seq<char>)
    requires
        !is_reserved(ordinary),
        stop == m::EXEC_STOP@ || stop == m::PTY_CLOSE@ || stop == m::STREAM_CANCEL@ || stop
            == m::EXEC_STDIO_TERMINATE@ || stop == m::SHUTDOWN@,
    ensures
        client.budget_for(is_reserved(stop)) == client.reserved_budget,
        client.budget_for(is_reserved(ordinary)) == client.request_budget,
{
}

/// Cleanups hold on to the place of the operation they end, so that no more
/// of them run or stay failed than operations may move bytes at once.
pub proof fn cleanups_are_bounded_by_active_io(listener: ChannelListener, channels: Seq<u64>)
    requires
        listener.wf(),
        channels.no_duplicates(),
        forall|i: int| 0 <= i < channels.len() ==> listener.holders@.contains_key(
            #[trigger] channels[i],
        ),
    ensures
        channels.len() <= listener.limits.active_io,
{
    channels.unique_seq_to_set();
    assert(channels.to_set().subset_of(listener.holders@.dom())) by {
        assert forall|id: u64| channels.to_set().contains(id) implies listener.holders@.dom().contains(
            id,
        ) by {
            let i = channels.index_of(id);
            assert(channels[i] == id);
        }
    }
    vstd::set_lib::lemma_len_subset(channels.to_set(), listener.holders@.dom());
}

/// However a transport ends, the failure that is reported keeps what was met:
/// a rendered error stays its source, and a failure that a message met stays
/// as it is.
pub proof fn a_transports_end_keeps_its_cause(end: TransportEnd)
    ensures
        match end {
            TransportEnd::WriteFailed { source }
            | TransportEnd::WriterShutdownFailed { source }
            | TransportEnd::ReadFailed { source }
            | TransportEnd::Undecodable { source } => end_failure(end).source == seq![source@],
            TransportEnd::Unroutable(failure) => end_failure(end) == failure@,
            _ => end_failure(end).source == Seq::<Seq<char>>::empty(),
        },
{
}

/// What a request fails with is what it met: a failure that the plugin or
/// the queue gave is handed on unchanged, and any other is a transport
/// failure with its rendered source.
pub proof fn a_calls_failure_is_what_it_met(event: CallEvent)
    ensures
        match event {
            CallEvent::Unsent(error) => call_failure_of(event) == error@,
            CallEvent::Failed(error) => call_failure_of(event) == error@,
            CallEvent::Unencodable { source }
            | CallEvent::Dropped { source }
            | CallEvent::Undecodable { source } => call_failure_of(
                event,
            ) matches ErrorView::Transport(failure) && failure.source == seq![source@],
        },
{
}

/// A cleanup is remembered exactly when it did not succeed.
pub proof fn only_a_failed_cleanup_is_remembered(end: CleanupEnd)
    ensures
        cleanup_failure(end) is None <==> end is Done,
{
}

/// Cleanups that ended differently are remembered differently: one that
/// failed, one that took too long, and one that nothing could run.
pub proof fn cleanups_are_remembered_as_they_ended(one: CleanupEnd, other: CleanupEnd)
    ensures
        cleanup_failure(one) == cleanup_failure(other) ==> one == other,
        one is Failed ==> cleanup_failure(one)->Some_0.context == "resource cleanup failed"@,
        one is TimedOut ==> cleanup_failure(one)->Some_0.context == "resource cleanup timed out"@,
        one is NoRuntime ==> cleanup_failure(one)->Some_0.context
            == "cleanup could not run without a runtime"@,
{
    reveal_strlit("resource cleanup failed");
    reveal_strlit("resource cleanup timed out");
    reveal_strlit("cleanup could not run without a runtime");
    assert("resource cleanup failed"@.len() == 23);
    assert("resource cleanup timed out"@.len() == 26);
    assert("cleanup could not run without a runtime"@.len() == 39);
}

/// The events of an operation reach its observer: once its route is
/// registered, an event on that route goes to the observer that was named,
/// whatever sandbox it is of.
pub proof fn an_operations_events_reach_its_observer(
    before: Client,
    after: Client,
    context: u64,
    correlation_id: Option<String>,
    request: m::EventRequest,
    address: EventAddress,
)
    requires
        registers_events(before, after, Some(context), correlation_id, Some(request)),
        opt_text(address.route_id) == Some(request.route_id@),
    ensures
        after.observer(address) == Some(context),
        request.correlation_id == correlation_id,
        after.event_contexts@ == before.event_contexts@,
        after.pending == before.pending,
        after.request_budget == before.request_budget,
{
    crate::registry::what_is_inserted_is_found(
        before.event_routes@,
        after.event_routes@,
        request.route_id@,
        context,
        before.event_routes@.dom().len() >= before.limits.cached_handles,
    );
}

/// Without an observer no route is made, and with one there always is.
pub proof fn routes_are_made_for_observers(
    before: Client,
    after: Client,
    context: Option<u64>,
    correlation_id: Option<String>,
    request: Option<m::EventRequest>,
)
    requires
        registers_events(before, after, context, correlation_id, request),
    ensures
        request is Some <==> context is Some,
        context is None ==> after == before,
{
}

/// Two operations never share a route.
pub proof fn operations_do_not_share_a_route(
    first: Client,
    second: Client,
    last: Client,
    one: u64,
    other: u64,
    correlation_id: Option<String>,
    a: m::EventRequest,
    b: m::EventRequest,
)
    requires
        registers_events(first, second, Some(one), correlation_id, Some(a)),
        registers_events(second, last, Some(other), correlation_id, Some(b)),
    ensures
        a.route_id@ != b.route_id@,
{
    names_are_not_given_twice(
        "event"@,
        first.next_operation,
        "event"@,
        second.next_operation,
    );
}

/// The events of a sandbox reach the observer of its handle, unless their
/// operation has an observer of its own.
pub proof fn a_sandboxs_events_reach_its_observer(
    before: Client,
    after: Client,
    id: Seq<char>,
    context: u64,
    full: bool,
    address: EventAddress,
)
    requires
        inserted(before.event_contexts@, after.event_contexts@, id, context, full),
        opt_text(address.sandbox_id) == Some(id),
    ensures
        address.route_id is None ==> after.observer(address) == Some(context),
        address.route_id is Some && !after.event_routes@.contains_key(address.route_id->Some_0@)
            ==> after.observer(address) == Some(context),
{
    crate::registry::what_is_inserted_is_found(
        before.event_contexts@,
        after.event_contexts@,
        id,
        context,
        full,
    );
}

/// An event has no observer exactly when neither its route nor its sandbox
/// is known, and its route counts before its sandbox.
pub proof fn an_event_is_lost_only_without_an_observer(client: Client, address: EventAddress)
    ensures
        client.observer(address) is None <==> {
            &&& address.route_id is None || !client.event_routes@.contains_key(
                address.route_id->Some_0@,
            )
            &&& address.sandbox_id is None || !client.event_contexts@.contains_key(
                address.sandbox_id->Some_0@,
            )
        },
        address.route_id is Some && client.event_routes@.contains_key(address.route_id->Some_0@)
            ==> client.observer(address) == Some(client.event_routes@[address.route_id->Some_0@]),
{
}

/// An event is queued whenever the bytes and the slots for it are there.
pub proof fn an_event_with_room_is_queued(client: Client, bytes: usize)
    requires
        client.wf(),
    ensures
        client.has_event_room(bytes) <==> bytes <= client.limits.event_queue_bytes
            - client.event_byte_budget.used && client.event_slot_budget.used
            < client.limits.event_queue_messages,
{
}

/// Calls are numbered one after the other and never share a number until the
/// numbers start over; each takes one place on the budget of its urgency and
/// none on the other.
pub proof fn calls_are_numbered_one_by_one(
    first: Client,
    second: Client,
    last: Client,
    one: Seq<char>,
    other: Seq<char>,
    a: Call,
    b: Call,
)
    requires
        lets_out(first, second, one, a),
        lets_out(second, last, other, b),
    ensures
        a.id != b.id,
        a.id < u64::MAX ==> b.id == a.id + 1,
        a.priority == is_reserved(one),
        b.priority == is_reserved(other),
        second.request_budget.used + second.reserved_budget.used == first.request_budget.used
            + first.reserved_budget.used + 1,
        a.priority <==> second.reserved_budget.used == first.reserved_budget.used + 1,
        second.pending == first.pending,
        second.closed == first.closed,
{
}

/// A request that ends gives back one place and leaves every other request
/// awaited.
pub proof fn an_ended_call_leaves_the_others(before: Client, after: Client, call: Call, other: u64)
    requires
        ends(before, after, call),
        before.budget_for(call.priority).used > 0,
    ensures
        !after.pending@.contains(call.id),
        other != call.id ==> (after.pending@.contains(other) <==> before.pending@.contains(other)),
        after.request_budget.used + after.reserved_budget.used + 1 == before.request_budget.used
            + before.reserved_budget.used,
        call.priority <==> after.reserved_budget.used + 1 == before.reserved_budget.used,
        after.closed == before.closed,
        after.next_id == before.next_id,
{
}

/// What is told of a closed connection is the failure that closed it.
pub proof fn a_closed_connection_tells_its_failure(client: Client)
    requires
        client.wf(),
    ensures
        client.closing_view() is Transport,
        client.closed ==> client.closing_view() == ErrorView::Transport(
            client.closed_error->Some_0@,
        ),
{
}

/// An answer is the plugin's error if the message has one, and its result if
/// it has none: an error is never taken for a result, nor a result for an
/// error.
pub proof fn an_answer_is_what_the_message_says(
    message: Message,
    outcome: Result<Option<Value>, Error>,
)
    requires
        answers(message, outcome),
    ensures
        outcome is Err <==> message.error is Some,
        outcome matches Ok(result) ==> result == message.result,
        outcome matches Err(error) ==> error@ == error_in(message.error->Some_0@),
{
}

/// A stop that the caller asks for is sent: a kill always, unless one was
/// sent already, and a term as long as no stop was sent. What the plugin
/// makes of a kill is remembered, and nothing is sent unasked.
pub proof fn a_stop_that_is_asked_for_is_sent(state: StopForwarding, acknowledged: bool)
    ensures
        stop_transition(state, StopEvent::Kill).1 == StopAction::Send(StopLevel::Kill) <==> state
            is Waiting || state is SendingTerm,
        stop_transition(state, StopEvent::Kill).1 is Send ==> stop_transition(
            state,
            StopEvent::Kill,
        ).0 is SendingKill,
        stop_transition(state, StopEvent::Term).1 == StopAction::Send(StopLevel::Term) <==> state
            == (StopForwarding::Waiting { term_sent: false }),
        stop_transition(state, StopEvent::Term).1 is Send ==> stop_transition(
            state,
            StopEvent::Term,
        ).0 is SendingTerm,
        !(stop_transition(state, StopEvent::Term).1 is Finish),
        stop_transition(state, StopEvent::Sent { acknowledged }).1 == (StopAction::Finish {
            acknowledged,
        }) <==> state is SendingKill,
        !(stop_transition(state, StopEvent::Sent { acknowledged }).1 is Send),
        state is SendingTerm ==> stop_transition(state, StopEvent::Sent { acknowledged }).0 == (
        StopForwarding::Waiting { term_sent: true }),
        state is SendingKill ==> stop_transition(state, StopEvent::Sent { acknowledged }).0 is Done,
        state is Done ==> stop_transition(state, StopEvent::Sent { acknowledged }) == (
            StopForwarding::Done,
            StopAction::Nothing,
        ) && stop_transition(state, StopEvent::Kill).1 is Nothing && stop_transition(
            state,
            StopEvent::Term,
        ).1 is Nothing,
{
}

/// Numbers count up by one and start over after the last.
pub proof fn numbers_count_up(number: u64)
    ensures
        next_number(number) != number,
        number < u64::MAX ==> next_number(number) == number + 1,
        next_number(u64::MAX) == 0,
{
}

/// A report says what is there: the places, openings and handshakes that the
/// listener counts, what is awaited and remembered here, and the plugin's
/// report as it came.
pub proof fn a_report_says_what_is_there(
    client: Client,
    listener: ChannelListener,
    server: ServerDiagnostics,
    cleanup_tasks: usize,
    runtime_tasks: usize,
)
    ensures
        ({
            let report = client.diagnostics_of(listener, server, cleanup_tasks, runtime_tasks);
            &&& report.server == server
            &&& report.client.active_io == listener.io_budget.used
            &&& report.client.pending_opens == listener.open_budget.used
            &&& report.client.handshakes == listener.handshake_budget.used
            &&& report.client.accept_backoffs == listener.measurements.backoffs
            &&& report.client.authenticated_opens == listener.measurements.opened
            &&& report.client.setup_samples_lost == listener.measurements.lost
            &&& report.client.pending_requests == client.pending@.len() as usize
            &&& report.client.failed_cleanups == client.failed_cleanups@.len() as usize
            &&& report.client.event_routes == client.event_routes@.dom().len() as usize
            &&& report.client.event_contexts == client.event_contexts@.dom().len() as usize
            &&& report.client.stop_requests == client.stop_requests
            &&& report.client.stop_acknowledgments == client.stop_acknowledgments
            &&& report.client.max_stop_acknowledgment_us == client.max_stop_acknowledgment_us
            &&& report.client.cleanup_tasks == cleanup_tasks
            &&& report.client.runtime_tasks == runtime_tasks
        }),
{
}

/// The route of an operation costs no other its place, unless the routes are
/// full.
pub proof fn a_route_costs_no_other_its_place(
    before: Client,
    after: Client,
    context: u64,
    correlation_id: Option<String>,
    request: m::EventRequest,
    other: Seq<char>,
)
    requires
        registers_events(before, after, Some(context), correlation_id, Some(request)),
        before.event_routes@.dom().len() < before.limits.cached_handles,
        before.event_routes@.contains_key(other),
        other != request.route_id@,
    ensures
        after.event_routes@.contains_key(other),
        after.event_routes@[other] == before.event_routes@[other],
{
}

/// An optional failure says what the failure says.
pub proof fn an_optional_failure_says_what_it_is(failure: Option<TransportError>, words: Seq<char>)
    ensures
        opt_failure(failure) is Some <==> failure is Some,
        failure is Some ==> opt_failure(failure) == Some(failure->Some_0@),
        failure_of(words).context == words,
        failure_of(words).source.len() == 0,
{
}

/// Where a message from the plugin goes: an answer to the request that awaits
/// it, an event to its observer, and anything else nowhere.
pub open spec fn routes(before: Client, after: Client, message: Message, routed: Routed) -> bool {
    &&& routed is Answer <==> message.id is Some && before.pending@.contains(message.id->Some_0)
    &&& routed is Answer ==> routed->id == message.id->Some_0 && answers(message, routed->outcome)
    &&& routed is Event <==> message.id is None && opt_text(message.method) == Some(m::HOST_EVENT@)
    &&& routed is Event ==> routed->params == message.params
    &&& message.id is Some ==> after.pending@ == before.pending@.remove(message.id->Some_0)
    &&& message.id is None ==> after.pending@ == before.pending@
    &&& message.id is None && opt_text(message.method) == Some(m::HOST_EVENT_FAILED@)
        ==> after.event_failure is Some
    &&& message.id is Some || opt_text(message.method) != Some(m::HOST_EVENT_FAILED@)
        ==> after.event_failure == before.event_failure
}

/// An answer reaches the request that awaits it, with what the message says,
/// and reaches it once: the same answer again goes nowhere. The requests that
/// await other answers go on waiting.
pub proof fn an_answer_reaches_its_request_once(
    before: Client,
    after: Client,
    last: Client,
    message: Message,
    routed: Routed,
    again: Message,
    repeated: Routed,
    other: u64,
)
    requires
        message.id is Some,
        before.pending@.contains(message.id->Some_0),
        routes(before, after, message, routed),
        again.id == message.id,
        routes(after, last, again, repeated),
    ensures
        routed matches Routed::Answer { id, outcome } && id == message.id->Some_0,
        message.error is None ==> routed->outcome is Ok && routed->outcome->Ok_0 == message.result,
        message.error is Some ==> routed->outcome is Err,
        repeated is Ignored,
        other != message.id->Some_0 ==> (after.pending@.contains(other)
            <==> before.pending@.contains(other)),
{
}

/// What becomes of an event with this address.
pub open spec fn queues_event(
    before: Client,
    after: Client,
    address: EventAddress,
    bytes: usize,
    queued: Result<Option<u64>, TransportError>,
) -> bool {
    &&& queued is Ok
    &&& queued->Ok_0 == if before.event_failure is None && before.has_event_room(bytes) {
        before.observer(address)
    } else {
        None
    }
    &&& queued->Ok_0 is Some ==> after.event_failure is None && after.event_slot_budget.used
        == before.event_slot_budget.used + 1 && after.event_byte_budget.used
        == before.event_byte_budget.used + bytes
    &&& queued->Ok_0 is None ==> after.event_failure is Some
}

/// No event disappears: it is queued for its observer, or the history is
/// known to be incomplete from then on. An event with an observer, room and
/// nothing lost before it is always queued.
pub proof fn no_event_disappears(
    before: Client,
    after: Client,
    address: EventAddress,
    bytes: usize,
    queued: Result<Option<u64>, TransportError>,
)
    requires
        before.wf(),
        queues_event(before, after, address, bytes, queued),
    ensures
        queued is Ok,
        queued->Ok_0 is Some || after.event_failure is Some,
        queued->Ok_0 matches Some(context) ==> before.observer(address) == Some(context),
        before.event_failure is None && before.observer(address) is Some
            && before.event_slot_budget.used < before.limits.event_queue_messages && bytes
            <= before.limits.event_queue_bytes - before.event_byte_budget.used ==> queued->Ok_0
            is Some,
{
}

/// A name starts with its prefix, and the number stands behind it.
pub proof fn a_name_is_its_prefix_and_its_number(prefix: Seq<char>, number: u64)
    ensures
        numbered(prefix, number).take(prefix.len() as int) == prefix,
        numbered(prefix, number).len() > prefix.len() + 1,
        numbered(prefix, number)[prefix.len() as int] == '-',
        numbered(prefix, number).skip(prefix.len() as int + 1) == decimal_text(number as nat),
{
    reveal_strlit("-");
    let text = numbered(prefix, number);
    assert(text.take(prefix.len() as int) =~= prefix);
    assert(text.skip(prefix.len() as int + 1) =~= decimal_text(number as nat));
    assert(decimal_text(number as nat).len() > 0);
}

} // verus!
