//! The plugin side: admission of requests, what is held for the host between
//! them, and what ends the serving.

use crate::channel::DataTransport;
use crate::diagnostics::ServerDiagnostics;
use crate::driver::{
    invalid_spec, io_failure, overloaded, transport_failure, transport_failure_from, Error,
    ErrorView, IoError,
};
use crate::frame::MAX_FRAME_BYTES;
use crate::limits::{acquire, is_reserved, moves_bytes, reserved, uses_io, Budget, TransportLimits};
use crate::methods as m;
use crate::registry::{inserted, lists_all, Registry};
use crate::text::{concat2, concat3, decimal, decimal_text, opt_text, same_text};
use crate::wire::{
    error_fits, wire_form, ErrorReport, Message, WireError, CODE_INVALID_REQUEST,
    CODE_METHOD_NOT_FOUND, JSONRPC_VERSION,
};
use serde_json::Value;
use vstd::prelude::*;

verus! {

/// The text of an object's member, as `Value::get` and `Value::as_str` find
/// it.
pub uninterp spec fn member_text(value: Value, key: Seq<char>) -> Option<Seq<char>>;

/// `Value::get` and `Value::as_str`: the text of an object's member, if it
/// has one.
#[verifier::external_body]
fn text_member(value: &Value, key: &str) -> (text: Option<String>)
    ensures
        opt_text(text) == member_text(*value, key@),
{
    value.get(key).and_then(Value::as_str).map(str::to_owned)
}

/// Whether a line holds nothing but ASCII whitespace.
pub open spec fn blank(line: Seq<u8>) -> bool {
    forall|i: int| 0 <= i < line.len() ==> ascii_whitespace(#[trigger] line[i])
}

/// Space, tab, newline, form feed, carriage return.
pub open spec fn ascii_whitespace(byte: u8) -> bool {
    byte == 32 || byte == 9 || byte == 10 || byte == 12 || byte == 13
}

/// Whether a line holds nothing but ASCII whitespace.
pub fn is_blank(line: &[u8]) -> (yes: bool)
    ensures
        yes == blank(line@),
{
    let mut i: usize = 0;
    while i < line.len()
        invariant
            i <= line@.len(),
            forall|j: int| 0 <= j < i ==> ascii_whitespace(#[trigger] line@[j]),
        decreases line@.len() - i,
    {
        let byte: u8 = line[i];
        if !(byte == 32 || byte == 9 || byte == 10 || byte == 12 || byte == 13) {
            assert(!ascii_whitespace(line@[i as int]));
            return false;
        }
        i = i + 1;
    }
    true
}

/// A request that was let in.
#[derive(Debug)]
pub struct Ticket {
    pub id: u64,
    pub method: String,
    /// Whether it runs on the reserved budget.
    pub priority: bool,
    /// Whether it holds a place among the operations that move bytes.
    pub io: bool,
    /// The log stream it registered.
    pub stream: Option<String>,
}

/// What becomes of a message.
#[derive(Debug)]
pub enum RequestStep {
    /// It is no request.
    Ignore,
    /// Answer it and stop serving.
    Shutdown { id: u64 },
    /// Refuse it before any work starts. The refusal waits for room among
    /// the replies, or goes out at once.
    Reject { id: u64, error: Error, waits: bool },
    /// Dispatch it.
    Dispatch(Ticket),
}

/// One where a condition holds, none where it does not.
pub open spec fn one_if(condition: bool) -> int {
    if condition {
        1
    } else {
        0
    }
}

/// Whether a method names a log stream.
pub open spec fn names_stream(method: Seq<char>) -> bool {
    method == m::LOGS_FOLLOW@ || method == m::SNAPSHOT_BUILD_LOGS@
}

/// What the plugin holds for one connection. The application keeps the
/// resources themselves under the numbers registered here.
pub struct ServerState {
    pub limits: TransportLimits,
    pub request_budget: Budget,
    pub reserved_budget: Budget,
    pub io_budget: Budget,
    pub open_budget: Budget,
    /// Set by `initialize`; every data channel opens against it.
    pub transport: Option<DataTransport>,
    pub handles: Registry<u64>,
    pub execs: Registry<u64>,
    pub stdios: Registry<u64>,
    pub ptys: Registry<u64>,
    pub streams: Registry<u64>,
    /// Whether an event was lost and no further one is sent.
    pub events_failed: bool,
    /// Whether a reply was lost, which ends the serving.
    pub delivery_failed: bool,
    /// Whether the connection is closing.
    pub closing: bool,
}

/// A reply to a request.
pub enum Reply {
    Message(Message),
    /// An error that crosses beside the report the driver renders of it.
    Failure { id: u64, error: Error },
}

/// Why a request could not be carried out.
#[derive(Debug)]
pub enum DispatchError {
    UnknownMethod,
    /// The parameters are not the expected JSON, as found at this place.
    BadParams { line: u64, column: u64 },
    App(Error),
}

/// Where JSON is not as expected.
#[derive(Clone, Copy, Debug, PartialEq, Eq, Structural)]
pub struct JsonPosition {
    pub line: u64,
    pub column: u64,
}

/// Whether a message answers a request with an envelope-level error.
pub open spec fn answers_with_code(
    message: Message,
    id: u64,
    code: i64,
    text: Seq<char>,
) -> bool {
    &&& message.jsonrpc@ == JSONRPC_VERSION@
    &&& message.id == Some(id)
    &&& message.method is None
    &&& message.params is None
    &&& message.result is None
    &&& message.error matches Some(error)
    &&& error.code == code
    &&& error.message@ == text
    &&& error.data is None
}

/// A line and a column, for a message.
pub open spec fn place_text(line: u64, column: u64) -> Seq<char> {
    " at line "@ + decimal_text(line as nat) + " column "@ + decimal_text(column as nat)
}

fn place(line: u64, column: u64) -> (text: String)
    ensures
        text@ == place_text(line, column),
{
    let mut text = concat3(" at line ", decimal(line).as_str(), " column ");
    text.append(decimal(column).as_str());
    text
}

/// The answer to a line that is no message.
pub fn malformed_reply(line: u64, column: u64) -> (message: Message)
    ensures
        answers_with_code(
            message,
            0,
            CODE_INVALID_REQUEST,
            "malformed message"@ + place_text(line, column),
        ),
{
    let text = concat2("malformed message", place(line, column).as_str());
    Message::error_response(0, WireError::envelope(CODE_INVALID_REQUEST, text))
}

/// The answer to a request that failed, with the report the driver renders
/// of the error.
pub fn failure_reply(id: u64, error: &Error, report: ErrorReport) -> (message: Message)
    requires
        error_fits(error@),
    ensures
        message.jsonrpc@ == JSONRPC_VERSION@,
        message.id == Some(id),
        message.method is None,
        message.params is None,
        message.result is None,
        message.error matches Some(wire) && wire@ == wire_form(error@, report@),
{
    Message::error_response(id, WireError::from_error(error, report))
}

/// The answer to a request.
pub fn reply(id: u64, method: &str, outcome: Result<Value, DispatchError>) -> (reply: Reply)
    ensures
        replies(id, outcome, reply),
        match outcome {
            Ok(result) => {
                &&& reply matches Reply::Message(message)
                &&& message.jsonrpc@ == JSONRPC_VERSION@
                &&& message.id == Some(id)
                &&& message.method is None
                &&& message.params is None
                &&& message.result == Some(result)
                &&& message.error is None
            },
            Err(DispatchError::UnknownMethod) => reply matches Reply::Message(message)
                && answers_with_code(
                message,
                id,
                CODE_METHOD_NOT_FOUND,
                "unknown method "@ + method@,
            ),
            Err(DispatchError::BadParams { line, column }) => reply matches Reply::Message(message)
                && answers_with_code(
                message,
                id,
                CODE_INVALID_REQUEST,
                "invalid params for "@ + method@ + place_text(line, column),
            ),
            Err(DispatchError::App(error)) => reply == (Reply::Failure { id, error }),
        },
{
    match outcome {
        Ok(result) => Reply::Message(Message::response(id, result)),
        Err(DispatchError::UnknownMethod) => {
            let text = concat2("unknown method ", method);
            Reply::Message(
                Message::error_response(id, WireError::envelope(CODE_METHOD_NOT_FOUND, text)),
            )
        },
        Err(DispatchError::BadParams { line, column }) => {
            let text = concat3("invalid params for ", method, place(line, column).as_str());
            Reply::Message(
                Message::error_response(id, WireError::envelope(CODE_INVALID_REQUEST, text)),
            )
        },
        Err(DispatchError::App(error)) => Reply::Failure { id, error },
    }
}

/// What to do after a reply was tried to be delivered.
#[derive(Debug)]
pub enum DeliveryStep {
    Done,
    /// The reply is too long: answer with this error instead, as a matter of
    /// priority.
    Instead(Error),
    /// The reply is lost, which fails the connection.
    Lost,
}

/// What to do after a reply was tried to be delivered: one that is too long
/// is replaced by an answer that says so, once.
pub fn after_delivery(outcome: Result<(), Error>, replacement: bool) -> (step: DeliveryStep)
    ensures
        match outcome {
            Ok(()) => step is Done,
            Err(error) => if !replacement && error is LimitExceeded {
                step == DeliveryStep::Instead(error)
            } else {
                step is Lost
            },
        },
{
    match outcome {
        Ok(()) => DeliveryStep::Done,
        Err(error) => match error {
            Error::LimitExceeded { limit, max_bytes } => {
                if replacement {
                    DeliveryStep::Lost
                } else {
                    DeliveryStep::Instead(Error::LimitExceeded { limit, max_bytes })
                }
            },
            _ => DeliveryStep::Lost,
        },
    }
}

/// What the serve loop waits for.
#[derive(Debug)]
pub enum ServeEvent {
    /// A reply was lost.
    DeliveryFailed,
    /// A request's task ended; whether it ended well.
    RequestEnded { well: bool },
    /// A line came, or none at the end of the input.
    Line(Option<Vec<u8>>),
    /// Reading a line failed, with the rendered error.
    LineFailed(String),
    /// The writer ended.
    WriterEnded(Result<(), Error>),
    /// The writer's task failed, with the rendered error.
    WriterFailed(String),
    /// The answer to `shutdown` went out.
    ShutdownAnswered,
    /// The answer to `shutdown` did not go out, with the rendered error.
    ShutdownUnanswered(String),
}

/// What the serve loop does next.
#[derive(Debug)]
pub enum ServeStep {
    /// Wait on.
    Continue,
    /// Take a line as a message.
    Take(Vec<u8>),
    /// Stop serving, with this outcome.
    Stop(Result<(), Error>),
}

/// What the serve loop does next. Blank lines are skipped; the end of the
/// input ends the serving well.
pub fn serve_event(event: ServeEvent) -> (step: ServeStep)
    ensures
        match event {
            ServeEvent::DeliveryFailed => step matches ServeStep::Stop(Err(error)) && error@
                == transport_failure(
                "control delivery failed; provider effects may be uncertain"@,
            ),
            ServeEvent::RequestEnded { well: true } => step is Continue,
            ServeEvent::RequestEnded { well: false } => step matches ServeStep::Stop(Err(error))
                && error@ == transport_failure("plugin request task failed"@),
            ServeEvent::Line(Some(line)) => if blank(line@) {
                step is Continue
            } else {
                step == ServeStep::Take(line)
            },
            ServeEvent::Line(None) => step matches ServeStep::Stop(Ok(_)),
            ServeEvent::LineFailed(rendered) => step matches ServeStep::Stop(Err(error)) && error@
                == transport_failure_from("reading plugin request"@, rendered@),
            ServeEvent::WriterEnded(outcome) => step == ServeStep::Stop(outcome),
            ServeEvent::WriterFailed(rendered) => step matches ServeStep::Stop(Err(error)) && error@
                == transport_failure_from("joining plugin response writer"@, rendered@),
            ServeEvent::ShutdownAnswered => step matches ServeStep::Stop(Ok(_)),
            ServeEvent::ShutdownUnanswered(rendered) => step matches ServeStep::Stop(Err(error))
                && error@ == transport_failure_from("sending plugin shutdown response"@, rendered@),
        },
{
    match event {
        ServeEvent::DeliveryFailed => ServeStep::Stop(
            Err(Error::transport("control delivery failed; provider effects may be uncertain")),
        ),
        ServeEvent::RequestEnded { well } => {
            if well {
                ServeStep::Continue
            } else {
                ServeStep::Stop(Err(Error::transport("plugin request task failed")))
            }
        },
        ServeEvent::Line(Some(line)) => {
            if is_blank(line.as_slice()) {
                ServeStep::Continue
            } else {
                ServeStep::Take(line)
            }
        },
        ServeEvent::Line(None) => ServeStep::Stop(Ok(())),
        ServeEvent::LineFailed(rendered) => ServeStep::Stop(
            Err(Error::transport_from("reading plugin request", rendered)),
        ),
        ServeEvent::WriterEnded(outcome) => ServeStep::Stop(outcome),
        ServeEvent::WriterFailed(rendered) => ServeStep::Stop(
            Err(Error::transport_from("joining plugin response writer", rendered)),
        ),
        ServeEvent::ShutdownAnswered => ServeStep::Stop(Ok(())),
        ServeEvent::ShutdownUnanswered(rendered) => ServeStep::Stop(
            Err(Error::transport_from("sending plugin shutdown response", rendered)),
        ),
    }
}

/// Why the writer of replies failed.
#[derive(Debug)]
pub enum WriteFailure {
    /// A reply did not leave in time.
    TimedOut,
    /// Writing failed, with the rendered error.
    Failed(String),
    /// Closing the output failed.
    Unclosed(IoError),
}

/// What a failure of the writer is reported as.
pub fn writer_failure(failure: WriteFailure) -> (error: Error)
    ensures
        error@ == match failure {
            WriteFailure::TimedOut => transport_failure("control response delivery timed out"@),
            WriteFailure::Failed(rendered) => transport_failure_from(
                "writing plugin response"@,
                rendered@,
            ),
            WriteFailure::Unclosed(source) => io_failure(
                "closing plugin response transport"@,
                source.kind,
                source.rendered@,
            ),
        },
{
    match failure {
        WriteFailure::TimedOut => Error::transport("control response delivery timed out"),
        WriteFailure::Failed(rendered) => Error::transport_from(
            "writing plugin response",
            rendered,
        ),
        WriteFailure::Unclosed(source) => Error::io("closing plugin response transport", source),
    }
}

/// How the writer ended once the serving stopped.
#[derive(Debug)]
pub enum WriterEnd {
    /// It had ended before.
    Before,
    /// It did not end in time.
    TimedOut,
    /// Its task failed, with the rendered error.
    Failed(String),
    Ended(Result<(), Error>),
}

/// What serving comes to: a writer that does not end counts first, then what
/// stopped the loop, then an unfinished cleanup, then how the writer ended.
pub fn serve_outcome(
    outcome: Result<(), Error>,
    cleaned_up: bool,
    writer: WriterEnd,
) -> (result: Result<(), Error>)
    ensures
        result is Ok <==> outcome is Ok && cleaned_up && ended_well(writer),
        match writer {
            WriterEnd::TimedOut => result matches Err(error) && error@ == transport_failure(
                "plugin response shutdown timed out"@,
            ),
            WriterEnd::Failed(rendered) => result matches Err(error) && error@
                == transport_failure_from("joining plugin response writer"@, rendered@),
            _ => match outcome {
                Err(error) => result == Err::<(), Error>(error),
                Ok(()) => if !cleaned_up {
                    result matches Err(error) && error@ == transport_failure(
                        "plugin cleanup incomplete at shutdown deadline"@,
                    )
                } else {
                    match writer {
                        WriterEnd::Ended(ended) => result == ended,
                        _ => result is Ok,
                    }
                },
            },
        },
{
    let ended = match writer {
        WriterEnd::Before => Ok(()),
        WriterEnd::TimedOut => {
            return Err(Error::transport("plugin response shutdown timed out"));
        },
        WriterEnd::Failed(rendered) => {
            return Err(Error::transport_from("joining plugin response writer", rendered));
        },
        WriterEnd::Ended(ended) => ended,
    };
    outcome?;
    if !cleaned_up {
        return Err(Error::transport("plugin cleanup incomplete at shutdown deadline"));
    }
    ended
}

/// What is to be closed with a connection, by the application's numbers.
#[derive(Debug)]
pub struct ClosePlan {
    pub streams: Vec<u64>,
    pub stdios: Vec<u64>,
    pub ptys: Vec<u64>,
}

/// Whether numbers are those of a registry, each id's once.
pub open spec fn all_of(numbers: Seq<u64>, entries: Map<Seq<char>, u64>) -> bool {
    exists|ids: Seq<Seq<char>>| #[trigger]
        lists_all(ids, entries.dom()) && numbers == Seq::new(ids.len(), |i: int| entries[ids[i]])
}

impl ServerState {
    /// The budgets are within their limits, and no more handles are cached
    /// than the limit says.
    pub open spec fn wf(self) -> bool {
        &&& self.request_budget.wf()
        &&& self.reserved_budget.wf()
        &&& self.io_budget.wf()
        &&& self.open_budget.wf()
        &&& self.limits.cached_handles > 0
        &&& self.handles@.dom().len() <= self.limits.cached_handles
    }

    /// The state of a fresh connection, or the refusal of its limits.
    pub fn new(limits: TransportLimits) -> (state: Result<Self, Error>)
        ensures
            match state {
                Ok(state) => {
                    &&& limits.refusal() is None
                    &&& state.wf()
                    &&& state.limits == limits
                    &&& state.request_budget == (Budget { limit: limits.provider_requests, used: 0 })
                    &&& state.reserved_budget == (Budget {
                        limit: limits.reserved_requests,
                        used: 0,
                    })
                    &&& state.io_budget == (Budget { limit: limits.active_io, used: 0 })
                    &&& state.open_budget == (Budget { limit: limits.pending_opens, used: 0 })
                    &&& state.transport is None
                    &&& state.handles@ == Map::<Seq<char>, u64>::empty()
                    &&& state.execs@ == Map::<Seq<char>, u64>::empty()
                    &&& state.stdios@ == Map::<Seq<char>, u64>::empty()
                    &&& state.ptys@ == Map::<Seq<char>, u64>::empty()
                    &&& state.streams@ == Map::<Seq<char>, u64>::empty()
                    &&& !state.events_failed
                    &&& !state.delivery_failed
                    &&& !state.closing
                },
                Err(error) => limits.refusal() == Some(error@),
            },
    {
        limits.validate()?;
        Ok(
            ServerState {
                request_budget: Budget::new(limits.provider_requests),
                reserved_budget: Budget::new(limits.reserved_requests),
                io_budget: Budget::new(limits.active_io),
                open_budget: Budget::new(limits.pending_opens),
                transport: None,
                handles: Registry::new(),
                execs: Registry::new(),
                stdios: Registry::new(),
                ptys: Registry::new(),
                streams: Registry::new(),
                events_failed: false,
                delivery_failed: false,
                closing: false,
                limits,
            },
        )
    }

    /// The budget that a request is admitted on.
    pub open spec fn admission_budget(self, method: Seq<char>) -> Budget {
        if is_reserved(method) {
            self.reserved_budget
        } else {
            self.request_budget
        }
    }

    /// Why a request cannot be let in: its budget is used up, or that of the
    /// operations that move bytes, or its log stream is taken.
    pub open spec fn admission_refusal(
        self,
        method: Seq<char>,
        stream: Option<Seq<char>>,
    ) -> Option<ErrorView> {
        let budget = self.admission_budget(method);
        if budget.used == budget.limit {
            Some(
                overloaded(
                    if is_reserved(method) {
                        "reserved_requests"@
                    } else {
                        "provider_requests"@
                    },
                ),
            )
        } else if moves_bytes(method) && self.io_budget.used == self.io_budget.limit {
            Some(overloaded("active_io"@))
        } else if names_stream(method) && stream is Some && self.streams@.contains_key(stream->0) {
            Some(invalid_spec("stream_id"@, "duplicate stream id"@))
        } else {
            None
        }
    }

    /// The places a ticket stands for are taken, beside those taken before.
    pub open spec fn took(self, before: Self, ticket: Ticket) -> bool {
        &&& self.request_budget.used == before.request_budget.used + one_if(!ticket.priority)
        &&& self.reserved_budget.used == before.reserved_budget.used + one_if(ticket.priority)
        &&& self.io_budget.used == before.io_budget.used + one_if(ticket.io)
    }

    /// Nothing but what admission accounts for differs.
    pub open spec fn same_but_admission(self, other: Self) -> bool {
        &&& self.limits == other.limits
        &&& self.open_budget == other.open_budget
        &&& self.transport == other.transport
        &&& self.handles == other.handles
        &&& self.execs == other.execs
        &&& self.stdios == other.stdios
        &&& self.ptys == other.ptys
        &&& self.events_failed == other.events_failed
        &&& self.delivery_failed == other.delivery_failed
        &&& self.closing == other.closing
        &&& self.request_budget.limit == other.request_budget.limit
        &&& self.reserved_budget.limit == other.reserved_budget.limit
        &&& self.io_budget.limit == other.io_budget.limit
    }

    /// Lets a request in or refuses it. A log stream that it names is
    /// registered under the number, so that a cancellation can reach it
    /// before the request is carried out. A refused request takes nothing.
    pub fn admit_request(
        &mut self,
        id: u64,
        method: String,
        stream: Option<String>,
        number: u64,
    ) -> (ticket: Result<Ticket, Error>)
        requires
            old(self).wf(),
        ensures
            final(self).wf(),
            final(self).same_but_admission(*old(self)),
            match ticket {
                Ok(ticket) => {
                    &&& old(self).admission_refusal(method@, opt_text(stream)) is None
                    &&& ticket.id == id
                    &&& ticket.method == method
                    &&& ticket.priority == is_reserved(method@)
                    &&& ticket.io == moves_bytes(method@)
                    &&& ticket.stream == if names_stream(method@) {
                        stream
                    } else {
                        None
                    }
                    &&& final(self).took(*old(self), ticket)
                    &&& final(self).streams@ == match ticket.stream {
                        Some(stream) => old(self).streams@.insert(stream@, number),
                        None => old(self).streams@,
                    }
                },
                Err(error) => {
                    &&& old(self).admission_refusal(method@, opt_text(stream)) == Some(error@)
                    &&& final(self).request_budget == old(self).request_budget
                    &&& final(self).reserved_budget == old(self).reserved_budget
                    &&& final(self).io_budget == old(self).io_budget
                    &&& final(self).streams@ == old(self).streams@
                },
            },
    {
        let priority = reserved(method.as_str());
        let io = uses_io(method.as_str());
        if priority {
            acquire(&mut self.reserved_budget, "reserved_requests")?;
        } else {
            acquire(&mut self.request_budget, "provider_requests")?;
        }
        if io {
            if let Err(error) = acquire(&mut self.io_budget, "active_io") {
                self.give_back(priority, false);
                return Err(error);
            }
        }
        let named = same_text(method.as_str(), m::LOGS_FOLLOW) || same_text(
            method.as_str(),
            m::SNAPSHOT_BUILD_LOGS,
        );
        let stream = if named {
            stream
        } else {
            None
        };
        if let Some(stream) = &stream {
            if self.streams.try_insert(stream.clone(), number).is_err() {
                self.give_back(priority, io);
                return Err(Error::invalid_spec("stream_id", "duplicate stream id"));
            }
        }
        Ok(Ticket { id, method, priority, io, stream })
    }

    fn give_back(&mut self, priority: bool, io: bool)
        requires
            old(self).wf(),
            priority ==> old(self).reserved_budget.used > 0,
            !priority ==> old(self).request_budget.used > 0,
            io ==> old(self).io_budget.used > 0,
        ensures
            final(self).wf(),
            final(self).same_but_admission(*old(self)),
            final(self).streams == old(self).streams,
            final(self).request_budget.used == old(self).request_budget.used - one_if(!priority),
            final(self).reserved_budget.used == old(self).reserved_budget.used - one_if(priority),
            final(self).io_budget.used == old(self).io_budget.used - one_if(io),
    {
        if priority {
            self.reserved_budget.release(1);
        } else {
            self.request_budget.release(1);
        }
        if io {
            self.io_budget.release(1);
        }
    }

    /// What becomes of a message. There are no notifications from host to
    /// plugin, so what is no request is ignored. A refusal for want of room
    /// waits until it is delivered; that of a stream id that is taken goes out
    /// at once.
    pub fn accept_request(&mut self, message: &Message, number: u64) -> (step: RequestStep)
        requires
            old(self).wf(),
        ensures
            final(self).wf(),
            final(self).same_but_admission(*old(self)),
            match (message.id, message.method) {
                (Some(id), Some(method)) => {
                    let stream = match message.params {
                        Some(params) => member_text(params, "stream_id"@),
                        None => None,
                    };
                    if method@ == m::SHUTDOWN@ {
                        &&& step == (RequestStep::Shutdown { id })
                        &&& *final(self) == *old(self)
                    } else {
                        match old(self).admission_refusal(method@, stream) {
                            Some(refusal) => {
                                &&& step matches RequestStep::Reject {
                                    id: answered,
                                    error,
                                    waits,
                                }
                                &&& answered == id
                                &&& error@ == refusal
                                &&& waits == (refusal is Overloaded)
                                &&& final(self).request_budget == old(self).request_budget
                                &&& final(self).reserved_budget == old(self).reserved_budget
                                &&& final(self).io_budget == old(self).io_budget
                                &&& final(self).streams@ == old(self).streams@
                            },
                            None => {
                                &&& step matches RequestStep::Dispatch(ticket)
                                &&& ticket.id == id
                                &&& ticket.method@ == method@
                                &&& ticket.priority == is_reserved(method@)
                                &&& ticket.io == moves_bytes(method@)
                                &&& opt_text(ticket.stream) == if names_stream(method@) {
                                    stream
                                } else {
                                    None
                                }
                                &&& final(self).took(*old(self), ticket)
                                &&& final(self).streams@ == match ticket.stream {
                                    Some(stream) => old(self).streams@.insert(stream@, number),
                                    None => old(self).streams@,
                                }
                            },
                        }
                    }
                },
                _ => step is Ignore && *final(self) == *old(self),
            },
    {
        let (id, method) = match (&message.id, &message.method) {
            (Some(id), Some(method)) => (*id, method),
            _ => {
                return RequestStep::Ignore;
            },
        };
        if same_text(method.as_str(), m::SHUTDOWN) {
            return RequestStep::Shutdown { id };
        }
        let stream = match &message.params {
            Some(params) => text_member(params, "stream_id"),
            None => None,
        };
        match self.admit_request(id, method.clone(), stream, number) {
            Ok(ticket) => RequestStep::Dispatch(ticket),
            Err(error) => {
                let waits = match &error {
                    Error::Overloaded { .. } => true,
                    _ => false,
                };
                RequestStep::Reject { id, error, waits }
            },
        }
    }

    /// Whether the places that a ticket stands for are taken.
    pub open spec fn holds(self, ticket: Ticket) -> bool {
        &&& ticket.priority ==> self.reserved_budget.used > 0
        &&& !ticket.priority ==> self.request_budget.used > 0
        &&& ticket.io ==> self.io_budget.used > 0
    }

    /// A request was carried out: its log stream is gone.
    pub fn end_stream(&mut self, ticket: &Ticket)
        requires
            old(self).wf(),
        ensures
            final(self).wf(),
            final(self).same_but_admission(*old(self)),
            final(self).request_budget == old(self).request_budget,
            final(self).reserved_budget == old(self).reserved_budget,
            final(self).io_budget == old(self).io_budget,
            final(self).streams@ == match ticket.stream {
                Some(stream) => old(self).streams@.remove(stream@),
                None => old(self).streams@,
            },
    {
        if let Some(stream) = &ticket.stream {
            self.streams.remove(stream.as_str());
        }
    }

    /// A request was answered: its place on the request budget is free.
    pub fn release_request(&mut self, ticket: Ticket)
        requires
            old(self).wf(),
            old(self).holds(ticket),
        ensures
            final(self).wf(),
            final(self).same_but_admission(*old(self)),
            final(self).streams == old(self).streams,
            final(self).io_budget == old(self).io_budget,
            final(self).request_budget.used == old(self).request_budget.used - one_if(
                !ticket.priority,
            ),
            final(self).reserved_budget.used == old(self).reserved_budget.used - one_if(
                ticket.priority,
            ),
    {
        self.give_back(ticket.priority, false);
    }

    /// The last owner of an operation's place among those that move bytes is
    /// gone.
    pub fn release_io(&mut self)
        requires
            old(self).wf(),
            old(self).io_budget.used > 0,
        ensures
            final(self).wf(),
            final(self).io_budget.used == old(self).io_budget.used - 1,
            *final(self) == (ServerState { io_budget: final(self).io_budget, ..*old(self) }),
            final(self).io_budget.limit == old(self).io_budget.limit,
    {
        self.io_budget.release(1);
    }

    /// Agrees on the protocol version, then on the data transport. The
    /// version is looked at first, so that a host of another version is told
    /// so whatever else it sends. A second `initialize` keeps the first
    /// transport: channels the host already waits on were named against it.
    pub fn initialize(
        &mut self,
        version: Result<u32, JsonPosition>,
        params: Result<m::InitializeParams, JsonPosition>,
    ) -> (outcome: Result<(), DispatchError>)
        requires
            old(self).wf(),
        ensures
            final(self).wf(),
            *final(self) == (ServerState { transport: final(self).transport, ..*old(self) }),
            outcome is Err ==> *final(self) == *old(self),
            agrees(*old(self), *final(self), version, params, outcome),
            match version {
                Err(place) => outcome == Err::<(), DispatchError>(
                    DispatchError::BadParams { line: place.line, column: place.column },
                ),
                Ok(version) => if version != m::PROTOCOL_VERSION {
                    outcome matches Err(DispatchError::App(error)) && error@ == invalid_spec(
                        "protocol_version"@,
                        "plugin speaks protocol version 2 but the host asked for "@ + decimal_text(
                            version as nat,
                        ),
                    )
                } else {
                    match params {
                        Err(place) => outcome == Err::<(), DispatchError>(
                            DispatchError::BadParams { line: place.line, column: place.column },
                        ),
                        Ok(params) => if params.data_transport.max_frame_bytes != MAX_FRAME_BYTES {
                            outcome matches Err(DispatchError::App(error)) && error@
                                == invalid_spec("data_transport.max_frame_bytes"@, "must be 65536"@)
                        } else {
                            &&& outcome is Ok
                            &&& final(self).transport == match old(self).transport {
                                Some(kept) => Some(kept),
                                None => Some(params.data_transport),
                            }
                        },
                    }
                },
            },
    {
        let version: u32 = match version {
            Ok(version) => version,
            Err(place) => {
                return Err(DispatchError::BadParams { line: place.line, column: place.column });
            },
        };
        if version != m::PROTOCOL_VERSION {
            let reason = concat2(
                "plugin speaks protocol version 2 but the host asked for ",
                decimal(version as u64).as_str(),
            );
            return Err(
                DispatchError::App(Error::invalid_spec("protocol_version", reason.as_str())),
            );
        }
        let params = match params {
            Ok(params) => params,
            Err(place) => {
                return Err(DispatchError::BadParams { line: place.line, column: place.column });
            },
        };
        if params.data_transport.max_frame_bytes != MAX_FRAME_BYTES {
            return Err(
                DispatchError::App(
                    Error::invalid_spec("data_transport.max_frame_bytes", "must be 65536"),
                ),
            );
        }
        if self.transport.is_none() {
            self.transport = Some(params.data_transport);
        }
        Ok(())
    }

    /// The handle of a sandbox, if the connection has it.
    pub fn handle(&self, id: &str) -> (number: Option<u64>)
        ensures
            match number {
                Some(number) => self.handles@.contains_key(id@) && number == self.handles@[id@],
                None => !self.handles@.contains_key(id@),
            },
    {
        self.handles.get(id)
    }

    /// Keeps a sandbox's handle, dropping an arbitrary other one where there
    /// is no room.
    pub fn remember(&mut self, id: String, number: u64)
        requires
            old(self).wf(),
        ensures
            final(self).wf(),
            *final(self) == (ServerState { handles: final(self).handles, ..*old(self) }),
            inserted(
                old(self).handles@,
                final(self).handles@,
                id@,
                number,
                !old(self).handles@.contains_key(id@) && old(self).handles@.dom().len()
                    >= old(self).limits.cached_handles,
            ),
    {
        let max: usize = self.limits.cached_handles;
        self.handles.insert_bounded(id, number, max);
    }

    /// Drops a sandbox's handle.
    pub fn forget_handle(&mut self, id: &str)
        requires
            old(self).wf(),
        ensures
            final(self).wf(),
            *final(self) == (ServerState { handles: final(self).handles, ..*old(self) }),
            final(self).handles@ == old(self).handles@.remove(id@),
    {
        let before: usize = self.handles.len();
        proof {
            vstd::set_lib::lemma_len_subset(
                self.handles@.dom().remove(id@),
                self.handles@.dom(),
            );
        }
        self.handles.remove(id);
        assert(self.handles@.dom() =~= old(self).handles@.dom().remove(id@));
    }

    /// Takes a place to open a data channel. Before `initialize` there is no
    /// transport to open one against, which is a violation of the protocol.
    pub fn begin_open(&mut self) -> (outcome: Result<(), Error>)
        requires
            old(self).wf(),
        ensures
            final(self).wf(),
            *final(self) == (ServerState { open_budget: final(self).open_budget, ..*old(self) }),
            final(self).open_budget.limit == old(self).open_budget.limit,
            match outcome {
                Ok(()) => {
                    &&& old(self).open_budget.used < old(self).open_budget.limit
                    &&& old(self).transport is Some
                    &&& final(self).open_budget.used == old(self).open_budget.used + 1
                },
                Err(error) => {
                    &&& *final(self) == *old(self)
                    &&& if old(self).open_budget.used == old(self).open_budget.limit {
                        error@ == overloaded("pending_opens"@)
                    } else {
                        &&& old(self).transport is None
                        &&& error@ == transport_failure(
                            "a data channel was requested before initialize"@,
                        )
                    }
                },
            },
    {
        acquire(&mut self.open_budget, "pending_opens")?;
        if self.transport.is_none() {
            self.open_budget.release(1);
            return Err(Error::transport("a data channel was requested before initialize"));
        }
        Ok(())
    }

    /// A data channel is open, or it could not be opened.
    pub fn end_open(&mut self)
        requires
            old(self).wf(),
            old(self).open_budget.used > 0,
        ensures
            final(self).wf(),
            *final(self) == (ServerState { open_budget: final(self).open_budget, ..*old(self) }),
            final(self).open_budget.limit == old(self).open_budget.limit,
            final(self).open_budget.used == old(self).open_budget.used - 1,
    {
        self.open_budget.release(1);
    }

    /// Makes a command's stops addressable by its id.
    pub fn register_exec(&mut self, id: String, number: u64) -> (outcome: Result<(), Error>)
        requires
            old(self).wf(),
        ensures
            final(self).wf(),
            *final(self) == (ServerState { execs: final(self).execs, ..*old(self) }),
            match outcome {
                Ok(()) => {
                    &&& !old(self).execs@.contains_key(id@)
                    &&& final(self).execs@ == old(self).execs@.insert(id@, number)
                },
                Err(error) => {
                    &&& old(self).execs@.contains_key(id@)
                    &&& error@ == invalid_spec("exec_id"@, "duplicate execution id"@)
                    &&& final(self).execs@ == old(self).execs@
                },
            },
    {
        match self.execs.try_insert(id, number) {
            Ok(()) => Ok(()),
            Err(_) => Err(Error::invalid_spec("exec_id", "duplicate execution id")),
        }
    }

    /// A command's stops are no longer addressable.
    pub fn forget_exec(&mut self, id: &str)
        requires
            old(self).wf(),
        ensures
            final(self).wf(),
            *final(self) == (ServerState { execs: final(self).execs, ..*old(self) }),
            final(self).execs@ == old(self).execs@.remove(id@),
    {
        self.execs.remove(id);
    }

    /// The command that a stop is for. A stop for a command that is not
    /// there any more is none.
    pub fn exec_to_stop(&self, id: &str) -> (number: Option<u64>)
        ensures
            match number {
                Some(number) => self.execs@.contains_key(id@) && number == self.execs@[id@],
                None => !self.execs@.contains_key(id@),
            },
    {
        self.execs.get(id)
    }

    /// Keeps a stdio process under its id. A process under an id that is
    /// taken is terminated by the caller.
    pub fn register_stdio(&mut self, id: String, number: u64) -> (outcome: Result<(), Error>)
        requires
            old(self).wf(),
        ensures
            final(self).wf(),
            *final(self) == (ServerState { stdios: final(self).stdios, ..*old(self) }),
            match outcome {
                Ok(()) => {
                    &&& !old(self).stdios@.contains_key(id@)
                    &&& final(self).stdios@ == old(self).stdios@.insert(id@, number)
                },
                Err(error) => {
                    &&& old(self).stdios@.contains_key(id@)
                    &&& error@ == invalid_spec("process_id"@, "duplicate stdio process id"@)
                    &&& final(self).stdios@ == old(self).stdios@
                },
            },
    {
        match self.stdios.try_insert(id, number) {
            Ok(()) => Ok(()),
            Err(_) => Err(Error::invalid_spec("process_id", "duplicate stdio process id")),
        }
    }

    /// The stdio process of an id.
    pub fn stdio(&self, id: &str) -> (number: Result<u64, Error>)
        ensures
            match number {
                Ok(number) => self.stdios@.contains_key(id@) && number == self.stdios@[id@],
                Err(error) => !self.stdios@.contains_key(id@) && error@ == invalid_spec(
                    "process_id"@,
                    "unknown stdio process id"@,
                ),
            },
    {
        match self.stdios.get(id) {
            Some(number) => Ok(number),
            None => Err(Error::invalid_spec("process_id", "unknown stdio process id")),
        }
    }

    /// A stdio process was waited for.
    pub fn forget_stdio(&mut self, id: &str)
        requires
            old(self).wf(),
        ensures
            final(self).wf(),
            *final(self) == (ServerState { stdios: final(self).stdios, ..*old(self) }),
            final(self).stdios@ == old(self).stdios@.remove(id@),
    {
        self.stdios.remove(id);
    }

    /// Keeps a PTY under its id. A PTY under an id that is taken is closed
    /// by the caller.
    pub fn register_pty(&mut self, id: String, number: u64) -> (outcome: Result<(), Error>)
        requires
            old(self).wf(),
        ensures
            final(self).wf(),
            *final(self) == (ServerState { ptys: final(self).ptys, ..*old(self) }),
            match outcome {
                Ok(()) => {
                    &&& !old(self).ptys@.contains_key(id@)
                    &&& final(self).ptys@ == old(self).ptys@.insert(id@, number)
                },
                Err(error) => {
                    &&& old(self).ptys@.contains_key(id@)
                    &&& error@ == invalid_spec("pty_id"@, "duplicate PTY id"@)
                    &&& final(self).ptys@ == old(self).ptys@
                },
            },
    {
        match self.ptys.try_insert(id, number) {
            Ok(()) => Ok(()),
            Err(_) => Err(Error::invalid_spec("pty_id", "duplicate PTY id")),
        }
    }

    /// The PTY of an id.
    pub fn pty(&self, id: &str) -> (number: Result<u64, Error>)
        ensures
            match number {
                Ok(number) => self.ptys@.contains_key(id@) && number == self.ptys@[id@],
                Err(error) => !self.ptys@.contains_key(id@) && error@ == invalid_spec(
                    "pty_id"@,
                    "unknown PTY id"@,
                ),
            },
    {
        match self.ptys.get(id) {
            Some(number) => Ok(number),
            None => Err(Error::invalid_spec("pty_id", "unknown PTY id")),
        }
    }

    /// Takes the PTY of an id out to be closed. Closing what is not there is
    /// no failure.
    pub fn take_pty(&mut self, id: &str) -> (number: Option<u64>)
        requires
            old(self).wf(),
        ensures
            final(self).wf(),
            *final(self) == (ServerState { ptys: final(self).ptys, ..*old(self) }),
            final(self).ptys@ == old(self).ptys@.remove(id@),
            match number {
                Some(number) => old(self).ptys@.contains_key(id@) && number == old(self).ptys@[id@],
                None => !old(self).ptys@.contains_key(id@),
            },
    {
        self.ptys.remove(id)
    }

    /// A PTY could not be closed: it stays.
    pub fn restore_pty(&mut self, id: String, number: u64)
        requires
            old(self).wf(),
        ensures
            final(self).wf(),
            *final(self) == (ServerState { ptys: final(self).ptys, ..*old(self) }),
            final(self).ptys@ == old(self).ptys@.insert(id@, number),
    {
        self.ptys.insert(id, number);
    }

    /// The number a log stream is cancelled by: the one it was registered
    /// under, since a cancellation can overtake the task that follows the
    /// log, or else this one.
    pub fn follow_stream(&mut self, id: String, number: u64) -> (registered: u64)
        requires
            old(self).wf(),
        ensures
            final(self).wf(),
            *final(self) == (ServerState { streams: final(self).streams, ..*old(self) }),
            final(self).streams@.contains_key(id@),
            registered == final(self).streams@[id@],
            if old(self).streams@.contains_key(id@) {
                final(self).streams@ == old(self).streams@
            } else {
                final(self).streams@ == old(self).streams@.insert(id@, number)
            },
    {
        let make = || -> (made: u64)
            ensures
                made == number,
            { number };
        self.streams.get_or_insert_with(id, make)
    }

    /// A log stream is no longer cancellable.
    pub fn forget_stream(&mut self, id: &str)
        requires
            old(self).wf(),
        ensures
            final(self).wf(),
            *final(self) == (ServerState { streams: final(self).streams, ..*old(self) }),
            final(self).streams@ == old(self).streams@.remove(id@),
    {
        self.streams.remove(id);
    }

    /// The log stream to cancel. Cancelling what is not there is no failure.
    pub fn stream_to_cancel(&self, id: &str) -> (number: Option<u64>)
        ensures
            match number {
                Some(number) => self.streams@.contains_key(id@) && number == self.streams@[id@],
                None => !self.streams@.contains_key(id@),
            },
    {
        self.streams.get(id)
    }

    /// What the plugin owns.
    pub fn diagnostics(&self, background_tasks: usize, runtime_tasks: usize) -> (diagnostics:
        ServerDiagnostics)
        ensures
            diagnostics.active_io == self.io_budget.used,
            diagnostics.pending_opens == self.open_budget.used,
            diagnostics.execs == self.execs@.dom().len(),
            diagnostics.stdios == self.stdios@.dom().len(),
            diagnostics.ptys == self.ptys@.dom().len(),
            diagnostics.streams == self.streams@.dom().len(),
            diagnostics.cached_handles == self.handles@.dom().len(),
            diagnostics.background_tasks == background_tasks,
            diagnostics.runtime_tasks == runtime_tasks,
    {
        ServerDiagnostics {
            active_io: self.io_budget.used,
            pending_opens: self.open_budget.used,
            execs: self.execs.len(),
            stdios: self.stdios.len(),
            ptys: self.ptys.len(),
            streams: self.streams.len(),
            cached_handles: self.handles.len(),
            background_tasks,
            runtime_tasks,
        }
    }

    /// Closes what the connection holds. It has no caller left to escalate,
    /// so every command is killed outright, also one that registers later.
    pub fn close_sessions(&mut self) -> (plan: ClosePlan)
        requires
            old(self).wf(),
        ensures
            final(self).wf(),
            final(self).closing,
            final(self).execs@ == Map::<Seq<char>, u64>::empty(),
            final(self).streams@ == Map::<Seq<char>, u64>::empty(),
            final(self).stdios@ == Map::<Seq<char>, u64>::empty(),
            final(self).ptys@ == Map::<Seq<char>, u64>::empty(),
            all_of(plan.streams@, old(self).streams@),
            all_of(plan.stdios@, old(self).stdios@),
            all_of(plan.ptys@, old(self).ptys@),
            *final(self) == (ServerState {
                closing: true,
                execs: final(self).execs,
                streams: final(self).streams,
                stdios: final(self).stdios,
                ptys: final(self).ptys,
                ..*old(self)
            }),
    {
        self.closing = true;
        self.execs.drain();
        let streams = self.streams.drain();
        let stdios = self.stdios.drain();
        let ptys = self.ptys.drain();
        ClosePlan { streams, stdios, ptys }
    }

    /// Whether an event is to be sent: after one was lost, none is.
    pub fn sends_events(&self) -> (yes: bool)
        ensures
            yes == !self.events_failed,
    {
        !self.events_failed
    }

    /// Takes note of whether an event went out. Gives whether the host is to
    /// be told that one was lost, which it is once.
    pub fn event_sent(&mut self, sent: bool) -> (announce: bool)
        requires
            old(self).wf(),
        ensures
            final(self).wf(),
            announce == (!sent && !old(self).events_failed),
            *final(self) == (ServerState {
                events_failed: old(self).events_failed || !sent,
                ..*old(self)
            }),
    {
        if sent || self.events_failed {
            return false;
        }
        self.events_failed = true;
        true
    }

    /// Takes note of whether a reply, or the news of a lost event, went out:
    /// where it did not, the serving ends.
    pub fn reply_sent(&mut self, sent: bool)
        requires
            old(self).wf(),
        ensures
            final(self).wf(),
            *final(self) == (ServerState {
                delivery_failed: old(self).delivery_failed || !sent,
                ..*old(self)
            }),
    {
        if !sent {
            self.delivery_failed = true;
        }
    }
}

/// A request that is let in and then answered leaves the request budgets as
/// they were, and what it holds can be given back.
pub proof fn answered_requests_leave_nothing_taken(
    before: ServerState,
    taken: ServerState,
    after: ServerState,
    ticket: Ticket,
)
    requires
        before.wf(),
        taken.same_but_admission(before),
        taken.took(before, ticket),
        after.same_but_admission(taken),
        after.request_budget.used == taken.request_budget.used - one_if(!ticket.priority),
        after.reserved_budget.used == taken.reserved_budget.used - one_if(ticket.priority),
    ensures
        taken.holds(ticket),
        after.request_budget == before.request_budget,
        after.reserved_budget == before.reserved_budget,
{
}

/// However much ordinary work there is, what stops it is let in: only the
/// reserved budget refuses a reserved method.
pub proof fn stops_are_let_in_whatever_runs(
    state: ServerState,
    method: Seq<char>,
    stream: Option<Seq<char>>,
)
    requires
        is_reserved(method),
        state.reserved_budget.used < state.reserved_budget.limit,
    ensures
        state.admission_refusal(method, stream) is None,
{
    crate::limits::reserved_methods_move_no_bytes(method);
    lemma_streams_move_bytes(method);
}

/// What names a log stream moves bytes.
proof fn lemma_streams_move_bytes(method: Seq<char>)
    ensures
        names_stream(method) ==> moves_bytes(method),
{
}

/// A request is let in exactly when its budget has a place, one that moves
/// bytes finds a place among those too, and a log stream that it names is not
/// taken. It is refused as overloaded for want of a place, and as invalid for
/// a stream id that is taken.
pub proof fn a_request_with_room_is_let_in(
    state: ServerState,
    method: Seq<char>,
    stream: Option<Seq<char>>,
)
    requires
        state.wf(),
    ensures
        state.admission_refusal(method, stream) is None <==> {
            &&& is_reserved(method) ==> state.reserved_budget.used < state.reserved_budget.limit
            &&& !is_reserved(method) ==> state.request_budget.used < state.request_budget.limit
            &&& moves_bytes(method) ==> state.io_budget.used < state.io_budget.limit
            &&& method == m::LOGS_FOLLOW@ || method == m::SNAPSHOT_BUILD_LOGS@ ==> (stream
                is None || !state.streams@.contains_key(stream->Some_0))
        },
        state.admission_refusal(method, stream) matches Some(error) ==> {
            ||| error == overloaded("reserved_requests"@) && is_reserved(method)
                && state.reserved_budget.used == state.reserved_budget.limit
            ||| error == overloaded("provider_requests"@) && !is_reserved(method)
                && state.request_budget.used == state.request_budget.limit
            ||| error == overloaded("active_io"@) && moves_bytes(method) && state.io_budget.used
                == state.io_budget.limit
            ||| error is InvalidSpec && stream is Some && state.streams@.contains_key(
                stream->Some_0,
            )
        },
{
}

/// A log stream is named by exactly the methods that follow one.
pub proof fn streams_are_named_by_what_follows_them(method: crate::dispatch::Method)
    ensures
        names_stream(crate::dispatch::method_name(method)) <==> crate::dispatch::stages_of(
            method,
        ).contains(crate::dispatch::Stage::FollowStream),
{
    crate::dispatch::every_request_leaves_its_records(method);
    crate::dispatch::method_names_are_distinct(method, crate::dispatch::Method::LogsFollow);
    crate::dispatch::method_names_are_distinct(
        method,
        crate::dispatch::Method::SnapshotBuildLogs,
    );
}

/// A request that is let in takes one place on one of the two request
/// budgets, by its urgency, and one among those that move bytes exactly where
/// it moves bytes; nothing else of the connection changes, and the place that
/// it takes is there to be given back.
pub proof fn a_request_takes_one_place(before: ServerState, after: ServerState, ticket: Ticket)
    requires
        before.wf(),
        after.took(before, ticket),
        after.same_but_admission(before),
    ensures
        after.request_budget.used + after.reserved_budget.used == before.request_budget.used
            + before.reserved_budget.used + 1,
        ticket.priority <==> after.reserved_budget.used == before.reserved_budget.used + 1,
        ticket.io <==> after.io_budget.used == before.io_budget.used + 1,
        !ticket.io <==> after.io_budget.used == before.io_budget.used,
        after.holds(ticket),
        after.handles@ == before.handles@,
        after.execs@ == before.execs@,
        after.stdios@ == before.stdios@,
        after.ptys@ == before.ptys@,
        after.transport == before.transport,
        after.open_budget == before.open_budget,
        after.limits == before.limits,
        after.closing == before.closing,
        after.events_failed == before.events_failed,
        after.delivery_failed == before.delivery_failed,
{
}

/// A request that is not carried out is answered under its own id with a
/// code and words, and with nothing that could be taken for a result or for a
/// driver's failure.
pub proof fn an_envelope_answer_is_no_result(
    message: Message,
    id: u64,
    code: i64,
    text: Seq<char>,
)
    requires
        answers_with_code(message, id, code, text),
    ensures
        message.id == Some(id),
        message.result is None,
        message.method is None,
        message.error matches Some(error) && error.code == code && error.message@ == text
            && error.data is None,
{
}

/// Whether a line is blank is a matter of its bytes alone, one by one: no line
/// with a byte that is not whitespace is passed over, and a line of
/// whitespace always is.
pub proof fn only_whitespace_is_passed_over(a: Seq<u8>, b: Seq<u8>, byte: u8)
    ensures
        blank(Seq::empty()),
        blank(a + b) <==> blank(a) && blank(b),
        blank(seq![byte]) <==> byte == 9 || byte == 10 || byte == 12 || byte == 13 || byte == 32,
{
    let whole = a + b;
    if blank(whole) {
        assert forall|i: int| 0 <= i < a.len() implies ascii_whitespace(#[trigger] a[i]) by {
            assert(whole[i] == a[i]);
        }
        assert forall|i: int| 0 <= i < b.len() implies ascii_whitespace(#[trigger] b[i]) by {
            assert(whole[a.len() + i] == b[i]);
        }
    }
    assert(seq![byte][0] == byte);
}

/// What a closing connection ends is all that it held: as many numbers as
/// entries, every entry's number among them, and no other number.
pub proof fn everything_held_is_closed(numbers: Seq<u64>, entries: Map<Seq<char>, u64>)
    requires
        all_of(numbers, entries),
    ensures
        numbers.len() == entries.dom().len(),
        forall|id: Seq<char>| #[trigger]
            entries.contains_key(id) ==> numbers.contains(entries[id]),
        forall|i: int|
            0 <= i < numbers.len() ==> entries.contains_value(#[trigger] numbers[i]),
{
    let ids = choose|ids: Seq<Seq<char>>| #[trigger]
        lists_all(ids, entries.dom()) && numbers == Seq::new(ids.len(), |i: int| entries[ids[i]]);
    crate::registry::a_list_of_all_is_complete(ids, entries.dom());
    assert forall|id: Seq<char>| #[trigger] entries.contains_key(id) implies numbers.contains(
        entries[id],
    ) by {
        assert(entries.dom().contains(id));
        let at = ids.index_of(id);
        assert(ids[at] == id);
        assert(numbers[at] == entries[id]);
    }
    assert forall|i: int| 0 <= i < numbers.len() implies entries.contains_value(
        #[trigger] numbers[i],
    ) by {
        assert(ids.contains(ids[i]));
        assert(entries.dom().contains(ids[i]));
        assert(entries[ids[i]] == numbers[i]);
    }
}

/// Whether this answers a request with its outcome.
pub open spec fn replies(id: u64, outcome: Result<Value, DispatchError>, reply: Reply) -> bool {
    match reply {
        Reply::Message(message) => {
            &&& message.id == Some(id)
            &&& message.result is Some <==> outcome is Ok
            &&& outcome is Ok ==> message.result == Some(outcome->Ok_0) && message.error is None
            &&& outcome is Err ==> message.error is Some && !(outcome->Err_0 is App)
            &&& outcome is Err && outcome->Err_0 is UnknownMethod ==> message.error->Some_0.code
                == -32601
            &&& outcome is Err && outcome->Err_0 is BadParams ==> message.error->Some_0.code
                == -32600
        },
        Reply::Failure { id: answered, error } => {
            &&& answered == id
            &&& outcome is Err
            &&& outcome->Err_0 == DispatchError::App(error)
        },
    }
}

/// A request is answered with its own outcome under its own id: the result
/// that it had, the failure that the driver gave, or the code that says why
/// it was not carried out.
pub proof fn a_request_is_answered_with_its_outcome(
    id: u64,
    outcome: Result<Value, DispatchError>,
    reply: Reply,
)
    requires
        replies(id, outcome, reply),
    ensures
        outcome matches Ok(value) ==> reply matches Reply::Message(message) && message.id == Some(id)
            && message.result == Some(value) && message.error is None,
        outcome matches Err(DispatchError::App(error)) ==> reply == (Reply::Failure { id, error }),
        outcome matches Err(DispatchError::UnknownMethod) ==> reply matches Reply::Message(message)
            && message.id == Some(id) && message.result is None && message.error is Some
            && message.error->Some_0.code == -32601,
        outcome matches Err(DispatchError::BadParams { line, column }) ==> reply
            matches Reply::Message(message) && message.id == Some(id) && message.result is None
            && message.error is Some && message.error->Some_0.code == -32600,
{
}

/// Whether the writer ended well, or before the serving did.
pub open spec fn ended_well(writer: WriterEnd) -> bool {
    match writer {
        WriterEnd::Before => true,
        WriterEnd::Ended(outcome) => outcome is Ok,
        _ => false,
    }
}

/// A writer that did not end, whose task failed, or that failed itself did
/// not end well; any other did.
pub proof fn only_a_good_end_is_one(writer: WriterEnd)
    ensures
        ended_well(writer) <==> !(writer is TimedOut) && !(writer is Failed) && (writer is Ended
            ==> writer->Ended_0 is Ok),
{
}

/// What a handshake makes of the connection.
pub open spec fn agrees(
    before: ServerState,
    after: ServerState,
    version: Result<u32, JsonPosition>,
    params: Result<m::InitializeParams, JsonPosition>,
    outcome: Result<(), DispatchError>,
) -> bool {
    &&& outcome is Ok <==> version == Ok::<u32, JsonPosition>(2) && params is Ok
        && params->Ok_0.data_transport.max_frame_bytes == 65536
    &&& outcome is Ok ==> after.transport == match before.transport {
        Some(kept) => Some(kept),
        None => Some(params->Ok_0.data_transport),
    }
    &&& outcome is Err ==> after.transport == before.transport
    &&& version is Ok && version->Ok_0 != 2 ==> outcome is Err && outcome->Err_0 is App
    &&& version is Err ==> outcome is Err && outcome->Err_0 is BadParams
}

/// A handshake succeeds exactly for a host of this version with the frame
/// limit of the protocol; the first one fixes the transport, and no later one
/// moves it. A host of another version is told so whatever else it sends.
pub proof fn a_handshake_agrees_on_one_version(
    before: ServerState,
    between: ServerState,
    after: ServerState,
    version: Result<u32, JsonPosition>,
    params: Result<m::InitializeParams, JsonPosition>,
    outcome: Result<(), DispatchError>,
    second: Result<u32, JsonPosition>,
    other: Result<m::InitializeParams, JsonPosition>,
    result: Result<(), DispatchError>,
)
    requires
        agrees(before, between, version, params, outcome),
        agrees(between, after, second, other, result),
    ensures
        outcome is Ok ==> version == Ok::<u32, JsonPosition>(2) && params is Ok
            && params->Ok_0.data_transport.max_frame_bytes == 65536,
        outcome is Ok ==> between.transport is Some && after.transport == between.transport,
        outcome is Ok && before.transport is None ==> after.transport == Some(
            params->Ok_0.data_transport,
        ),
        version is Ok && version->Ok_0 != 2 ==> outcome is Err && outcome->Err_0 is App,
        version == Ok::<u32, JsonPosition>(2) && params is Ok
            && params->Ok_0.data_transport.max_frame_bytes == 65536 ==> outcome is Ok,
{
}

/// What is said of a place names its line first and its column last.
pub proof fn a_place_is_its_line_and_its_column(line: u64, column: u64)
    ensures
        (" at line "@ + decimal_text(line as nat)).is_prefix_of(place_text(line, column)),
        (" column "@ + decimal_text(column as nat)).is_suffix_of(place_text(line, column)),
        place_text(line, column).len() == 17 + decimal_text(line as nat).len() + decimal_text(
            column as nat,
        ).len(),
{
    reveal_strlit(" at line ");
    reveal_strlit(" column ");
    let first = " at line "@ + decimal_text(line as nat);
    let last = " column "@ + decimal_text(column as nat);
    let text = place_text(line, column);
    assert(text =~= first + last);
    assert(text.subrange(0, first.len() as int) =~= first);
    assert(text.subrange(first.len() as int, text.len() as int) =~= last);
}

} // verus!
