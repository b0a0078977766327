//! Operations of the host that join a request with the bytes of its data
//! channel: commands, stdio processes, terminals.

use crate::client::Client;
use crate::driver::{
    fresh_incomplete, invalid_spec, limit_exceeded, nanos_of, transport_failure, CaptureStats,
    Error, ErrorView, ExecStreamingResult, IncompleteOperation, IncompleteView,
    Termination,
};
use crate::limits::{TransportLimits, NANOS_PER_SECOND};
use crate::methods as m;
use crate::text::concat3;
use crate::transfer::{
    exec_output, output_sink_failure, takes_output, OutputStep, ReadFrame, SinkEvent,
};
use std::time::Duration;
use vstd::prelude::*;

verus! {

/// How long the host waits, after the plugin answered an operation, for the
/// data channel that the operation must have opened by then.
pub fn late_channel_grace() -> (grace: Duration)
    ensures
        nanos_of(grace) == 10 * NANOS_PER_SECOND,
{
    Duration::from_millis(10_000)
}

/// Where a request and the pump of its data channel stand.
#[derive(Debug)]
pub enum Join<R, T> {
    /// Neither is through.
    Both,
    /// The pump is through.
    Pumped(T),
    /// The request was answered. A channel that was not open by then has a
    /// bounded time to come.
    Answered { response: R, bounded: bool },
}

/// What happens to a request or the pump of its channel.
#[derive(Debug)]
pub enum JoinEvent<R, T> {
    Pumped(Result<T, Error>),
    Answered(Result<R, Error>),
    /// The bounded time for a channel to come is over.
    GraceExpired,
}

/// What is to be done about a request and its channel.
#[derive(Debug)]
pub enum JoinStep<R, T> {
    Wait(Join<R, T>),
    Done(Result<(R, T), Error>),
}

/// The failure of a plugin that answered without opening its channel.
pub open spec fn missing_channel(method: Seq<char>) -> ErrorView {
    transport_failure(
        "the plugin answered "@ + method + " without opening its data channel"@,
    )
}

/// What follows an event. Both a request and the pump of its channel must
/// come through; a failure of either ends the operation at once.
pub open spec fn joins<R, T>(
    join: Join<R, T>,
    event: JoinEvent<R, T>,
    accepted: bool,
    method: Seq<char>,
    step: JoinStep<R, T>,
) -> bool {
    match (join, event) {
        (_, JoinEvent::Pumped(Err(error))) if join !is Pumped => step == JoinStep::<R, T>::Done(
            Err(error),
        ),
        (_, JoinEvent::Answered(Err(error))) if join !is Answered => step == JoinStep::<
            R,
            T,
        >::Done(Err(error)),
        (Join::Both, JoinEvent::Pumped(Ok(pumped))) => step == JoinStep::Wait(
            Join::<R, T>::Pumped(pumped),
        ),
        (Join::Both, JoinEvent::Answered(Ok(response))) => step == JoinStep::Wait(
            Join::<R, T>::Answered { response, bounded: !accepted },
        ),
        (Join::Pumped(pumped), JoinEvent::Answered(Ok(response))) => step == JoinStep::<
            R,
            T,
        >::Done(Ok((response, pumped))),
        (Join::Answered { response, bounded }, JoinEvent::Pumped(Ok(pumped))) => step
            == JoinStep::<R, T>::Done(Ok((response, pumped))),
        (
            Join::Answered { response, bounded: true },
            JoinEvent::GraceExpired,
        ) => step matches JoinStep::Done(Err(error)) && error@ == missing_channel(method),
        _ => step == JoinStep::Wait(join),
    }
}

/// Takes what happened to a request or the pump of its channel.
pub fn call_with_pump<R, T>(
    join: Join<R, T>,
    event: JoinEvent<R, T>,
    accepted: bool,
    method: &str,
) -> (step: JoinStep<R, T>)
    ensures
        joins(join, event, accepted, method@, step),
{
    match (join, event) {
        (Join::Both, JoinEvent::Pumped(Ok(pumped))) => JoinStep::Wait(Join::Pumped(pumped)),
        (Join::Both, JoinEvent::Pumped(Err(error))) => JoinStep::Done(Err(error)),
        (Join::Both, JoinEvent::Answered(Ok(response))) => JoinStep::Wait(
            Join::Answered { response, bounded: !accepted },
        ),
        (Join::Both, JoinEvent::Answered(Err(error))) => JoinStep::Done(Err(error)),
        (Join::Pumped(pumped), JoinEvent::Answered(Ok(response))) => JoinStep::Done(
            Ok((response, pumped)),
        ),
        (Join::Pumped(_), JoinEvent::Answered(Err(error))) => JoinStep::Done(Err(error)),
        (Join::Answered { response, bounded: _ }, JoinEvent::Pumped(Ok(pumped))) => JoinStep::Done(
            Ok((response, pumped)),
        ),
        (Join::Answered { response: _, bounded: _ }, JoinEvent::Pumped(Err(error))) => {
            JoinStep::Done(Err(error))
        },
        (Join::Answered { response, bounded }, JoinEvent::GraceExpired) => {
            if bounded {
                let context = concat3(
                    "the plugin answered ",
                    method,
                    " without opening its data channel",
                );
                JoinStep::Done(Err(Error::transport(context.as_str())))
            } else {
                JoinStep::Wait(Join::Answered { response, bounded })
            }
        },
        (join, _) => JoinStep::Wait(join),
    }
}

/// Whether an operation went through these states, one event after another,
/// and had not ended before the last event.
pub open spec fn is_run<R, T>(
    states: Seq<Join<R, T>>,
    events: Seq<JoinEvent<R, T>>,
    accepted: Seq<bool>,
    method: Seq<char>,
) -> bool {
    &&& states.len() == events.len() == accepted.len()
    &&& states.len() > 0
    &&& states[0] is Both
    &&& forall|i: int|
        0 < i < states.len() ==> joins(
            states[i - 1],
            events[i - 1],
            accepted[i - 1],
            method,
            JoinStep::Wait(#[trigger] states[i]),
        )
}

/// A result is never handed out ahead of the bytes it describes: whatever
/// happens in whatever order, an operation that succeeds was answered with
/// this response, and its channel was pumped to its end with these bytes.
pub proof fn no_result_is_ahead_of_its_bytes<R, T>(
    states: Seq<Join<R, T>>,
    events: Seq<JoinEvent<R, T>>,
    accepted: Seq<bool>,
    method: Seq<char>,
    response: R,
    pumped: T,
)
    requires
        is_run(states, events, accepted, method),
        joins(
            states.last(),
            events.last(),
            accepted.last(),
            method,
            JoinStep::Done(Ok((response, pumped))),
        ),
    ensures
        events.contains(JoinEvent::Answered(Ok(response))),
        events.contains(JoinEvent::Pumped(Ok(pumped))),
{
    let last = states.len() - 1;
    lemma_states_have_reasons(states, events, accepted, method, last);
    assert(events[last] == events.last());
}

proof fn lemma_states_have_reasons<R, T>(
    states: Seq<Join<R, T>>,
    events: Seq<JoinEvent<R, T>>,
    accepted: Seq<bool>,
    method: Seq<char>,
    i: int,
)
    requires
        is_run(states, events, accepted, method),
        0 <= i < states.len(),
    ensures
        states[i] matches Join::Pumped(pumped) ==> events.contains(JoinEvent::Pumped(Ok(pumped))),
        states[i] matches Join::Answered { response, bounded } ==> events.contains(
            JoinEvent::Answered(Ok(response)),
        ),
    decreases i,
{
    if i > 0 {
        lemma_states_have_reasons(states, events, accepted, method, i - 1);
        assert(joins(
            states[i - 1],
            events[i - 1],
            accepted[i - 1],
            method,
            JoinStep::Wait(states[i]),
        ));
        assert(events.contains(events[i - 1]));
    }
}

/// What an operation does when the connection closes under it.
#[derive(Debug)]
pub enum ClosedStep {
    /// The request was answered, and the last bytes may still be on their
    /// way: wait for the drain timeout, then fail.
    Drain,
    Fail(Error),
}

impl Client {
    /// What an operation does when the connection closes under it.
    pub fn call_with_channel(&self, responded: bool) -> (step: ClosedStep)
        ensures
            match step {
                ClosedStep::Drain => responded,
                ClosedStep::Fail(error) => !responded && error@ == self.closing_view(),
            },
    {
        if responded {
            ClosedStep::Drain
        } else {
            ClosedStep::Fail(self.closed_error())
        }
    }
}

/// What the plugin has confirmed about a command, read when a hard
/// cancellation gives the operation up before its result came.
#[derive(Clone, Copy, Debug)]
pub struct ExecProgress {
    /// The plugin answered the kill.
    pub stop_acknowledged: bool,
    /// The plugin's result said that the command exited or was killed.
    pub termination_confirmed: bool,
}

/// Whether a command is known to have ended.
pub open spec fn confirms_end(termination: Termination) -> bool {
    termination == Termination::Exited || termination == Termination::Killed
}

impl ExecProgress {
    /// Nothing is confirmed.
    pub fn new() -> (progress: Self)
        ensures
            progress == (ExecProgress { stop_acknowledged: false, termination_confirmed: false }),
    {
        ExecProgress { stop_acknowledged: false, termination_confirmed: false }
    }

    /// The plugin's result came.
    pub fn confirm(&mut self, result: &m::ExecStreamResult)
        ensures
            *final(self) == (ExecProgress {
                termination_confirmed: confirms_end(result.result.termination),
                ..*old(self)
            }),
    {
        self.termination_confirmed = match result.result.termination {
            Termination::Exited | Termination::Killed => true,
            _ => false,
        };
    }

    /// The outcome of an operation that was given up.
    pub open spec fn incomplete_view(self, operation: Seq<char>) -> IncompleteView {
        IncompleteView {
            stop_acknowledged: self.stop_acknowledged,
            termination_confirmed: self.termination_confirmed,
            ..fresh_incomplete(operation)
        }
    }

    /// The outcome of an operation that was given up.
    pub fn incomplete(&self, operation: &str) -> (outcome: IncompleteOperation)
        ensures
            outcome@ == self.incomplete_view(operation@),
    {
        let mut outcome = IncompleteOperation::new(operation);
        outcome.stop_acknowledged = self.stop_acknowledged;
        outcome.termination_confirmed = self.termination_confirmed;
        outcome
    }
}

/// An output stream as the host retained it.
pub struct Captured {
    pub bytes: Vec<u8>,
    pub stats: CaptureStats,
}

/// What was collected of a command's output while it ran.
pub struct PumpedOutput {
    pub stdout: Captured,
    pub stderr: Captured,
    /// The caller's sink failed: the command was killed, and its result
    /// reports a cancellation.
    pub sink_error: Option<Error>,
}

/// How the run of a command ended on this side.
pub enum ExecEnd {
    /// The request and its channel came to an end.
    Finished(Result<(m::ExecStreamResult, PumpedOutput), Error>),
    /// The caller killed the command and its end did not come in time.
    DrainExpired,
}

/// Refuses a command whose caller wants to retain more output than the
/// connection allows.
pub fn check_retention(limits: &TransportLimits, retained_output_limit: Option<usize>) -> (outcome:
    Result<(), Error>)
    ensures
        match outcome {
            Ok(()) => retained_output_limit matches Some(limit) ==> limit
                <= limits.retained_output_bytes,
            Err(error) => {
                &&& retained_output_limit matches Some(limit)
                &&& limit > limits.retained_output_bytes
                &&& error@ == limit_exceeded(
                    "retained_output_bytes"@,
                    limits.retained_output_bytes,
                )
            },
        },
{
    match retained_output_limit {
        Some(limit) => {
            if limit > limits.retained_output_bytes {
                return Err(
                    Error::limit_exceeded("retained_output_bytes", limits.retained_output_bytes),
                );
            }
            Ok(())
        },
        None => Ok(()),
    }
}

/// The pump of a command's channel: whether the caller wants the output as
/// it comes, and how its sink failed.
pub struct ExecPump {
    pub sink: bool,
    pub sink_error: Option<Error>,
}

impl ExecPump {
    /// Nothing was pumped yet.
    pub fn new(sink: bool) -> (pump: Self)
        ensures
            pump.sink == sink,
            pump.sink_error is None,
    {
        ExecPump { sink, sink_error: None }
    }

    /// Takes a frame of the command's output. Every byte is captured; the
    /// sink gets what is not empty, as long as it has not failed.
    pub fn frame(&self, frame: ReadFrame) -> (step: Result<OutputStep, Error>)
        ensures
            takes_output(frame, self.sink && self.sink_error is None, step),
    {
        exec_output(frame, self.sink, self.sink_error.is_some())
    }

    /// Takes what the sink made of a chunk, and says whether the command is
    /// to be killed. The rest of the output of a failed sink is dropped.
    pub fn sunk(&mut self, event: SinkEvent) -> (kill: bool)
        ensures
            final(self).sink == old(self).sink,
            match event {
                SinkEvent::Taken => !kill && final(self).sink_error == old(self).sink_error,
                SinkEvent::Failed(error) => kill && final(self).sink_error == Some(error),
                SinkEvent::Stalled => {
                    &&& kill
                    &&& final(self).sink_error matches Some(error)
                    &&& error@ == transport_failure("output sink made no progress"@)
                },
            },
    {
        match output_sink_failure(event) {
            Some(error) => {
                self.sink_error = Some(error);
                true
            },
            None => false,
        }
    }

    /// What the pump comes to once the output ended: a failure of the
    /// caller's input stands before it.
    pub fn pump_exec_channel(self, input_error: Option<Error>, stdout: Captured, stderr: Captured) -> (
    outcome: Result<PumpedOutput, Error>)
        ensures
            outcome == match input_error {
                Some(error) => Err::<PumpedOutput, Error>(error),
                None => Ok(PumpedOutput { stdout, stderr, sink_error: self.sink_error }),
            },
    {
        match input_error {
            Some(error) => Err(error),
            None => Ok(PumpedOutput { stdout, stderr, sink_error: self.sink_error }),
        }
    }
}

/// Once the caller's sink has failed, it is offered nothing more: the rest of
/// the output is captured and dropped.
pub proof fn a_failed_sink_is_offered_nothing(
    pump: ExecPump,
    frame: ReadFrame,
    step: Result<OutputStep, Error>,
)
    requires
        pump.sink_error is Some,
        takes_output(frame, pump.sink && pump.sink_error is None, step),
    ensures
        step matches Ok(OutputStep::Capture { stream, payload, deliver }) ==> !deliver,
{
}

/// Whether a streamed result is the plugin's metadata with the output as the
/// host retained it. A sink that failed makes it a cancellation and the
/// output incomplete.
pub open spec fn assembled(
    result: m::ExecStreamResult,
    pumped: PumpedOutput,
    streaming: ExecStreamingResult,
) -> bool {
    let failed = pumped.sink_error is Some;
    &&& streaming.result.termination == if failed {
        Termination::Cancelled
    } else {
        result.result.termination
    }
    &&& streaming.result.exit_code == result.result.exit_code
    &&& streaming.result.signal == result.result.signal
    &&& nanos_of(streaming.result.duration) == result.result.duration_ms * 1_000_000
    &&& streaming.result.stdout == pumped.stdout.bytes
    &&& streaming.result.stderr == pumped.stderr.bytes
    &&& streaming.streams_separated == result.streams_separated
    &&& streaming.live_streaming == result.live_streaming
    &&& streaming.stdout_capture == (CaptureStats {
        truncated: result.stdout_capture.truncated || failed,
        ..pumped.stdout.stats
    })
    &&& streaming.stderr_capture == (CaptureStats {
        truncated: result.stderr_capture.truncated || failed,
        ..pumped.stderr.stats
    })
    &&& streaming.output_loss == result.output_loss
}

/// The result of a command. One that was killed and did not end in time is
/// reported as incomplete, with what the plugin confirmed of it.
pub fn run_channel_exec(end: ExecEnd, progress: &ExecProgress) -> (outcome: Result<
    ExecStreamingResult,
    Error,
>)
    ensures
        match end {
            ExecEnd::DrainExpired => outcome matches Err(error) && error@ == ErrorView::Incomplete(
                progress.incomplete_view("hard cancellation drain"@),
            ),
            ExecEnd::Finished(Err(error)) => outcome == Err::<ExecStreamingResult, Error>(error),
            ExecEnd::Finished(Ok((result, pumped))) => outcome matches Ok(streaming) && assembled(
                result,
                pumped,
                streaming,
            ),
        },
        end matches ExecEnd::Finished(Ok((result, pumped))) ==> {
            &&& outcome matches Ok(told)
            &&& told.result.exit_code == result.result.exit_code
            &&& told.result.signal == result.result.signal
            &&& pumped.sink_error is None ==> told.result.termination == result.result.termination
            &&& pumped.sink_error is Some ==> told.result.termination == Termination::Cancelled
            &&& told.result.stdout@ == pumped.stdout.bytes@
            &&& told.result.stderr@ == pumped.stderr.bytes@
        },
{
    let (result, pumped) = match end {
        ExecEnd::DrainExpired => {
            return Err(Error::Incomplete(progress.incomplete("hard cancellation drain")));
        },
        ExecEnd::Finished(Err(error)) => {
            return Err(error);
        },
        ExecEnd::Finished(Ok(finished)) => finished,
    };
    let failed = pumped.sink_error.is_some();
    let mut stdout_capture = pumped.stdout.stats;
    let mut stderr_capture = pumped.stderr.stats;
    stdout_capture.truncated = result.stdout_capture.truncated || failed;
    stderr_capture.truncated = result.stderr_capture.truncated || failed;
    let mut exec_result = result.result.into_result(pumped.stdout.bytes, pumped.stderr.bytes);
    if failed {
        exec_result.termination = Termination::Cancelled;
    }
    Ok(
        ExecStreamingResult {
            result: exec_result,
            streams_separated: result.streams_separated,
            live_streaming: result.live_streaming,
            stdout_capture,
            stderr_capture,
            output_loss: result.output_loss,
        },
    )
}

/// How the wait for a stdio process ended.
pub enum StdioWaitEvent {
    Answered(Result<m::StdioWaitResult, Error>),
    /// The process was stopped, and no answer came in the drain timeout.
    StopExpired,
}

/// What follows the wait for a stdio process.
pub enum StdioWaitStep {
    /// Nothing is known of the process's end, which is then this. Where the
    /// process was stopped, its input and output are given up.
    Unknown { end: StdioEnd, abandon: bool },
    /// Free the process's place, then wait for its output to end, for the
    /// drain timeout.
    Drain(m::StdioWaitResult),
}

/// The end of a process of which nothing is known.
pub open spec fn unknown_end() -> StdioEnd {
    StdioEnd { termination: Termination::Unknown, exit_code: None, stderr_tail: None }
}

/// What follows the wait for a stdio process.
pub fn wait_stdio(event: StdioWaitEvent) -> (step: StdioWaitStep)
    ensures
        step == match event {
            StdioWaitEvent::Answered(Ok(result)) => StdioWaitStep::Drain(result),
            StdioWaitEvent::Answered(Err(_)) => StdioWaitStep::Unknown {
                end: unknown_end(),
                abandon: false,
            },
            StdioWaitEvent::StopExpired => StdioWaitStep::Unknown {
                end: unknown_end(),
                abandon: true,
            },
        },
{
    let end = StdioEnd { termination: Termination::Unknown, exit_code: None, stderr_tail: None };
    match event {
        StdioWaitEvent::Answered(Ok(result)) => StdioWaitStep::Drain(result),
        StdioWaitEvent::Answered(Err(_)) => StdioWaitStep::Unknown { end, abandon: false },
        StdioWaitEvent::StopExpired => StdioWaitStep::Unknown { end, abandon: true },
    }
}

/// How a stdio process ended.
#[derive(Debug)]
pub struct StdioEnd {
    pub termination: Termination,
    pub exit_code: Option<i32>,
    /// What to add to the tail of its standard error.
    pub stderr_tail: Option<String>,
}

/// How a stdio process ended, after its output did: an output that failed,
/// or did not end in time, leaves the end unknown.
pub fn drained_stdio(result: m::StdioWaitResult, drained: bool) -> (end: StdioEnd)
    ensures
        drained ==> end.termination == result.termination && end.exit_code == result.exit_code
            && end.stderr_tail == if result.stderr_tail@.len() > 0 {
            Some(result.stderr_tail)
        } else {
            None
        },
        !drained ==> end == unknown_end(),
        stdio_ends(result, drained, end),
{
    if !drained {
        return StdioEnd { termination: Termination::Unknown, exit_code: None, stderr_tail: None };
    }
    let tail_chars: usize = result.stderr_tail.as_str().unicode_len();
    let stderr_tail = if tail_chars > 0 {
        Some(result.stderr_tail)
    } else {
        None
    };
    StdioEnd { termination: result.termination, exit_code: result.exit_code, stderr_tail }
}

/// Whether a stop of a stdio process is confirmed: its request was answered
/// in time and did not fail.
pub fn terminate_confirmed(outcome: Option<Result<(), Error>>) -> (confirmed: bool)
    ensures
        confirmed == (outcome matches Some(Ok(()))),
{
    match outcome {
        Some(Ok(())) => true,
        _ => false,
    }
}

/// A terminal session of the host: whether it is open, and whether it still
/// holds its place.
#[derive(Clone, Copy, Debug)]
pub struct RemotePtySession {
    pub open: bool,
}

impl RemotePtySession {
    /// An open session.
    pub fn new() -> (session: Self)
        ensures
            session.open,
    {
        RemotePtySession { open: true }
    }

    /// Input is refused once the session is closed.
    pub fn write_input(&self) -> (outcome: Result<(), Error>)
        ensures
            match outcome {
                Ok(()) => self.open,
                Err(error) => !self.open && error@ == invalid_spec(
                    "pty"@,
                    "session is closed"@,
                ),
            },
    {
        if self.open {
            Ok(())
        } else {
            Err(Error::invalid_spec("pty", "session is closed"))
        }
    }

    /// Closes the session by the answer of the plugin, if it came in time.
    pub fn close(&mut self, answer: Option<Result<(), Error>>) -> (outcome: Result<(), Error>)
        ensures
            match answer {
                Some(Ok(())) => outcome is Ok && !final(self).open,
                Some(Err(error)) => outcome == Err::<(), Error>(error) && *final(self) == *old(self),
                None => {
                    &&& outcome matches Err(error)
                    &&& error@ == ErrorView::Incomplete(fresh_incomplete("PTY close"@))
                    &&& *final(self) == *old(self)
                },
            },
    {
        match answer {
            Some(Ok(())) => {
                self.open = false;
                Ok(())
            },
            Some(Err(error)) => Err(error),
            None => Err(Error::Incomplete(IncompleteOperation::new("PTY close"))),
        }
    }

    /// Whether dropping the session leaves the plugin a session to close.
    pub fn needs_cleanup(&self) -> (yes: bool)
        ensures
            yes == self.open,
    {
        self.open
    }
}

/// A command ends for the caller as it ended in the sandbox: what the plugin
/// sent of its end, put together with the output that the host retained, says
/// the same exit code, signal and accounting, and the same termination unless
/// the caller's own sink failed, which is a cancellation with output missing.
pub proof fn a_command_ends_for_the_caller_as_it_ended(
    ended: ExecStreamingResult,
    sent: m::ExecStreamResult,
    pumped: PumpedOutput,
    told: ExecStreamingResult,
)
    requires
        m::stream_sent(ended, sent),
        assembled(sent, pumped, told),
    ensures
        told.result.exit_code == ended.result.exit_code,
        told.result.signal == ended.result.signal,
        pumped.sink_error is None ==> told.result.termination == ended.result.termination,
        pumped.sink_error is Some ==> told.result.termination == Termination::Cancelled,
        nanos_of(ended.result.duration) <= u64::MAX * 1_000_000 ==> {
            &&& nanos_of(told.result.duration) <= nanos_of(ended.result.duration)
            &&& nanos_of(ended.result.duration) < nanos_of(told.result.duration) + 1_000_000
        },
        told.streams_separated == ended.streams_separated,
        told.live_streaming == ended.live_streaming,
        told.output_loss == ended.output_loss,
        told.stdout_capture.truncated <==> ended.stdout_capture.truncated || pumped.sink_error
            is Some,
        told.stderr_capture.truncated <==> ended.stderr_capture.truncated || pumped.sink_error
            is Some,
{
    let nanos = nanos_of(ended.result.duration);
    if nanos <= u64::MAX * 1_000_000 {
        assert(nanos / 1_000_000 <= u64::MAX) by (nonlinear_arith)
            requires
                nanos <= u64::MAX * 1_000_000,
        ;
        assert((nanos / 1_000_000) * 1_000_000 <= nanos < (nanos / 1_000_000) * 1_000_000
            + 1_000_000) by (nonlinear_arith);
    }
}

/// The output that the caller gets is the output that was retained: every
/// byte of both streams, each under its own name, with the host's own counts.
pub proof fn the_caller_gets_what_was_retained(
    sent: m::ExecStreamResult,
    pumped: PumpedOutput,
    told: ExecStreamingResult,
)
    requires
        assembled(sent, pumped, told),
    ensures
        told.result.stdout@ == pumped.stdout.bytes@,
        told.result.stderr@ == pumped.stderr.bytes@,
        told.stdout_capture.counts == pumped.stdout.stats.counts,
        told.stderr_capture.counts == pumped.stderr.stats.counts,
{
}

/// Commands that ended differently are told apart: one streamed result never
/// stands for two different ends or two different outputs.
pub proof fn different_ends_are_told_apart(
    a: m::ExecStreamResult,
    first: PumpedOutput,
    b: m::ExecStreamResult,
    second: PumpedOutput,
    told: ExecStreamingResult,
)
    requires
        assembled(a, first, told),
        assembled(b, second, told),
    ensures
        a.result.exit_code == b.result.exit_code,
        a.result.signal == b.result.signal,
        a.result.duration_ms == b.result.duration_ms,
        first.sink_error is None && second.sink_error is None ==> a.result.termination
            == b.result.termination && a.stdout_capture.truncated == b.stdout_capture.truncated
            && a.stderr_capture.truncated == b.stderr_capture.truncated,
        a.streams_separated == b.streams_separated,
        a.live_streaming == b.live_streaming,
        a.output_loss == b.output_loss,
        first.stdout.bytes@ == second.stdout.bytes@,
        first.stderr.bytes@ == second.stderr.bytes@,
{
}

/// An operation that was given up says of itself exactly what the plugin
/// confirmed: its name, that its output was abandoned, whether the stop was
/// acknowledged, whether the command is known to have ended, and never that
/// anything was cleaned up.
pub proof fn what_was_given_up_claims_only_what_was_confirmed(
    progress: ExecProgress,
    operation: Seq<char>,
    termination: Termination,
)
    ensures
        ({
            let outcome = progress.incomplete_view(operation);
            &&& outcome.operation == operation
            &&& outcome.output_abandoned
            &&& outcome.stop_acknowledged == progress.stop_acknowledged
            &&& outcome.termination_confirmed == progress.termination_confirmed
            &&& !outcome.cleanup_confirmed
        }),
        confirms_end(termination) <==> termination is Exited || termination is Killed,
        !confirms_end(unknown_end().termination),
        unknown_end().exit_code is None,
        unknown_end().stderr_tail is None,
{
}

/// A request and the pump of its channel come through together in either
/// order, with the response and the bytes that they gave; one alone is waited
/// for, and a failure of either, while it is outstanding, is the outcome.
pub proof fn both_halves_make_the_outcome<R, T>(
    response: R,
    pumped: T,
    failure: Error,
    accepted: bool,
    later: bool,
    method: Seq<char>,
    bounded: bool,
    step: JoinStep<R, T>,
    end: JoinStep<R, T>,
)
    ensures
        joins(Join::Both, JoinEvent::Pumped(Ok(pumped)), accepted, method, step) ==> {
            &&& step matches JoinStep::Wait(join)
            &&& joins(join, JoinEvent::Answered(Ok(response)), later, method, end) ==> end
                == JoinStep::<R, T>::Done(Ok((response, pumped)))
        },
        joins(Join::Both, JoinEvent::Answered(Ok(response)), accepted, method, step) ==> {
            &&& step matches JoinStep::Wait(join)
            &&& joins(join, JoinEvent::Pumped(Ok(pumped)), later, method, end) ==> end
                == JoinStep::<R, T>::Done(Ok((response, pumped)))
        },
        joins(Join::Both, JoinEvent::Pumped(Err(failure)), accepted, method, step) ==> step
            == JoinStep::<R, T>::Done(Err(failure)),
        joins(Join::Both, JoinEvent::Answered(Err(failure)), accepted, method, step) ==> step
            == JoinStep::<R, T>::Done(Err(failure)),
        joins(
            Join::Answered { response, bounded },
            JoinEvent::Pumped(Err(failure)),
            accepted,
            method,
            step,
        ) ==> step == JoinStep::<R, T>::Done(Err(failure)),
        joins(Join::Pumped(pumped), JoinEvent::Answered(Err(failure)), accepted, method, step)
            ==> step == JoinStep::<R, T>::Done(Err(failure)),
{
}

/// The time for a channel to come is bounded only where the plugin answered
/// before the channel was open: it then ends the operation with an error, and
/// in no other state does it change anything.
pub proof fn only_a_missing_channel_is_given_up<R, T>(
    join: Join<R, T>,
    response: R,
    accepted: bool,
    later: bool,
    method: Seq<char>,
    next: Join<R, T>,
    step: JoinStep<R, T>,
)
    requires
        joins(
            Join::Both,
            JoinEvent::Answered(Ok(response)),
            accepted,
            method,
            JoinStep::Wait(next),
        ),
    ensures
        joins(next, JoinEvent::GraceExpired, later, method, step) ==> if accepted {
            step == JoinStep::Wait(next)
        } else {
            step matches JoinStep::Done(Err(error)) && error@ is Transport
        },
        joins(join, JoinEvent::GraceExpired, later, method, step) && join !is Answered ==> step
            == JoinStep::Wait(join),
{
}

/// Whether this is how a stdio process ended for the caller.
pub open spec fn stdio_ends(result: m::StdioWaitResult, drained: bool, end: StdioEnd) -> bool {
    if drained {
        &&& end.termination == result.termination
        &&& end.exit_code == result.exit_code
        &&& end.stderr_tail is Some <==> result.stderr_tail@.len() > 0
        &&& end.stderr_tail matches Some(tail) ==> tail@ == result.stderr_tail@
    } else {
        end.termination is Unknown && end.exit_code is None && end.stderr_tail is None
    }
}

/// Processes that ended differently are told apart, and an end whose output
/// did not come through is never told as one that was seen.
pub proof fn different_process_ends_are_told_apart(
    a: m::StdioWaitResult,
    b: m::StdioWaitResult,
    drained: bool,
    end: StdioEnd,
)
    requires
        stdio_ends(a, true, end),
        stdio_ends(b, drained, end),
    ensures
        drained ==> a.exit_code == b.exit_code && a.termination == b.termination
            && a.stderr_tail@ == b.stderr_tail@,
        !drained ==> a.termination is Unknown && a.exit_code is None,
{
    if drained && a.stderr_tail@.len() == 0 {
        assert(a.stderr_tail@ =~= b.stderr_tail@);
    }
}

} // verus!
