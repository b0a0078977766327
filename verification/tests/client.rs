use sandbox_driver_protocol::channel::{ChannelListener, TrustedPeer};
use sandbox_driver_protocol::client::{
    call_failure, cleanup_call, read_event, transport_end, CallEvent, CleanupEnd, Client,
    EventAddress, ReadEvent, ReadStep, Retry, Routed, StopAction, StopEvent, StopForwarding, StopStep, TransportEnd,
};
use sandbox_driver_protocol::driver::{
    CaptureStats, Error, StopLevel, Termination, TransportError,
};
use sandbox_driver_protocol::frame::FrameKind;
use sandbox_driver_protocol::limits::TransportLimits;
use sandbox_driver_protocol::methods;
use sandbox_driver_protocol::operation::{
    call_with_pump, check_retention, drained_stdio, late_channel_grace,
    run_channel_exec, terminate_confirmed, wait_stdio, Captured, ClosedStep, ExecEnd, ExecProgress,
    ExecPump, Join, JoinEvent, JoinStep, PumpedOutput, RemotePtySession,
    StdioWaitEvent, StdioWaitStep,
};
use sandbox_driver_protocol::provider::{PluginProvider, ShutdownEnd};
use sandbox_driver_protocol::transfer::{OutputStep, SinkEvent};
use sandbox_driver_protocol::wire::{Message, WireError};
use serde_json::Value;
use std::time::Duration;

fn client() -> Client {
    Client::start(TransportLimits::default())
}

fn stream_result(termination: Termination) -> methods::ExecStreamResult {
    methods::ExecStreamResult {
        result: methods::ExecResultDto {
            exit_code: Some(0),
            signal: None,
            termination,
            duration_ms: 12,
        },
        streams_separated: true,
        live_streaming: true,
        stdout_capture: CaptureStats { truncated: false, counts: Value::Null },
        stderr_capture: CaptureStats { truncated: true, counts: Value::Null },
        output_loss: Value::from(3),
    }
}

fn pumped(sink_error: Option<Error>) -> PumpedOutput {
    PumpedOutput {
        stdout: Captured {
            bytes: b"pending output".to_vec(),
            stats: CaptureStats { truncated: true, counts: Value::Bool(true) },
        },
        stderr: Captured {
            bytes: Vec::new(),
            stats: CaptureStats { truncated: false, counts: Value::Null },
        },
        sink_error,
    }
}

#[test]
fn mod_cancellation_before_open_releases_local_admission() {
    let limits = TransportLimits {
        active_io: 1,
        hard_cancel_drain_timeout: Duration::from_millis(50),
        ..TransportLimits::default()
    };
    let mut listener = ChannelListener::bind_with_limits(
        limits,
        TrustedPeer::Process(1),
        "/tmp/data.sock".to_owned(),
    )
    .expect("listener");
    let client = Client::start(limits);
    let request = listener.expect().expect("admission");
    // The kill token fired, and the drain timeout passed before the plugin
    // opened the channel.
    let result = run_channel_exec(ExecEnd::DrainExpired, &ExecProgress::new());
    listener.drop_receiver(request.channel_id);
    assert!(matches!(result, Err(Error::Incomplete(_))));
    assert_eq!(listener.diagnostics().active_io, 0);
    assert!(listener.expect().is_ok());
    assert!(!client.is_closed());
}

#[test]
fn mod_cancellation_after_result_bounds_output_and_partial_eof_delivery() {
    let mut progress = ExecProgress::new();
    progress.confirm(&stream_result(Termination::Exited));
    let mut forwarding = StopForwarding::forward_stops(false, true).expect("stoppable");
    assert_eq!(forwarding.step(StopEvent::Kill), StopAction::Send(StopLevel::Kill));
    let StopAction::Finish { acknowledged } =
        forwarding.step(StopEvent::Sent { acknowledged: true })
    else {
        panic!("the kill ends the forwarding");
    };
    progress.stop_acknowledged = acknowledged;
    let Err(Error::Incomplete(outcome)) = run_channel_exec(ExecEnd::DrainExpired, &progress)
    else {
        panic!("must report incomplete delivery");
    };
    assert!(outcome.output_abandoned);
    assert!(outcome.stop_acknowledged);
    assert!(outcome.termination_confirmed);
    assert!(!outcome.cleanup_confirmed);
    let mut client = client();
    let call = client.begin_call(methods::PROVIDER_HEALTH).expect("unrelated call");
    client.await_answer(&call).expect("open");
    assert!(matches!(
        client.route(Message::response(call.id, Value::Null)),
        Routed::Answer { outcome: Ok(_), .. }
    ));
}

#[test]
fn mod_cleanup_failure_retains_admission_without_closing_other_calls() {
    let limits = TransportLimits { active_io: 1, ..TransportLimits::default() };
    let mut listener = ChannelListener::bind_with_limits(
        limits,
        TrustedPeer::Process(1),
        "/tmp/data.sock".to_owned(),
    )
    .expect("listener");
    let mut client = Client::start(limits);
    let request = listener.expect().expect("admitted");
    // The cleanup holds the operation's place beside the operation.
    listener.hold_io(request.channel_id);
    client.own_cleanup(CleanupEnd::Failed);
    listener.drop_receiver(request.channel_id);
    assert_eq!(client.cleanup_error().expect("recorded").context, "resource cleanup failed");
    assert!(!client.is_closed());
    assert!(matches!(listener.expect(), Err(Error::Overloaded { .. })));
    assert!(client.begin_call(methods::EXEC_STOP).is_ok());
}

#[test]
fn mod_hard_cancel_drain_does_not_wait_for_stop_acknowledgment() {
    let client = client();
    let outcome = run_channel_exec(ExecEnd::DrainExpired, &ExecProgress::new());
    let Err(Error::Incomplete(outcome)) = outcome else {
        panic!("must report incomplete drain");
    };
    assert_eq!(outcome.operation, "hard cancellation drain");
    assert!(outcome.output_abandoned);
    assert!(!outcome.stop_acknowledged);
    assert!(!outcome.termination_confirmed);
    assert!(!outcome.cleanup_confirmed);
    assert!(!client.is_closed());
}

#[test]
fn mod_shutdown_kills_a_plugin_that_never_acknowledges() {
    let error = PluginProvider::shutdown(ShutdownEnd::TimedOut)
        .expect_err("the plugin never acknowledged shutdown");
    assert!(matches!(error, Error::Transport(error) if error.context
        == "plugin shutdown timed out before acknowledgment or process exit"));
    let mut client = client();
    let call = client.begin_call(methods::SHUTDOWN).expect("admitted");
    client.await_answer(&call).expect("open");
    let closing = client.mark_closed(transport_end(TransportEnd::ReaderDone));
    assert!(closing.first);
    assert!(closing.pending.contains(&call.id));
    client.end_call(call);
    let list = client.begin_call(methods::SANDBOX_LIST).expect("admitted");
    assert!(client.await_answer(&list).is_err());
    client.end_call(list);
    assert!(client.pending.is_empty());
}

#[test]
fn mod_a_failed_pump_does_not_wait_for_the_control_response() {
    let step = call_with_pump::<(), ()>(
        Join::Both,
        JoinEvent::Pumped(Err(Error::invalid_spec("sink", "closed"))),
        true,
        "test",
    );
    assert!(matches!(step, JoinStep::Done(Err(Error::InvalidSpec { .. }))));
}

#[test]
fn mod_cancelling_a_call_removes_its_pending_response() {
    let mut client = client();
    let call = client.begin_call("test").expect("admitted");
    client.await_answer(&call).expect("open");
    assert_eq!(client.pending.len(), 1);
    client.end_call(call);
    assert!(client.pending.is_empty());
    assert!(matches!(client.route(Message::response(call.id, Value::Null)), Routed::Ignored));
}

#[test]
fn answers_find_their_requests() {
    let mut client = client();
    let first = client.begin_call(methods::SANDBOX_LIST).expect("first");
    let second = client.begin_call(methods::SANDBOX_LIST).expect("second");
    assert_eq!((first.id, second.id), (1, 2));
    client.await_answer(&first).expect("open");
    client.await_answer(&second).expect("open");
    let error = Message::error_response(2, WireError::envelope(-32601, "unknown".to_owned()));
    assert!(matches!(client.route(error),
        Routed::Answer { id: 2, outcome: Err(Error::Provider(_)) }));
    assert!(matches!(client.route(Message::response(1, Value::Bool(true))),
        Routed::Answer { id: 1, outcome: Ok(Some(Value::Bool(true))) }));
    assert!(matches!(client.route(Message::response(1, Value::Null)), Routed::Ignored));
}

#[test]
fn calls_are_refused_when_their_budget_is_spent() {
    let limits = TransportLimits {
        provider_requests: 1,
        reserved_requests: 1,
        ..TransportLimits::default()
    };
    let mut client = Client::start(limits);
    let first = client.begin_call(methods::SANDBOX_LIST).expect("first");
    assert!(matches!(client.begin_call(methods::SANDBOX_LIST),
        Err(Error::Overloaded { limit }) if limit == "provider_requests"));
    let stop = client.begin_call(methods::EXEC_STOP).expect("reserved");
    assert!(stop.priority);
    assert!(matches!(client.begin_call(methods::EXEC_STOP),
        Err(Error::Overloaded { limit }) if limit == "reserved_requests"));
    client.end_call(first);
    assert!(client.begin_call(methods::SANDBOX_LIST).is_ok());
}

#[test]
fn the_first_failure_closes_the_connection() {
    let mut client = client();
    assert!(matches!(client.closed_error(),
        Error::Transport(error) if error.context == "plugin transport closed"));
    let first = client.mark_closed(transport_end(TransportEnd::WriteStalled));
    assert!(first.first);
    assert_eq!(first.error.context, "plugin control writer made no progress");
    let second = client.mark_closed(TransportError::new("later"));
    assert!(!second.first);
    assert_eq!(second.error.context, "plugin control writer made no progress");
    assert!(matches!(client.closed_error(),
        Error::Transport(error) if error.context == "plugin control writer made no progress"));
    assert!(matches!(client.call_with_channel(true), ClosedStep::Drain));
    assert!(matches!(client.call_with_channel(false), ClosedStep::Fail(Error::Transport(_))));
}

#[test]
fn every_end_of_a_transport_has_its_words() {
    let ends = [
        (TransportEnd::WriteFailed { source: "s".to_owned() }, "writing plugin request"),
        (
            TransportEnd::WriterShutdownFailed { source: "s".to_owned() },
            "shutting down plugin writer",
        ),
        (TransportEnd::WriterDone, "plugin request transport closed"),
        (TransportEnd::ReadFailed { source: "s".to_owned() }, "reading plugin response"),
        (TransportEnd::ListenerFailed, "data listener failed"),
        (TransportEnd::Undecodable { source: "s".to_owned() }, "decoding plugin response"),
        (TransportEnd::Unroutable(TransportError::new("route")), "route"),
        (TransportEnd::ReaderDone, "plugin response transport closed"),
    ];
    for (end, context) in ends {
        assert_eq!(transport_end(end).context, context);
    }
    let failures = [
        (
            CallEvent::Unencodable { source: "s".to_owned() },
            "encoding plugin request parameters",
        ),
        (CallEvent::Dropped { source: "s".to_owned() }, "receiving plugin response"),
        (CallEvent::Undecodable { source: "s".to_owned() }, "decoding plugin response result"),
    ];
    for (event, context) in failures {
        assert!(matches!(call_failure(event),
            Error::Transport(error) if error.context == context));
    }
    assert!(matches!(
        call_failure(CallEvent::Failed(Error::overloaded("x"))),
        Error::Overloaded { .. }
    ));
}

#[test]
fn events_go_to_their_route_then_to_their_sandbox() {
    let mut client = client();
    let request = client
        .register_events(Some(5), Some("correlation".to_owned()))
        .expect("an observer is routed");
    assert_eq!(request.route_id, "event-1");
    assert_eq!(request.correlation_id.as_deref(), Some("correlation"));
    assert!(client.register_events(None, None).is_none());
    client.remember_event_context("sb-1".to_owned(), 6);
    let routed = EventAddress {
        route_id: Some("event-1".to_owned()),
        sandbox_id: Some("sb-1".to_owned()),
    };
    assert!(matches!(client.route_event(Ok(routed), 10), Ok(Some(5))));
    let later =
        EventAddress { route_id: Some("gone".to_owned()), sandbox_id: Some("sb-1".to_owned()) };
    assert!(matches!(client.route_event(Ok(later), 10), Ok(Some(6))));
    assert!(client.take_event());
    client.end_event(10, false);
    assert!(client.event_delivery_error().is_none());
    assert!(client.take_event());
    client.end_event(10, true);
    assert_eq!(
        client.event_delivery_error().expect("incomplete").context,
        "event observer timed out; event subscription is incomplete"
    );
}

#[test]
fn lost_events_make_the_history_incomplete() {
    let limits = TransportLimits {
        event_queue_bytes: 16,
        event_queue_messages: 1,
        ..TransportLimits::default()
    };
    let mut client = Client::start(limits);
    client.remember_event_context("sb-1".to_owned(), 6);
    let address =
        || EventAddress { route_id: None, sandbox_id: Some("sb-1".to_owned()) };
    let Err(failure) = client.route_event(Err("bad".to_owned()), 4) else {
        panic!("undecodable");
    };
    assert_eq!(failure.context, "decoding plugin host event");
    assert!(matches!(client.route_event(Ok(address()), 8), Ok(Some(6))));
    assert!(matches!(client.route_event(Ok(address()), 8), Ok(None)));
    assert_eq!(
        client.event_delivery_error().expect("incomplete").context,
        "event delivery capacity exceeded; event subscription is incomplete"
    );
    assert!(!client.take_event());
    client.end_event(8, false);
    assert!(matches!(client.route_event(Ok(address()), 8), Ok(None)));
    let unknown = EventAddress { route_id: None, sandbox_id: None };
    assert!(matches!(client.route_event(Ok(unknown), 8), Ok(None)));
    assert_eq!(
        client.event_delivery_error().expect("incomplete").context,
        "event route expired; event subscription is incomplete"
    );
    let told = Message::notification(methods::HOST_EVENT_FAILED, Value::Null);
    assert!(matches!(client.route(told), Routed::Ignored));
    assert_eq!(
        client.event_delivery_error().expect("incomplete").context,
        "plugin event subscription exceeded its delivery capacity"
    );
    let event = Message::notification(methods::HOST_EVENT, Value::Bool(true));
    assert!(matches!(client.route(event),
        Routed::Event { params: Some(Value::Bool(true)) }));
}

#[test]
fn names_carry_a_number_of_their_own() {
    let mut client = client();
    assert_eq!(client.next_stream_id("pty"), "pty-1");
    assert_eq!(client.next_stream_id("logs"), "logs-2");
    assert_eq!(client.next_exec_id("sb-1"), "xsb-1-1");
    assert_eq!(client.next_exec_id("sb-1"), "xsb-1-2");
}

#[test]
fn caches_of_observers_stay_within_their_limit() {
    let limits = TransportLimits { cached_handles: 2, ..TransportLimits::default() };
    let mut client = Client::start(limits);
    for id in ["a", "b", "c", "c"] {
        client.remember_event_context(id.to_owned(), 1);
        client.register_events(Some(2), None);
    }
    assert!(client.event_contexts.len() <= 2);
    assert_eq!(client.event_contexts.get("c"), Some(1));
    assert_eq!(client.event_routes.len(), 2);
    assert_eq!(client.event_routes.get("event-4"), Some(2));
}

#[test]
fn a_kill_overtakes_a_term_and_ends_the_forwarding() {
    assert_eq!(StopForwarding::forward_stops(false, false), None);
    let mut forwarding = StopForwarding::forward_stops(true, true).expect("stoppable");
    assert_eq!(forwarding.step(StopEvent::Term), StopAction::Send(StopLevel::Term));
    assert_eq!(forwarding.step(StopEvent::Sent { acknowledged: true }), StopAction::Nothing);
    assert_eq!(forwarding.step(StopEvent::Term), StopAction::Nothing);
    assert_eq!(forwarding.step(StopEvent::Kill), StopAction::Send(StopLevel::Kill));
    assert_eq!(
        forwarding.step(StopEvent::Sent { acknowledged: false }),
        StopAction::Finish { acknowledged: false }
    );
    assert_eq!(forwarding.step(StopEvent::Kill), StopAction::Nothing);
    let mut overtaken = StopForwarding::forward_stops(true, false).expect("stoppable");
    overtaken.step(StopEvent::Term);
    assert_eq!(overtaken.step(StopEvent::Kill), StopAction::Send(StopLevel::Kill));
}

#[test]
fn stops_are_counted_and_tried_again() {
    let mut client = client();
    client.begin_stop();
    let waited = Duration::from_millis(1);
    assert_eq!(
        client.send_stop(Err(Error::overloaded("reserved_requests")), &waited),
        StopStep::TryAgain
    );
    assert_eq!(client.send_stop(Ok(()), &Duration::from_micros(1500)), StopStep::Acknowledged);
    client.begin_stop();
    assert_eq!(
        client.send_stop(Err(Error::transport("gone")), &waited),
        StopStep::Failed
    );
    assert_eq!(client.stop_requests, 2);
    assert_eq!(client.stop_acknowledgments, 1);
    assert_eq!(client.max_stop_acknowledgment_us, 1500);
    assert!(matches!(
        cleanup_call::<()>(Err(Error::overloaded("reserved_requests"))),
        Retry::TryAgain
    ));
    assert!(matches!(cleanup_call(Ok(3)), Retry::Done(Ok(3))));
}

#[test]
fn a_result_waits_for_the_bytes_it_describes() {
    let JoinStep::Wait(join) =
        call_with_pump::<u8, u8>(Join::Both, JoinEvent::Answered(Ok(1)), false, "fs/read")
    else {
        panic!("waits");
    };
    assert!(matches!(join, Join::Answered { response: 1, bounded: true }));
    assert!(matches!(
        call_with_pump(join, JoinEvent::GraceExpired, false, "fs/read"),
        JoinStep::Done(Err(Error::Transport(error))) if error.context
            == "the plugin answered fs/read without opening its data channel"
    ));
    let accepted = Join::Answered { response: 1u8, bounded: false };
    let JoinStep::Wait(accepted) =
        call_with_pump::<u8, u8>(accepted, JoinEvent::GraceExpired, true, "fs/read")
    else {
        panic!("an open channel has all the time");
    };
    assert!(matches!(
        call_with_pump(accepted, JoinEvent::Pumped(Ok(2)), true, "fs/read"),
        JoinStep::Done(Ok((1, 2)))
    ));
    let JoinStep::Wait(pumped) =
        call_with_pump::<u8, u8>(Join::Both, JoinEvent::Pumped(Ok(2)), true, "fs/read")
    else {
        panic!("waits");
    };
    assert!(matches!(
        call_with_pump(pumped, JoinEvent::Answered(Ok(1)), true, "fs/read"),
        JoinStep::Done(Ok((1, 2)))
    ));
    assert_eq!(late_channel_grace(), Duration::from_secs(10));
}

#[test]
fn a_result_is_the_plugins_words_and_the_hosts_copy() {
    let finished = ExecEnd::Finished(Ok((stream_result(Termination::Exited), pumped(None))));
    let streaming =
        run_channel_exec(finished, &ExecProgress::new()).ok().expect("assembled");
    assert_eq!(streaming.result.stdout, b"pending output");
    assert_eq!(streaming.result.duration, Duration::from_millis(12));
    assert_eq!(streaming.result.termination, Termination::Exited);
    assert!(!streaming.stdout_capture.truncated);
    assert!(streaming.stderr_capture.truncated);
    assert_eq!(streaming.stdout_capture.counts, Value::Bool(true));
    assert_eq!(streaming.output_loss, Value::from(3));
    let again = methods::stream_result(streaming);
    assert_eq!(again.output_loss, Value::from(3));
    assert_eq!(again.result.duration_ms, 12);
    let failed = pumped(Some(Error::overloaded("sink")));
    let finished = ExecEnd::Finished(Ok((stream_result(Termination::Exited), failed)));
    let cancelled =
        run_channel_exec(finished, &ExecProgress::new()).ok().expect("assembled");
    assert_eq!(cancelled.result.termination, Termination::Cancelled);
    assert!(cancelled.stdout_capture.truncated && cancelled.stderr_capture.truncated);
}

#[test]
fn retained_output_is_bounded_by_the_connection() {
    let limits = TransportLimits { retained_output_bytes: 4, ..TransportLimits::default() };
    assert!(check_retention(&limits, None).is_ok());
    assert!(check_retention(&limits, Some(4)).is_ok());
    assert!(matches!(check_retention(&limits, Some(5)),
        Err(Error::LimitExceeded { limit, max_bytes: 4 }) if limit == "retained_output_bytes"));
}

#[test]
fn a_process_that_is_not_drained_has_an_unknown_end() {
    let result = || methods::StdioWaitResult {
        termination: Termination::Exited,
        exit_code: Some(2),
        stderr_tail: "tail".to_owned(),
    };
    assert!(matches!(
        wait_stdio(StdioWaitEvent::Answered(Err(Error::overloaded("x")))),
        StdioWaitStep::Unknown { abandon: false, .. }
    ));
    assert!(matches!(
        wait_stdio(StdioWaitEvent::StopExpired),
        StdioWaitStep::Unknown { end, abandon: true }
            if end.termination == Termination::Unknown && end.exit_code.is_none()
    ));
    assert!(matches!(
        wait_stdio(StdioWaitEvent::Answered(Ok(result()))),
        StdioWaitStep::Drain(_)
    ));
    let drained = drained_stdio(result(), true);
    assert_eq!(drained.termination, Termination::Exited);
    assert_eq!(drained.exit_code, Some(2));
    assert_eq!(drained.stderr_tail.as_deref(), Some("tail"));
    let lost = drained_stdio(result(), false);
    assert_eq!(lost.termination, Termination::Unknown);
    assert_eq!((lost.exit_code, lost.stderr_tail), (None, None));
    assert!(terminate_confirmed(Some(Ok(()))));
    assert!(!terminate_confirmed(None));
    assert!(!terminate_confirmed(Some(Err(Error::overloaded("x")))));
}

#[test]
fn a_terminal_is_closed_by_an_answer_in_time() {
    let mut session = RemotePtySession::new();
    assert!(session.write_input().is_ok());
    assert!(matches!(session.close(None),
        Err(Error::Incomplete(outcome)) if outcome.operation == "PTY close"));
    assert!(session.needs_cleanup());
    assert!(session.close(Some(Err(Error::overloaded("x")))).is_err());
    assert!(session.needs_cleanup());
    session.close(Some(Ok(()))).expect("closed");
    assert!(!session.needs_cleanup());
    assert!(matches!(session.write_input(),
        Err(Error::InvalidSpec { field, reason })
            if field == "pty" && reason == "session is closed"));
}

#[test]
fn a_failing_sink_kills_the_command_and_gets_nothing_more() {
    let captured = || Captured {
        bytes: b"kept".to_vec(),
        stats: CaptureStats { truncated: false, counts: Value::Null },
    };
    let frame = || Some((FrameKind::Stdout, b"chunk".to_vec()));
    let delivers = |pump: &ExecPump| match pump.frame(frame()) {
        Ok(OutputStep::Capture { deliver, .. }) => deliver,
        _ => panic!("output is captured"),
    };
    let mut pump = ExecPump::new(true);
    assert!(delivers(&pump));
    assert!(!pump.sunk(SinkEvent::Taken));
    assert!(delivers(&pump));
    assert!(pump.sunk(SinkEvent::Stalled));
    assert!(!delivers(&pump));
    let output = pump.pump_exec_channel(None, captured(), captured()).ok().expect("output");
    assert!(matches!(
        output.sink_error,
        Some(Error::Transport(error)) if error.context == "output sink made no progress"
    ));
    let silent = ExecPump::new(false);
    assert!(!delivers(&silent));
    let failed = silent.pump_exec_channel(
        Some(Error::overloaded("input")),
        captured(),
        captured(),
    );
    assert!(matches!(failed.err(), Some(Error::Overloaded { limit }) if limit == "input"));
}

#[test]
fn the_reader_stops_at_the_first_thing_that_is_no_message() {
    assert!(matches!(read_event(ReadEvent::Line(Some(b" \t\n".to_vec()))), ReadStep::Continue));
    assert!(matches!(
        read_event(ReadEvent::Line(Some(b"{}".to_vec()))),
        ReadStep::Decode(line) if line == b"{}"
    ));
    assert!(matches!(
        read_event(ReadEvent::Line(None)),
        ReadStep::Stop(TransportEnd::ReaderDone)
    ));
    assert!(matches!(
        read_event(ReadEvent::Undecodable("x".to_owned())),
        ReadStep::Stop(TransportEnd::Undecodable { source }) if source == "x"
    ));
    assert!(matches!(read_event(ReadEvent::Routed(Ok(()))), ReadStep::Continue));
    assert!(matches!(
        read_event(ReadEvent::ListenerFailed),
        ReadStep::Stop(TransportEnd::ListenerFailed)
    ));
}

#[test]
fn a_call_leaves_nothing_taken() {
    let mut client = client();
    for method in ["sandbox/start", "exec/stop"] {
        let call = client.begin_call(method).expect("let out");
        client.await_answer(&call).expect("open");
        assert_eq!(client.request_budget.used + client.reserved_budget.used, 1);
        client.end_call(call);
        assert_eq!((client.request_budget.used, client.reserved_budget.used), (0, 0));
        assert!(client.pending.is_empty());
    }
}
