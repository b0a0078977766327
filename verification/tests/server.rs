use sandbox_driver_protocol::channel::DataTransport;
use sandbox_driver_protocol::dispatch::{plan, route, Method, Stage};
use sandbox_driver_protocol::driver::{Capability, Error, IoError, IoErrorKind, StopLevel};
use sandbox_driver_protocol::frame::MAX_FRAME_BYTES;
use sandbox_driver_protocol::limits::TransportLimits;
use sandbox_driver_protocol::methods;
use sandbox_driver_protocol::request::{
    open_timeout, Made, RequestRun, StageAction, StageEvent,
};
use sandbox_driver_protocol::server::{
    after_delivery, is_blank, malformed_reply, reply, serve_event, serve_outcome, writer_failure,
    DeliveryStep, DispatchError, JsonPosition, Reply, RequestStep, ServeEvent, ServeStep,
    ServerState, WriteFailure, WriterEnd,
};
use sandbox_driver_protocol::wire::Message;
use serde_json::Value;

fn state() -> ServerState {
    ServerState::new(TransportLimits::default()).ok().expect("limits")
}

fn transport() -> DataTransport {
    DataTransport {
        socket_path: "/tmp/data.sock".to_owned(),
        max_frame_bytes: MAX_FRAME_BYTES,
        open_ack: true,
    }
}

fn started() -> ServerState {
    let mut state = state();
    let params = methods::InitializeParams { protocol_version: 2, data_transport: transport() };
    assert!(state.initialize(Ok(2), Ok(params)).is_ok());
    state
}

fn params(text: &str) -> Value {
    serde_json::from_str(text).expect("json")
}

#[test]
fn requests_are_let_in_on_their_budgets() {
    let limits = TransportLimits {
        provider_requests: 1,
        reserved_requests: 1,
        active_io: 1,
        ..TransportLimits::default()
    };
    let mut state = ServerState::new(limits).ok().expect("limits");
    let request = Message::request(1, methods::FS_READ, Value::Null);
    let RequestStep::Dispatch(ticket) = state.accept_request(&request, 10) else {
        panic!("let in");
    };
    assert!(ticket.io && !ticket.priority);
    let second = Message::request(2, methods::SANDBOX_LIST, Value::Null);
    assert!(matches!(state.accept_request(&second, 11),
        RequestStep::Reject { id: 2, error: Error::Overloaded { limit }, waits: true }
            if limit == "provider_requests"));
    let stop = Message::request(3, methods::EXEC_STOP, Value::Null);
    assert!(matches!(state.accept_request(&stop, 12),
        RequestStep::Dispatch(ticket) if ticket.priority));
    state.release_request(ticket);
    let third = Message::request(4, methods::FS_READ, Value::Null);
    assert!(matches!(state.accept_request(&third, 13),
        RequestStep::Reject { id: 4, error: Error::Overloaded { limit }, waits: true }
            if limit == "active_io"));
    state.release_io();
    assert!(matches!(state.accept_request(&third, 14), RequestStep::Dispatch(_)));
}

#[test]
fn streams_are_registered_by_the_id_in_the_parameters() {
    let mut state = state();
    let request =
        Message::request(1, methods::LOGS_FOLLOW, params("{\"stream_id\":\"logs-1\"}"));
    let RequestStep::Dispatch(ticket) = state.accept_request(&request, 5) else {
        panic!("let in");
    };
    assert_eq!(ticket.stream.as_deref(), Some("logs-1"));
    assert_eq!(state.stream_to_cancel("logs-1"), Some(5));
    let again =
        Message::request(2, methods::LOGS_FOLLOW, params("{\"stream_id\":\"logs-1\"}"));
    assert!(matches!(state.accept_request(&again, 6),
        RequestStep::Reject { error: Error::InvalidSpec { field, reason }, waits: false, .. }
            if field == "stream_id" && reason == "duplicate stream id"));
    let other = Message::request(3, methods::LOGS_FOLLOW, params("{\"stream_id\":7}"));
    assert!(matches!(state.accept_request(&other, 7),
        RequestStep::Dispatch(ticket) if ticket.stream.is_none()));
    state.end_stream(&ticket);
    assert_eq!(state.stream_to_cancel("logs-1"), None);
}

#[test]
fn what_is_no_request_is_ignored_and_shutdown_ends_the_serving() {
    let mut state = state();
    let notification = Message::notification(methods::HOST_EVENT, Value::Null);
    assert!(matches!(state.accept_request(&notification, 1), RequestStep::Ignore));
    let response = Message::response(1, Value::Null);
    assert!(matches!(state.accept_request(&response, 1), RequestStep::Ignore));
    let shutdown = Message::request(9, methods::SHUTDOWN, Value::Null);
    assert!(matches!(state.accept_request(&shutdown, 1), RequestStep::Shutdown { id: 9 }));
    assert!(is_blank(b" \t\r\n"));
    assert!(!is_blank(b" {}"));
}

#[test]
fn initialize_agrees_on_version_and_transport() {
    let mut state = state();
    assert!(matches!(state.initialize(Ok(1), Err(JsonPosition { line: 0, column: 0 })),
        Err(DispatchError::App(Error::InvalidSpec { field, reason }))
            if field == "protocol_version"
                && reason == "plugin speaks protocol version 2 but the host asked for 1"));
    assert!(matches!(
        state.initialize(Err(JsonPosition { line: 1, column: 2 }), Err(JsonPosition {
            line: 0,
            column: 0
        })),
        Err(DispatchError::BadParams { line: 1, column: 2 })
    ));
    let mut small = transport();
    small.max_frame_bytes = 1;
    let refused = methods::InitializeParams { protocol_version: 2, data_transport: small };
    assert!(matches!(state.initialize(Ok(2), Ok(refused)),
        Err(DispatchError::App(Error::InvalidSpec { field, .. }))
            if field == "data_transport.max_frame_bytes"));
    assert!(state.transport.is_none());
    let first = methods::InitializeParams { protocol_version: 2, data_transport: transport() };
    assert!(state.initialize(Ok(2), Ok(first)).is_ok());
    let mut other = transport();
    other.socket_path = "/tmp/other.sock".to_owned();
    let second = methods::InitializeParams { protocol_version: 2, data_transport: other };
    assert!(state.initialize(Ok(2), Ok(second)).is_ok());
    assert_eq!(state.transport.expect("kept").socket_path, "/tmp/data.sock");
}

#[test]
fn replies_carry_the_code_of_what_went_wrong() {
    let Reply::Message(unknown) = reply(3, "x/y", Err(DispatchError::UnknownMethod)) else {
        panic!("message");
    };
    let error = unknown.error.expect("error");
    assert_eq!((error.code, error.message.as_str()), (-32601, "unknown method x/y"));
    let Reply::Message(bad) =
        reply(3, "x/y", Err(DispatchError::BadParams { line: 2, column: 5 }))
    else {
        panic!("message");
    };
    let error = bad.error.expect("error");
    assert_eq!(
        (error.code, error.message.as_str()),
        (-32600, "invalid params for x/y at line 2 column 5")
    );
    assert!(matches!(
        reply(3, "x/y", Err(DispatchError::App(Error::overloaded("active_io")))),
        Reply::Failure { id: 3, error: Error::Overloaded { .. } }
    ));
    let malformed = malformed_reply(1, 9);
    assert_eq!(malformed.id, Some(0));
    assert_eq!(
        malformed.error.expect("error").message,
        "malformed message at line 1 column 9"
    );
    assert!(matches!(after_delivery(Ok(()), false), DeliveryStep::Done));
    assert!(matches!(
        after_delivery(Err(Error::limit_exceeded("control_message_bytes", 4)), false),
        DeliveryStep::Instead(Error::LimitExceeded { .. })
    ));
    assert!(matches!(
        after_delivery(Err(Error::limit_exceeded("control_message_bytes", 4)), true),
        DeliveryStep::Lost
    ));
    assert!(matches!(after_delivery(Err(Error::overloaded("x")), false), DeliveryStep::Lost));
}

#[test]
fn serving_ends_for_the_first_reason() {
    assert!(matches!(serve_event(ServeEvent::Line(Some(b"\n".to_vec()))), ServeStep::Continue));
    assert!(matches!(serve_event(ServeEvent::Line(Some(b"{}\n".to_vec()))), ServeStep::Take(_)));
    assert!(matches!(serve_event(ServeEvent::Line(None)), ServeStep::Stop(Ok(()))));
    assert!(matches!(serve_event(ServeEvent::DeliveryFailed),
        ServeStep::Stop(Err(Error::Transport(error)))
            if error.context == "control delivery failed; provider effects may be uncertain"));
    assert!(matches!(
        serve_outcome(Ok(()), false, WriterEnd::Before),
        Err(Error::Transport(error))
            if error.context == "plugin cleanup incomplete at shutdown deadline"
    ));
    assert!(matches!(
        serve_outcome(Err(Error::overloaded("x")), false, WriterEnd::TimedOut),
        Err(Error::Transport(error)) if error.context == "plugin response shutdown timed out"
    ));
    assert!(serve_outcome(Ok(()), true, WriterEnd::Ended(Ok(()))).is_ok());
    assert!(matches!(
        writer_failure(WriteFailure::Unclosed(IoError {
            kind: IoErrorKind::WriteZero,
            rendered: "gone".to_owned(),
        })),
        Error::Io { context, io_kind: IoErrorKind::WriteZero, .. }
            if context == "closing plugin response transport"
    ));
    assert!(matches!(writer_failure(WriteFailure::TimedOut),
        Error::Transport(error) if error.context == "control response delivery timed out"));
}

#[test]
fn lost_events_are_announced_once() {
    let mut state = state();
    assert!(state.sends_events());
    assert!(!state.event_sent(true));
    assert!(state.event_sent(false));
    assert!(!state.sends_events());
    assert!(!state.event_sent(false));
    assert!(!state.delivery_failed);
    state.reply_sent(false);
    assert!(state.delivery_failed);
}

#[test]
fn handles_are_cached_within_their_limit() {
    let limits = TransportLimits { cached_handles: 2, ..TransportLimits::default() };
    let mut state = ServerState::new(limits).ok().expect("limits");
    for (number, id) in ["a", "b", "c"].iter().enumerate() {
        state.remember((*id).to_owned(), number as u64);
        assert_eq!(state.handle(id), Some(number as u64));
    }
    assert_eq!(state.diagnostics(0, 0).cached_handles, 2);
    state.remember("c".to_owned(), 9);
    assert_eq!(state.handle("c"), Some(9));
    assert_eq!(state.diagnostics(0, 0).cached_handles, 2);
    state.forget_handle("c");
    assert_eq!(state.handle("c"), None);
}

#[test]
fn closing_takes_everything_out() {
    let mut state = started();
    state.register_exec("x".to_owned(), 1).expect("exec");
    state.register_stdio("s".to_owned(), 2).expect("stdio");
    state.register_pty("p".to_owned(), 3).expect("pty");
    assert_eq!(state.follow_stream("l".to_owned(), 4), 4);
    assert_eq!(state.follow_stream("l".to_owned(), 5), 4);
    let closing = state.close_sessions();
    assert_eq!((closing.streams, closing.stdios, closing.ptys), (vec![4], vec![2], vec![3]));
    let diagnostics = state.diagnostics(6, 7);
    assert_eq!(diagnostics.execs + diagnostics.stdios + diagnostics.ptys, 0);
    assert_eq!((diagnostics.background_tasks, diagnostics.runtime_tasks), (6, 7));
}

#[test]
fn methods_are_routed_by_name() {
    assert_eq!(route(methods::EXEC_STREAM), Some(Method::ExecStream));
    assert_eq!(route(methods::INITIALIZE), Some(Method::Initialize));
    assert_eq!(route("exec/unknown"), None);
    assert_eq!(route("unknown"), None);
    assert_eq!(Method::FsRead.name(), methods::FS_READ);
    assert_eq!(plan(Method::SandboxDescribe), vec![Stage::Handle, Stage::Call]);
}

fn run(method: Method) -> RequestRun {
    RequestRun::new(method, "sb-1".to_owned(), "r-1".to_owned(), 77, false, StopLevel::Term)
}

#[test]
fn a_command_is_registered_before_its_channel_opens_and_forgotten_after() {
    let mut state = started();
    let mut run = run(Method::ExecStream);
    assert!(matches!(run.advance(&mut state, StageEvent::Begin), StageAction::Attach));
    let made = Made { id: "sb-1".to_owned(), number: 3 };
    assert!(matches!(
        run.advance(&mut state, StageEvent::Done(Ok(Some(made)))),
        StageAction::Next
    ));
    assert_eq!(state.handle("sb-1"), Some(3));
    assert!(matches!(run.advance(&mut state, StageEvent::Begin), StageAction::Next));
    assert_eq!(state.exec_to_stop("r-1"), Some(77));
    assert!(matches!(run.advance(&mut state, StageEvent::Begin), StageAction::Open));
    assert_eq!(state.diagnostics(0, 0).pending_opens, 1);
    assert!(matches!(run.advance(&mut state, StageEvent::Done(Ok(None))), StageAction::Next));
    assert_eq!(state.diagnostics(0, 0).pending_opens, 0);
    assert!(matches!(run.advance(&mut state, StageEvent::Begin), StageAction::Receive));
    assert!(matches!(run.advance(&mut state, StageEvent::Done(Ok(None))), StageAction::Next));
    assert!(matches!(
        run.advance(&mut state, StageEvent::Begin),
        StageAction::Call { handle: Some(3), session: None }
    ));
    assert!(matches!(run.advance(&mut state, StageEvent::Done(Ok(None))), StageAction::Next));
    assert!(matches!(run.advance(&mut state, StageEvent::Begin), StageAction::Finish));
    let finished = StageEvent::Finished { outcome: Ok(()), input_error: None };
    assert!(matches!(run.advance(&mut state, finished), StageAction::Next));
    assert!(matches!(run.advance(&mut state, StageEvent::Begin), StageAction::Next));
    assert_eq!(state.exec_to_stop("r-1"), None);
    assert!(matches!(run.advance(&mut state, StageEvent::Begin), StageAction::Answer(Ok(()))));
}

#[test]
fn a_channel_that_does_not_open_leaves_nothing_registered() {
    let mut state = started();
    state.remember("sb-1".to_owned(), 3);
    let mut run = run(Method::ExecStream);
    assert!(matches!(run.advance(&mut state, StageEvent::Begin), StageAction::Next));
    assert!(matches!(run.advance(&mut state, StageEvent::Begin), StageAction::Next));
    assert!(matches!(run.advance(&mut state, StageEvent::Begin), StageAction::Open));
    let action = run.advance(&mut state, StageEvent::Done(Err(open_timeout())));
    assert!(matches!(action, StageAction::Answer(Err(Error::Transport(error)))
        if error.context == "opening data channel timed out"));
    assert_eq!(state.exec_to_stop("r-1"), None);
    assert_eq!(state.diagnostics(0, 0).pending_opens, 0);
}

#[test]
fn the_input_of_a_command_counts_before_its_outcome() {
    let mut state = started();
    state.remember("sb-1".to_owned(), 3);
    let mut run = run(Method::OneShotRun);
    run.advance(&mut state, StageEvent::Begin);
    assert!(matches!(
        run.advance(&mut state, StageEvent::Begin),
        StageAction::Ask(Capability::OneShot)
    ));
    run.advance(&mut state, StageEvent::Offered(true));
    run.advance(&mut state, StageEvent::Begin);
    run.advance(&mut state, StageEvent::Begin);
    run.advance(&mut state, StageEvent::Done(Ok(None)));
    run.advance(&mut state, StageEvent::Begin);
    let failed = StageEvent::Done(Err(Error::overloaded("call")));
    assert!(matches!(run.advance(&mut state, failed), StageAction::Next));
    let finished = StageEvent::Finished {
        outcome: Ok(()),
        input_error: Some(Error::overloaded("input")),
    };
    assert!(matches!(run.advance(&mut state, finished),
        StageAction::Answer(Err(Error::Overloaded { limit })) if limit == "input"));
    assert_eq!(state.exec_to_stop("r-1"), None);
}

#[test]
fn files_fail_by_what_failed_first() {
    for (method, expected) in [(Method::FsRead, "end"), (Method::FsWrite, "")] {
        let mut state = started();
        state.remember("sb-1".to_owned(), 3);
        let mut run = run(method);
        run.advance(&mut state, StageEvent::Begin);
        run.advance(&mut state, StageEvent::Begin);
        run.advance(&mut state, StageEvent::Done(Ok(None)));
        if method == Method::FsWrite {
            run.advance(&mut state, StageEvent::Done(Ok(None)));
        }
        run.advance(&mut state, StageEvent::Done(Ok(None)));
        let finished = StageEvent::Finished {
            outcome: Err(Error::overloaded("end")),
            input_error: None,
        };
        let action = run.advance(&mut state, finished);
        if expected.is_empty() {
            assert!(matches!(action, StageAction::Next));
            assert!(matches!(
                run.advance(&mut state, StageEvent::Begin),
                StageAction::Answer(Ok(()))
            ));
        } else {
            assert!(matches!(action, StageAction::Answer(Err(Error::Overloaded { limit }))
                if limit == expected));
        }
    }
}

fn write_at_its_end(state: &mut ServerState, call: StageEvent) -> RequestRun {
    state.remember("sb-1".to_owned(), 3);
    let mut run = run(Method::FsWrite);
    run.advance(state, StageEvent::Begin);
    run.advance(state, StageEvent::Begin);
    run.advance(state, StageEvent::Done(Ok(None)));
    assert!(matches!(run.advance(state, StageEvent::Begin), StageAction::Receive));
    run.advance(state, StageEvent::Done(Ok(None)));
    assert!(matches!(run.advance(state, call), StageAction::Next));
    run
}

#[test]
fn a_file_whose_receipt_failed_is_not_written() {
    let finished = || StageEvent::Finished {
        outcome: Ok(()),
        input_error: Some(Error::invalid_spec("content_length", "too long")),
    };
    let mut state = started();
    let mut run = write_at_its_end(&mut state, StageEvent::Done(Ok(None)));
    assert!(matches!(run.advance(&mut state, finished()),
        StageAction::Answer(Err(Error::InvalidSpec { field, .. })) if field == "content_length"));
    let failed = StageEvent::Done(Err(Error::overloaded("call")));
    let mut run = write_at_its_end(&mut state, failed);
    assert!(matches!(run.advance(&mut state, finished()),
        StageAction::Answer(Err(Error::Overloaded { limit })) if limit == "call"));
}

#[test]
fn a_cancelled_log_ends_well() {
    let mut state = started();
    state.remember("sb-1".to_owned(), 3);
    let mut logs = run(Method::LogsFollow);
    logs.advance(&mut state, StageEvent::Begin);
    logs.advance(&mut state, StageEvent::Offered(true));
    logs.advance(&mut state, StageEvent::Begin);
    logs.advance(&mut state, StageEvent::Done(Ok(None)));
    logs.advance(&mut state, StageEvent::Begin);
    assert_eq!(state.stream_to_cancel("r-1"), Some(77));
    assert!(matches!(
        logs.advance(&mut state, StageEvent::Begin),
        StageAction::Call { handle: Some(3), session: Some(77) }
    ));
    assert!(matches!(logs.advance(&mut state, StageEvent::Cancelled), StageAction::Next));
    logs.advance(&mut state, StageEvent::Begin);
    assert_eq!(state.stream_to_cancel("r-1"), None);
    let finished = StageEvent::Finished { outcome: Ok(()), input_error: None };
    assert!(matches!(logs.advance(&mut state, finished), StageAction::Next));
    assert!(matches!(logs.advance(&mut state, StageEvent::Begin), StageAction::Answer(Ok(()))));
}

#[test]
fn commands_side_by_side_keep_their_places_and_stops() {
    let mut state = started();
    state.remember("sb-1".to_owned(), 3);
    let mut first = run(Method::ExecStream);
    let mut second = RequestRun::new(
        Method::OneShotRun,
        "sb-1".to_owned(),
        "r-2".to_owned(),
        78,
        false,
        StopLevel::Term,
    );
    for _ in 0..2 {
        first.advance(&mut state, StageEvent::Begin);
    }
    second.advance(&mut state, StageEvent::Begin);
    second.advance(&mut state, StageEvent::Offered(true));
    second.advance(&mut state, StageEvent::Begin);
    assert!(matches!(first.advance(&mut state, StageEvent::Begin), StageAction::Open));
    assert!(matches!(second.advance(&mut state, StageEvent::Begin), StageAction::Open));
    assert_eq!(state.diagnostics(0, 0).pending_opens, 2);
    first.advance(&mut state, StageEvent::Done(Err(open_timeout())));
    assert_eq!(state.diagnostics(0, 0).pending_opens, 1);
    assert_eq!(state.exec_to_stop("r-1"), None);
    assert_eq!(state.exec_to_stop("r-2"), Some(78));
    assert!(matches!(
        second.advance(&mut state, StageEvent::Done(Ok(None))),
        StageAction::Next
    ));
    assert_eq!(state.diagnostics(0, 0).pending_opens, 0);
}

#[test]
fn missing_facets_and_bad_ids_end_a_request() {
    let mut state = started();
    state.remember("sb-1".to_owned(), 3);
    let mut vnc = run(Method::AccessVnc);
    vnc.advance(&mut state, StageEvent::Begin);
    assert!(matches!(
        vnc.advance(&mut state, StageEvent::Offered(false)),
        StageAction::Answer(Err(Error::Unsupported { capability: Capability::VncAccess }))
    ));
    let mut attach = run(Method::SandboxAttach);
    assert!(matches!(attach.advance(&mut state, StageEvent::Begin), StageAction::Judge));
    assert!(matches!(
        attach.advance(&mut state, StageEvent::Judged(Err("empty".to_owned()))),
        StageAction::Answer(Err(Error::InvalidSpec { field, reason }))
            if field == "sandbox_id" && reason == "empty"
    ));
    let mut ssh = run(Method::AccessSshCreate);
    ssh.advance(&mut state, StageEvent::Begin);
    // No expiry is asked for, so none has to be offered.
    assert!(matches!(ssh.advance(&mut state, StageEvent::Begin), StageAction::Next));
    assert!(matches!(
        ssh.advance(&mut state, StageEvent::Begin),
        StageAction::Ask(Capability::Ssh)
    ));
}

#[test]
fn duplicate_processes_are_undone_and_unknown_ones_refused() {
    let mut state = started();
    state.remember("sb-1".to_owned(), 3);
    state.register_stdio("r-1".to_owned(), 8).expect("first");
    let mut open = run(Method::ExecStdioOpen);
    open.advance(&mut state, StageEvent::Begin);
    open.advance(&mut state, StageEvent::Done(Ok(None)));
    open.advance(&mut state, StageEvent::Begin);
    let made = Made { id: "r-1".to_owned(), number: 9 };
    open.advance(&mut state, StageEvent::Done(Ok(Some(made))));
    assert!(matches!(open.advance(&mut state, StageEvent::Begin),
        StageAction::Undo { resource: 9, error: Error::InvalidSpec { field, .. } }
            if field == "process_id"));
    let mut wait = run(Method::ExecStdioWait);
    assert!(matches!(wait.advance(&mut state, StageEvent::Begin), StageAction::Next));
    assert!(matches!(
        wait.advance(&mut state, StageEvent::Begin),
        StageAction::Call { session: Some(8), .. }
    ));
    wait.advance(&mut state, StageEvent::Done(Ok(None)));
    wait.advance(&mut state, StageEvent::Begin);
    let mut again = run(Method::ExecStdioTerminate);
    assert!(matches!(again.advance(&mut state, StageEvent::Begin),
        StageAction::Answer(Err(Error::InvalidSpec { reason, .. }))
            if reason == "unknown stdio process id"));
}

#[test]
fn a_terminal_that_cannot_be_closed_stays() {
    let mut state = started();
    state.register_pty("r-1".to_owned(), 4).expect("pty");
    let mut close = run(Method::PtyClose);
    close.advance(&mut state, StageEvent::Begin);
    assert!(state.pty("r-1").is_err());
    let failed = StageEvent::Done(Err(Error::overloaded("close")));
    assert!(matches!(close.advance(&mut state, failed), StageAction::Answer(Err(_))));
    assert_eq!(state.pty("r-1").expect("kept"), 4);
    let mut gone = RequestRun::new(
        Method::PtyClose,
        String::new(),
        "r-2".to_owned(),
        78,
        false,
        StopLevel::Term,
    );
    assert!(matches!(gone.advance(&mut state, StageEvent::Begin), StageAction::Answer(Ok(()))));
}

#[test]
fn channels_wait_for_initialize_and_for_room() {
    let mut state = state();
    state.remember("sb-1".to_owned(), 3);
    let mut read = run(Method::FsRead);
    read.advance(&mut state, StageEvent::Begin);
    assert!(matches!(read.advance(&mut state, StageEvent::Begin),
        StageAction::Answer(Err(Error::Transport(error)))
            if error.context == "a data channel was requested before initialize"));
    let limits = TransportLimits { pending_opens: 1, ..TransportLimits::default() };
    let mut narrow = ServerState::new(limits).ok().expect("limits");
    narrow.transport = Some(transport());
    narrow.begin_open().expect("room");
    assert!(matches!(narrow.begin_open(),
        Err(Error::Overloaded { limit }) if limit == "pending_opens"));
    narrow.end_open();
    assert!(narrow.begin_open().is_ok());
}

#[test]
fn stops_and_cancellations_reach_what_is_there() {
    let mut state = started();
    state.register_exec("r-1".to_owned(), 5).expect("exec");
    let mut stop = run(Method::ExecStop);
    assert!(matches!(
        stop.advance(&mut state, StageEvent::Begin),
        StageAction::Stop { resource: 5, level: StopLevel::Term }
    ));
    assert!(matches!(stop.advance(&mut state, StageEvent::Done(Ok(None))), StageAction::Next));
    let mut kill = RequestRun::new(
        Method::ExecStop,
        String::new(),
        "r-1".to_owned(),
        78,
        false,
        StopLevel::Kill,
    );
    assert!(matches!(
        kill.advance(&mut state, StageEvent::Begin),
        StageAction::Stop { resource: 5, level: StopLevel::Kill }
    ));
    let mut cancel = run(Method::StreamCancel);
    assert!(matches!(cancel.advance(&mut state, StageEvent::Begin), StageAction::Next));
    assert!(matches!(
        cancel.advance(&mut state, StageEvent::Begin),
        StageAction::Answer(Ok(()))
    ));
}
