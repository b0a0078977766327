use sandbox_driver_protocol::control::{
    delivery_timeout, encode, message_size, queue, read_line, DeliverStep, LaneKind, LineError,
    LineRead,
};
use sandbox_driver_protocol::driver::{Error, IoErrorKind};
use sandbox_driver_protocol::limits::{
    acquire, reserved, uses_io, Budget, TransportLimits,
};
use sandbox_driver_protocol::methods;
use sandbox_driver_protocol::wire::Message;
use serde_json::Value;
use std::time::Duration;

fn text_of(message: &Message) -> Vec<u8> {
    format!("{{\"jsonrpc\":\"2.0\",\"id\":{}}}", message.id.expect("id")).into_bytes()
}

#[test]
fn refuses_unterminated_oversize_message_and_partial_eof() {
    let mut partial = Vec::new();
    assert!(read_line(&mut partial, b"123456789", 8).is_err());
    assert!(partial.len() <= 8);
    let mut partial = Vec::new();
    assert!(matches!(read_line(&mut partial, b"{}", 8), Ok((LineRead::More, 2))));
    assert_eq!(partial, b"{}");
    assert_eq!(
        read_line(&mut partial, b"", 8).expect_err("partial").kind(),
        IoErrorKind::UnexpectedEof
    );
}

#[test]
fn priority_capacity_survives_full_normal_queue() {
    let limits = TransportLimits { provider_requests: 1, ..TransportLimits::default() };
    let mut control = queue(&limits);
    let first = Message::response(1, Value::Null);
    let second = Message::response(2, Value::Null);
    let third = Message::response(3, Value::Null);
    control.send(&first, text_of(&first), false).expect("normal");
    assert!(matches!(
        control.send(&second, text_of(&second), false),
        Err(Error::Overloaded { .. })
    ));
    control.send(&third, text_of(&third), true).expect("reserved");
    let (kind, encoded) = control.recv().expect("priority response");
    assert_eq!(kind, LaneKind::Priority);
    assert_eq!(encoded.bytes, b"{\"jsonrpc\":\"2.0\",\"id\":3}\n");
    let (kind, _) = control.recv().expect("normal response");
    assert_eq!(kind, LaneKind::Normal);
    assert!(control.recv().is_none());
}

#[test]
fn lines_come_whole_however_they_arrive() {
    let mut partial = Vec::new();
    let (read, used) = read_line(&mut partial, b"ab", 8).expect("part");
    assert!(matches!(read, LineRead::More));
    assert_eq!(used, 2);
    let (read, used) = read_line(&mut partial, b"c\nrest", 8).expect("line");
    assert!(matches!(read, LineRead::Line(line) if line == b"abc\n"));
    assert_eq!(used, 2);
    assert!(partial.is_empty());
    assert!(matches!(read_line(&mut partial, b"", 8), Ok((LineRead::End, 0))));
    assert_eq!(LineError::TooLong.message(), "control message limit exceeded");
    assert_eq!(LineError::TooLong.kind(), IoErrorKind::InvalidData);
    assert_eq!(LineError::Incomplete.message(), "incomplete control message");
}

#[test]
fn a_message_over_the_limit_is_refused() {
    assert_eq!(message_size(b"12345", 6).expect("fits"), 6);
    assert!(matches!(message_size(b"123456", 6),
        Err(Error::LimitExceeded { limit, max_bytes: 6 }) if limit == "control_message_bytes"));
    assert_eq!(encode(b"{}".to_vec()).bytes, b"{}\n");
}

#[test]
fn a_reply_waits_for_room_and_is_queued_then() {
    let limits = TransportLimits { provider_requests: 1, ..TransportLimits::default() };
    let mut control = queue(&limits);
    assert!(matches!(control.deliver(b"{}".to_vec(), false), Ok(DeliverStep::Queued)));
    let Ok(DeliverStep::Wait(text)) = control.deliver(b"[]".to_vec(), false) else {
        panic!("waits");
    };
    assert_eq!(text, b"[]");
    let (kind, encoded) = control.recv().expect("first");
    control.written(kind, encoded.bytes.len());
    assert!(matches!(control.deliver(text, false), Ok(DeliverStep::Queued)));
    control.close();
    assert!(control.deliver(b"{}".to_vec(), true).is_err());
    let Error::Transport(error) = delivery_timeout() else {
        panic!("transport failure");
    };
    assert_eq!(error.context, "control response delivery timed out");
}

#[test]
fn events_have_a_lane_of_their_own() {
    let limits = TransportLimits { event_queue_bytes: 8, ..TransportLimits::default() };
    let mut control = queue(&limits);
    let event = Message::notification(methods::HOST_EVENT, Value::Null);
    assert!(control.send(&event, b"1234567".to_vec(), false).is_ok());
    assert!(matches!(control.send(&event, b"1234567".to_vec(), false),
        Err(Error::Overloaded { .. })));
    let response = Message::response(1, Value::Null);
    assert!(control.send(&response, text_of(&response), false).is_ok());
}

#[test]
fn the_usual_limits_hold() {
    let limits = TransportLimits::default();
    assert!(limits.validate().is_ok());
    assert_eq!(limits.active_io, 1024);
    assert_eq!(limits.shutdown_timeout, Duration::from_secs(5));
    assert_eq!(limits.output_progress_timeout, Duration::from_secs(30));
}

#[test]
fn limits_are_positive_and_fit() {
    let zero = TransportLimits { reserved_requests: 0, ..TransportLimits::default() };
    assert!(matches!(zero.validate(), Err(Error::InvalidSpec { field, reason })
        if field == "reserved_requests"
            && reason == "must be positive and fit the transport budget"));
    let large =
        TransportLimits { event_queue_bytes: usize::MAX, ..TransportLimits::default() };
    assert!(matches!(large.validate(), Err(Error::InvalidSpec { field, .. })
        if field == "event_queue_bytes"));
    let largest =
        TransportLimits { event_queue_bytes: u32::MAX as usize, ..TransportLimits::default() };
    assert!(largest.validate().is_ok());
    let never =
        TransportLimits { open_timeout: Duration::from_secs(0), ..TransportLimits::default() };
    assert!(matches!(never.validate(), Err(Error::InvalidSpec { field, reason })
        if field == "open_timeout" && reason == "must be positive and at most one day"));
    let day = TransportLimits {
        open_timeout: Duration::from_secs(86_400),
        ..TransportLimits::default()
    };
    assert!(day.validate().is_ok());
    let longer = TransportLimits {
        open_timeout: Duration::from_secs(86_400) + Duration::from_nanos(1),
        ..TransportLimits::default()
    };
    assert!(longer.validate().is_err());
}

#[test]
fn a_spent_budget_refuses_in_its_name() {
    let mut budget = Budget::new(2);
    acquire(&mut budget, "active_io").expect("first");
    acquire(&mut budget, "active_io").expect("second");
    assert!(matches!(acquire(&mut budget, "active_io"),
        Err(Error::Overloaded { limit }) if limit == "active_io"));
    budget.release(1);
    assert_eq!(budget.available(), 1);
    assert!(budget.acquire_many(2, "active_io").is_err());
    assert_eq!(budget.available(), 1);
}

#[test]
fn stops_are_reserved_and_move_no_bytes() {
    for method in [methods::EXEC_STOP, methods::PTY_CLOSE, methods::STREAM_CANCEL] {
        assert!(reserved(method));
        assert!(!uses_io(method));
    }
    assert!(!reserved(methods::EXEC_STREAM));
    assert!(uses_io(methods::EXEC_STREAM));
    assert!(!reserved(methods::FS_DELETE));
    assert!(!uses_io(methods::FS_DELETE));
}
