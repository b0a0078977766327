use sandbox_driver_protocol::channel::{
    accept, accept_soon, check_acknowledgment, directory_for, fresh_directory, open, random_token,
    token_of, AcceptErrorKind, AcceptEvent, AcceptStep, ChannelListener, ChannelRequest,
    DataTransport, OpenFrame, Opened, PeerCredentials, TrustedPeer,
};
use sandbox_driver_protocol::driver::Error;
use sandbox_driver_protocol::frame::{FrameKind, FrameReader, InputEnd, MAX_FRAME_BYTES};
use sandbox_driver_protocol::limits::TransportLimits;
use std::time::Duration;

const PROCESS: u32 = 4711;

fn me() -> PeerCredentials {
    PeerCredentials { pid: Some(4711), uid: 1000 }
}

fn listener() -> ChannelListener {
    ChannelListener::bind(PROCESS, "/tmp/data.sock".to_owned())
}

fn opened(listener: &ChannelListener, request: &ChannelRequest) -> Opened {
    Opened::Open(open(&listener.transport(), request))
}

#[test]
fn the_listener_matches_channels_by_id_and_token() {
    let mut listener = listener();
    let first = listener.expect().expect("admitted");
    let second = listener.expect().expect("admitted");
    assert_ne!(first.channel_id, second.channel_id);
    assert_ne!(first.token, second.token);
    let frame = opened(&listener, &second);
    let admission = listener.admit_connection(&me(), frame).expect("open");
    assert_eq!(admission.channel_id, second.channel_id);
    assert!(admission.acknowledge);
    let crossed =
        ChannelRequest { channel_id: first.channel_id, token: second.token.clone() };
    let frame = opened(&listener, &crossed);
    assert!(listener.admit_connection(&me(), frame).is_err());
    assert_eq!(listener.diagnostics().pending_opens, 1);
}

#[test]
fn channels_are_numbered_in_turn() {
    let limits = TransportLimits { pending_opens: 2, ..TransportLimits::default() };
    let mut listener = ChannelListener::bind_with_limits(
        limits,
        TrustedPeer::Process(7),
        "/tmp/data.sock".to_owned(),
    )
    .ok()
    .expect("limits");
    assert_eq!(listener.expect().expect("first").channel_id, 1);
    let second = listener.expect().expect("second");
    assert_eq!(second.channel_id, 2);
    assert!(listener.expect().is_err());
    assert_eq!(listener.diagnostics().active_io, 2);
    assert_eq!(listener.diagnostics().pending_opens, 2);
    let frame = opened(&listener, &second);
    let peer = PeerCredentials { pid: Some(7), ..me() };
    listener.admit_connection(&peer, frame).expect("open");
    let frame = opened(&listener, &second);
    assert!(listener.admit_connection(&peer, frame).is_err());
    assert_eq!(listener.expect().expect("third").channel_id, 3);
}

#[test]
fn a_wrong_token_is_refused() {
    let mut listener = listener();
    let request = listener.expect().expect("admitted");
    let forged =
        ChannelRequest { channel_id: request.channel_id, token: "not-the-token".to_owned() };
    let frame = opened(&listener, &forged);
    assert!(matches!(listener.admit_connection(&me(), frame),
        Err(Error::InvalidSpec { field, reason })
            if field == "token" && reason == "data channel token mismatch"));
    // A refused connection must not consume another operation's token.
    let frame = opened(&listener, &request);
    listener.admit_connection(&me(), frame).expect("legitimate connect");
    accept_soon(Some(AcceptEvent::Connected)).expect("legitimate channel accepted");
}

#[test]
fn invalid_connection_bursts_preserve_admission_and_recover() {
    let limits = TransportLimits {
        unauthenticated_handshakes: 2,
        open_timeout: Duration::from_millis(100),
        ..TransportLimits::default()
    };
    let mut listener = ChannelListener::bind_with_limits(
        limits,
        TrustedPeer::Process(PROCESS),
        "/tmp/data.sock".to_owned(),
    )
    .expect("bind");
    let request = listener.expect().expect("legitimate expectation");
    let mut admitted = 0;
    for _ in 0..32 {
        if listener.begin_handshake() {
            admitted += 1;
        }
        assert!(listener.diagnostics().handshakes <= 2);
    }
    assert_eq!(admitted, 2);
    assert_eq!(listener.diagnostics().pending_opens, 1);
    for _ in 0..admitted {
        let _ = listener.admit_connection(&me(), Opened::TimedOut);
        listener.end_handshake();
    }
    assert_eq!(listener.diagnostics().handshakes, 0);
    for index in 0..1000 {
        let forged = ChannelRequest {
            channel_id: if index % 2 == 0 { request.channel_id } else { u64::MAX },
            token: "invalid".to_owned(),
        };
        assert!(listener.begin_handshake());
        let frame = opened(&listener, &forged);
        assert!(listener.admit_connection(&me(), frame).is_err());
        listener.end_handshake();
        assert_eq!(listener.diagnostics().pending_opens, 1);
    }
    let frame = opened(&listener, &request);
    listener.admit_connection(&me(), frame).expect("legitimate open");
    assert_eq!(listener.diagnostics().pending_opens, 0);
}

#[test]
fn malformed_opens_do_not_consume_a_legitimate_registration() {
    let mut listener = listener();
    let request = listener.expect().expect("legitimate expectation");
    let malformed: Vec<Vec<u8>> = vec![
        vec![255, 0, 0, 0, 0],
        vec![FrameKind::Open.to_byte(), 0, 1, 0, 1],
    ];
    for bytes in malformed {
        let mut reader = FrameReader::new(MAX_FRAME_BYTES);
        let error = reader.read(bytes.as_slice(), InputEnd::Open).expect_err("malformed open");
        assert!(listener.admit_connection(&me(), Opened::Failed(error)).is_err());
        assert_eq!(listener.diagnostics().pending_opens, 1);
    }
    // An open frame whose payload is the single byte of an unclosed object.
    assert!(matches!(
        listener.admit_connection(&me(), Opened::Malformed { line: 1, column: 1 }),
        Err(Error::InvalidSpec { field, reason })
            if field == "frame" && reason == "invalid open frame at line 1 column 1"
    ));
    assert_eq!(listener.diagnostics().pending_opens, 1);
    assert!(listener.admit_connection(&me(), Opened::Ended).is_err());
    assert!(listener.admit_connection(&me(), Opened::Frame(FrameKind::Stdout)).is_err());
    let frame = opened(&listener, &request);
    listener.admit_connection(&me(), frame).expect("legitimate accepted");
}

#[test]
fn io_capacity_includes_pending_opens_and_both_channel_halves() {
    let limits =
        TransportLimits { active_io: 1, pending_opens: 1, ..TransportLimits::default() };
    let mut listener = ChannelListener::bind_with_limits(
        limits,
        TrustedPeer::Process(PROCESS),
        "/tmp/data.sock".to_owned(),
    )
    .expect("bind");
    let request = listener.expect().expect("first admitted");
    for _ in 0..10_000 {
        assert!(
            matches!(listener.expect(), Err(Error::Overloaded { limit }) if limit == "active_io")
        );
    }
    let frame = opened(&listener, &request);
    let admission = listener.admit_connection(&me(), frame).expect("authenticated");
    listener.drop_receiver(admission.channel_id);
    listener.drop_half(admission.channel_id);
    assert!(matches!(listener.expect(), Err(Error::Overloaded { .. })));
    listener.drop_half(admission.channel_id);
    assert!(listener.expect().is_ok(), "capacity returns after both halves close");
}

#[test]
fn peer_identity_permissions_and_replayed_tokens_are_checked() {
    let mut listener = listener();
    let request = listener.expect().expect("admit");
    assert!(!request.redacted().contains(&request.token));
    let frame = opened(&listener, &request);
    listener.admit_connection(&me(), frame).expect("open");
    let frame = opened(&listener, &request);
    assert!(listener.admit_connection(&me(), frame).is_err(), "one-use token");

    let mut listener = ChannelListener::bind_with_limits(
        TransportLimits::default(),
        TrustedPeer::Process(u32::MAX),
        "/tmp/data.sock".to_owned(),
    )
    .expect("bind");
    let request = listener.expect().expect("admit");
    let frame = opened(&listener, &request);
    assert!(
        matches!(listener.admit_connection(&me(), frame),
            Err(Error::InvalidSpec { field, .. }) if field == "peer"),
        "unexpected process refused"
    );
}

#[test]
fn dropping_the_listener_releases_waiting_operations() {
    assert!(accept(AcceptEvent::Dropped).is_err());
    assert!(accept(AcceptEvent::TimedOut).is_err());
    assert!(accept_soon(None).is_err());
    assert!(accept(AcceptEvent::Connected).is_ok());
}

#[test]
fn an_operation_that_leaves_forgets_its_registration() {
    let mut listener = listener();
    let request = listener.expect().expect("admit");
    listener.drop_receiver(request.channel_id);
    let diagnostics = listener.diagnostics();
    assert_eq!(diagnostics.pending_opens, 0);
    assert_eq!(diagnostics.active_io, 0);
    let frame = opened(&listener, &request);
    assert!(matches!(listener.admit_connection(&me(), frame),
        Err(Error::InvalidSpec { field, reason })
            if field == "channel_id" && reason == "no operation is waiting on channel 1"));
}

#[test]
fn users_and_processes_are_told_apart() {
    assert!(TrustedPeer::User(1000).is_allowed(&PeerCredentials { pid: None, uid: 1000 }));
    assert!(!TrustedPeer::User(1000).is_allowed(&PeerCredentials { pid: Some(1000), uid: 7 }));
    assert!(!TrustedPeer::Process(7).is_allowed(&PeerCredentials { pid: None, uid: 7 }));
    assert!(!TrustedPeer::Process(u32::MAX).is_allowed(&PeerCredentials { pid: Some(-1), uid: 7 }));
}

#[test]
fn accept_failures_are_transient_or_final() {
    let mut listener = listener();
    let _request = listener.expect().expect("admit");
    let step = listener.accept_failed(Some(24), AcceptErrorKind::Other);
    assert!(matches!(step, AcceptStep::Backoff { millis: 50 }));
    assert_eq!(listener.diagnostics().accept_backoffs, 1);
    assert_eq!(listener.diagnostics().pending_opens, 1);
    listener.accept_failed(Some(9), AcceptErrorKind::Other);
    assert!(listener.failed);
    assert!(listener.expect().is_err());
}

#[test]
fn tokens_are_random_hexadecimal() {
    assert_eq!(token_of(&[0x00, 0xab, 0x10]), "00ab10");
    let token = random_token();
    assert_eq!(token.len(), 64);
    assert!(token.chars().all(|c| c.is_ascii_hexdigit() && !c.is_ascii_uppercase()));
    assert_ne!(random_token(), random_token());
    assert_eq!(directory_for(12, 1), "sandbox-driver-12-0000000000000001");
    assert_ne!(fresh_directory(12), fresh_directory(12));
}

#[test]
fn setup_times_are_kept_in_order_and_taken_once() {
    let mut listener = listener();
    listener.record_open(&Duration::from_micros(5));
    listener.record_open(&Duration::from_millis(2));
    assert_eq!(listener.take_setup_samples_us(), vec![5, 2000]);
    assert!(listener.take_setup_samples_us().is_empty());
    assert_eq!(listener.diagnostics().authenticated_opens, 2);
    assert_eq!(listener.diagnostics().setup_samples_lost, 0);
}

#[test]
fn only_an_empty_open_frame_acknowledges() {
    let mut transport = DataTransport {
        socket_path: "/tmp/data.sock".to_owned(),
        max_frame_bytes: MAX_FRAME_BYTES,
        open_ack: true,
    };
    assert!(check_acknowledgment(&transport, Some((FrameKind::Open, Vec::new()))).is_ok());
    assert!(check_acknowledgment(&transport, Some((FrameKind::Open, vec![1]))).is_err());
    assert!(check_acknowledgment(&transport, None).is_err());
    let request = ChannelRequest { channel_id: 3, token: "t".to_owned() };
    let OpenFrame { request: sent, acknowledge } = open(&transport, &request);
    assert_eq!((sent.channel_id, sent.token.as_str(), acknowledge), (3, "t", true));
    transport.open_ack = false;
    assert!(check_acknowledgment(&transport, None).is_ok());
}
