use sandbox_driver_protocol::channel::{Delivery, WriteEvent};
use sandbox_driver_protocol::driver::Error;
use sandbox_driver_protocol::frame::{
    FrameKind, FrameRead, FrameReader, FrameWriter, InputEnd, HEADER_LEN, MAX_FRAME_BYTES,
};

fn read_frame(reader: &mut FrameReader, input: &mut Vec<u8>) -> Option<(FrameKind, Vec<u8>)> {
    match reader.read(input.as_slice(), InputEnd::Open).expect("read") {
        FrameRead::Frame { kind, payload, consumed } => {
            input.drain(..consumed);
            Some((kind, payload))
        }
        FrameRead::Finished | FrameRead::NeedMore => None,
    }
}

#[test]
fn frames_round_trip_and_split_at_the_limit() {
    let mut writer = FrameWriter::new(4);
    let mut reader = FrameReader::new(4);
    let mut wire = writer.write(FrameKind::Stdout, b"0123456789").expect("write");
    wire.extend(writer.finish().expect("finish"));
    writer.mark_finished();
    let mut seen = Vec::new();
    while let Some((kind, payload)) = read_frame(&mut reader, &mut wire) {
        if kind == FrameKind::Eof {
            break;
        }
        assert_eq!(kind, FrameKind::Stdout);
        assert!(payload.len() <= 4);
        seen.extend(payload);
    }
    assert_eq!(seen, b"0123456789");
    assert!(wire.is_empty());
    assert!(matches!(reader.read(b"", InputEnd::Closed), Ok(FrameRead::Finished)));
    assert!(writer.write(FrameKind::Stdout, b"late").is_err());
}

#[test]
fn an_oversized_frame_is_refused_before_allocation() {
    let mut header = [0u8; HEADER_LEN];
    header[0] = FrameKind::Stdout.to_byte();
    header[1..].copy_from_slice(&(1_000_000u32).to_be_bytes());
    let mut reader = FrameReader::new(MAX_FRAME_BYTES);
    let error = reader.read(&header, InputEnd::Open).expect_err("oversized frame refused");
    let Error::InvalidSpec { field, reason } = error else {
        panic!("unexpected refusal");
    };
    assert_eq!(field, "frame");
    assert_eq!(reason, "payload of 1000000 bytes exceeds the 65536 limit");
}

#[test]
fn partial_frame_headers_are_transport_errors() {
    let header = [FrameKind::Stdout.to_byte(), 0, 0, 0, 0];
    for length in 0..header.len() {
        let mut reader = FrameReader::new(MAX_FRAME_BYTES);
        let result = reader.read(&header[..length], InputEnd::Closed);
        let Err(Error::Transport(error)) = result else {
            panic!("transport error expected");
        };
        if length == 0 {
            assert_eq!(error.context, "data channel closed before EOF; delivery is incomplete");
        } else {
            assert_eq!(error.context, "reading data frame header");
        }
    }
}

#[test]
fn eof_payload_and_zero_frame_limit_are_rejected() {
    let bytes = [FrameKind::Eof.to_byte(), 0, 0, 0, 1];
    assert!(FrameReader::new(MAX_FRAME_BYTES).read(&bytes, InputEnd::Closed).is_err());
    assert!(FrameWriter::new(0).write(FrameKind::Stdout, b"x").is_err());
}

#[test]
fn an_unknown_kind_and_a_failing_input_are_told_apart() {
    let mut reader = FrameReader::new(MAX_FRAME_BYTES);
    let Err(Error::InvalidSpec { reason, .. }) =
        reader.read(&[255, 0, 0, 0, 0], InputEnd::Open)
    else {
        panic!("refused");
    };
    assert_eq!(reason, "unknown kind 255");
    let Err(Error::Transport(error)) = reader.read(
        &[FrameKind::Stdout.to_byte(), 0, 0, 0, 3, 1],
        InputEnd::Failed("reset".to_owned()),
    ) else {
        panic!("failed");
    };
    assert_eq!(error.context, "reading data frame");
    assert_eq!(error.source.expect("source").message, "reset");
}

#[test]
fn a_frame_is_a_kind_a_length_and_the_payload() {
    let bytes = FrameWriter::new(MAX_FRAME_BYTES).write(FrameKind::Stdin, b"hi").expect("write");
    assert_eq!(bytes, vec![FrameKind::Stdin.to_byte(), 0, 0, 0, 2, b'h', b'i']);
    assert_eq!(FrameKind::from_byte(FrameKind::Eof.to_byte()), Some(FrameKind::Eof));
    assert_eq!(FrameKind::from_byte(0xff), None);
    assert_eq!(FrameKind::Stderr.name(), "Stderr");
}

#[test]
fn an_open_frame_does_not_span_and_an_end_mark_is_empty() {
    let writer = FrameWriter::new(4);
    assert!(matches!(writer.write(FrameKind::Open, b"12345"),
        Err(Error::InvalidSpec { reason, .. }) if reason == "open cannot span frames"));
    assert!(matches!(writer.write(FrameKind::Eof, b"1"),
        Err(Error::InvalidSpec { reason, .. }) if reason == "EOF must have an empty payload"));
}

#[test]
fn a_delivery_is_done_when_every_byte_has_left() {
    let mut delivery = Delivery::new(b"abc".to_vec());
    assert!(!delivery.is_done());
    delivery.deliver(WriteEvent::Wrote(2)).expect("progress");
    assert!(!delivery.is_done());
    let Err(Error::Transport(error)) = delivery.deliver(WriteEvent::Stalled) else {
        panic!("stalled");
    };
    assert_eq!(error.context, "data output made no progress; delivery is incomplete");
    assert!(delivery.deliver(WriteEvent::Wrote(0)).is_err());
    delivery.deliver(WriteEvent::Wrote(1)).expect("progress");
    assert!(delivery.is_done());
}
