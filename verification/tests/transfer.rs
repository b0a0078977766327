use sandbox_driver_protocol::driver::{Error, IoError, IoErrorKind, OutputStream};
use sandbox_driver_protocol::frame::{
    FrameKind, FrameRead, FrameReader, FrameWriter, InputEnd, MAX_FRAME_BYTES,
};
use sandbox_driver_protocol::transfer::{
    exec_output, feed_stdin_frames, file_flush_failure, file_output, file_write_failure,
    log_sink_outcome, next_stdin, output_sink_failure, pump_log_channel, pump_stdin_frames,
    read_output, read_plan, send_file, stdin_plan, stdio_output, stdio_write_failure, write_plan,
    FeedStep, FileJoin, FileReceiver, InputStep, LogStep, OutputStep, ReadPlan, ReceiveStep, SinkEvent,
    SourceRead, StdinCollector, StdinPlan, StdioStep, Upload, WriteFileEvent,
    WriteFileStep, WritePlan, WriteStall,
};

fn received(length: u64) -> Result<Vec<u8>, Error> {
    let writer = FrameWriter::new(MAX_FRAME_BYTES);
    let mut wire = writer.write(FrameKind::Stdin, b"bytes").expect("content");
    wire.extend(writer.finish().expect("end of content"));
    let mut reader = FrameReader::new(MAX_FRAME_BYTES);
    let mut receiver = FileReceiver::new(length);
    let mut content = Vec::new();
    loop {
        let frame = match reader.read(wire.as_slice(), InputEnd::Closed)? {
            FrameRead::Frame { kind, payload, consumed } => {
                wire.drain(..consumed);
                Some((kind, payload))
            }
            FrameRead::Finished => None,
            FrameRead::NeedMore => panic!("the input is closed"),
        };
        match receiver.receive_file(frame)? {
            ReceiveStep::Write(bytes) => content.extend(bytes),
            ReceiveStep::Done => return Ok(content),
        }
    }
}

#[test]
fn fs_write_channel_enforces_the_declared_content_length() {
    for length in [0, 4, 5, 6] {
        let outcome = received(length);
        match length {
            5 => assert_eq!(outcome.expect("exact content length"), b"bytes"),
            6 => assert!(matches!(outcome, Err(Error::Io { context, io_kind, source })
                if context == "reading file stream"
                    && io_kind == IoErrorKind::UnexpectedEof
                    && source.message == "file ended before its declared length")),
            _ => assert!(matches!(outcome, Err(Error::InvalidSpec { field, .. })
                if field == "content_length")),
        }
    }
}

fn gone() -> IoError {
    IoError { kind: IoErrorKind::InvalidData, rendered: "gone".to_owned() }
}

#[test]
fn input_is_fed_until_its_end() {
    assert!(matches!(pump_stdin_frames(Ok(Some((FrameKind::Stdin, vec![1])))),
        InputStep::Feed(bytes) if bytes == vec![1]));
    assert!(matches!(pump_stdin_frames(Ok(Some((FrameKind::Eof, vec![])))), InputStep::End));
    assert!(matches!(pump_stdin_frames(Ok(None)), InputStep::End));
    assert!(matches!(pump_stdin_frames(Ok(Some((FrameKind::Stdout, vec![])))),
        InputStep::Fail(Error::InvalidSpec { field, reason })
            if field == "frame" && reason == "unexpected Stdout on exec input"));
    assert!(next_stdin(Ok(Some((FrameKind::Stderr, vec![])))).is_none());
    assert_eq!(next_stdin(Ok(Some((FrameKind::Stdin, vec![7])))), Some(vec![7]));
    assert!(matches!(send_file(SourceRead::Bytes(3)), Ok(true)));
    assert!(matches!(send_file(SourceRead::Bytes(0)), Ok(false)));
    assert!(matches!(send_file(SourceRead::Failed(gone())),
        Err(Error::Io { context, io_kind: IoErrorKind::InvalidData, .. })
            if context == "reading file stream"));
    assert!(matches!(feed_stdin_frames(SourceRead::Bytes(3)), Ok(FeedStep::Send)));
    assert!(matches!(feed_stdin_frames(SourceRead::Bytes(0)), Ok(FeedStep::Finish)));
    assert!(matches!(feed_stdin_frames(SourceRead::Failed(gone())),
        Err(Error::Io { context, io_kind: IoErrorKind::InvalidData, source })
            if context == "reading exec stdin source" && source.message == "gone"));
}

#[test]
fn collected_input_is_bounded() {
    let mut collector = StdinCollector::new(4);
    assert!(!collector.collect(Some((FrameKind::Stdin, b"abc".to_vec()))).expect("fits"));
    assert!(matches!(collector.collect(Some((FrameKind::Stdin, b"de".to_vec()))),
        Err(Error::LimitExceeded { limit, max_bytes: 4 }) if limit == "buffered_value_bytes"));
    assert!(collector.collect(Some((FrameKind::Open, vec![]))).is_err());
    assert!(collector.collect(Some((FrameKind::Eof, vec![]))).expect("end"));
    assert_eq!(collector.content, b"abc");
}

#[test]
fn output_goes_to_its_stream_and_to_a_working_sink() {
    assert!(matches!(
        exec_output(Some((FrameKind::Stderr, b"x".to_vec())), true, false),
        Ok(OutputStep::Capture { stream: OutputStream::Stderr, payload, deliver: true })
            if payload == b"x"
    ));
    assert!(matches!(
        exec_output(Some((FrameKind::Stdout, b"x".to_vec())), true, true),
        Ok(OutputStep::Capture { deliver: false, .. })
    ));
    assert!(matches!(
        exec_output(Some((FrameKind::Stdout, vec![])), true, false),
        Ok(OutputStep::Capture { deliver: false, .. })
    ));
    assert!(matches!(exec_output(None, true, false), Ok(OutputStep::End)));
    assert!(exec_output(Some((FrameKind::Open, vec![])), false, false).is_err());
    assert!(output_sink_failure(SinkEvent::Taken).is_none());
    assert!(matches!(output_sink_failure(SinkEvent::Stalled),
        Some(Error::Transport(error)) if error.context == "output sink made no progress"));
}

#[test]
fn files_are_read_and_written_by_plan() {
    assert_eq!(read_plan(None, None), ReadPlan::Whole);
    assert_eq!(read_plan(None, Some(3)), ReadPlan::Range { offset: 0, length: Some(3) });
    assert_eq!(read_plan(Some(2), None), ReadPlan::Range { offset: 2, length: None });
    assert!(matches!(write_plan(false, Some(9), 4), Ok(WritePlan::Stream { length: 9 })));
    assert!(matches!(write_plan(true, Some(4), 4), Ok(WritePlan::Exact { length: 4 })));
    assert!(matches!(write_plan(true, Some(5), 4), Err(Error::LimitExceeded { .. })));
    assert!(matches!(write_plan(true, None, 4), Ok(WritePlan::Collect)));
    assert_eq!(stdin_plan(false, true), StdinPlan::Closed);
    assert_eq!(stdin_plan(true, true), StdinPlan::Stream);
    assert_eq!(stdin_plan(true, false), StdinPlan::Collect);
}

#[test]
fn a_file_is_written_when_both_sides_are_through() {
    let mut join = FileJoin::new();
    assert!(matches!(join.write_file(WriteFileEvent::Written(Ok(()))), WriteFileStep::Wait));
    assert!(matches!(join.write_file(WriteFileEvent::Received(Ok(()))), WriteFileStep::Done));
    let mut join = FileJoin::new();
    assert!(matches!(join.write_file(WriteFileEvent::Received(Ok(()))), WriteFileStep::Wait));
    assert!(matches!(
        join.write_file(WriteFileEvent::Written(Err(Error::overloaded("write")))),
        WriteFileStep::WriteFailed(Error::Overloaded { limit }) if limit == "write"
    ));
    let mut join = FileJoin::new();
    assert!(matches!(
        join.write_file(WriteFileEvent::Received(Err(Error::overloaded("receipt")))),
        WriteFileStep::ReceiptFailed(Error::Overloaded { limit }) if limit == "receipt"
    ));
}

#[test]
fn an_upload_is_as_long_as_declared() {
    let mut upload = Upload::new(5);
    assert_eq!(upload.window(4), 4);
    assert!(matches!(upload.take(SourceRead::Bytes(4)), Ok(FeedStep::Send)));
    assert_eq!(upload.window(4), 1);
    assert!(matches!(upload.take(SourceRead::Bytes(0)),
        Err(Error::Io { context, io_kind, source }) if context == "reading upload source"
            && io_kind == IoErrorKind::UnexpectedEof
            && source.message == "source ended before its declared length"));
    assert!(matches!(upload.take(SourceRead::Bytes(1)), Ok(FeedStep::Send)));
    assert!(matches!(upload.take(SourceRead::Bytes(0)), Ok(FeedStep::Finish)));
}

#[test]
fn logs_terminals_and_processes_take_their_own_frames() {
    assert!(matches!(pump_log_channel(Some((FrameKind::Stderr, b"l".to_vec()))),
        Ok(LogStep::Deliver(bytes)) if bytes == b"l"));
    assert!(matches!(pump_log_channel(Some((FrameKind::Stdin, vec![]))),
        Err(Error::InvalidSpec { reason, .. }) if reason == "unexpected Stdin on a log channel"));
    assert!(log_sink_outcome(SinkEvent::Stalled).is_err());
    assert!(log_sink_outcome(SinkEvent::Taken).is_ok());
    assert!(matches!(stdio_output(Some((FrameKind::Stderr, b"t".to_vec()))),
        Ok(StdioStep::Tail(bytes)) if bytes == b"t"));
    assert!(matches!(stdio_output(None), Ok(StdioStep::End)));
    assert!(matches!(stdio_write_failure(WriteStall::Timeout),
        Error::Incomplete(outcome) if outcome.operation == "stdio output progress"));
    assert!(matches!(file_output(Some((FrameKind::Stdout, b"f".to_vec()))),
        Ok(Some(bytes)) if bytes == b"f"));
    assert!(matches!(file_output(Some((FrameKind::Stderr, vec![]))),
        Err(Error::InvalidSpec { reason, .. }) if reason == "unexpected frame on file output"));
    assert!(matches!(file_write_failure(WriteStall::Timeout),
        Error::Transport(error) if error.context == "file output made no progress"));
    assert!(matches!(file_write_failure(WriteStall::Io(gone())),
        Error::Io { context, io_kind: IoErrorKind::InvalidData, .. }
            if context == "writing downloaded file"));
    assert!(matches!(stdio_write_failure(WriteStall::Io(gone())),
        Error::Io { context, .. } if context == "writing stdio output"));
    assert!(matches!(file_flush_failure(gone()),
        Error::Io { context, io_kind: IoErrorKind::InvalidData, .. }
            if context == "flushing file output"));
    assert!(matches!(read_output(Some((FrameKind::Eof, vec![]))), Ok(None)));
    assert!(matches!(read_output(Some((FrameKind::Open, vec![]))),
        Err(Error::InvalidSpec { reason, .. }) if reason == "unexpected Open on PTY output"));
}
