//! What each side of a data channel does with the frames it gets: command
//! input and output, files, logs, terminals.

use crate::driver::{
    fresh_incomplete, invalid_spec, io_failure, limit_exceeded, transport_failure, Error,
    ErrorView, IncompleteOperation, IoError, IoErrorKind, OutputStream,
};
use crate::frame::{kind_name, FrameKind};
use crate::text::concat3;
use vstd::prelude::*;

verus! {

/// A frame as it was read: a kind and a payload, or none where the peer's
/// end mark was read before.
pub type ReadFrame = Option<(FrameKind, Vec<u8>)>;

/// A frame that has no business on its channel.
pub open spec fn unexpected_frame(kind: FrameKind, place: Seq<char>) -> ErrorView {
    invalid_spec("frame"@, "unexpected "@ + kind_name(kind) + place)
}

fn unexpected(kind: FrameKind, place: &str) -> (error: Error)
    ensures
        error@ == unexpected_frame(kind, place@),
{
    let reason = concat3("unexpected ", kind.name(), place);
    Error::invalid_spec("frame", reason.as_str())
}

/// The failure of data that ended before its declared length.
fn ended_early(context: &str, reason: &str) -> (error: Error)
    ensures
        error@ == io_failure(context@, IoErrorKind::UnexpectedEof, reason@),
{
    Error::io(
        context,
        IoError { kind: IoErrorKind::UnexpectedEof, rendered: reason.to_owned() },
    )
}

/// What to do with a frame of a command's input.
pub enum InputStep {
    /// Hand the bytes to the command. A command that no longer reads its
    /// input ends it; that is no failure.
    Feed(Vec<u8>),
    /// The input ends.
    End,
    /// The input failed: the command is killed, and this is its result.
    Fail(Error),
}

/// Pumps a frame of a command's input: input frames are fed, the end mark
/// ends the input, anything else fails the command.
pub fn pump_stdin_frames(frame: Result<ReadFrame, Error>) -> (step: InputStep)
    ensures
        match frame {
            Ok(Some((FrameKind::Stdin, payload))) => step == InputStep::Feed(payload),
            Ok(Some((FrameKind::Eof, _))) => step is End,
            Ok(None) => step is End,
            Ok(Some((kind, _))) => step matches InputStep::Fail(error) && error@
                == unexpected_frame(kind, " on exec input"@),
            Err(error) => step == InputStep::Fail(error),
        },
{
    match frame {
        Ok(Some((kind, payload))) => match kind {
            FrameKind::Stdin => InputStep::Feed(payload),
            FrameKind::Eof => InputStep::End,
            _ => InputStep::Fail(unexpected(kind, " on exec input")),
        },
        Ok(None) => InputStep::End,
        Err(error) => InputStep::Fail(error),
    }
}

/// The input of a stdio process or a PTY: anything but an input frame ends
/// it.
pub fn next_stdin(frame: Result<ReadFrame, Error>) -> (payload: Option<Vec<u8>>)
    ensures
        match frame {
            Ok(Some((FrameKind::Stdin, bytes))) => payload == Some(bytes),
            _ => payload is None,
        },
{
    match frame {
        Ok(Some((kind, bytes))) => match kind {
            FrameKind::Stdin => Some(bytes),
            _ => None,
        },
        _ => None,
    }
}

/// Input collected up to a limit.
pub struct StdinCollector {
    pub content: Vec<u8>,
    pub max: usize,
}

/// Why a frame cannot be collected behind so many bytes.
pub open spec fn collect_refusal(
    kind: FrameKind,
    payload: nat,
    collected: nat,
    max: usize,
) -> Option<ErrorView> {
    match kind {
        FrameKind::Stdin => if collected + payload > max {
            Some(limit_exceeded("buffered_value_bytes"@, max))
        } else {
            None
        },
        FrameKind::Eof => None,
        _ => Some(unexpected_frame(kind, " frame on a write channel"@)),
    }
}

impl StdinCollector {
    /// Within the limit.
    pub open spec fn wf(self) -> bool {
        self.content@.len() <= self.max
    }

    /// Nothing collected yet.
    pub fn new(max: usize) -> (collector: Self)
        ensures
            collector.wf(),
            collector.content@ == Seq::<u8>::empty(),
            collector.max == max,
    {
        StdinCollector { content: Vec::new(), max }
    }

    /// Takes a frame. Gives whether the content is complete.
    pub fn collect(&mut self, frame: ReadFrame) -> (complete: Result<bool, Error>)
        requires
            old(self).wf(),
        ensures
            final(self).wf(),
            final(self).max == old(self).max,
            collects(*old(self), *final(self), frame, complete),
            match frame {
                None => complete == Ok::<bool, Error>(true) && final(self).content@ == old(self).content@,
                Some((kind, payload)) => match collect_refusal(
                    kind,
                    payload@.len(),
                    old(self).content@.len(),
                    old(self).max,
                ) {
                    Some(refusal) => {
                        &&& complete matches Err(error)
                        &&& error@ == refusal
                        &&& final(self).content@ == old(self).content@
                    },
                    None => {
                        &&& complete == Ok::<bool, Error>(kind == FrameKind::Eof)
                        &&& final(self).content@ == if kind == FrameKind::Eof {
                            old(self).content@
                        } else {
                            old(self).content@ + payload@
                        }
                    },
                },
            },
    {
        match frame {
            None => Ok(true),
            Some((kind, payload)) => match kind {
                FrameKind::Stdin => {
                    if payload.len() > self.max - self.content.len() {
                        return Err(Error::limit_exceeded("buffered_value_bytes", self.max));
                    }
                    let mut bytes = payload;
                    self.content.append(&mut bytes);
                    Ok(false)
                },
                FrameKind::Eof => Ok(true),
                _ => Err(unexpected(kind, " frame on a write channel")),
            },
        }
    }
}

/// A file on its way in, and how many bytes of it are still to come.
#[derive(Debug)]
pub struct FileReceiver {
    pub remaining: u64,
}

/// What to do with a frame of a file.
pub enum ReceiveStep {
    /// Write the bytes on.
    Write(Vec<u8>),
    /// The file is complete.
    Done,
}

/// Why a frame is not the next of a file of which so many bytes are still to
/// come.
pub open spec fn receive_refusal(
    frame: Option<(FrameKind, nat)>,
    remaining: nat,
) -> Option<ErrorView> {
    match frame {
        Some((FrameKind::Stdin, payload)) => if payload > remaining {
            Some(invalid_spec("content_length"@, "file exceeds its declared length"@))
        } else {
            None
        },
        Some((FrameKind::Eof, _)) | None => if remaining != 0 {
            Some(
                io_failure(
                    "reading file stream"@,
                    IoErrorKind::UnexpectedEof,
                    "file ended before its declared length"@,
                ),
            )
        } else {
            None
        },
        Some((kind, _)) => Some(unexpected_frame(kind, " frame on a write channel"@)),
    }
}

/// The kind of a frame and the length of its payload.
pub open spec fn frame_size(frame: ReadFrame) -> Option<(FrameKind, nat)> {
    match frame {
        Some((kind, payload)) => Some((kind, payload@.len())),
        None => None,
    }
}

impl FileReceiver {
    /// Expects a file of this length.
    pub fn new(length: u64) -> (receiver: Self)
        ensures
            receiver.remaining == length,
    {
        FileReceiver { remaining: length }
    }

    /// Takes a frame: the file is exactly as long as it was declared to be.
    pub fn receive_file(&mut self, frame: ReadFrame) -> (step: Result<ReceiveStep, Error>)
        ensures
            receives(*old(self), *final(self), frame, step),
            match step {
                Ok(ReceiveStep::Write(bytes)) => {
                    &&& receive_refusal(frame_size(frame), old(self).remaining as nat) is None
                    &&& frame == Some((FrameKind::Stdin, bytes))
                    &&& final(self).remaining == old(self).remaining - bytes@.len()
                },
                Ok(ReceiveStep::Done) => {
                    &&& receive_refusal(frame_size(frame), old(self).remaining as nat) is None
                    &&& !(frame matches Some((FrameKind::Stdin, _)))
                    &&& final(self).remaining == old(self).remaining
                },
                Err(error) => {
                    &&& receive_refusal(frame_size(frame), old(self).remaining as nat) == Some(
                        error@,
                    )
                    &&& final(self).remaining == old(self).remaining
                },
            },
    {
        match frame {
            Some((kind, payload)) => match kind {
                FrameKind::Stdin => {
                    let count: u64 = payload.len() as u64;
                    if count > self.remaining {
                        return Err(
                            Error::invalid_spec(
                                "content_length",
                                "file exceeds its declared length",
                            ),
                        );
                    }
                    self.remaining = self.remaining - count;
                    Ok(ReceiveStep::Write(payload))
                },
                FrameKind::Eof => self.at_end(),
                _ => Err(unexpected(kind, " frame on a write channel")),
            },
            None => self.at_end(),
        }
    }

    fn at_end(&self) -> (step: Result<ReceiveStep, Error>)
        ensures
            match step {
                Ok(ReceiveStep::Done) => self.remaining == 0,
                Ok(_) => false,
                Err(error) => self.remaining != 0 && error@ == io_failure(
                    "reading file stream"@,
                    IoErrorKind::UnexpectedEof,
                    "file ended before its declared length"@,
                ),
            },
    {
        if self.remaining != 0 {
            Err(ended_early("reading file stream", "file ended before its declared length"))
        } else {
            Ok(ReceiveStep::Done)
        }
    }
}

/// What is received of a file of so many bytes that comes in these frames:
/// its content, or why it is refused.
pub open spec fn file_content(
    frames: Seq<(FrameKind, Seq<u8>)>,
    remaining: nat,
) -> Result<Seq<u8>, ErrorView>
    decreases frames.len(),
{
    let next = if frames.len() == 0 {
        None
    } else {
        Some((frames[0].0, frames[0].1.len()))
    };
    match receive_refusal(next, remaining) {
        Some(error) => Err(error),
        None => if frames.len() == 0 || frames[0].0 != FrameKind::Stdin {
            Ok(Seq::empty())
        } else {
            match file_content(frames.skip(1), (remaining - frames[0].1.len()) as nat) {
                Ok(rest) => Ok(frames[0].1 + rest),
                Err(error) => Err(error),
            }
        },
    }
}

/// A file arrives exactly when it is as long as it was declared to be, and
/// then it arrives whole: the content of its input frames, in order. A longer
/// one is an invalid length, a shorter one an unexpected end.
pub proof fn files_arrive_whole_or_not_at_all(payloads: Seq<Seq<u8>>, length: nat)
    ensures
        ({
            let frames = crate::frame::tagged(FrameKind::Stdin, payloads).push(
                (FrameKind::Eof, Seq::<u8>::empty()),
            );
            &&& file_content(frames, length) is Ok <==> payloads.flatten().len() == length
            &&& file_content(frames, length) matches Ok(content) ==> content == payloads.flatten()
            &&& payloads.flatten().len() > length ==> file_content(frames, length) == Err::<
                Seq<u8>,
                ErrorView,
            >(invalid_spec("content_length"@, "file exceeds its declared length"@))
            &&& payloads.flatten().len() < length ==> file_content(frames, length) == Err::<
                Seq<u8>,
                ErrorView,
            >(
                io_failure(
                    "reading file stream"@,
                    IoErrorKind::UnexpectedEof,
                    "file ended before its declared length"@,
                ),
            )
        }),
    decreases payloads.len(),
{
    let end = (FrameKind::Eof, Seq::<u8>::empty());
    let frames = crate::frame::tagged(FrameKind::Stdin, payloads).push(end);
    if payloads.len() == 0 {
        assert(frames[0] == end);
        assert(payloads.flatten() =~= Seq::<u8>::empty());
    } else {
        let first = payloads[0];
        let rest = payloads.drop_first();
        let later = crate::frame::tagged(FrameKind::Stdin, rest).push(end);
        assert(frames[0] == (FrameKind::Stdin, first));
        assert(frames.skip(1) =~= later);
        assert(payloads.flatten() == first + rest.flatten());
        if first.len() <= length {
            files_arrive_whole_or_not_at_all(rest, (length - first.len()) as nat);
        }
    }
}

/// A file that is written to a channel in frames within the limit is
/// received as it was written.
pub proof fn a_written_file_is_received(content: Seq<u8>, max: usize)
    requires
        0 < max <= crate::frame::MAX_FRAME_BYTES,
    ensures
        ({
            let written = crate::frame::frames(
                FrameKind::Stdin,
                crate::frame::pieces(content, max as nat),
            ) + crate::frame::frame(FrameKind::Eof, Seq::empty());
            file_content(crate::frame::read_all(max, written), content.len()) == Ok::<
                Seq<u8>,
                ErrorView,
            >(content)
        }),
{
    let pieces = crate::frame::pieces(content, max as nat);
    let end = crate::frame::frame(FrameKind::Eof, Seq::empty());
    crate::frame::written_frames_are_read_back(FrameKind::Stdin, content, max, end);
    crate::frame::the_end_mark_ends_the_reading(max, Seq::empty());
    assert(end + Seq::<u8>::empty() =~= end);
    crate::frame::pieces_make_the_payload(content, max as nat);
    files_arrive_whole_or_not_at_all(pieces, content.len());
    let last = seq![(FrameKind::Eof, Seq::<u8>::empty())];
    let read = crate::frame::tagged(FrameKind::Stdin, pieces) + last;
    assert(read =~= crate::frame::tagged(FrameKind::Stdin, pieces).push(last[0]));
}

/// How a file is read: a part of it, or all of it.
#[derive(Clone, Copy, Debug, PartialEq, Eq, Structural)]
pub enum ReadPlan {
    Range { offset: u64, length: Option<u64> },
    Whole,
}

/// How a file is read: naming an offset or a length asks for a part.
pub fn read_plan(offset: Option<u64>, length: Option<u64>) -> (plan: ReadPlan)
    ensures
        plan == match (offset, length) {
            (None, None) => ReadPlan::Whole,
            (Some(offset), length) => ReadPlan::Range { offset, length },
            (None, length) => ReadPlan::Range { offset: 0, length },
        },
{
    match (offset, length) {
        (None, None) => ReadPlan::Whole,
        (Some(offset), length) => ReadPlan::Range { offset, length },
        (None, length) => ReadPlan::Range { offset: 0, length },
    }
}

/// How the content of a file to write is taken.
#[derive(Clone, Copy, Debug, PartialEq, Eq, Structural)]
pub enum WritePlan {
    /// Streamed to the provider, exactly this long.
    Stream { length: u64 },
    /// Taken whole first, exactly this long, then appended.
    Exact { length: u64 },
    /// Taken whole first, as long as the limit allows.
    Collect,
}

/// How the content of a file to write is taken: an overwrite of a known
/// length is streamed; anything else is taken whole first, within the limit.
pub fn write_plan(append: bool, content_length: Option<u64>, max: usize) -> (plan: Result<
    WritePlan,
    Error,
>)
    ensures
        match (append, content_length) {
            (false, Some(length)) => plan == Ok::<WritePlan, Error>(WritePlan::Stream { length }),
            (true, Some(length)) => if length > max {
                plan matches Err(error) && error@ == limit_exceeded("buffered_value_bytes"@, max)
            } else {
                plan == Ok::<WritePlan, Error>(WritePlan::Exact { length })
            },
            (_, None) => plan == Ok::<WritePlan, Error>(WritePlan::Collect),
        },
{
    match content_length {
        Some(length) => {
            if !append {
                Ok(WritePlan::Stream { length })
            } else if length > max as u64 {
                Err(Error::limit_exceeded("buffered_value_bytes", max))
            } else {
                Ok(WritePlan::Exact { length })
            }
        },
        None => Ok(WritePlan::Collect),
    }
}

/// What happened to a file that is streamed to the provider.
#[derive(Debug)]
pub enum WriteFileEvent {
    /// The provider is through with writing it.
    Written(Result<(), Error>),
    /// Its content was received to its end, or the receipt failed.
    Received(Result<(), Error>),
}

/// What follows for a file that is streamed to the provider.
#[derive(Debug)]
pub enum WriteFileStep {
    /// Wait for the other side.
    Wait,
    /// The file is written.
    Done,
    /// The writing failed, which ends the receipt too.
    WriteFailed(Error),
    /// The receipt failed, which ends the writing too.
    ReceiptFailed(Error),
}

/// A file that is streamed to the provider: which of its two sides, the
/// writing and the receipt, went well already.
#[derive(Clone, Copy, Debug, PartialEq, Eq, Structural)]
pub struct FileJoin {
    pub written: bool,
    pub received: bool,
}

/// The sides that went well after an event.
pub open spec fn joined(join: FileJoin, event: WriteFileEvent) -> FileJoin {
    match event {
        WriteFileEvent::Written(Ok(())) => FileJoin { written: true, ..join },
        WriteFileEvent::Received(Ok(())) => FileJoin { received: true, ..join },
        _ => join,
    }
}

/// What follows an event: a failure of either side ends both, and the file is
/// written once both went well.
pub open spec fn join_step(join: FileJoin, event: WriteFileEvent) -> WriteFileStep {
    match event {
        WriteFileEvent::Written(Err(error)) => WriteFileStep::WriteFailed(error),
        WriteFileEvent::Received(Err(error)) => WriteFileStep::ReceiptFailed(error),
        _ => if joined(join, event).written && joined(join, event).received {
            WriteFileStep::Done
        } else {
            WriteFileStep::Wait
        },
    }
}

impl FileJoin {
    /// Neither side is through.
    pub fn new() -> (join: Self)
        ensures
            join == (FileJoin { written: false, received: false }),
    {
        FileJoin { written: false, received: false }
    }

    /// Takes note of an event, and says what follows.
    pub fn write_file(&mut self, event: WriteFileEvent) -> (step: WriteFileStep)
        ensures
            *final(self) == joined(*old(self), event),
            step == join_step(*old(self), event),
    {
        match event {
            WriteFileEvent::Written(Ok(())) => {
                self.written = true;
            },
            WriteFileEvent::Received(Ok(())) => {
                self.received = true;
            },
            WriteFileEvent::Written(Err(error)) => {
                return WriteFileStep::WriteFailed(error);
            },
            WriteFileEvent::Received(Err(error)) => {
                return WriteFileStep::ReceiptFailed(error);
            },
        }
        if self.written && self.received {
            WriteFileStep::Done
        } else {
            WriteFileStep::Wait
        }
    }
}

/// A streamed file is written exactly when its writing and its receipt both
/// went well, whichever came first; a failure of either ends it with that
/// failure, and nothing makes good for it.
pub proof fn a_file_is_written_by_both_sides(
    written: Result<(), Error>,
    received: Result<(), Error>,
)
    ensures
        ({
            let fresh = FileJoin { written: false, received: false };
            let writing = WriteFileEvent::Written(written);
            let receipt = WriteFileEvent::Received(received);
            &&& join_step(joined(fresh, writing), receipt) is Done <==> written is Ok
                && received is Ok
            &&& join_step(joined(fresh, receipt), writing) is Done <==> written is Ok
                && received is Ok
            &&& join_step(fresh, writing) == match written {
                Ok(()) => WriteFileStep::Wait,
                Err(error) => WriteFileStep::WriteFailed(error),
            }
            &&& join_step(fresh, receipt) == match received {
                Ok(()) => WriteFileStep::Wait,
                Err(error) => WriteFileStep::ReceiptFailed(error),
            }
        }),
{
}

/// How a command gets its input.
#[derive(Clone, Copy, Debug, PartialEq, Eq, Structural)]
pub enum StdinPlan {
    /// None.
    Closed,
    /// Streamed as it comes.
    Stream,
    /// Taken whole first and given as fixed bytes.
    Collect,
}

/// How a command gets its input: a provider without streamed input takes it
/// as fixed bytes, so that it still reaches the command.
pub fn stdin_plan(wanted: bool, stream: bool) -> (plan: StdinPlan)
    ensures
        plan == if !wanted {
            StdinPlan::Closed
        } else if stream {
            StdinPlan::Stream
        } else {
            StdinPlan::Collect
        },
{
    if !wanted {
        StdinPlan::Closed
    } else if stream {
        StdinPlan::Stream
    } else {
        StdinPlan::Collect
    }
}

/// What to do with a frame of a command's output.
pub enum OutputStep {
    /// Keep the bytes, and hand them to the caller's sink where asked to.
    Capture { stream: OutputStream, payload: Vec<u8>, deliver: bool },
    /// The output ends.
    End,
}

/// What a frame of a command's output asks for. Every byte is captured; a
/// sink that takes output gets what is not empty.
pub open spec fn takes_output(
    frame: ReadFrame,
    sinking: bool,
    step: Result<OutputStep, Error>,
) -> bool {
    match frame {
        Some((FrameKind::Stdout, payload)) => step == Ok::<OutputStep, Error>(
            OutputStep::Capture {
                stream: OutputStream::Stdout,
                payload,
                deliver: sinking && payload@.len() > 0,
            },
        ),
        Some((FrameKind::Stderr, payload)) => step == Ok::<OutputStep, Error>(
            OutputStep::Capture {
                stream: OutputStream::Stderr,
                payload,
                deliver: sinking && payload@.len() > 0,
            },
        ),
        Some((FrameKind::Eof, _)) | None => step == Ok::<OutputStep, Error>(OutputStep::End),
        Some((kind, _)) => step matches Err(error) && error@ == unexpected_frame(
            kind,
            " frame on exec output"@,
        ),
    }
}

/// Takes a frame of a command's output, for a sink that may have failed.
pub fn exec_output(frame: ReadFrame, sink: bool, sink_failed: bool) -> (step: Result<
    OutputStep,
    Error,
>)
    ensures
        takes_output(frame, sink && !sink_failed, step),
{
    match frame {
        None => Ok(OutputStep::End),
        Some((kind, payload)) => {
            let stream = match kind {
                FrameKind::Stdout => OutputStream::Stdout,
                FrameKind::Stderr => OutputStream::Stderr,
                FrameKind::Eof => {
                    return Ok(OutputStep::End);
                },
                _ => {
                    return Err(unexpected(kind, " frame on exec output"));
                },
            };
            let deliver = sink && !sink_failed && payload.len() > 0;
            Ok(OutputStep::Capture { stream, payload, deliver })
        },
    }
}

/// What a sink made of a chunk.
pub enum SinkEvent {
    Taken,
    Failed(Error),
    /// The sink took nothing within the progress timeout.
    Stalled,
}

/// The failure of a command's sink, if it failed. A failed sink is a hard
/// stop: the command is killed, and the rest of its output is dropped.
pub fn output_sink_failure(event: SinkEvent) -> (failure: Option<Error>)
    ensures
        match event {
            SinkEvent::Taken => failure is None,
            SinkEvent::Failed(error) => failure == Some(error),
            SinkEvent::Stalled => failure matches Some(error) && error@ == transport_failure(
                "output sink made no progress"@,
            ),
        },
{
    match event {
        SinkEvent::Taken => None,
        SinkEvent::Failed(error) => Some(error),
        SinkEvent::Stalled => Some(Error::transport("output sink made no progress")),
    }
}

/// What to do with what a source of input gave.
#[derive(Debug)]
pub enum SourceRead {
    /// So many bytes; none at the end.
    Bytes(usize),
    /// Reading failed.
    Failed(IoError),
}

/// What to do for a command's input.
#[derive(Debug)]
pub enum FeedStep {
    /// Send the bytes. A channel that no longer takes them is the command
    /// declining its input, which ends the feeding without a failure.
    Send,
    /// Send the end mark.
    Finish,
}

/// Feeds a command's input: what was read is sent, the end is marked, and a
/// source that fails fails the operation.
pub fn feed_stdin_frames(read: SourceRead) -> (step: Result<FeedStep, Error>)
    ensures
        match read {
            SourceRead::Bytes(0) => step matches Ok(FeedStep::Finish),
            SourceRead::Bytes(_) => step matches Ok(FeedStep::Send),
            SourceRead::Failed(source) => step matches Err(error) && error@ == io_failure(
                "reading exec stdin source"@,
                source.kind,
                source.rendered@,
            ),
        },
{
    match read {
        SourceRead::Bytes(count) => {
            if count == 0 {
                Ok(FeedStep::Finish)
            } else {
                Ok(FeedStep::Send)
            }
        },
        SourceRead::Failed(source) => Err(Error::io("reading exec stdin source", source)),
    }
}

/// Sends a file's content to the host, and says whether what was read is
/// more of it. A stream that fails fails the operation.
pub fn send_file(read: SourceRead) -> (more: Result<bool, Error>)
    ensures
        match read {
            SourceRead::Bytes(count) => more matches Ok(more) && more == (count > 0),
            SourceRead::Failed(source) => more matches Err(error) && error@ == io_failure(
                "reading file stream"@,
                source.kind,
                source.rendered@,
            ),
        },
{
    match read {
        SourceRead::Bytes(count) => Ok(count > 0),
        SourceRead::Failed(source) => Err(Error::io("reading file stream", source)),
    }
}

/// A file on its way out, and how many bytes of it are still to go.
#[derive(Debug)]
pub struct Upload {
    pub left: u64,
}

impl Upload {
    /// Sends a file of this length.
    pub fn new(length: u64) -> (upload: Self)
        ensures
            upload.left == length,
    {
        Upload { left: length }
    }

    /// How many bytes to read at most: never past the declared length.
    pub fn window(&self, buffer: usize) -> (window: usize)
        ensures
            window == if self.left < buffer {
                self.left as usize
            } else {
                buffer
            },
    {
        if self.left < buffer as u64 {
            self.left as usize
        } else {
            buffer
        }
    }

    /// Takes note of what was read within the window. A source that ends
    /// before its declared length fails the upload.
    pub fn take(&mut self, read: SourceRead) -> (step: Result<FeedStep, Error>)
        requires
            read matches SourceRead::Bytes(count) ==> count <= old(self).left,
        ensures
            uploads(*old(self), *final(self), read, step),
            match read {
                SourceRead::Bytes(0) => {
                    &&& final(self).left == old(self).left
                    &&& if old(self).left == 0 {
                        step matches Ok(FeedStep::Finish)
                    } else {
                        step matches Err(error) && error@ == io_failure(
                            "reading upload source"@,
                            IoErrorKind::UnexpectedEof,
                            "source ended before its declared length"@,
                        )
                    }
                },
                SourceRead::Bytes(count) => {
                    &&& step matches Ok(FeedStep::Send)
                    &&& final(self).left == old(self).left - count
                },
                SourceRead::Failed(source) => {
                    &&& step matches Err(error)
                    &&& error@ == io_failure(
                        "reading upload source"@,
                        source.kind,
                        source.rendered@,
                    )
                    &&& final(self).left == old(self).left
                },
            },
    {
        match read {
            SourceRead::Bytes(count) => {
                if count == 0 {
                    if self.left != 0 {
                        return Err(
                            ended_early(
                                "reading upload source",
                                "source ended before its declared length",
                            ),
                        );
                    }
                    return Ok(FeedStep::Finish);
                }
                self.left = self.left - count as u64;
                Ok(FeedStep::Send)
            },
            SourceRead::Failed(source) => Err(Error::io("reading upload source", source)),
        }
    }
}

/// What to do with a frame of a log.
pub enum LogStep {
    /// Hand the bytes to the caller's sink.
    Deliver(Vec<u8>),
    /// The log ends.
    End,
}

/// Takes a frame of a log.
pub fn pump_log_channel(frame: ReadFrame) -> (step: Result<LogStep, Error>)
    ensures
        match frame {
            Some((FrameKind::Stdout, payload)) => step == Ok::<LogStep, Error>(
                LogStep::Deliver(payload),
            ),
            Some((FrameKind::Stderr, payload)) => step == Ok::<LogStep, Error>(
                LogStep::Deliver(payload),
            ),
            Some((FrameKind::Eof, _)) | None => step == Ok::<LogStep, Error>(LogStep::End),
            Some((kind, _)) => step matches Err(error) && error@ == unexpected_frame(
                kind,
                " on a log channel"@,
            ),
        },
{
    match frame {
        None => Ok(LogStep::End),
        Some((kind, payload)) => match kind {
            FrameKind::Stdout => Ok(LogStep::Deliver(payload)),
            FrameKind::Stderr => Ok(LogStep::Deliver(payload)),
            FrameKind::Eof => Ok(LogStep::End),
            _ => Err(unexpected(kind, " on a log channel")),
        },
    }
}

/// The failure of a log's sink, which is the caller's result.
pub fn log_sink_outcome(event: SinkEvent) -> (outcome: Result<(), Error>)
    ensures
        match event {
            SinkEvent::Taken => outcome is Ok,
            SinkEvent::Failed(error) => outcome == Err::<(), Error>(error),
            SinkEvent::Stalled => outcome matches Err(error) && error@ == transport_failure(
                "log sink made no progress"@,
            ),
        },
{
    match event {
        SinkEvent::Taken => Ok(()),
        SinkEvent::Failed(error) => Err(error),
        SinkEvent::Stalled => Err(Error::transport("log sink made no progress")),
    }
}

/// What to do with a frame of a stdio process's output.
pub enum StdioStep {
    /// Write the bytes to the process's output pipe.
    Write(Vec<u8>),
    /// Keep the bytes as the tail of its stderr.
    Tail(Vec<u8>),
    /// The output ends.
    End,
}

/// Takes a frame of a stdio process's output.
pub fn stdio_output(frame: ReadFrame) -> (step: Result<StdioStep, Error>)
    ensures
        match frame {
            Some((FrameKind::Stdout, payload)) => step == Ok::<StdioStep, Error>(
                StdioStep::Write(payload),
            ),
            Some((FrameKind::Stderr, payload)) => step == Ok::<StdioStep, Error>(
                StdioStep::Tail(payload),
            ),
            Some((FrameKind::Eof, _)) | None => step == Ok::<StdioStep, Error>(StdioStep::End),
            Some((kind, _)) => step matches Err(error) && error@ == unexpected_frame(
                kind,
                " on stdio output"@,
            ),
        },
{
    match frame {
        None => Ok(StdioStep::End),
        Some((kind, payload)) => match kind {
            FrameKind::Stdout => Ok(StdioStep::Write(payload)),
            FrameKind::Stderr => Ok(StdioStep::Tail(payload)),
            FrameKind::Eof => Ok(StdioStep::End),
            _ => Err(unexpected(kind, " on stdio output")),
        },
    }
}

/// Why bytes could not be handed on.
#[derive(Debug)]
pub enum WriteStall {
    /// Nothing was taken within the progress timeout.
    Timeout,
    /// Writing failed.
    Io(IoError),
}

/// What a stdio process's output fails with.
pub fn stdio_write_failure(stall: WriteStall) -> (error: Error)
    ensures
        match stall {
            WriteStall::Timeout => error@ == ErrorView::Incomplete(
                fresh_incomplete("stdio output progress"@),
            ),
            WriteStall::Io(source) => error@ == io_failure(
                "writing stdio output"@,
                source.kind,
                source.rendered@,
            ),
        },
{
    match stall {
        WriteStall::Timeout => Error::Incomplete(IncompleteOperation::new("stdio output progress")),
        WriteStall::Io(source) => Error::io("writing stdio output", source),
    }
}

/// Takes a frame of a file that is read: its bytes, or none at its end.
pub fn file_output(frame: ReadFrame) -> (payload: Result<Option<Vec<u8>>, Error>)
    ensures
        match frame {
            Some((FrameKind::Stdout, bytes)) => payload == Ok::<Option<Vec<u8>>, Error>(
                Some(bytes),
            ),
            Some((FrameKind::Eof, _)) | None => payload == Ok::<Option<Vec<u8>>, Error>(None),
            Some(_) => payload matches Err(error) && error@ == invalid_spec(
                "frame"@,
                "unexpected frame on file output"@,
            ),
        },
{
    match frame {
        None => Ok(None),
        Some((kind, bytes)) => match kind {
            FrameKind::Stdout => Ok(Some(bytes)),
            FrameKind::Eof => Ok(None),
            _ => Err(Error::invalid_spec("frame", "unexpected frame on file output")),
        },
    }
}

/// What reading a file fails with that cannot be handed on.
pub fn file_write_failure(stall: WriteStall) -> (error: Error)
    ensures
        match stall {
            WriteStall::Timeout => error@ == transport_failure("file output made no progress"@),
            WriteStall::Io(source) => error@ == io_failure(
                "writing downloaded file"@,
                source.kind,
                source.rendered@,
            ),
        },
{
    match stall {
        WriteStall::Timeout => Error::transport("file output made no progress"),
        WriteStall::Io(source) => Error::io("writing downloaded file", source),
    }
}

/// The failure to flush what was read of a file.
pub fn file_flush_failure(source: IoError) -> (error: Error)
    ensures
        error@ == io_failure("flushing file output"@, source.kind, source.rendered@),
{
    Error::io("flushing file output", source)
}

/// Takes a frame of a PTY's output: its bytes, or none at its end.
pub fn read_output(frame: ReadFrame) -> (payload: Result<Option<Vec<u8>>, Error>)
    ensures
        match frame {
            Some((FrameKind::Stdout, bytes)) => payload == Ok::<Option<Vec<u8>>, Error>(
                Some(bytes),
            ),
            Some((FrameKind::Stderr, bytes)) => payload == Ok::<Option<Vec<u8>>, Error>(
                Some(bytes),
            ),
            Some((FrameKind::Eof, _)) | None => payload == Ok::<Option<Vec<u8>>, Error>(None),
            Some((kind, _)) => payload matches Err(error) && error@ == unexpected_frame(
                kind,
                " on PTY output"@,
            ),
        },
{
    match frame {
        None => Ok(None),
        Some((kind, bytes)) => match kind {
            FrameKind::Stdout => Ok(Some(bytes)),
            FrameKind::Stderr => Ok(Some(bytes)),
            FrameKind::Eof => Ok(None),
            _ => Err(unexpected(kind, " on PTY output")),
        },
    }
}

/// What is collected of input that comes in these frames, behind what was
/// collected before, as long as the limit allows.
pub open spec fn collected_content(
    frames: Seq<(FrameKind, Seq<u8>)>,
    collected: Seq<u8>,
    max: usize,
) -> Result<Seq<u8>, ErrorView>
    decreases frames.len(),
{
    if frames.len() == 0 {
        Ok(collected)
    } else {
        match collect_refusal(frames[0].0, frames[0].1.len(), collected.len(), max) {
            Some(error) => Err(error),
            None => if frames[0].0 == FrameKind::Eof {
                Ok(collected)
            } else {
                collected_content(frames.skip(1), collected + frames[0].1, max)
            },
        }
    }
}

/// Input is collected whole exactly when all of it together is within the
/// limit, in however many frames it comes: the content is what the frames
/// hold, one after the other. Input over the limit is refused by the limit.
pub proof fn input_is_collected_up_to_its_limit(
    payloads: Seq<Seq<u8>>,
    collected: Seq<u8>,
    max: usize,
)
    requires
        collected.len() <= max,
    ensures
        ({
            let frames = crate::frame::tagged(FrameKind::Stdin, payloads).push(
                (FrameKind::Eof, Seq::<u8>::empty()),
            );
            let all = collected + payloads.flatten();
            &&& all.len() <= max ==> collected_content(frames, collected, max) == Ok::<
                Seq<u8>,
                ErrorView,
            >(all)
            &&& all.len() > max ==> collected_content(frames, collected, max) == Err::<
                Seq<u8>,
                ErrorView,
            >(limit_exceeded("buffered_value_bytes"@, max))
        }),
    decreases payloads.len(),
{
    let end = (FrameKind::Eof, Seq::<u8>::empty());
    let frames = crate::frame::tagged(FrameKind::Stdin, payloads).push(end);
    if payloads.len() == 0 {
        assert(frames[0] == end);
        assert(payloads.flatten() =~= Seq::<u8>::empty());
        assert(collected + payloads.flatten() =~= collected);
    } else {
        let first = payloads[0];
        let rest = payloads.drop_first();
        let later = crate::frame::tagged(FrameKind::Stdin, rest).push(end);
        assert(frames[0] == (FrameKind::Stdin, first));
        assert(frames.skip(1) =~= later);
        assert(payloads.flatten() == first + rest.flatten());
        assert(collected + payloads.flatten() =~= (collected + first) + rest.flatten());
        if collected.len() + first.len() <= max {
            input_is_collected_up_to_its_limit(rest, collected + first, max);
        }
    }
}

/// Input that is written to a channel in frames is collected as it was
/// written, as long as it is within the limit.
pub proof fn written_input_is_collected(content: Seq<u8>, frame_max: usize, max: usize)
    requires
        0 < frame_max <= crate::frame::MAX_FRAME_BYTES,
        content.len() <= max,
    ensures
        ({
            let written = crate::frame::frames(
                FrameKind::Stdin,
                crate::frame::pieces(content, frame_max as nat),
            ) + crate::frame::frame(FrameKind::Eof, Seq::empty());
            collected_content(crate::frame::read_all(frame_max, written), Seq::empty(), max)
                == Ok::<Seq<u8>, ErrorView>(content)
        }),
{
    let pieces = crate::frame::pieces(content, frame_max as nat);
    let end = crate::frame::frame(FrameKind::Eof, Seq::empty());
    crate::frame::written_frames_are_read_back(FrameKind::Stdin, content, frame_max, end);
    crate::frame::the_end_mark_ends_the_reading(frame_max, Seq::empty());
    assert(end + Seq::<u8>::empty() =~= end);
    crate::frame::pieces_make_the_payload(content, frame_max as nat);
    input_is_collected_up_to_its_limit(pieces, Seq::empty(), max);
    assert(Seq::<u8>::empty() + content =~= content);
    let last = seq![(FrameKind::Eof, Seq::<u8>::empty())];
    let read = crate::frame::tagged(FrameKind::Stdin, pieces) + last;
    assert(read =~= crate::frame::tagged(FrameKind::Stdin, pieces).push(last[0]));
}

/// Only input frames and the end mark belong on a channel that is read from
/// the host: any other frame is refused as an invalid frame, whatever was
/// read before and however long it is.
pub proof fn only_input_is_taken_from_the_host(
    kind: FrameKind,
    payload: nat,
    before: nat,
    max: usize,
)
    ensures
        kind != FrameKind::Stdin && kind != FrameKind::Eof ==> {
            &&& collect_refusal(kind, payload, before, max) matches Some(
                ErrorView::InvalidSpec { field, .. },
            )
            &&& field == "frame"@
        },
        kind != FrameKind::Stdin && kind != FrameKind::Eof ==> {
            &&& receive_refusal(Some((kind, payload)), before) matches Some(
                ErrorView::InvalidSpec { field, .. },
            )
            &&& field == "frame"@
        },
        collect_refusal(FrameKind::Eof, payload, before, max) is None,
        receive_refusal(Some((FrameKind::Eof, payload)), before) is None <==> before == 0,
        receive_refusal(None, before) is None <==> before == 0,
{
}

/// Every byte of a command's output is captured under the stream it came on;
/// it is handed to the sink exactly where there is one that takes output and
/// there is something to hand over. The output ends with its end mark, and
/// nothing but output is taken for output.
pub proof fn every_output_byte_is_captured(
    kind: FrameKind,
    payload: Vec<u8>,
    sinking: bool,
    step: Result<OutputStep, Error>,
)
    requires
        takes_output(Some((kind, payload)), sinking, step),
    ensures
        kind == FrameKind::Stdout || kind == FrameKind::Stderr <==> step matches Ok(
            OutputStep::Capture { .. },
        ),
        step matches Ok(OutputStep::Capture { stream, payload: captured, deliver }) ==> {
            &&& captured@ == payload@
            &&& stream == OutputStream::Stdout <==> kind == FrameKind::Stdout
            &&& deliver <==> sinking && payload@.len() > 0
        },
        step matches Ok(OutputStep::End) <==> kind == FrameKind::Eof,
        step is Err <==> kind == FrameKind::Open || kind == FrameKind::Stdin,
        step matches Err(error) ==> error@ is InvalidSpec,
{
}

/// A channel that was read to its end gives no more output.
pub proof fn output_ends_with_its_channel(sinking: bool, step: Result<OutputStep, Error>)
    requires
        takes_output(None, sinking, step),
    ensures
        step matches Ok(OutputStep::End),
{
}

/// A frame that has no business on a channel is reported by its kind: two
/// kinds are never reported alike.
pub proof fn unexpected_frames_are_told_apart(a: FrameKind, b: FrameKind, place: Seq<char>)
    requires
        unexpected_frame(a, place) == unexpected_frame(b, place),
    ensures
        a == b,
{
    let start = "unexpected "@;
    let first = kind_name(a);
    let second = kind_name(b);
    let left = start + first + place;
    let right = start + second + place;
    assert(left.len() == right.len());
    assert(left.subrange(start.len() as int, (start.len() + first.len()) as int) =~= first);
    assert(right.subrange(start.len() as int, (start.len() + second.len()) as int) =~= second);
    crate::frame::kind_names_differ(a, b);
}

/// Whether a frame was collected, or why it was not.
pub open spec fn collects(
    before: StdinCollector,
    after: StdinCollector,
    frame: ReadFrame,
    complete: Result<bool, Error>,
) -> bool {
    &&& after.max == before.max
    &&& frame is None ==> complete == Ok::<bool, Error>(true) && after.content@ == before.content@
    &&& frame matches Some((FrameKind::Eof, _)) ==> complete == Ok::<bool, Error>(true)
        && after.content@ == before.content@
    &&& frame matches Some((FrameKind::Stdin, payload)) ==> if before.content@.len()
        + payload@.len() <= before.max {
        complete == Ok::<bool, Error>(false) && after.content@ == before.content@ + payload@
    } else {
        complete is Err && complete->Err_0@ is LimitExceeded && after.content@ == before.content@
    }
}

/// Frames that together are within the limit are all collected, one behind
/// the other, and the end mark then completes what they hold.
pub proof fn frames_are_collected_one_behind_another(
    states: Seq<StdinCollector>,
    payloads: Seq<Vec<u8>>,
    outcomes: Seq<Result<bool, Error>>,
    ended: StdinCollector,
    complete: Result<bool, Error>,
    end: Vec<u8>,
)
    requires
        states.len() == payloads.len() + 1,
        outcomes.len() == payloads.len(),
        forall|i: int|
            0 <= i < payloads.len() ==> collects(
                states[i],
                states[i + 1],
                Some((FrameKind::Stdin, #[trigger] payloads[i])),
                outcomes[i],
            ),
        states[0].content@.len() + payload_bytes(payloads).len() <= states[0].max,
        collects(states.last(), ended, Some((FrameKind::Eof, end)), complete),
    ensures
        forall|i: int|
            0 <= i < payloads.len() ==> (#[trigger] outcomes[i]) == Ok::<bool, Error>(false),
        states.last().content@ == states[0].content@ + payload_bytes(payloads),
        complete == Ok::<bool, Error>(true),
        ended.content@ == states[0].content@ + payload_bytes(payloads),
{
    lemma_frames_are_collected(states, payloads, outcomes);
}

/// The bytes of payloads, one behind another.
pub open spec fn payload_bytes(payloads: Seq<Vec<u8>>) -> Seq<u8>
    decreases payloads.len(),
{
    if payloads.len() == 0 {
        Seq::empty()
    } else {
        payload_bytes(payloads.drop_last()) + payloads.last()@
    }
}

proof fn lemma_frames_are_collected(
    states: Seq<StdinCollector>,
    payloads: Seq<Vec<u8>>,
    outcomes: Seq<Result<bool, Error>>,
)
    requires
        states.len() == payloads.len() + 1,
        outcomes.len() == payloads.len(),
        forall|i: int|
            0 <= i < payloads.len() ==> collects(
                states[i],
                states[i + 1],
                Some((FrameKind::Stdin, #[trigger] payloads[i])),
                outcomes[i],
            ),
        states[0].content@.len() + payload_bytes(payloads).len() <= states[0].max,
    ensures
        forall|i: int|
            0 <= i < payloads.len() ==> (#[trigger] outcomes[i]) == Ok::<bool, Error>(false),
        states.last().content@ == states[0].content@ + payload_bytes(payloads),
        states.last().max == states[0].max,
    decreases payloads.len(),
{
    if payloads.len() == 0 {
        assert(states[0].content@ + payload_bytes(payloads) =~= states[0].content@);
    } else {
        let n = payloads.len() - 1;
        let before = states.drop_last();
        let rest = payloads.drop_last();
        let done = outcomes.drop_last();
        assert forall|i: int| 0 <= i < rest.len() implies collects(
            before[i],
            before[i + 1],
            Some((FrameKind::Stdin, #[trigger] rest[i])),
            done[i],
        ) by {
            assert(rest[i] == payloads[i]);
        }
        lemma_frames_are_collected(before, rest, done);
        assert(before.last() == states[n]);
        assert(collects(
            states[n],
            states[n + 1],
            Some((FrameKind::Stdin, payloads[n])),
            outcomes[n],
        ));
        assert(states[0].content@ + payload_bytes(payloads) =~= (states[0].content@ + payload_bytes(
            rest,
        )) + payloads[n]@);
        assert forall|i: int| 0 <= i < payloads.len() implies (#[trigger] outcomes[i]) == Ok::<
            bool,
            Error,
        >(false) by {
            if i < n {
                assert(done[i] == outcomes[i]);
            }
        }
    }
}

/// Whether a frame of a file was received, or why it was not.
pub open spec fn receives(
    before: FileReceiver,
    after: FileReceiver,
    frame: ReadFrame,
    step: Result<ReceiveStep, Error>,
) -> bool {
    &&& frame matches Some((FrameKind::Stdin, payload)) ==> if payload@.len() <= before.remaining {
        &&& step matches Ok(ReceiveStep::Write(bytes))
        &&& bytes@ == payload@
        &&& after.remaining + payload@.len() == before.remaining
    } else {
        step is Err && step->Err_0@ is InvalidSpec
    }
    &&& frame is None || frame->Some_0.0 == FrameKind::Eof ==> if before.remaining == 0 {
        step matches Ok(ReceiveStep::Done)
    } else {
        &&& step is Err
        &&& step->Err_0@ matches ErrorView::Io { io_kind, .. }
        &&& io_kind is UnexpectedEof
    }
    &&& frame is Some && frame->Some_0.0 != FrameKind::Stdin && frame->Some_0.0 != FrameKind::Eof
        ==> step is Err && step->Err_0@ is InvalidSpec
}

/// A file is received piece by piece: each piece is written on as it came and
/// shortens what is still to come, and the file is done exactly when nothing
/// is.
pub proof fn a_file_is_received_piece_by_piece(
    before: FileReceiver,
    after: FileReceiver,
    frame: ReadFrame,
    step: Result<ReceiveStep, Error>,
)
    requires
        receives(before, after, frame, step),
    ensures
        step matches Ok(ReceiveStep::Done) <==> before.remaining == 0 && (frame is None
            || frame->Some_0.0 == FrameKind::Eof),
        step matches Ok(ReceiveStep::Write(bytes)) ==> frame is Some && bytes@ == frame->Some_0.1@
            && after.remaining + bytes@.len() == before.remaining,
        frame is Some && frame->Some_0.0 == FrameKind::Stdin && frame->Some_0.1@.len()
            <= before.remaining ==> step is Ok,
{
}

/// Whether what was read of a file was taken note of.
pub open spec fn uploads(
    before: Upload,
    after: Upload,
    read: SourceRead,
    step: Result<FeedStep, Error>,
) -> bool {
    match read {
        SourceRead::Bytes(count) => if count > 0 {
            step matches Ok(FeedStep::Send) && after.left + count == before.left
        } else if before.left == 0 {
            step matches Ok(FeedStep::Finish)
        } else {
            &&& step is Err
            &&& step->Err_0@ matches ErrorView::Io { io_kind, .. }
            &&& io_kind is UnexpectedEof
        },
        SourceRead::Failed(source) => {
            &&& step is Err
            &&& step->Err_0@ matches ErrorView::Io { io_kind, .. }
            &&& io_kind == source.kind
        },
    }
}

/// An upload sends all that is read and ends exactly when its declared length
/// was sent; a source that ends before it, or fails, fails the upload.
pub proof fn an_upload_sends_its_declared_length(
    before: Upload,
    after: Upload,
    read: SourceRead,
    step: Result<FeedStep, Error>,
)
    requires
        uploads(before, after, read, step),
    ensures
        step matches Ok(FeedStep::Finish) <==> before.left == 0 && read == SourceRead::Bytes(0),
        step matches Ok(FeedStep::Send) ==> read is Bytes && read->Bytes_0 > 0 && after.left
            + read->Bytes_0 == before.left,
        read is Bytes && read->Bytes_0 > 0 ==> step is Ok,
        read is Failed ==> step is Err,
{
}

} // verus!
