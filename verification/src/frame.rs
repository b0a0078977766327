//! Binary frames: a one-byte kind, a four-byte big-endian payload length,
//! the payload.
//!
//! The reader refuses a frame over the negotiated limit as soon as it has
//! the header, before it holds any of the payload.

use crate::driver::{
    invalid_spec, transport_failure, transport_failure_from, Error, ErrorView, TransportView,
};
use crate::text::{concat2, decimal, decimal_text};
use vstd::prelude::*;
use vstd::slice::{slice_subrange, slice_to_vec};

verus! {

/// The largest payload one frame may carry. Negotiated at `initialize`; this
/// implementation offers and accepts exactly this value.
pub const MAX_FRAME_BYTES: u32 = 65536;

/// The bytes before a payload.
pub const HEADER_LEN: usize = 5;

/// What a frame carries. Any other byte closes the connection.
#[derive(Clone, Copy, Debug, PartialEq, Eq, Structural)]
pub enum FrameKind {
    /// The plugin's first frame: which channel it opens.
    Open,
    /// Bytes from the plugin: a command's stdout, PTY output, a log or file
    /// chunk.
    Stdout,
    /// Bytes from the plugin: a command's stderr.
    Stderr,
    /// Bytes from the host: a command's or PTY's input, a file to write.
    Stdin,
    /// The sender has no more data.
    Eof,
}

/// The byte that stands for a kind.
pub open spec fn kind_byte(kind: FrameKind) -> u8 {
    match kind {
        FrameKind::Open => 0,
        FrameKind::Stdout => 1,
        FrameKind::Stderr => 2,
        FrameKind::Stdin => 3,
        FrameKind::Eof => 4,
    }
}

/// The kind that a byte stands for.
pub open spec fn byte_kind(byte: u8) -> Option<FrameKind> {
    if byte == 0 {
        Some(FrameKind::Open)
    } else if byte == 1 {
        Some(FrameKind::Stdout)
    } else if byte == 2 {
        Some(FrameKind::Stderr)
    } else if byte == 3 {
        Some(FrameKind::Stdin)
    } else if byte == 4 {
        Some(FrameKind::Eof)
    } else {
        None
    }
}

impl FrameKind {
    /// The kind that a byte stands for.
    pub fn from_byte(byte: u8) -> (kind: Option<Self>)
        ensures
            kind == byte_kind(byte),
    {
        match byte {
            0 => Some(FrameKind::Open),
            1 => Some(FrameKind::Stdout),
            2 => Some(FrameKind::Stderr),
            3 => Some(FrameKind::Stdin),
            4 => Some(FrameKind::Eof),
            _ => None,
        }
    }

    /// The byte that stands for the kind.
    pub fn to_byte(self) -> (byte: u8)
        ensures
            byte == kind_byte(self),
    {
        match self {
            FrameKind::Open => 0,
            FrameKind::Stdout => 1,
            FrameKind::Stderr => 2,
            FrameKind::Stdin => 3,
            FrameKind::Eof => 4,
        }
    }

    /// The kind's name, for a message.
    pub fn name(self) -> (name: &'static str)
        ensures
            name@ == kind_name(self),
    {
        match self {
            FrameKind::Open => "Open",
            FrameKind::Stdout => "Stdout",
            FrameKind::Stderr => "Stderr",
            FrameKind::Stdin => "Stdin",
            FrameKind::Eof => "Eof",
        }
    }
}

/// The kind's name, for a message.
pub open spec fn kind_name(kind: FrameKind) -> Seq<char> {
    match kind {
        FrameKind::Open => "Open"@,
        FrameKind::Stdout => "Stdout"@,
        FrameKind::Stderr => "Stderr"@,
        FrameKind::Stdin => "Stdin"@,
        FrameKind::Eof => "Eof"@,
    }
}

/// Every kind has a byte of its own, and no other byte has a kind.
pub proof fn kinds_and_bytes_agree(kind: FrameKind, byte: u8)
    ensures
        byte_kind(byte) == Some(kind) <==> byte == kind_byte(kind),
{
}

/// The bytes before a payload of this kind and length.
pub open spec fn header(kind: FrameKind, length: nat) -> Seq<u8> {
    seq![
        kind_byte(kind),
        (length / 0x100_0000 % 0x100) as u8,
        (length / 0x1_0000 % 0x100) as u8,
        (length / 0x100 % 0x100) as u8,
        (length % 0x100) as u8,
    ]
}

/// The payload length that a header gives.
pub open spec fn header_length(header: Seq<u8>) -> nat {
    (header[1] * 0x100_0000 + header[2] * 0x1_0000 + header[3] * 0x100 + header[4]) as nat
}

/// One frame.
pub open spec fn frame(kind: FrameKind, payload: Seq<u8>) -> Seq<u8> {
    header(kind, payload.len()) + payload
}

/// A payload in pieces of at most `max` bytes; an empty payload is one empty
/// piece.
pub open spec fn pieces(payload: Seq<u8>, max: nat) -> Seq<Seq<u8>>
    decreases payload.len(),
{
    if max == 0 || payload.len() <= max {
        seq![payload]
    } else {
        seq![payload.take(max as int)] + pieces(payload.skip(max as int), max)
    }
}

/// Frames of one kind, one behind another.
pub open spec fn frames(kind: FrameKind, payloads: Seq<Seq<u8>>) -> Seq<u8>
    decreases payloads.len(),
{
    if payloads.len() == 0 {
        Seq::empty()
    } else {
        frame(kind, payloads[0]) + frames(kind, payloads.skip(1))
    }
}

/// Writes frames to one half of a channel connection.
#[derive(Debug)]
pub struct FrameWriter {
    pub max_bytes: usize,
    pub finished: bool,
}

impl FrameWriter {
    /// A writer that splits at the limit.
    pub fn new(max_frame_bytes: u32) -> (writer: Self)
        ensures
            writer.max_bytes == max_frame_bytes,
            !writer.finished,
    {
        FrameWriter { max_bytes: max_frame_bytes as usize, finished: false }
    }

    /// Why a payload of this kind cannot be written.
    pub open spec fn refusal(self, kind: FrameKind, length: nat) -> Option<ErrorView> {
        if self.finished || self.max_bytes == 0 || self.max_bytes > MAX_FRAME_BYTES {
            Some(invalid_spec("frame"@, "invalid frame limit or write after EOF"@))
        } else if kind == FrameKind::Eof && length != 0 {
            Some(invalid_spec("frame"@, "EOF must have an empty payload"@))
        } else if kind == FrameKind::Open && length > self.max_bytes {
            Some(invalid_spec("frame"@, "open cannot span frames"@))
        } else {
            None
        }
    }

    /// The bytes that carry the payload as one or more frames of the kind,
    /// split at the limit so that a large chunk never becomes an oversized
    /// frame.
    pub fn write(&self, kind: FrameKind, payload: &[u8]) -> (bytes: Result<Vec<u8>, Error>)
        ensures
            match bytes {
                Ok(bytes) => {
                    &&& self.refusal(kind, payload@.len()) is None
                    &&& bytes@ == frames(kind, pieces(payload@, self.max_bytes as nat))
                },
                Err(error) => self.refusal(kind, payload@.len()) == Some(error@),
            },
    {
        if self.finished || self.max_bytes == 0 || self.max_bytes > MAX_FRAME_BYTES as usize {
            return Err(Error::invalid_spec("frame", "invalid frame limit or write after EOF"));
        }
        if kind == FrameKind::Eof && payload.len() != 0 {
            return Err(Error::invalid_spec("frame", "EOF must have an empty payload"));
        }
        if kind == FrameKind::Open && payload.len() > self.max_bytes {
            return Err(Error::invalid_spec("frame", "open cannot span frames"));
        }
        let mut bytes: Vec<u8> = Vec::new();
        let mut from: usize = 0;
        proof {
            let all = frames(kind, pieces(payload@, self.max_bytes as nat));
            assert(payload@.skip(0) =~= payload@);
            assert(bytes@ + all =~= all);
        }
        while payload.len() - from > self.max_bytes
            invariant
                0 < self.max_bytes <= MAX_FRAME_BYTES,
                from <= payload@.len(),
                bytes@ + frames(
                    kind,
                    pieces(payload@.skip(from as int), self.max_bytes as nat),
                ) == frames(kind, pieces(payload@, self.max_bytes as nat)),
            decreases payload@.len() - from,
        {
            let ghost rest = payload@.skip(from as int);
            let ghost before = bytes@;
            let to: usize = from + self.max_bytes;
            write_one(&mut bytes, kind, slice_subrange(payload, from, to));
            from = to;
            proof {
                let max = self.max_bytes as int;
                assert(rest.take(max) =~= payload@.subrange(from - max, from as int));
                assert(rest.skip(max) =~= payload@.skip(from as int));
                lemma_frames_unfold(kind, rest, max as nat);
                assert(bytes@ + frames(kind, pieces(payload@.skip(from as int), max as nat))
                    =~= before + frames(kind, pieces(rest, max as nat)));
            }
        }
        let ghost rest = payload@.skip(from as int);
        let ghost before = bytes@;
        write_one(&mut bytes, kind, slice_subrange(payload, from, payload.len()));
        proof {
            assert(rest =~= payload@.subrange(from as int, payload@.len() as int));
            lemma_frames_of_one(kind, rest);
            assert(pieces(rest, self.max_bytes as nat) == seq![rest]);
            assert(bytes@ =~= before + frames(kind, pieces(rest, self.max_bytes as nat)));
        }
        Ok(bytes)
    }

    /// The bytes of this side's end mark. Once they are delivered,
    /// [`Self::mark_finished`] closes the writer.
    pub fn finish(&self) -> (bytes: Result<Vec<u8>, Error>)
        ensures
            match bytes {
                Ok(bytes) => {
                    &&& self.refusal(FrameKind::Eof, 0) is None
                    &&& bytes@ == frame(FrameKind::Eof, Seq::empty())
                },
                Err(error) => self.refusal(FrameKind::Eof, 0) == Some(error@),
            },
    {
        let nothing: [u8; 0] = [];
        let bytes = self.write(FrameKind::Eof, &nothing);
        proof {
            assert(nothing@ =~= Seq::<u8>::empty());
            lemma_frames_of_one(FrameKind::Eof, Seq::empty());
            assert(pieces(Seq::empty(), self.max_bytes as nat) == seq![Seq::<u8>::empty()]);
        }
        bytes
    }

    /// Notes that the end mark was delivered: nothing can be written after
    /// it.
    pub fn mark_finished(&mut self)
        ensures
            final(self).finished,
            final(self).max_bytes == old(self).max_bytes,
            forall|kind: FrameKind, length: nat| (#[trigger] final(self).refusal(kind, length)) is Some,
    {
        self.finished = true;
    }
}

fn write_one(bytes: &mut Vec<u8>, kind: FrameKind, payload: &[u8])
    requires
        payload@.len() <= MAX_FRAME_BYTES,
    ensures
        final(bytes)@ == old(bytes)@ + frame(kind, payload@),
{
    let length: usize = payload.len();
    let ghost before = bytes@;
    bytes.push(kind.to_byte());
    bytes.push((length / 0x100_0000 % 0x100) as u8);
    bytes.push((length / 0x1_0000 % 0x100) as u8);
    bytes.push((length / 0x100 % 0x100) as u8);
    bytes.push((length % 0x100) as u8);
    let mut rest = slice_to_vec(payload);
    bytes.append(&mut rest);
    assert(bytes@ =~= before + frame(kind, payload@));
}

proof fn lemma_frames_of_one(kind: FrameKind, payload: Seq<u8>)
    ensures
        frames(kind, seq![payload]) == frame(kind, payload),
{
    let one = seq![payload];
    assert(one.skip(1) =~= Seq::<Seq<u8>>::empty());
    assert(frames(kind, one.skip(1)) =~= Seq::<u8>::empty());
    assert(frames(kind, one) =~= frame(kind, payload));
}

proof fn lemma_frames_unfold(kind: FrameKind, payload: Seq<u8>, max: nat)
    requires
        0 < max < payload.len(),
    ensures
        frames(kind, pieces(payload, max)) == frame(kind, payload.take(max as int)) + frames(
            kind,
            pieces(payload.skip(max as int), max),
        ),
{
    let all = pieces(payload, max);
    assert(all[0] == payload.take(max as int));
    assert(all.skip(1) =~= pieces(payload.skip(max as int), max));
}

/// Whether more input can come.
#[derive(Debug)]
pub enum InputEnd {
    /// The connection is open.
    Open,
    /// The peer closed the connection.
    Closed,
    /// Reading failed, with the rendered error.
    Failed(String),
}

/// What an [`InputEnd`] says.
pub enum InputEndView {
    Open,
    Closed,
    Failed(Seq<char>),
}

impl View for InputEnd {
    type V = InputEndView;

    open spec fn view(&self) -> InputEndView {
        match self {
            InputEnd::Open => InputEndView::Open,
            InputEnd::Closed => InputEndView::Closed,
            InputEnd::Failed(error) => InputEndView::Failed(error@),
        }
    }
}

/// What the reader makes of the input it has.
#[derive(Debug)]
pub enum FrameRead {
    /// The peer's end mark was read before; nothing follows it.
    Finished,
    /// The frame is not complete yet.
    NeedMore,
    /// A frame, and how many bytes of the input it took.
    Frame { kind: FrameKind, payload: Vec<u8>, consumed: usize },
}

/// What the reader makes of an input, a refusal among it.
pub enum FrameReadView {
    Finished,
    NeedMore,
    Frame { kind: FrameKind, payload: Seq<u8>, consumed: nat },
    Refused(ErrorView),
}

/// What comes of an input that ends before the frame does.
pub open spec fn short_input(
    context: Seq<char>,
    nothing: bool,
    end: InputEndView,
) -> FrameReadView {
    match end {
        InputEndView::Open => FrameReadView::NeedMore,
        InputEndView::Closed => if nothing {
            FrameReadView::Refused(
                transport_failure("data channel closed before EOF; delivery is incomplete"@),
            )
        } else {
            FrameReadView::Refused(transport_failure_from(context, "early eof"@))
        },
        InputEndView::Failed(error) => FrameReadView::Refused(
            transport_failure_from(context, error),
        ),
    }
}

/// Why a header is refused: an unknown kind, a length over the limit, or an
/// end mark with a payload.
pub open spec fn header_refusal(header: Seq<u8>, max: nat) -> Option<ErrorView> {
    match byte_kind(header[0]) {
        None => Some(
            invalid_spec("frame"@, "unknown kind "@ + decimal_text(header[0] as nat)),
        ),
        Some(kind) => if header_length(header) > max {
            Some(
                invalid_spec(
                    "frame"@,
                    "payload of "@ + decimal_text(header_length(header))
                        + " bytes exceeds the "@ + decimal_text(max) + " limit"@,
                ),
            )
        } else if kind == FrameKind::Eof && header_length(header) != 0 {
            Some(invalid_spec("frame"@, "EOF must have an empty payload"@))
        } else {
            None
        },
    }
}

/// Reads frames from one half of a channel connection.
#[derive(Debug)]
pub struct FrameReader {
    pub max_bytes: usize,
    pub finished: bool,
}

impl FrameReader {
    /// A reader that refuses what is over the limit.
    pub fn new(max_frame_bytes: u32) -> (reader: Self)
        ensures
            reader.max_bytes == max_frame_bytes,
            !reader.finished,
    {
        FrameReader { max_bytes: max_frame_bytes as usize, finished: false }
    }

    /// What comes of an input.
    pub open spec fn outcome(self, input: Seq<u8>, end: InputEndView) -> FrameReadView {
        if self.finished {
            FrameReadView::Finished
        } else if self.max_bytes == 0 || self.max_bytes > MAX_FRAME_BYTES {
            FrameReadView::Refused(invalid_spec("frame"@, "invalid frame limit"@))
        } else if input.len() < HEADER_LEN {
            short_input("reading data frame header"@, input.len() == 0, end)
        } else {
            match header_refusal(input, self.max_bytes as nat) {
                Some(error) => FrameReadView::Refused(error),
                None => {
                    let consumed = HEADER_LEN as nat + header_length(input);
                    if input.len() < consumed {
                        short_input("reading data frame"@, false, end)
                    } else {
                        FrameReadView::Frame {
                            kind: byte_kind(input[0])->0,
                            payload: input.subrange(HEADER_LEN as int, consumed as int),
                            consumed,
                        }
                    }
                },
            }
        }
    }

    /// The next frame of the input, or that there is none yet, or that there
    /// is none to come. A refused header is refused whatever follows it.
    pub fn read(&mut self, input: &[u8], end: InputEnd) -> (read: Result<FrameRead, Error>)
        ensures
            match read {
                Ok(FrameRead::Finished) => old(self).outcome(input@, end@) is Finished,
                Ok(FrameRead::NeedMore) => old(self).outcome(input@, end@) is NeedMore,
                Ok(FrameRead::Frame { kind, payload, consumed }) => old(self).outcome(input@, end@)
                    == (FrameReadView::Frame { kind, payload: payload@, consumed: consumed as nat }),
                Err(error) => old(self).outcome(input@, end@) == FrameReadView::Refused(error@),
            },
            final(self).max_bytes == old(self).max_bytes,
            final(self).finished == (old(self).finished || (old(self).outcome(
                input@,
                end@,
            ) matches FrameReadView::Frame { kind: FrameKind::Eof, .. })),
    {
        if self.finished {
            return Ok(FrameRead::Finished);
        }
        if self.max_bytes == 0 || self.max_bytes > MAX_FRAME_BYTES as usize {
            return Err(Error::invalid_spec("frame", "invalid frame limit"));
        }
        if input.len() < HEADER_LEN {
            return read_short("reading data frame header", input.len() == 0, end);
        }
        let kind = match FrameKind::from_byte(input[0]) {
            Some(kind) => kind,
            None => {
                let reason = concat2("unknown kind ", decimal(input[0] as u64).as_str());
                return Err(Error::invalid_spec("frame", reason.as_str()));
            },
        };
        let length: u64 = (input[1] as u64) * 0x100_0000 + (input[2] as u64) * 0x1_0000 + (
        input[3] as u64) * 0x100 + (input[4] as u64);
        if length > self.max_bytes as u64 {
            let mut reason = concat2("payload of ", decimal(length).as_str());
            reason.append(" bytes exceeds the ");
            reason.append(decimal(self.max_bytes as u64).as_str());
            reason.append(" limit");
            return Err(Error::invalid_spec("frame", reason.as_str()));
        }
        if kind == FrameKind::Eof {
            if length != 0 {
                return Err(Error::invalid_spec("frame", "EOF must have an empty payload"));
            }
            self.finished = true;
        }
        let consumed: usize = HEADER_LEN + length as usize;
        if input.len() < consumed {
            return read_short("reading data frame", false, end);
        }
        let payload = slice_to_vec(slice_subrange(input, HEADER_LEN, consumed));
        Ok(FrameRead::Frame { kind, payload, consumed })
    }
}

fn read_short(context: &str, nothing: bool, end: InputEnd) -> (read: Result<FrameRead, Error>)
    ensures
        match read {
            Ok(FrameRead::NeedMore) => short_input(context@, nothing, end@) is NeedMore,
            Ok(_) => false,
            Err(error) => short_input(context@, nothing, end@) == FrameReadView::Refused(error@),
        },
{
    match end {
        InputEnd::Open => Ok(FrameRead::NeedMore),
        InputEnd::Closed => {
            if nothing {
                Err(
                    Error::transport("data channel closed before EOF; delivery is incomplete"),
                )
            } else {
                Err(Error::transport_from(context, "early eof".to_owned()))
            }
        },
        InputEnd::Failed(error) => Err(Error::transport_from(context, error)),
    }
}

/// The frames that a reader with this limit gets out of an input, up to the
/// end mark or to where no further frame can be read.
#[verifier::opaque]
pub open spec fn read_all(max: usize, input: Seq<u8>) -> Seq<(FrameKind, Seq<u8>)>
    decreases input.len(),
{
    match (FrameReader { max_bytes: max, finished: false }).outcome(input, InputEndView::Open) {
        FrameReadView::Frame { kind, payload, consumed } => if consumed == 0 || consumed
            > input.len() || kind == FrameKind::Eof {
            seq![(kind, payload)]
        } else {
            seq![(kind, payload)] + read_all(max, input.skip(consumed as int))
        },
        _ => Seq::empty(),
    }
}

proof fn lemma_header_keeps_length(kind: FrameKind, length: nat)
    requires
        length <= MAX_FRAME_BYTES,
    ensures
        header_length(header(kind, length)) == length,
        byte_kind(header(kind, length)[0]) == Some(kind),
{
    let a = length / 0x100_0000 % 0x100;
    let b = length / 0x1_0000 % 0x100;
    let c = length / 0x100 % 0x100;
    let d = length % 0x100;
    assert(a == 0);
    assert(b == length / 0x1_0000);
    assert(length / 0x100 / 0x100 == length / 0x1_0000);
    assert(length == 0x100 * (length / 0x100) + d);
    assert(length / 0x100 == 0x100 * (length / 0x100 / 0x100) + c);
}

/// Reading takes back what writing put down: a frame within the limit, with
/// anything behind it, is read as it was written and no byte further.
pub proof fn a_written_frame_is_read_back(
    kind: FrameKind,
    payload: Seq<u8>,
    max: usize,
    rest: Seq<u8>,
    end: InputEndView,
)
    requires
        0 < max <= MAX_FRAME_BYTES,
        payload.len() <= max,
        kind == FrameKind::Eof ==> payload.len() == 0,
    ensures
        (FrameReader { max_bytes: max, finished: false }).outcome(frame(kind, payload) + rest, end)
            == (FrameReadView::Frame { kind, payload, consumed: 5 + payload.len() }),
{
    let input = frame(kind, payload) + rest;
    let head = header(kind, payload.len());
    lemma_header_keeps_length(kind, payload.len());
    assert(input[0] == head[0] && input[1] == head[1] && input[2] == head[2] && input[3] == head[3]
        && input[4] == head[4]);
    assert(header_length(input) == payload.len());
    assert(input.subrange(5, 5 + payload.len() as int) =~= payload);
}

/// The pieces of a payload put together are the payload, and none of them is
/// over the limit.
pub proof fn pieces_make_the_payload(payload: Seq<u8>, max: nat)
    requires
        max > 0,
    ensures
        pieces(payload, max).flatten() == payload,
        forall|i: int| 0 <= i < pieces(payload, max).len() ==> (#[trigger] pieces(payload, max)[i]).len()
            <= max,
    decreases payload.len(),
{
    let all = pieces(payload, max);
    if payload.len() <= max {
        assert(all.drop_first() =~= Seq::<Seq<u8>>::empty());
        assert(Seq::<Seq<u8>>::empty().flatten() =~= Seq::<u8>::empty());
        assert(all.flatten() =~= payload);
    } else {
        let rest = payload.skip(max as int);
        pieces_make_the_payload(rest, max);
        assert(all.drop_first() =~= pieces(rest, max));
        assert(all.first() == payload.take(max as int));
        assert(payload.take(max as int) + rest =~= payload);
        assert forall|i: int| 0 <= i < all.len() implies (#[trigger] all[i]).len() <= max by {
            if i > 0 {
                assert(all[i] == pieces(rest, max)[i - 1]);
            }
        }
    }
}

proof fn lemma_read_step(kind: FrameKind, payload: Seq<u8>, max: usize, rest: Seq<u8>)
    requires
        0 < max <= MAX_FRAME_BYTES,
        payload.len() <= max,
        kind != FrameKind::Eof,
    ensures
        read_all(max, frame(kind, payload) + rest) == seq![(kind, payload)] + read_all(max, rest),
{
    reveal(read_all);
    let input = frame(kind, payload) + rest;
    a_written_frame_is_read_back(kind, payload, max, rest, InputEndView::Open);
    assert(input.skip(5 + payload.len() as int) =~= rest);
}

/// The pieces of a payload, each with the kind it is sent under.
pub open spec fn tagged(kind: FrameKind, payloads: Seq<Seq<u8>>) -> Seq<(FrameKind, Seq<u8>)> {
    Seq::new(payloads.len(), |i: int| (kind, payloads[i]))
}

/// What a writer sends, the reader gets: the frames of one write are read
/// back as the pieces of its payload, in order, and then whatever follows
/// them.
pub proof fn written_frames_are_read_back(
    kind: FrameKind,
    payload: Seq<u8>,
    max: usize,
    rest: Seq<u8>,
)
    requires
        0 < max <= MAX_FRAME_BYTES,
        kind != FrameKind::Eof,
    ensures
        read_all(max, frames(kind, pieces(payload, max as nat)) + rest) == tagged(
            kind,
            pieces(payload, max as nat),
        ) + read_all(max, rest),
    decreases payload.len(),
{
    let all = pieces(payload, max as nat);
    if payload.len() <= max {
        lemma_frames_of_one(kind, payload);
        lemma_read_step(kind, payload, max, rest);
        assert(tagged(kind, all) =~= seq![(kind, payload)]);
    } else {
        let piece = payload.take(max as int);
        let later = pieces(payload.skip(max as int), max as nat);
        let behind = frames(kind, later) + rest;
        lemma_frames_unfold(kind, payload, max as nat);
        assert(frames(kind, all) + rest =~= frame(kind, piece) + behind);
        lemma_read_step(kind, piece, max, behind);
        written_frames_are_read_back(kind, payload.skip(max as int), max, rest);
        assert(tagged(kind, all) =~= seq![(kind, piece)] + tagged(kind, later));
        assert(seq![(kind, piece)] + (tagged(kind, later) + read_all(max, rest)) =~= tagged(kind, all)
            + read_all(max, rest));
    }
}

/// The end mark ends the reading, whatever follows it.
pub proof fn the_end_mark_ends_the_reading(max: usize, rest: Seq<u8>)
    requires
        0 < max <= MAX_FRAME_BYTES,
    ensures
        read_all(max, frame(FrameKind::Eof, Seq::empty()) + rest) == seq![
            (FrameKind::Eof, Seq::<u8>::empty()),
        ],
{
    reveal(read_all);
    a_written_frame_is_read_back(FrameKind::Eof, Seq::empty(), max, rest, InputEndView::Open);
}

/// A frame over the limit is refused by its header alone: what follows, and
/// whether anything does, makes no difference.
pub proof fn an_oversized_frame_is_refused_by_its_header(
    reader: FrameReader,
    head: Seq<u8>,
    rest: Seq<u8>,
    end: InputEndView,
    other: InputEndView,
)
    requires
        head.len() == HEADER_LEN,
        header_length(head) > reader.max_bytes,
        !reader.finished,
    ensures
        reader.outcome(head + rest, end) is Refused,
        reader.outcome(head + rest, end) == reader.outcome(head, other),
{
    let input = head + rest;
    assert(input[0] == head[0] && input[1] == head[1] && input[2] == head[2] && input[3] == head[3]
        && input[4] == head[4]);
}

/// The names of two kinds differ.
pub proof fn kind_names_differ(a: FrameKind, b: FrameKind)
    requires
        kind_name(a) == kind_name(b),
    ensures
        a == b,
{
    reveal_strlit("Open");
    reveal_strlit("Stdin");
    reveal_strlit("Stdout");
    reveal_strlit("Stderr");
    reveal_strlit("Eof");
    assert("Stdout"@[3] != "Stderr"@[3]);
    assert(kind_name(FrameKind::Open).len() == 4);
    assert(kind_name(FrameKind::Stdin).len() == 5);
    assert(kind_name(FrameKind::Stdout).len() == 6);
    assert(kind_name(FrameKind::Stderr).len() == 6);
    assert(kind_name(FrameKind::Eof).len() == 3);
}

/// The shape of a frame on the wire: one byte for its kind, four bytes for the
/// length of its payload with the highest first, then the payload.
pub proof fn a_frame_is_its_kind_its_length_and_its_payload(kind: FrameKind, payload: Seq<u8>)
    requires
        payload.len() < 0x1_0000_0000,
    ensures
        ({
            let bytes = frame(kind, payload);
            &&& bytes.len() == 5 + payload.len()
            &&& bytes[0] == match kind {
                FrameKind::Open => 0u8,
                FrameKind::Stdout => 1u8,
                FrameKind::Stderr => 2u8,
                FrameKind::Stdin => 3u8,
                FrameKind::Eof => 4u8,
            }
            &&& bytes[1] * 0x100_0000 + bytes[2] * 0x1_0000 + bytes[3] * 0x100 + bytes[4]
                == payload.len()
            &&& bytes.skip(5) == payload
        }),
{
    let length = payload.len();
    let bytes = frame(kind, payload);
    assert(bytes.skip(5) =~= payload);
    let a = length / 0x100_0000 % 0x100;
    let b = length / 0x1_0000 % 0x100;
    let c = length / 0x100 % 0x100;
    let d = length % 0x100;
    assert(length / 0x100 / 0x100 == length / 0x1_0000);
    assert(length / 0x1_0000 / 0x100 == length / 0x100_0000);
    assert(length == 0x100 * (length / 0x100) + d);
    assert(length / 0x100 == 0x100 * (length / 0x100 / 0x100) + c);
    assert(length / 0x1_0000 == 0x100 * (length / 0x1_0000 / 0x100) + b);
    assert(a == length / 0x100_0000);
    assert(bytes[1] == a && bytes[2] == b && bytes[3] == c && bytes[4] == d);
}

/// A writer takes every payload as long as its end mark is not out and its
/// limit is one that frames may have, however long the payload is; only an
/// end mark with a payload and an open frame that does not fit are refused.
pub proof fn a_writer_takes_every_payload(writer: FrameWriter, kind: FrameKind, length: nat)
    ensures
        writer.refusal(kind, length) is None <==> {
            &&& !writer.finished
            &&& 1 <= writer.max_bytes <= 65536
            &&& kind == FrameKind::Eof ==> length == 0
            &&& kind == FrameKind::Open ==> length <= writer.max_bytes
        },
        writer.refusal(kind, length) matches Some(error) ==> error is InvalidSpec,
{
}

/// No frame is over the limit, and no piece of a payload is empty unless the
/// payload is.
pub proof fn pieces_are_within_the_limit(payload: Seq<u8>, max: nat, at: int)
    requires
        0 < max,
        0 <= at < pieces(payload, max).len(),
    ensures
        pieces(payload, max)[at].len() <= max,
        payload.len() > 0 ==> pieces(payload, max)[at].len() > 0,
        at < pieces(payload, max).len() - 1 ==> pieces(payload, max)[at].len() == max,
    decreases payload.len(),
{
    if payload.len() > max {
        let rest = pieces(payload.skip(max as int), max);
        if at > 0 {
            assert(pieces(payload, max)[at] == rest[at - 1]);
            pieces_are_within_the_limit(payload.skip(max as int), max, at - 1);
        }
    }
}

/// What a reader makes of its input: nothing more once the end mark was read,
/// more input while the frame is not whole and more may come, and an error
/// where none may, for a delivery that breaks off is never taken for its end.
pub proof fn a_broken_off_delivery_is_no_end(
    reader: FrameReader,
    input: Seq<u8>,
    end: InputEndView,
)
    ensures
        reader.outcome(input, end) is Finished <==> reader.finished,
        !reader.finished && 1 <= reader.max_bytes <= 65536 && input.len() < 5 ==> if end is Open {
            reader.outcome(input, end) is NeedMore
        } else {
            reader.outcome(input, end) matches FrameReadView::Refused(ErrorView::Transport(_))
        },
        reader.outcome(input, end) is NeedMore ==> end is Open,
{
}

/// A frame is read exactly when its header names a kind, its payload is
/// within the limit and whole, and an end mark has none; what is read is the
/// kind and the bytes behind the header, and no byte further is used.
pub proof fn a_whole_frame_is_read(reader: FrameReader, input: Seq<u8>, end: InputEndView)
    requires
        !reader.finished,
        1 <= reader.max_bytes <= 65536,
        input.len() >= 5,
    ensures
        ({
            let length = input[1] * 0x100_0000 + input[2] * 0x1_0000 + input[3] * 0x100 + input[4];
            let known = input[0] <= 4 && length <= reader.max_bytes && (input[0] == 4 ==> length
                == 0);
            &&& reader.outcome(input, end) is Frame <==> known && input.len() >= 5 + length
            &&& !known ==> reader.outcome(input, end) is Refused && reader.outcome(
                input,
                end,
            )->Refused_0 is InvalidSpec
            &&& known && input.len() < 5 + length && end is Open ==> reader.outcome(input, end)
                is NeedMore
            &&& known && input.len() < 5 + length && !(end is Open) ==> reader.outcome(input, end)
                is Refused && reader.outcome(input, end)->Refused_0 is Transport
            &&& reader.outcome(input, end) is Frame ==> {
                &&& reader.outcome(input, end)->consumed == 5 + length
                &&& reader.outcome(input, end)->payload == input.subrange(5, 5 + length)
                &&& kind_byte(reader.outcome(input, end)->kind) == input[0]
            }
        }),
{
}

/// A delivery that breaks off tells how it did: with no cause where it ended
/// between two frames, as an early end where it ended within one, and by the
/// cause of the failure where its input failed.
pub proof fn a_broken_off_delivery_tells_how(
    reader: FrameReader,
    input: Seq<u8>,
    end: InputEndView,
    failure: TransportView,
)
    requires
        reader.outcome(input, end) == FrameReadView::Refused(ErrorView::Transport(failure)),
    ensures
        !(end is Open),
        end is Closed && input.len() == 0 ==> failure.source.len() == 0,
        end is Closed && input.len() > 0 ==> failure.source == seq!["early eof"@],
        end matches InputEndView::Failed(error) ==> failure.source == seq![error],
{
}

/// A kind is called by its name, and an input's end is known for what it is.
pub proof fn kinds_and_ends_are_what_they_are_called(kind: FrameKind, end: InputEnd)
    ensures
        kind_name(kind) == "Open"@ <==> kind == FrameKind::Open,
        kind_name(kind) == "Stdout"@ <==> kind == FrameKind::Stdout,
        kind_name(kind) == "Stderr"@ <==> kind == FrameKind::Stderr,
        kind_name(kind) == "Stdin"@ <==> kind == FrameKind::Stdin,
        kind_name(kind) == "Eof"@ <==> kind == FrameKind::Eof,
        end@ is Open <==> end is Open,
        end@ is Closed <==> end is Closed,
        end matches InputEnd::Failed(error) ==> end@ == InputEndView::Failed(error@),
{
    reveal_strlit("Open");
    reveal_strlit("Stdin");
    reveal_strlit("Stdout");
    reveal_strlit("Stderr");
    reveal_strlit("Eof");
    assert("Stdout"@[3] != "Stderr"@[3]);
    assert("Open"@.len() == 4 && "Stdin"@.len() == 5 && "Stdout"@.len() == 6 && "Stderr"@.len() == 6
        && "Eof"@.len() == 3);
}

} // verus!
