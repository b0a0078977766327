//! The data transport: one private connection per operation.
//!
//! Every byte stream rides a connection of its own to a listener the host
//! owns. The plugin opens each connection, and its first frame carries the
//! channel id and the one-use token that the host sent in the request. The
//! host matches them and hands the connection to the waiting operation;
//! anything else is closed unanswered.

use crate::diagnostics::{no_client_diagnostics, ClientDiagnostics};
use crate::driver::{
    invalid_spec, micros_of, nanos_of, overloaded, saturating_micros, transport_failure,
    transport_failure_from, Error, ErrorView,
};
use crate::frame::{FrameKind, MAX_FRAME_BYTES};
use crate::limits::{acquire, Budget, TransportLimits};
use crate::text::{concat2, concat3, decimal, decimal_text, hex, hex_text, same_text};
use std::collections::{HashMap, VecDeque};
use std::time::Duration;
use vstd::prelude::*;

verus! {

broadcast use vstd::std_specs::hash::group_hash_axioms;

/// What a request carries to name its channel: the id the host looks the
/// connection up by, and the one-use token that proves the plugin read the
/// request.
pub struct ChannelRequest {
    pub channel_id: u64,
    pub token: String,
}

impl ChannelRequest {
    /// What may be logged of the request: never its token.
    pub fn redacted(&self) -> (text: String)
        ensures
            text@ == "ChannelRequest { channel_id: "@ + decimal_text(self.channel_id as nat)
                + ", token: \"<redacted>\" }"@,
    {
        concat3(
            "ChannelRequest { channel_id: ",
            decimal(self.channel_id).as_str(),
            ", token: \"<redacted>\" }",
        )
    }

    /// Copies the request.
    pub fn copy(&self) -> (copy: Self)
        ensures
            copy == *self,
    {
        ChannelRequest { channel_id: self.channel_id, token: self.token.clone() }
    }
}

/// Identity allowed to open data channels. Spawned plugins use their exact
/// process id.
#[derive(Clone, Copy, Debug)]
pub enum TrustedPeer {
    Process(u32),
    /// Explicit policy for transports whose peer can use several processes.
    User(u32),
}

/// Who is at the other end of a connection.
#[derive(Clone, Copy, Debug)]
pub struct PeerCredentials {
    pub pid: Option<i32>,
    pub uid: u32,
}

impl TrustedPeer {
    /// Whether the peer is the one that may open channels.
    pub open spec fn allows(self, credentials: PeerCredentials) -> bool {
        match self {
            TrustedPeer::Process(pid) => credentials.pid matches Some(value) && value as int
                == pid as int,
            TrustedPeer::User(uid) => credentials.uid == uid,
        }
    }

    /// Whether the peer is the one that may open channels.
    pub fn is_allowed(&self, credentials: &PeerCredentials) -> (allowed: bool)
        ensures
            allowed == self.allows(*credentials),
    {
        match *self {
            TrustedPeer::Process(pid) => match credentials.pid {
                Some(value) => value >= 0 && value as u32 == pid,
                None => false,
            },
            TrustedPeer::User(uid) => credentials.uid == uid,
        }
    }
}

/// The plugin's first frame.
pub struct OpenFrame {
    pub request: ChannelRequest,
    pub acknowledge: bool,
}

/// The data transport the host announces at `initialize`.
#[derive(Debug)]
pub struct DataTransport {
    pub socket_path: String,
    /// The largest frame payload either side may send.
    pub max_frame_bytes: u32,
    /// Request an open acknowledgment before any data or provider work.
    pub open_ack: bool,
}

/// Bytes on their way out, and how many of them have left.
#[derive(Debug)]
pub struct Delivery {
    pub bytes: Vec<u8>,
    pub sent: usize,
}

/// What came of one attempt to write.
#[derive(Debug)]
pub enum WriteEvent {
    /// Nothing left within the progress timeout.
    Stalled,
    /// Writing failed, with the rendered error.
    Failed(String),
    /// This many bytes left.
    Wrote(usize),
}

impl Delivery {
    /// No more has left than there was.
    pub open spec fn wf(self) -> bool {
        self.sent <= self.bytes@.len()
    }

    /// What is still to be sent.
    pub open spec fn remaining(self) -> Seq<u8> {
        self.bytes@.skip(self.sent as int)
    }

    /// Starts to send bytes.
    pub fn new(bytes: Vec<u8>) -> (delivery: Self)
        ensures
            delivery.wf(),
            delivery.remaining() == bytes@,
    {
        assert(bytes@.skip(0) =~= bytes@);
        Delivery { bytes, sent: 0 }
    }

    /// Whether everything has left.
    pub fn is_done(&self) -> (done: bool)
        requires
            self.wf(),
        ensures
            done == (self.remaining().len() == 0),
    {
        self.sent == self.bytes.len()
    }

    /// Takes note of one attempt to write what is still to be sent.
    pub fn deliver(&mut self, event: WriteEvent) -> (outcome: Result<(), Error>)
        requires
            old(self).wf(),
            old(self).remaining().len() > 0,
            event matches WriteEvent::Wrote(written) ==> written <= old(self).remaining().len(),
        ensures
            final(self).wf(),
            final(self).bytes == old(self).bytes,
            match event {
                WriteEvent::Stalled => {
                    &&& outcome matches Err(error)
                    &&& error@ == transport_failure(
                        "data output made no progress; delivery is incomplete"@,
                    )
                    &&& *final(self) == *old(self)
                },
                WriteEvent::Failed(rendered) => {
                    &&& outcome matches Err(error)
                    &&& error@ == transport_failure_from("writing data frame"@, rendered@)
                    &&& *final(self) == *old(self)
                },
                WriteEvent::Wrote(0) => {
                    &&& outcome matches Err(error)
                    &&& error@ == transport_failure_from("writing data frame"@, "write zero"@)
                    &&& *final(self) == *old(self)
                },
                WriteEvent::Wrote(written) => {
                    &&& outcome is Ok
                    &&& final(self).remaining() == old(self).remaining().skip(written as int)
                },
            },
    {
        match event {
            WriteEvent::Stalled => Err(
                Error::transport("data output made no progress; delivery is incomplete"),
            ),
            WriteEvent::Failed(rendered) => Err(
                Error::transport_from("writing data frame", rendered),
            ),
            WriteEvent::Wrote(written) => {
                if written == 0 {
                    return Err(
                        Error::transport_from("writing data frame", "write zero".to_owned()),
                    );
                }
                let ghost before = self.remaining();
                let total: usize = self.bytes.len();
                assert(self.sent + written <= total);
                self.sent = self.sent + written;
                assert(self.remaining() =~= before.skip(written as int));
                Ok(())
            },
        }
    }
}

/// How many setup times are kept.
pub const SETUP_SAMPLES: usize = 4096;

/// What the listener counts.
#[derive(Debug)]
pub struct Measurements {
    pub setup_us: VecDeque<u64>,
    pub opened: u64,
    pub lost: u64,
    pub backoffs: u64,
}

/// The host's listener: the registry of channels that operations wait on,
/// and the budgets that bound them.
pub struct ChannelListener {
    pub socket_path: String,
    pub peer: TrustedPeer,
    pub limits: TransportLimits,
    pub failed: bool,
    pub next_channel: u64,
    /// The tokens of channels that are not open yet.
    pub pending: HashMap<u64, String>,
    /// How many owners of a channel are left: the waiting operation, each
    /// half of the open connection.
    pub holders: HashMap<u64, usize>,
    pub io_budget: Budget,
    pub open_budget: Budget,
    pub handshake_budget: Budget,
    pub measurements: Measurements,
}

/// What came of waiting for the first frame of a connection.
pub enum Opened {
    /// No frame came in time.
    TimedOut,
    /// Reading the frame failed.
    Failed(Error),
    /// The connection ended before a frame came.
    Ended,
    /// A frame other than an open frame came first.
    Frame(FrameKind),
    /// The open frame is not the expected JSON, as found at this place.
    Malformed { line: u64, column: u64 },
    /// The open frame.
    Open(OpenFrame),
}

/// A connection that may be handed to its operation.
pub struct Admission {
    pub channel_id: u64,
    /// Whether the plugin asked for an acknowledgment.
    pub acknowledge: bool,
}

/// What a connection is refused with before its channel is looked up.
pub open spec fn opening_refusal(opened: Opened) -> Option<ErrorView> {
    match opened {
        Opened::TimedOut => Some(transport_failure("data channel open timed out"@)),
        Opened::Failed(error) => Some(error@),
        Opened::Ended => Some(
            invalid_spec("frame"@, "the first frame on a data channel must be open"@),
        ),
        Opened::Frame(_) => Some(
            invalid_spec("frame"@, "the first frame on a data channel must be open"@),
        ),
        Opened::Malformed { line, column } => Some(
            invalid_spec(
                "frame"@,
                "invalid open frame at line "@ + decimal_text(line as nat) + " column "@
                    + decimal_text(column as nat),
            ),
        ),
        Opened::Open(_) => None,
    }
}

/// What failed while the listener accepted connections.
#[derive(Clone, Copy, Debug, PartialEq, Eq, Structural)]
pub enum AcceptErrorKind {
    Interrupted,
    WouldBlock,
    Other,
}

/// What the accept loop does after a failure.
#[derive(Clone, Copy, Debug, PartialEq, Eq, Structural)]
pub enum AcceptStep {
    /// Wait this many milliseconds and accept again.
    Backoff { millis: u64 },
    /// Stop accepting.
    Stop,
}

/// Whether a failed accept is worth another try: the process or the system
/// is out of descriptors, or nothing was there to accept.
pub open spec fn accept_is_transient(os_error: Option<i32>, kind: AcceptErrorKind) -> bool {
    ||| os_error == Some(23i32)
    ||| os_error == Some(24i32)
    ||| kind == AcceptErrorKind::Interrupted
    ||| kind == AcceptErrorKind::WouldBlock
}

/// `rand::random::<[u8; 32]>`: any bytes.
#[verifier::external_body]
fn random_bytes() -> [u8; 32] {
    rand::random::<[u8; 32]>()
}

/// `rand::random::<u64>`: any number.
#[verifier::external_body]
fn random_number() -> u64 {
    rand::random::<u64>()
}

/// The token that spells bytes.
pub fn token_of(bytes: &[u8]) -> (token: String)
    ensures
        token@ == hex_text(bytes@),
{
    hex(bytes)
}

/// Whether a text has the shape of a token: 32 bytes in lower-case
/// hexadecimal.
pub open spec fn is_token(token: Seq<char>) -> bool {
    &&& token.len() == 64
    &&& exists|bytes: Seq<u8>| bytes.len() == 32 && token == #[trigger] hex_text(bytes)
}

/// A fresh one-use token: 32 random bytes in hexadecimal.
pub fn random_token() -> (token: String)
    ensures
        is_token(token@),
{
    let bytes = random_bytes();
    let token = token_of(&bytes);
    assert(bytes@.len() == 32);
    token
}

/// The eight bytes of a number, the highest first.
pub open spec fn big_endian(number: u64) -> Seq<u8> {
    Seq::new(8, |i: int| (number >> ((56 - 8 * i) as u64)) as u8)
}

/// The name of the private directory of a process's data socket.
pub open spec fn directory_name(process: u32, number: u64) -> Seq<char> {
    "sandbox-driver-"@ + decimal_text(process as nat) + "-"@ + hex_text(big_endian(number))
}

/// The name of the private directory for a process and a number.
pub fn directory_for(process: u32, number: u64) -> (name: String)
    ensures
        name@ == directory_name(process, number),
{
    let bytes: [u8; 8] = [
        #[verifier::truncate] ((number >> 56u64) as u8),
        #[verifier::truncate] ((number >> 48u64) as u8),
        #[verifier::truncate] ((number >> 40u64) as u8),
        #[verifier::truncate] ((number >> 32u64) as u8),
        #[verifier::truncate] ((number >> 24u64) as u8),
        #[verifier::truncate] ((number >> 16u64) as u8),
        #[verifier::truncate] ((number >> 8u64) as u8),
        #[verifier::truncate] ((number >> 0u64) as u8),
    ];
    assert(bytes@ =~= big_endian(number));
    let mut name = concat3("sandbox-driver-", decimal(process as u64).as_str(), "-");
    name.append(hex(&bytes).as_str());
    name
}

/// The name of a fresh private directory for a process's data socket.
pub fn fresh_directory(process: u32) -> (name: String)
    ensures
        exists|number: u64| name@ == #[trigger] directory_name(process, number),
{
    directory_for(process, random_number())
}

impl ChannelListener {
    /// The budgets count what is registered: every channel with an owner
    /// takes a place, every channel that is not open yet takes an open
    /// place, and a channel that is not open yet has an owner.
    pub open spec fn wf(self) -> bool {
        &&& self.io_budget.wf()
        &&& self.open_budget.wf()
        &&& self.handshake_budget.wf()
        &&& self.io_budget.limit == self.limits.active_io
        &&& self.open_budget.limit == self.limits.pending_opens
        &&& self.handshake_budget.limit == self.limits.unauthenticated_handshakes
        &&& self.holders@.dom().finite()
        &&& self.pending@.dom().finite()
        &&& self.io_budget.used == self.holders@.dom().len()
        &&& self.open_budget.used == self.pending@.dom().len()
        &&& self.pending@.dom().subset_of(self.holders@.dom())
        &&& forall|id: u64| #[trigger] self.holders@.contains_key(id) ==> id < self.next_channel
            && self.holders@[id] > 0
        &&& self.measurements.setup_us@.len() <= SETUP_SAMPLES
    }

    /// A listener on a socket, for one peer, with these limits.
    pub fn bind_with_limits(
        limits: TransportLimits,
        peer: TrustedPeer,
        socket_path: String,
    ) -> (listener: Result<Self, Error>)
        ensures
            match listener {
                Ok(listener) => {
                    &&& limits.refusal() is None
                    &&& listener.wf()
                    &&& listener.limits == limits
                    &&& listener.peer == peer
                    &&& listener.socket_path == socket_path
                    &&& !listener.failed
                    &&& listener.next_channel == 1
                    &&& listener.pending@ == Map::<u64, String>::empty()
                    &&& listener.holders@ == Map::<u64, usize>::empty()
                    &&& listener.handshake_budget.used == 0
                    &&& listener.measurements.setup_us@ == Seq::<u64>::empty()
                    &&& listener.measurements.opened == 0
                    &&& listener.measurements.lost == 0
                    &&& listener.measurements.backoffs == 0
                },
                Err(error) => limits.refusal() == Some(error@),
            },
    {
        limits.validate()?;
        Ok(Self::on_socket(limits, peer, socket_path))
    }

    fn on_socket(limits: TransportLimits, peer: TrustedPeer, socket_path: String) -> (listener: Self)
        ensures
            listener.wf(),
            listener.limits == limits,
            listener.peer == peer,
            listener.socket_path == socket_path,
            !listener.failed,
            listener.next_channel == 1,
            listener.pending@ == Map::<u64, String>::empty(),
            listener.holders@ == Map::<u64, usize>::empty(),
            listener.handshake_budget.used == 0,
            listener.measurements.setup_us@ == Seq::<u64>::empty(),
            listener.measurements.opened == 0,
            listener.measurements.lost == 0,
            listener.measurements.backoffs == 0,
    {
        ChannelListener {
            socket_path,
            peer,
            failed: false,
            next_channel: 1,
            pending: HashMap::new(),
            holders: HashMap::new(),
            io_budget: Budget::new(limits.active_io),
            open_budget: Budget::new(limits.pending_opens),
            handshake_budget: Budget::new(limits.unauthenticated_handshakes),
            measurements: Measurements {
                setup_us: VecDeque::new(),
                opened: 0,
                lost: 0,
                backoffs: 0,
            },
            limits,
        }
    }

    /// A listener on a socket with the usual limits, for channels that this
    /// process opens itself.
    pub fn bind(process: u32, socket_path: String) -> (listener: Self)
        ensures
            listener.wf(),
            listener.peer == TrustedPeer::Process(process),
            listener.socket_path == socket_path,
            !listener.failed,
            listener.limits.is_usual(),
            listener.limits.refusal() is None,
            listener.next_channel == 1,
            listener.pending@ == Map::<u64, String>::empty(),
            listener.holders@ == Map::<u64, usize>::empty(),
            listener.handshake_budget.used == 0,
            listener.measurements.setup_us@ == Seq::<u64>::empty(),
            listener.measurements.opened == 0,
            listener.measurements.lost == 0,
            listener.measurements.backoffs == 0,
    {
        Self::on_socket(TransportLimits::default(), TrustedPeer::Process(process), socket_path)
    }

    /// The transport to announce to the plugin.
    pub fn transport(&self) -> (transport: DataTransport)
        ensures
            transport.socket_path@ == self.socket_path@,
            transport.max_frame_bytes == MAX_FRAME_BYTES,
            transport.open_ack,
    {
        DataTransport {
            socket_path: self.socket_path.clone(),
            max_frame_bytes: MAX_FRAME_BYTES,
            open_ack: true,
        }
    }

    /// The largest payload of a frame.
    pub fn max_frame_bytes(&self) -> (max: u32)
        ensures
            max == MAX_FRAME_BYTES,
    {
        MAX_FRAME_BYTES
    }

    /// What the listener owns and counts.
    pub fn diagnostics(&self) -> (diagnostics: ClientDiagnostics)
        requires
            self.wf(),
        ensures
            diagnostics == (ClientDiagnostics {
                active_io: self.io_budget.used,
                pending_opens: self.open_budget.used,
                handshakes: self.handshake_budget.used,
                accept_backoffs: self.measurements.backoffs,
                authenticated_opens: self.measurements.opened,
                setup_samples_lost: self.measurements.lost,
                ..no_client_diagnostics()
            }),
    {
        let mut diagnostics = ClientDiagnostics::default();
        diagnostics.active_io = self.io_budget.used;
        diagnostics.pending_opens = self.open_budget.used;
        diagnostics.handshakes = self.handshake_budget.used;
        diagnostics.accept_backoffs = self.measurements.backoffs;
        diagnostics.authenticated_opens = self.measurements.opened;
        diagnostics.setup_samples_lost = self.measurements.lost;
        diagnostics
    }

    /// Whether a channel id is left to give.
    pub open spec fn has_ids(self) -> bool {
        self.next_channel < u64::MAX
    }

    /// Why no further channel can be registered.
    pub open spec fn expect_refusal(self) -> Option<ErrorView> {
        if self.failed {
            Some(transport_failure("data listener failed"@))
        } else if self.io_budget.used == self.io_budget.limit {
            Some(overloaded("active_io"@))
        } else if self.open_budget.used == self.open_budget.limit {
            Some(overloaded("pending_opens"@))
        } else {
            None
        }
    }

    /// Everything but the registry, the budgets and the measurements.
    pub open spec fn same_settings(self, other: Self) -> bool {
        &&& self.socket_path == other.socket_path
        &&& self.peer == other.peer
        &&& self.limits == other.limits
    }

    /// What a registration makes of the listener: the channel gets the next
    /// id, one owner and an open place; a refused one changes nothing.
    pub open spec fn expects(
        self,
        after: Self,
        request: Result<ChannelRequest, Error>,
    ) -> bool {
        &&& after.same_settings(self)
        &&& after.failed == self.failed
        &&& after.handshake_budget == self.handshake_budget
        &&& after.measurements == self.measurements
        &&& match request {
            Ok(request) => {
                &&& self.expect_refusal() is None
                &&& request.channel_id == self.next_channel
                &&& after.next_channel == self.next_channel + 1
                &&& after.io_budget.used == self.io_budget.used + 1
                &&& after.open_budget.used == self.open_budget.used + 1
                &&& after.pending@.contains_key(request.channel_id)
                &&& after.pending@[request.channel_id]@ == request.token@
                &&& after.pending@.remove(request.channel_id) == self.pending@
                &&& after.holders@ == self.holders@.insert(request.channel_id, 1)
            },
            Err(error) => {
                &&& self.expect_refusal() == Some(error@)
                &&& after.next_channel == self.next_channel
                &&& after.io_budget.used == self.io_budget.used
                &&& after.open_budget.used == self.open_budget.used
                &&& after.pending@ == self.pending@
                &&& after.holders@ == self.holders@
            },
        }
    }

    /// Registers a channel under a token, for an operation that is about to
    /// request it. The operation owns the channel from then on.
    pub fn expect_with(&mut self, token: String) -> (request: Result<ChannelRequest, Error>)
        requires
            old(self).wf(),
            old(self).expect_refusal() is None ==> old(self).has_ids(),
        ensures
            final(self).wf(),
            old(self).expects(*final(self), request),
            request matches Ok(request) ==> request.token@ == token@,
    {
        if self.failed {
            return Err(Error::transport("data listener failed"));
        }
        acquire(&mut self.io_budget, "active_io")?;
        if let Err(error) = acquire(&mut self.open_budget, "pending_opens") {
            self.io_budget.release(1);
            return Err(error);
        }
        let channel_id: u64 = self.next_channel;
        self.next_channel = channel_id + 1;
        proof {
            assert(!self.holders@.contains_key(channel_id));
            assert(!self.pending@.dom().contains(channel_id));
        }
        self.pending.insert(channel_id, token.clone());
        self.holders.insert(channel_id, 1);
        proof {
            assert(self.pending@.remove(channel_id) =~= old(self).pending@);
        }
        Ok(ChannelRequest { channel_id, token })
    }

    /// Registers a channel under a fresh random token.
    pub fn expect(&mut self) -> (request: Result<ChannelRequest, Error>)
        requires
            old(self).wf(),
            old(self).expect_refusal() is None ==> old(self).has_ids(),
        ensures
            final(self).wf(),
            old(self).expects(*final(self), request),
            request matches Ok(request) ==> is_token(request.token@),
    {
        self.expect_with(random_token())
    }

    /// Which channel a connection opens, or why it is refused.
    pub open spec fn admission(self, credentials: PeerCredentials, opened: Opened) -> Result<
        u64,
        ErrorView,
    > {
        if !self.peer.allows(credentials) {
            Err(invalid_spec("peer"@, "unexpected data channel peer"@))
        } else {
            match opening_refusal(opened) {
                Some(error) => Err(error),
                None => {
                    let request = opened->Open_0.request;
                    if !self.pending@.contains_key(request.channel_id) {
                        Err(
                            invalid_spec(
                                "channel_id"@,
                                "no operation is waiting on channel "@ + decimal_text(
                                    request.channel_id as nat,
                                ),
                            ),
                        )
                    } else if self.pending@[request.channel_id]@ != request.token@ {
                        Err(invalid_spec("token"@, "data channel token mismatch"@))
                    } else {
                        Ok(request.channel_id)
                    }
                },
            }
        }
    }

    /// Whether a channel has room for the owners that opening it adds.
    pub open spec fn has_room_for_halves(self, id: u64) -> bool {
        self.holders@.contains_key(id) ==> self.holders@[id] <= usize::MAX - 2
    }

    /// What a connection makes of the listener: one that is let in uses up
    /// its registration, and its two halves own the channel; a refused one
    /// changes nothing.
    pub open spec fn lets_in(
        self,
        after: Self,
        credentials: PeerCredentials,
        opened: Opened,
        admission: Result<Admission, Error>,
    ) -> bool {
        &&& after.same_settings(self)
        &&& after.failed == self.failed
        &&& after.next_channel == self.next_channel
        &&& after.handshake_budget == self.handshake_budget
        &&& after.measurements == self.measurements
        &&& match admission {
            Ok(admission) => {
                let id = admission.channel_id;
                &&& self.admission(credentials, opened) matches Ok(channel)
                &&& channel == id
                &&& admission.acknowledge == opened->Open_0.acknowledge
                &&& after.pending@ == self.pending@.remove(id)
                &&& after.holders@ == self.holders@.insert(id, (self.holders@[id] + 2) as usize)
            },
            Err(error) => {
                &&& self.admission(credentials, opened) matches Err(refusal)
                &&& refusal == error@
                &&& after.pending@ == self.pending@
                &&& after.holders@ == self.holders@
            },
        }
    }

    /// Authenticates a connection by its peer and its first frame. Its
    /// registration is used up, and the two halves of the connection own the
    /// channel beside the waiting operation. A refused connection changes
    /// nothing.
    pub fn admit_connection(&mut self, credentials: &PeerCredentials, opened: Opened) -> (admission: Result<
        Admission,
        Error,
    >)
        requires
            old(self).wf(),
            opened matches Opened::Open(open) ==> old(self).has_room_for_halves(
                open.request.channel_id,
            ),
        ensures
            final(self).wf(),
            old(self).lets_in(*final(self), *credentials, opened, admission),
    {
        if !self.peer.is_allowed(credentials) {
            return Err(Error::invalid_spec("peer", "unexpected data channel peer"));
        }
        let open = match opened {
            Opened::TimedOut => {
                return Err(Error::transport("data channel open timed out"));
            },
            Opened::Failed(error) => {
                return Err(error);
            },
            Opened::Ended => {
                return Err(
                    Error::invalid_spec("frame", "the first frame on a data channel must be open"),
                );
            },
            Opened::Frame(_) => {
                return Err(
                    Error::invalid_spec("frame", "the first frame on a data channel must be open"),
                );
            },
            Opened::Malformed { line, column } => {
                let mut reason = concat3(
                    "invalid open frame at line ",
                    decimal(line).as_str(),
                    " column ",
                );
                reason.append(decimal(column).as_str());
                return Err(Error::invalid_spec("frame", reason.as_str()));
            },
            Opened::Open(open) => open,
        };
        let channel_id: u64 = open.request.channel_id;
        match self.pending.get(&channel_id) {
            None => {
                let reason = concat2(
                    "no operation is waiting on channel ",
                    decimal(channel_id).as_str(),
                );
                return Err(Error::invalid_spec("channel_id", reason.as_str()));
            },
            Some(token) => {
                if !same_text(token.as_str(), open.request.token.as_str()) {
                    return Err(Error::invalid_spec("token", "data channel token mismatch"));
                }
            },
        }
        assert(self.holders@.contains_key(channel_id));
        let owners: usize = match self.holders.get(&channel_id) {
            Some(owners) => *owners,
            None => 0,
        };
        assert(self.has_room_for_halves(channel_id));
        self.pending.remove(&channel_id);
        self.open_budget.release(1);
        self.holders.insert(channel_id, owners + 2);
        proof {
            assert(self.holders@.dom() =~= old(self).holders@.dom());
        }
        Ok(Admission { channel_id, acknowledge: open.acknowledge })
    }

    /// Takes note of a connection that was handed to its operation, and how
    /// long it took from the registration.
    pub fn record_open(&mut self, elapsed: &Duration)
        requires
            old(self).wf(),
        ensures
            final(self).wf(),
            ({
                let full = old(self).measurements.setup_us@.len() == SETUP_SAMPLES;
                let kept = if full {
                    old(self).measurements.setup_us@.skip(1)
                } else {
                    old(self).measurements.setup_us@
                };
                &&& final(self).measurements.setup_us@ == kept.push(micros_of(nanos_of(*elapsed)))
                &&& final(self).measurements.opened == old(self).measurements.opened.wrapping_add(1)
                &&& final(self).measurements.lost == if full {
                    old(self).measurements.lost.wrapping_add(1)
                } else {
                    old(self).measurements.lost
                }
                &&& final(self).measurements.backoffs == old(self).measurements.backoffs
            }),
            *final(self) == (ChannelListener {
                measurements: final(self).measurements,
                ..*old(self)
            }),
    {
        self.measurements.opened = self.measurements.opened.wrapping_add(1);
        if self.measurements.setup_us.len() == SETUP_SAMPLES {
            self.measurements.setup_us.pop_front();
            assert(self.measurements.setup_us@ =~= old(self).measurements.setup_us@.skip(1));
            self.measurements.lost = self.measurements.lost.wrapping_add(1);
        }
        self.measurements.setup_us.push_back(saturating_micros(elapsed));
    }

    /// Drains at most 4096 recent times from registration to authentication,
    /// in microseconds.
    pub fn take_setup_samples_us(&mut self) -> (samples: Vec<u64>)
        requires
            old(self).wf(),
        ensures
            final(self).wf(),
            samples@ == old(self).measurements.setup_us@,
            samples@.len() <= SETUP_SAMPLES,
            final(self).measurements.setup_us@ == Seq::<u64>::empty(),
            final(self).measurements.opened == old(self).measurements.opened,
            final(self).measurements.lost == old(self).measurements.lost,
            final(self).measurements.backoffs == old(self).measurements.backoffs,
            *final(self) == (ChannelListener {
                measurements: final(self).measurements,
                ..*old(self)
            }),
    {
        let mut queue: VecDeque<u64> = VecDeque::new();
        std::mem::swap(&mut queue, &mut self.measurements.setup_us);
        let ghost all = queue@;
        let mut samples: Vec<u64> = Vec::new();
        while queue.len() > 0
            invariant
                samples@ + queue@ == all,
            decreases queue@.len(),
        {
            let ghost before = queue@;
            let ghost taken = samples@;
            if let Some(sample) = queue.pop_front() {
                samples.push(sample);
                assert(samples@ + queue@ =~= taken + before);
            }
        }
        assert(samples@ =~= all);
        samples
    }

    /// Takes note of a failed accept. Running out of descriptors is
    /// transient, and waiting bounds the retries; anything else fails the
    /// listener and every channel that is not open yet.
    pub fn accept_failed(&mut self, os_error: Option<i32>, kind: AcceptErrorKind) -> (step:
        AcceptStep)
        requires
            old(self).wf(),
        ensures
            final(self).wf(),
            final(self).same_settings(*old(self)),
            final(self).next_channel == old(self).next_channel,
            final(self).holders == old(self).holders,
            final(self).handshake_budget == old(self).handshake_budget,
            final(self).measurements.setup_us == old(self).measurements.setup_us,
            final(self).measurements.opened == old(self).measurements.opened,
            final(self).measurements.lost == old(self).measurements.lost,
            if accept_is_transient(os_error, kind) {
                &&& step == (AcceptStep::Backoff { millis: 50 })
                &&& final(self).measurements.backoffs
                    == old(self).measurements.backoffs.wrapping_add(1)
                &&& final(self).failed == old(self).failed
                &&& final(self).pending == old(self).pending
            } else {
                &&& step == AcceptStep::Stop
                &&& final(self).measurements.backoffs == old(self).measurements.backoffs
                &&& final(self).failed
                &&& final(self).pending@ == Map::<u64, String>::empty()
            },
    {
        let exhausted = match os_error {
            Some(code) => code == 23 || code == 24,
            None => false,
        };
        if exhausted || kind == AcceptErrorKind::Interrupted || kind == AcceptErrorKind::WouldBlock {
            self.measurements.backoffs = self.measurements.backoffs.wrapping_add(1);
            return AcceptStep::Backoff { millis: 50 };
        }
        self.failed = true;
        self.pending.clear();
        let open: usize = self.open_budget.used;
        self.open_budget.release(open);
        AcceptStep::Stop
    }

    /// Whether an accepted connection may start to authenticate itself. One
    /// over the limit is dropped.
    pub fn begin_handshake(&mut self) -> (admitted: bool)
        requires
            old(self).wf(),
        ensures
            final(self).wf(),
            admitted == (old(self).handshake_budget.used < old(self).handshake_budget.limit),
            final(self).handshake_budget.used == old(self).handshake_budget.used + if admitted {
                1int
            } else {
                0int
            },
            *final(self) == (ChannelListener {
                handshake_budget: final(self).handshake_budget,
                ..*old(self)
            }),
    {
        acquire(&mut self.handshake_budget, "unauthenticated_handshakes").is_ok()
    }

    /// A connection is through with authenticating itself.
    pub fn end_handshake(&mut self)
        requires
            old(self).wf(),
            old(self).handshake_budget.used > 0,
        ensures
            final(self).wf(),
            final(self).handshake_budget.used == old(self).handshake_budget.used - 1,
            *final(self) == (ChannelListener {
                handshake_budget: final(self).handshake_budget,
                ..*old(self)
            }),
    {
        self.handshake_budget.release(1);
    }

    /// The owners of a channel with one less: a channel without owners is
    /// gone.
    pub open spec fn holders_without_one(self, id: u64) -> Map<u64, usize> {
        if self.holders@[id] == 1 {
            self.holders@.remove(id)
        } else {
            self.holders@.insert(id, (self.holders@[id] - 1) as usize)
        }
    }

    /// One more owner of a channel: its place stays taken until the last
    /// owner is gone.
    pub fn hold_io(&mut self, channel_id: u64)
        requires
            old(self).wf(),
            old(self).holders@.contains_key(channel_id),
            old(self).holders@[channel_id] < usize::MAX,
        ensures
            final(self).wf(),
            final(self).holders@ == old(self).holders@.insert(
                channel_id,
                (old(self).holders@[channel_id] + 1) as usize,
            ),
            *final(self) == (ChannelListener { holders: final(self).holders, ..*old(self) }),
    {
        let owners: usize = match self.holders.get(&channel_id) {
            Some(owners) => *owners,
            None => 0,
        };
        self.holders.insert(channel_id, owners + 1);
        proof {
            assert(self.holders@.dom() =~= old(self).holders@.dom());
        }
    }

    /// One owner of a channel is gone, other than the operation that waits
    /// for it.
    pub fn drop_hold(&mut self, channel_id: u64)
        requires
            old(self).wf(),
            old(self).holders@.contains_key(channel_id),
            old(self).pending@.contains_key(channel_id) ==> old(self).holders@[channel_id] > 1,
        ensures
            final(self).wf(),
            final(self).holders@ == old(self).holders_without_one(channel_id),
            *final(self) == (ChannelListener {
                holders: final(self).holders,
                io_budget: final(self).io_budget,
                ..*old(self)
            }),
    {
        let owners: usize = match self.holders.get(&channel_id) {
            Some(owners) => *owners,
            None => 0,
        };
        if owners == 1 {
            proof {
                assert(self.holders@.dom().contains(channel_id));
                assert(self.holders@.dom().len() > 0) by {
                    if self.holders@.dom().len() == 0 {
                        assert(self.holders@.dom() =~= Set::empty());
                    }
                }
            }
            self.holders.remove(&channel_id);
            self.io_budget.release(1);
        } else {
            self.holders.insert(channel_id, owners - 1);
            proof {
                assert(self.holders@.dom() =~= old(self).holders@.dom());
            }
        }
    }

    /// One half of an open connection is gone.
    pub fn drop_half(&mut self, channel_id: u64)
        requires
            old(self).wf(),
            old(self).holders@.contains_key(channel_id),
            !old(self).pending@.contains_key(channel_id),
        ensures
            final(self).wf(),
            final(self).holders@ == old(self).holders_without_one(channel_id),
            *final(self) == (ChannelListener {
                holders: final(self).holders,
                io_budget: final(self).io_budget,
                ..*old(self)
            }),
    {
        self.drop_hold(channel_id);
    }

    /// The operation no longer waits for its channel or uses it: a
    /// registration that was not used is forgotten.
    pub fn drop_receiver(&mut self, channel_id: u64)
        requires
            old(self).wf(),
            old(self).holders@.contains_key(channel_id),
        ensures
            final(self).wf(),
            final(self).pending@ == old(self).pending@.remove(channel_id),
            final(self).holders@ == old(self).holders_without_one(channel_id),
            *final(self) == (ChannelListener {
                pending: final(self).pending,
                holders: final(self).holders,
                io_budget: final(self).io_budget,
                open_budget: final(self).open_budget,
                ..*old(self)
            }),
    {
        if self.pending.contains_key(&channel_id) {
            proof {
                assert(self.pending@.dom().contains(channel_id));
                assert(self.pending@.dom().len() > 0) by {
                    if self.pending@.dom().len() == 0 {
                        assert(self.pending@.dom() =~= Set::empty());
                    }
                }
            }
            self.pending.remove(&channel_id);
            self.open_budget.release(1);
        } else {
            assert(self.pending@.remove(channel_id) =~= self.pending@);
        }
        self.drop_hold(channel_id);
    }
}

/// A token opens one channel: once a connection was let in, the same
/// channel is opened by no connection any more, whatever token it brings.
pub proof fn a_registration_is_used_once(
    before: ChannelListener,
    after: ChannelListener,
    credentials: PeerCredentials,
    opened: Opened,
    later: PeerCredentials,
    again: Opened,
)
    requires
        before.admission(credentials, opened) is Ok,
        after.same_settings(before),
        after.pending@ == before.pending@.remove(before.admission(credentials, opened)->Ok_0),
    ensures
        after.admission(later, again) matches Ok(id) ==> id != before.admission(
            credentials,
            opened,
        )->Ok_0,
{
}

/// How many registrations went well.
pub open spec fn registered(outcomes: Seq<Result<ChannelRequest, Error>>) -> nat
    decreases outcomes.len(),
{
    if outcomes.len() == 0 {
        0
    } else {
        registered(outcomes.drop_last()) + if outcomes.last() is Ok {
            1nat
        } else {
            0
        }
    }
}

/// Channels are numbered in turn: whatever is registered on a listener, and
/// whatever else happens to it between two registrations that leaves its
/// count alone, the registration that goes well as the first gives channel 1,
/// the next channel 2, and so on. No id is given twice, and a refused
/// registration takes neither an id nor a place.
pub proof fn channels_are_numbered_in_turn(
    before: Seq<ChannelListener>,
    after: Seq<ChannelListener>,
    outcomes: Seq<Result<ChannelRequest, Error>>,
    at: int,
)
    requires
        before.len() == outcomes.len(),
        after.len() == outcomes.len(),
        0 <= at < outcomes.len(),
        before[0].next_channel == 1,
        forall|i: int| 0 <= i < outcomes.len() ==> (#[trigger] before[i]).expects(after[i], outcomes[i]),
        forall|i: int|
            0 < i < outcomes.len() ==> (#[trigger] before[i]).next_channel == after[i - 1].next_channel,
    ensures
        before[at].next_channel == registered(outcomes.take(at)) + 1,
        outcomes[at] matches Ok(request) ==> request.channel_id == registered(outcomes.take(at)) + 1,
        forall|earlier: int|
            0 <= earlier < at && (#[trigger] outcomes[earlier]) is Ok && outcomes[at] is Ok
                ==> outcomes[earlier]->Ok_0.channel_id < outcomes[at]->Ok_0.channel_id,
        outcomes[at] is Err ==> after[at].next_channel == before[at].next_channel
            && after[at].pending@ == before[at].pending@ && after[at].holders@ == before[at].holders@
            && after[at].io_budget.used == before[at].io_budget.used && after[at].open_budget.used
            == before[at].open_budget.used,
    decreases at,
{
    assert(before[at].expects(after[at], outcomes[at]));
    if at == 0 {
        assert(outcomes.take(0) =~= Seq::empty());
    } else {
        channels_are_numbered_in_turn(before, after, outcomes, at - 1);
        assert(outcomes.take(at).drop_last() =~= outcomes.take(at - 1));
        assert(before[at - 1].expects(after[at - 1], outcomes[at - 1]));
        assert(before[at].next_channel == after[at - 1].next_channel);
        assert forall|earlier: int|
            0 <= earlier < at && (#[trigger] outcomes[earlier]) is Ok && outcomes[at] is Ok implies
            outcomes[earlier]->Ok_0.channel_id < outcomes[at]->Ok_0.channel_id by {
            lemma_ids_are_behind(before, after, outcomes, earlier, at);
        }
    }
}

proof fn lemma_ids_are_behind(
    before: Seq<ChannelListener>,
    after: Seq<ChannelListener>,
    outcomes: Seq<Result<ChannelRequest, Error>>,
    earlier: int,
    at: int,
)
    requires
        before.len() == outcomes.len(),
        after.len() == outcomes.len(),
        0 <= earlier < at < outcomes.len(),
        outcomes[earlier] is Ok,
        forall|i: int| 0 <= i < outcomes.len() ==> (#[trigger] before[i]).expects(after[i], outcomes[i]),
        forall|i: int|
            0 < i < outcomes.len() ==> (#[trigger] before[i]).next_channel == after[i - 1].next_channel,
    ensures
        outcomes[earlier]->Ok_0.channel_id < before[at].next_channel,
    decreases at - earlier,
{
    assert(before[at - 1].expects(after[at - 1], outcomes[at - 1]));
    assert(before[at].next_channel == after[at - 1].next_channel);
    if earlier < at - 1 {
        lemma_ids_are_behind(before, after, outcomes, earlier, at - 1);
    }
}

/// A token opens its channel, and opens it once: a connection that brings
/// another token is refused and uses nothing up, the next one with the right
/// token is let in, and after it none is, whatever token it brings.
pub proof fn a_token_opens_its_channel_once(
    fresh: ChannelListener,
    waiting: ChannelListener,
    kept: ChannelListener,
    used: ChannelListener,
    last: ChannelListener,
    request: ChannelRequest,
    stranger: PeerCredentials,
    forged: Opened,
    refused: Result<Admission, Error>,
    peer: PeerCredentials,
    right: Opened,
    admitted: Result<Admission, Error>,
    later: PeerCredentials,
    replayed: Opened,
    outcome: Result<Admission, Error>,
)
    requires
        fresh.expects(waiting, Ok(request)),
        forged matches Opened::Open(open) && open.request.channel_id == request.channel_id
            && open.request.token@ != request.token@,
        waiting.lets_in(kept, stranger, forged, refused),
        fresh.peer.allows(peer),
        right matches Opened::Open(open) && open.request.channel_id == request.channel_id
            && open.request.token@ == request.token@,
        kept.lets_in(used, peer, right, admitted),
        replayed matches Opened::Open(open) && open.request.channel_id == request.channel_id,
        used.lets_in(last, later, replayed, outcome),
    ensures
        refused is Err,
        kept.pending@ == waiting.pending@,
        admitted matches Ok(admission) && admission.channel_id == request.channel_id,
        outcome is Err,
{
}

/// The channel that is registered next is none that is registered already.
pub proof fn a_fresh_channel_is_new(listener: ChannelListener)
    requires
        listener.wf(),
    ensures
        !listener.pending@.contains_key(listener.next_channel),
        !listener.holders@.contains_key(listener.next_channel),
{
    if listener.pending@.contains_key(listener.next_channel) {
        assert(listener.holders@.dom().contains(listener.next_channel));
    }
}

/// What came of waiting for the plugin's connection.
#[derive(Clone, Copy, Debug, PartialEq, Eq, Structural)]
pub enum AcceptEvent {
    Connected,
    /// No connection came in time.
    TimedOut,
    /// The registration was dropped.
    Dropped,
}

/// Waits for the plugin's connection: what the operation is told.
pub fn accept(event: AcceptEvent) -> (outcome: Result<(), Error>)
    ensures
        match event {
            AcceptEvent::Connected => outcome is Ok,
            AcceptEvent::TimedOut => outcome matches Err(error) && error@ == transport_failure(
                "data channel open timed out"@,
            ),
            AcceptEvent::Dropped => outcome matches Err(error) && error@ == transport_failure(
                "the data channel was dropped before the plugin connected"@,
            ),
        },
{
    match event {
        AcceptEvent::Connected => Ok(()),
        AcceptEvent::TimedOut => Err(Error::transport("data channel open timed out")),
        AcceptEvent::Dropped => Err(
            Error::transport("the data channel was dropped before the plugin connected"),
        ),
    }
}

/// Waits for the plugin's connection beside an operation that already has
/// its answer: `None` where not even the waiting came back in time.
pub fn accept_soon(event: Option<AcceptEvent>) -> (outcome: Result<(), Error>)
    ensures
        match event {
            Some(AcceptEvent::Connected) => outcome is Ok,
            Some(AcceptEvent::TimedOut) => outcome matches Err(error) && error@
                == transport_failure("data channel open timed out"@),
            Some(AcceptEvent::Dropped) => outcome matches Err(error) && error@
                == transport_failure("the data channel was dropped before the plugin connected"@),
            None => outcome matches Err(error) && error@ == transport_failure(
                "the plugin answered an operation without opening its data channel"@,
            ),
        },
{
    match event {
        Some(event) => accept(event),
        None => Err(
            Error::transport("the plugin answered an operation without opening its data channel"),
        ),
    }
}

/// What a connection is refused with whose operation is gone.
pub fn handoff_refusal() -> (error: Error)
    ensures
        error@ == transport_failure("the operation stopped waiting for its data channel"@),
{
    Error::transport("the operation stopped waiting for its data channel")
}

/// The plugin side: the first frame for one request's channel.
pub fn open(transport: &DataTransport, request: &ChannelRequest) -> (frame: OpenFrame)
    ensures
        frame.request == *request,
        frame.acknowledge == transport.open_ack,
{
    OpenFrame { request: request.copy(), acknowledge: transport.open_ack }
}

/// The plugin side: whether the host took the channel. Where an
/// acknowledgment is asked for, only an empty open frame is one.
pub fn check_acknowledgment(
    transport: &DataTransport,
    reply: Option<(FrameKind, Vec<u8>)>,
) -> (outcome: Result<(), Error>)
    ensures
        outcome is Ok <==> !transport.open_ack || (reply matches Some((kind, payload)) && kind
            == FrameKind::Open && payload@.len() == 0),
        outcome matches Err(error) ==> error@ == transport_failure(
            "data channel authentication was not acknowledged"@,
        ),
{
    if !transport.open_ack {
        return Ok(());
    }
    match reply {
        Some((kind, payload)) => {
            if kind == FrameKind::Open && payload.len() == 0 {
                return Ok(());
            }
        },
        None => {},
    }
    Err(Error::transport("data channel authentication was not acknowledged"))
}

/// Only the trusted peer opens channels: the process with the trusted number,
/// whoever runs it, or any process of the trusted user.
pub proof fn only_the_trusted_peer_is_let_in(
    pid: u32,
    uid: u32,
    process: Option<i32>,
    user: u32,
)
    ensures
        TrustedPeer::Process(pid).allows(PeerCredentials { pid: process, uid: user }) <==> process
            is Some && process->Some_0 as int == pid as int,
        TrustedPeer::User(uid).allows(PeerCredentials { pid: process, uid: user }) <==> user
            == uid,
{
}

/// A connection is let in exactly when it comes from the trusted peer, opens
/// with an open frame, and brings the token of a channel that is waited for.
/// It then opens that channel.
pub proof fn a_connection_is_let_in_by_its_token(
    listener: ChannelListener,
    credentials: PeerCredentials,
    opened: Opened,
)
    ensures
        listener.admission(credentials, opened) is Ok <==> {
            &&& listener.peer.allows(credentials)
            &&& opened is Open
            &&& listener.pending@.contains_key(opened->Open_0.request.channel_id)
            &&& listener.pending@[opened->Open_0.request.channel_id]@
                == opened->Open_0.request.token@
        },
        listener.admission(credentials, opened) matches Ok(id) ==> id
            == opened->Open_0.request.channel_id,
        opened matches Opened::Failed(error) ==> listener.peer.allows(credentials)
            ==> listener.admission(credentials, opened) == Err::<u64, ErrorView>(error@),
{
}

/// A connection that is let in uses up its own registration and no other,
/// and its channel gets two more owners; a refused one changes nothing.
pub proof fn a_connection_uses_up_its_own_registration(
    before: ChannelListener,
    after: ChannelListener,
    credentials: PeerCredentials,
    opened: Opened,
    outcome: Result<Admission, Error>,
    other: u64,
)
    requires
        before.lets_in(after, credentials, opened, outcome),
    ensures
        outcome is Ok <==> before.admission(credentials, opened) is Ok,
        outcome matches Ok(admission) ==> {
            &&& !after.pending@.contains_key(admission.channel_id)
            &&& admission.channel_id == opened->Open_0.request.channel_id
            &&& admission.acknowledge == opened->Open_0.acknowledge
            &&& before.holders@[admission.channel_id] <= usize::MAX - 2
                ==> after.holders@[admission.channel_id] == before.holders@[admission.channel_id]
                + 2
            &&& other != admission.channel_id ==> after.pending@.contains_key(other)
                == before.pending@.contains_key(other)
            &&& other != admission.channel_id && before.holders@.contains_key(other)
                ==> after.holders@.contains_key(other) && after.holders@[other]
                == before.holders@[other]
        },
        outcome is Err ==> after.pending@ == before.pending@ && after.holders@ == before.holders@,
        after.next_channel == before.next_channel,
        after.failed == before.failed,
{
}

/// A channel can be registered exactly while the listener works, an operation
/// may still move bytes, and an opening may still be waited for.
pub proof fn a_channel_with_room_is_registered(listener: ChannelListener)
    requires
        listener.wf(),
    ensures
        listener.expect_refusal() is None <==> !listener.failed && listener.io_budget.used
            < listener.limits.active_io && listener.open_budget.used
            < listener.limits.pending_opens,
        listener.failed ==> listener.expect_refusal() matches Some(ErrorView::Transport(_)),
        !listener.failed && listener.expect_refusal() is Some ==> listener.expect_refusal()
            matches Some(ErrorView::Overloaded { .. }),
{
}

/// A channel that is registered is waited for under its token, has one owner
/// and takes one place of each budget, and every other channel stays as it is.
pub proof fn a_registered_channel_is_waited_for(
    before: ChannelListener,
    after: ChannelListener,
    request: ChannelRequest,
    other: u64,
    credentials: PeerCredentials,
    opened: Opened,
)
    requires
        before.expects(after, Ok(request)),
        after.peer.allows(credentials),
        opened matches Opened::Open(open) && open.request.channel_id == request.channel_id
            && open.request.token@ == request.token@,
    ensures
        after.admission(credentials, opened) == Ok::<u64, ErrorView>(request.channel_id),
        after.holders@.contains_key(request.channel_id),
        after.holders@[request.channel_id] == 1,
        after.io_budget.used == before.io_budget.used + 1,
        after.open_budget.used == before.open_budget.used + 1,
        after.next_channel == request.channel_id + 1,
        other != request.channel_id && before.pending@.contains_key(other)
            ==> after.pending@.contains_key(other) && after.pending@[other] == before.pending@[other],
        other != request.channel_id && before.holders@.contains_key(other)
            ==> after.holders@.contains_key(other) && after.holders@[other]
            == before.holders@[other],
{
    assert(after.pending@.remove(request.channel_id).contains_key(other)
        == before.pending@.contains_key(other));
}

/// A channel is gone when its last owner is, and not before; the owners of
/// other channels do not count.
pub proof fn a_channel_goes_with_its_last_owner(listener: ChannelListener, id: u64, other: u64)
    requires
        listener.wf(),
        listener.holders@.contains_key(id),
    ensures
        listener.holders_without_one(id).contains_key(id) <==> listener.holders@[id] > 1,
        listener.holders@[id] > 1 ==> listener.holders_without_one(id)[id] + 1
            == listener.holders@[id],
        other != id ==> listener.holders_without_one(id).contains_key(other)
            == listener.holders@.contains_key(other),
        other != id && listener.holders@.contains_key(other) ==> listener.holders_without_one(
            id,
        )[other] == listener.holders@[other],
{
}

/// Accepting goes on after a lack of descriptors, an interruption or a
/// spurious wake-up, and after nothing else.
pub proof fn accepting_goes_on_after_what_passes(os_error: Option<i32>, kind: AcceptErrorKind)
    ensures
        accept_is_transient(os_error, kind) <==> kind is Interrupted || kind is WouldBlock || (
        os_error is Some && (os_error->Some_0 == 23 || os_error->Some_0 == 24)),
{
}

/// Only an open frame opens a channel: whatever else comes first is refused.
pub proof fn only_an_open_frame_opens(opened: Opened)
    ensures
        opening_refusal(opened) is None <==> opened is Open,
        opened is TimedOut ==> opening_refusal(opened) matches Some(ErrorView::Transport(_)),
        opened matches Opened::Failed(error) ==> opening_refusal(opened) == Some(error@),
        opened is Ended || opened is Frame || opened is Malformed ==> opening_refusal(opened)
            matches Some(ErrorView::InvalidSpec { .. }),
{
}

/// What is still to be sent is what has not left: it is the end of the bytes
/// behind what was sent.
pub proof fn what_is_left_is_the_end(delivery: Delivery)
    requires
        delivery.wf(),
    ensures
        delivery.bytes@.take(delivery.sent as int) + delivery.remaining() == delivery.bytes@,
        delivery.remaining().len() + delivery.sent == delivery.bytes@.len(),
{
    assert(delivery.bytes@.take(delivery.sent as int) + delivery.remaining() =~= delivery.bytes@);
}

/// Two private directories never share a name: their names differ as soon as
/// the numbers drawn for them do.
pub proof fn private_directories_differ(process: u32, first: u64, second: u64)
    requires
        directory_name(process, first) == directory_name(process, second),
    ensures
        first == second,
{
    let start = "sandbox-driver-"@ + decimal_text(process as nat) + "-"@;
    let a = hex_text(big_endian(first));
    let b = hex_text(big_endian(second));
    assert((start + a).skip(start.len() as int) =~= a);
    assert((start + b).skip(start.len() as int) =~= b);
    crate::text::hex_is_injective(big_endian(first), big_endian(second));
    lemma_big_endian_is_injective(first, second);
}

proof fn lemma_big_endian_is_injective(first: u64, second: u64)
    requires
        big_endian(first) == big_endian(second),
    ensures
        first == second,
{
    assert(big_endian(first)[0] == (first >> 56u64) as u8);
    assert(big_endian(second)[0] == (second >> 56u64) as u8);
    assert(big_endian(first)[1] == (first >> 48u64) as u8);
    assert(big_endian(second)[1] == (second >> 48u64) as u8);
    assert(big_endian(first)[2] == (first >> 40u64) as u8);
    assert(big_endian(second)[2] == (second >> 40u64) as u8);
    assert(big_endian(first)[3] == (first >> 32u64) as u8);
    assert(big_endian(second)[3] == (second >> 32u64) as u8);
    assert(big_endian(first)[4] == (first >> 24u64) as u8);
    assert(big_endian(second)[4] == (second >> 24u64) as u8);
    assert(big_endian(first)[5] == (first >> 16u64) as u8);
    assert(big_endian(second)[5] == (second >> 16u64) as u8);
    assert(big_endian(first)[6] == (first >> 8u64) as u8);
    assert(big_endian(second)[6] == (second >> 8u64) as u8);
    assert(big_endian(first)[7] == (first >> 0u64) as u8);
    assert(big_endian(second)[7] == (second >> 0u64) as u8);
    assert(first == second) by (bit_vector)
        requires
            (first >> 56u64) as u8 == (second >> 56u64) as u8,
            (first >> 48u64) as u8 == (second >> 48u64) as u8,
            (first >> 40u64) as u8 == (second >> 40u64) as u8,
            (first >> 32u64) as u8 == (second >> 32u64) as u8,
            (first >> 24u64) as u8 == (second >> 24u64) as u8,
            (first >> 16u64) as u8 == (second >> 16u64) as u8,
            (first >> 8u64) as u8 == (second >> 8u64) as u8,
            (first >> 0u64) as u8 == (second >> 0u64) as u8,
    ;
}

/// A listener gives ids until the last, and a channel has room for both
/// halves of its connection unless its owners have been counted to the end.
pub proof fn ids_and_owners_last(listener: ChannelListener, id: u64)
    ensures
        listener.has_ids() <==> listener.next_channel < u64::MAX,
        listener.has_room_for_halves(id) <==> !listener.holders@.contains_key(id)
            || listener.holders@[id] + 2 <= usize::MAX,
{
}

/// Listeners with the same settings listen on one socket, for one peer,
/// within the same limits.
pub proof fn settings_are_the_socket_the_peer_and_the_limits(
    a: ChannelListener,
    b: ChannelListener,
)
    ensures
        a.same_settings(b) <==> a.socket_path == b.socket_path && a.peer == b.peer && a.limits
            == b.limits,
{
}

/// A token is 64 lower-case hexadecimal digits.
pub proof fn a_token_is_hexadecimal(token: Seq<char>, at: int)
    requires
        is_token(token),
        0 <= at < token.len(),
    ensures
        token.len() == 64,
        48 <= token[at] as u32 <= 57 || 97 <= token[at] as u32 <= 102,
{
    let bytes = choose|bytes: Seq<u8>| bytes.len() == 32 && token == #[trigger] hex_text(bytes);
    let byte = bytes[at / 2];
    assert(0 <= byte / 16 < 16 && 0 <= byte % 16 < 16);
    assert(token[at] == crate::text::nibble_char(
        if at % 2 == 0 {
            (byte / 16) as nat
        } else {
            (byte % 16) as nat
        },
    ));
}

} // verus!
