//! Finite, per-connection transport budgets. Admission never waits for
//! capacity.

use crate::driver::{invalid_spec, nanos_of, overloaded, Error, ErrorView};
use crate::methods as m;
use crate::text::same_text;
use std::time::Duration;
use tokio::sync::Semaphore;
use vstd::prelude::*;

verus! {

/// Limits for one connection between a host and a plugin. Both peers enforce
/// their own.
#[derive(Clone, Copy, Debug)]
pub struct TransportLimits {
    pub active_io: usize,
    pub pending_opens: usize,
    pub unauthenticated_handshakes: usize,
    pub provider_requests: usize,
    pub reserved_requests: usize,
    pub control_message_bytes: usize,
    pub queued_control_bytes: usize,
    pub reserved_control_bytes: usize,
    pub event_queue_bytes: usize,
    pub event_queue_messages: usize,
    pub retained_output_bytes: usize,
    pub buffered_value_bytes: usize,
    pub cached_handles: usize,
    pub output_progress_timeout: Duration,
    pub hard_cancel_drain_timeout: Duration,
    pub open_timeout: Duration,
    pub shutdown_timeout: Duration,
}

impl Default for TransportLimits {
    fn default() -> (limits: Self)
        ensures
            limits.is_usual(),
            limits.refusal() is None,
    {
        TransportLimits {
            active_io: 1024,
            pending_opens: 1024,
            unauthenticated_handshakes: 64,
            provider_requests: 2048,
            reserved_requests: 64,
            control_message_bytes: 1024 * 1024,
            queued_control_bytes: 8 * 1024 * 1024,
            reserved_control_bytes: 1024 * 1024,
            event_queue_bytes: 1024 * 1024,
            event_queue_messages: 256,
            retained_output_bytes: 16 * 1024 * 1024,
            buffered_value_bytes: 16 * 1024 * 1024,
            cached_handles: 4096,
            output_progress_timeout: Duration::from_millis(30_000),
            hard_cancel_drain_timeout: Duration::from_millis(5_000),
            open_timeout: Duration::from_millis(10_000),
            shutdown_timeout: Duration::from_millis(5_000),
        }
    }
}

/// The nanoseconds of a second.
pub const NANOS_PER_SECOND: u128 = 1_000_000_000;

/// The longest a timeout may be: a day.
pub const LONGEST_TIMEOUT_NANOS: u128 = 86_400_000_000_000;

/// `Semaphore::MAX_PERMITS`: the most permits a tokio semaphore can hold,
/// all bits of a word but the upper three.
#[verifier::external_body]
fn max_permits() -> (permits: usize)
    ensures
        permits == usize::MAX / 8,
{
    Semaphore::MAX_PERMITS
}

/// Whether a limit is positive and fits a semaphore and 32 bits.
pub open spec fn fits_budget(value: usize) -> bool {
    0 < value <= usize::MAX / 8 && value <= u32::MAX
}

/// Whether a timeout is positive and at most a day.
pub open spec fn fits_timeout(timeout: Duration) -> bool {
    0 < nanos_of(timeout) <= LONGEST_TIMEOUT_NANOS
}

/// The refusal of a budget that is zero or too large.
pub open spec fn budget_refusal(name: Seq<char>) -> ErrorView {
    invalid_spec(name, "must be positive and fit the transport budget"@)
}

/// The refusal of a timeout that is zero or too long.
pub open spec fn timeout_refusal(name: Seq<char>) -> ErrorView {
    invalid_spec(name, "must be positive and at most one day"@)
}

fn check_budget(name: &str, value: usize) -> (outcome: Result<(), Error>)
    ensures
        outcome is Ok <==> fits_budget(value),
        outcome matches Err(error) ==> error@ == budget_refusal(name@),
{
    if value == 0 || value > max_permits() || value > u32::MAX as usize {
        Err(Error::invalid_spec(name, "must be positive and fit the transport budget"))
    } else {
        Ok(())
    }
}

fn check_timeout(name: &str, timeout: &Duration) -> (outcome: Result<(), Error>)
    ensures
        outcome is Ok <==> fits_timeout(*timeout),
        outcome matches Err(error) ==> error@ == timeout_refusal(name@),
{
    let nanos: u128 = timeout.as_nanos();
    if nanos == 0 || nanos > LONGEST_TIMEOUT_NANOS {
        Err(Error::invalid_spec(name, "must be positive and at most one day"))
    } else {
        Ok(())
    }
}

impl TransportLimits {
    /// Whether these are the limits of a connection that asks for none.
    pub open spec fn is_usual(self) -> bool {
        &&& self.active_io == 1024
        &&& self.pending_opens == 1024
        &&& self.unauthenticated_handshakes == 64
        &&& self.provider_requests == 2048
        &&& self.reserved_requests == 64
        &&& self.control_message_bytes == 1024 * 1024
        &&& self.queued_control_bytes == 8 * 1024 * 1024
        &&& self.reserved_control_bytes == 1024 * 1024
        &&& self.event_queue_bytes == 1024 * 1024
        &&& self.event_queue_messages == 256
        &&& self.retained_output_bytes == 16 * 1024 * 1024
        &&& self.buffered_value_bytes == 16 * 1024 * 1024
        &&& self.cached_handles == 4096
        &&& nanos_of(self.output_progress_timeout) == 30 * NANOS_PER_SECOND
        &&& nanos_of(self.hard_cancel_drain_timeout) == 5 * NANOS_PER_SECOND
        &&& nanos_of(self.open_timeout) == 10 * NANOS_PER_SECOND
        &&& nanos_of(self.shutdown_timeout) == 5 * NANOS_PER_SECOND
    }

    /// Why the limits cannot be used: the first field that is out of range.
    pub open spec fn refusal(self) -> Option<ErrorView> {
        if !fits_budget(self.active_io) {
            Some(budget_refusal("active_io"@))
        } else if !fits_budget(self.pending_opens) {
            Some(budget_refusal("pending_opens"@))
        } else if !fits_budget(self.unauthenticated_handshakes) {
            Some(budget_refusal("unauthenticated_handshakes"@))
        } else if !fits_budget(self.provider_requests) {
            Some(budget_refusal("provider_requests"@))
        } else if !fits_budget(self.reserved_requests) {
            Some(budget_refusal("reserved_requests"@))
        } else if !fits_budget(self.control_message_bytes) {
            Some(budget_refusal("control_message_bytes"@))
        } else if !fits_budget(self.queued_control_bytes) {
            Some(budget_refusal("queued_control_bytes"@))
        } else if !fits_budget(self.reserved_control_bytes) {
            Some(budget_refusal("reserved_control_bytes"@))
        } else if !fits_budget(self.event_queue_bytes) {
            Some(budget_refusal("event_queue_bytes"@))
        } else if !fits_budget(self.event_queue_messages) {
            Some(budget_refusal("event_queue_messages"@))
        } else if !fits_budget(self.retained_output_bytes) {
            Some(budget_refusal("retained_output_bytes"@))
        } else if !fits_budget(self.buffered_value_bytes) {
            Some(budget_refusal("buffered_value_bytes"@))
        } else if !fits_budget(self.cached_handles) {
            Some(budget_refusal("cached_handles"@))
        } else if !fits_timeout(self.output_progress_timeout) {
            Some(timeout_refusal("output_progress_timeout"@))
        } else if !fits_timeout(self.hard_cancel_drain_timeout) {
            Some(timeout_refusal("hard_cancel_drain_timeout"@))
        } else if !fits_timeout(self.open_timeout) {
            Some(timeout_refusal("open_timeout"@))
        } else if !fits_timeout(self.shutdown_timeout) {
            Some(timeout_refusal("shutdown_timeout"@))
        } else {
            None
        }
    }

    /// Refuses limits that are zero or too large to be kept.
    pub fn validate(&self) -> (outcome: Result<(), Error>)
        ensures
            match outcome {
                Ok(()) => self.refusal() is None,
                Err(error) => self.refusal() == Some(error@),
            },
    {
        check_budget("active_io", self.active_io)?;
        check_budget("pending_opens", self.pending_opens)?;
        check_budget("unauthenticated_handshakes", self.unauthenticated_handshakes)?;
        check_budget("provider_requests", self.provider_requests)?;
        check_budget("reserved_requests", self.reserved_requests)?;
        check_budget("control_message_bytes", self.control_message_bytes)?;
        check_budget("queued_control_bytes", self.queued_control_bytes)?;
        check_budget("reserved_control_bytes", self.reserved_control_bytes)?;
        check_budget("event_queue_bytes", self.event_queue_bytes)?;
        check_budget("event_queue_messages", self.event_queue_messages)?;
        check_budget("retained_output_bytes", self.retained_output_bytes)?;
        check_budget("buffered_value_bytes", self.buffered_value_bytes)?;
        check_budget("cached_handles", self.cached_handles)?;
        check_timeout("output_progress_timeout", &self.output_progress_timeout)?;
        check_timeout("hard_cancel_drain_timeout", &self.hard_cancel_drain_timeout)?;
        check_timeout("open_timeout", &self.open_timeout)?;
        check_timeout("shutdown_timeout", &self.shutdown_timeout)?;
        Ok(())
    }
}

/// A number of permits of which some are taken.
#[derive(Clone, Copy, Debug)]
pub struct Budget {
    pub limit: usize,
    pub used: usize,
}

impl Budget {
    /// No more permits are taken than there are.
    pub open spec fn wf(self) -> bool {
        self.used <= self.limit
    }

    /// A budget of which nothing is taken.
    pub fn new(limit: usize) -> (budget: Self)
        ensures
            budget == (Budget { limit, used: 0 }),
            budget.wf(),
    {
        Budget { limit, used: 0 }
    }

    /// How many permits can still be taken.
    pub fn available(&self) -> (permits: usize)
        requires
            self.wf(),
        ensures
            permits == self.limit - self.used,
    {
        self.limit - self.used
    }

    /// Takes several permits at once, or none and refuses in the name of the
    /// limit.
    pub fn acquire_many(&mut self, permits: usize, limit: &str) -> (outcome: Result<(), Error>)
        requires
            old(self).wf(),
        ensures
            final(self).wf(),
            final(self).limit == old(self).limit,
            match outcome {
                Ok(()) => {
                    &&& old(self).used + permits <= old(self).limit
                    &&& final(self).used == old(self).used + permits
                },
                Err(error) => {
                    &&& old(self).used + permits > old(self).limit
                    &&& *final(self) == *old(self)
                    &&& error@ == overloaded(limit@)
                },
            },
    {
        if permits > self.limit - self.used {
            return Err(Error::overloaded(limit));
        }
        self.used = self.used + permits;
        Ok(())
    }

    /// Gives permits back.
    pub fn release(&mut self, permits: usize)
        requires
            old(self).wf(),
            permits <= old(self).used,
        ensures
            final(self).wf(),
            final(self).limit == old(self).limit,
            final(self).used == old(self).used - permits,
    {
        self.used = self.used - permits;
    }
}

/// Takes one permit of a budget, or refuses in the name of the limit.
pub fn acquire(budget: &mut Budget, limit: &str) -> (outcome: Result<(), Error>)
    requires
        old(budget).wf(),
    ensures
        final(budget).wf(),
        final(budget).limit == old(budget).limit,
        match outcome {
            Ok(()) => {
                &&& old(budget).used < old(budget).limit
                &&& final(budget).used == old(budget).used + 1
            },
            Err(error) => {
                &&& old(budget).used == old(budget).limit
                &&& *final(budget) == *old(budget)
                &&& error@ == overloaded(limit@)
            },
        },
{
    budget.acquire_many(1, limit)
}

/// Whether a method runs on the reserved budget, which ordinary work cannot
/// exhaust.
pub open spec fn is_reserved(method: Seq<char>) -> bool {
    ||| method == m::EXEC_STOP@
    ||| method == m::EXEC_STDIO_TERMINATE@
    ||| method == m::PTY_CLOSE@
    ||| method == m::STREAM_CANCEL@
    ||| method == m::SHUTDOWN@
    ||| method == m::SANDBOX_STOP@
    ||| method == m::SANDBOX_DELETE@
    ||| method == m::TRANSPORT_DIAGNOSTICS@
    ||| method == m::PROVIDER_HEALTH@
}

/// Whether a method runs on the reserved budget.
pub fn reserved(method: &str) -> (yes: bool)
    ensures
        yes == is_reserved(method@),
{
    same_text(method, m::EXEC_STOP) || same_text(method, m::EXEC_STDIO_TERMINATE) || same_text(
        method,
        m::PTY_CLOSE,
    ) || same_text(method, m::STREAM_CANCEL) || same_text(method, m::SHUTDOWN) || same_text(
        method,
        m::SANDBOX_STOP,
    ) || same_text(method, m::SANDBOX_DELETE) || same_text(method, m::TRANSPORT_DIAGNOSTICS)
        || same_text(method, m::PROVIDER_HEALTH)
}

/// Whether a method moves bytes over a data channel.
pub open spec fn moves_bytes(method: Seq<char>) -> bool {
    ||| method == m::EXEC_STREAM@
    ||| method == m::ONE_SHOT_RUN@
    ||| method == m::EXEC_STDIO_OPEN@
    ||| method == m::PTY_OPEN@
    ||| method == m::LOGS_FOLLOW@
    ||| method == m::FS_READ@
    ||| method == m::FS_WRITE@
    ||| method == m::SNAPSHOT_BUILD_LOGS@
}

/// Whether a method moves bytes over a data channel.
pub fn uses_io(method: &str) -> (yes: bool)
    ensures
        yes == moves_bytes(method@),
{
    same_text(method, m::EXEC_STREAM) || same_text(method, m::ONE_SHOT_RUN) || same_text(
        method,
        m::EXEC_STDIO_OPEN,
    ) || same_text(method, m::PTY_OPEN) || same_text(method, m::LOGS_FOLLOW) || same_text(
        method,
        m::FS_READ,
    ) || same_text(method, m::FS_WRITE) || same_text(method, m::SNAPSHOT_BUILD_LOGS)
}

/// No method that stops or inspects work waits behind the bytes of other
/// work: the reserved methods use no data channel.
pub proof fn reserved_methods_move_no_bytes(method: Seq<char>)
    ensures
        !(is_reserved(method) && moves_bytes(method)),
{
    reveal_strlit("exec/stop");
    reveal_strlit("exec/stdio_terminate");
    reveal_strlit("pty/close");
    reveal_strlit("stream/cancel");
    reveal_strlit("shutdown");
    reveal_strlit("sandbox/stop");
    reveal_strlit("sandbox/delete");
    reveal_strlit("transport/diagnostics");
    reveal_strlit("provider/health");
    reveal_strlit("exec/stream");
    reveal_strlit("one_shot/run");
    reveal_strlit("exec/stdio_open");
    reveal_strlit("pty/open");
    reveal_strlit("logs/follow");
    reveal_strlit("fs/read");
    reveal_strlit("fs/write");
    reveal_strlit("snapshot/build_logs");
    assert(m::EXEC_STOP@.len() == 9);
    assert(m::EXEC_STDIO_TERMINATE@.len() == 20);
    assert(m::PTY_CLOSE@.len() == 9);
    assert(m::STREAM_CANCEL@.len() == 13);
    assert(m::SHUTDOWN@.len() == 8);
    assert(m::SANDBOX_STOP@.len() == 12);
    assert(m::SANDBOX_DELETE@.len() == 14);
    assert(m::TRANSPORT_DIAGNOSTICS@.len() == 21);
    assert(m::PROVIDER_HEALTH@.len() == 15);
    assert(m::EXEC_STREAM@.len() == 11);
    assert(m::ONE_SHOT_RUN@.len() == 12);
    assert(m::EXEC_STDIO_OPEN@.len() == 15);
    assert(m::PTY_OPEN@.len() == 8);
    assert(m::LOGS_FOLLOW@.len() == 11);
    assert(m::FS_READ@.len() == 7);
    assert(m::FS_WRITE@.len() == 8);
    assert(m::SNAPSHOT_BUILD_LOGS@.len() == 19);
    assert(m::SHUTDOWN@[0] != m::PTY_OPEN@[0]);
    assert(m::SHUTDOWN@[0] != m::FS_WRITE@[0]);
    assert(m::SANDBOX_STOP@[0] != m::ONE_SHOT_RUN@[0]);
    assert(m::PROVIDER_HEALTH@[0] != m::EXEC_STDIO_OPEN@[0]);
}

/// Limits are usable exactly when every count is positive and fits both 32
/// bits and a semaphore, and every time is positive and at most a day. Limits
/// that are not are refused as an invalid field.
pub proof fn usable_limits_are_positive_and_bounded(limits: TransportLimits)
    ensures
        limits.refusal() is None <==> {
            let most = if usize::MAX / 8 < u32::MAX {
                usize::MAX / 8
            } else {
                u32::MAX as usize
            };
            let day: nat = 86_400_000_000_000;
            &&& 1 <= limits.active_io <= most
            &&& 1 <= limits.pending_opens <= most
            &&& 1 <= limits.unauthenticated_handshakes <= most
            &&& 1 <= limits.provider_requests <= most
            &&& 1 <= limits.reserved_requests <= most
            &&& 1 <= limits.control_message_bytes <= most
            &&& 1 <= limits.queued_control_bytes <= most
            &&& 1 <= limits.reserved_control_bytes <= most
            &&& 1 <= limits.event_queue_bytes <= most
            &&& 1 <= limits.event_queue_messages <= most
            &&& 1 <= limits.retained_output_bytes <= most
            &&& 1 <= limits.buffered_value_bytes <= most
            &&& 1 <= limits.cached_handles <= most
            &&& 1 <= nanos_of(limits.output_progress_timeout) <= day
            &&& 1 <= nanos_of(limits.hard_cancel_drain_timeout) <= day
            &&& 1 <= nanos_of(limits.open_timeout) <= day
            &&& 1 <= nanos_of(limits.shutdown_timeout) <= day
        },
        limits.refusal() matches Some(error) ==> error is InvalidSpec,
        limits.is_usual() ==> limits.refusal() is None,
{
}

/// Among usable limits, the one that is set to zero or to too much is the one
/// that is refused, by its name.
pub proof fn a_limit_is_refused_by_its_name(limits: TransportLimits, bad: usize, time: Duration)
    requires
        limits.refusal() is None,
        bad == 0 || bad > u32::MAX || bad > usize::MAX / 8,
        nanos_of(time) == 0 || nanos_of(time) > 86_400_000_000_000,
    ensures
        (TransportLimits { active_io: bad, ..limits }).refusal() == Some(
            budget_refusal("active_io"@),
        ),
        (TransportLimits { pending_opens: bad, ..limits }).refusal() == Some(
            budget_refusal("pending_opens"@),
        ),
        (TransportLimits { unauthenticated_handshakes: bad, ..limits }).refusal() == Some(
            budget_refusal("unauthenticated_handshakes"@),
        ),
        (TransportLimits { provider_requests: bad, ..limits }).refusal() == Some(
            budget_refusal("provider_requests"@),
        ),
        (TransportLimits { reserved_requests: bad, ..limits }).refusal() == Some(
            budget_refusal("reserved_requests"@),
        ),
        (TransportLimits { control_message_bytes: bad, ..limits }).refusal() == Some(
            budget_refusal("control_message_bytes"@),
        ),
        (TransportLimits { queued_control_bytes: bad, ..limits }).refusal() == Some(
            budget_refusal("queued_control_bytes"@),
        ),
        (TransportLimits { reserved_control_bytes: bad, ..limits }).refusal() == Some(
            budget_refusal("reserved_control_bytes"@),
        ),
        (TransportLimits { event_queue_bytes: bad, ..limits }).refusal() == Some(
            budget_refusal("event_queue_bytes"@),
        ),
        (TransportLimits { event_queue_messages: bad, ..limits }).refusal() == Some(
            budget_refusal("event_queue_messages"@),
        ),
        (TransportLimits { retained_output_bytes: bad, ..limits }).refusal() == Some(
            budget_refusal("retained_output_bytes"@),
        ),
        (TransportLimits { buffered_value_bytes: bad, ..limits }).refusal() == Some(
            budget_refusal("buffered_value_bytes"@),
        ),
        (TransportLimits { cached_handles: bad, ..limits }).refusal() == Some(
            budget_refusal("cached_handles"@),
        ),
        (TransportLimits { output_progress_timeout: time, ..limits }).refusal() == Some(
            timeout_refusal("output_progress_timeout"@),
        ),
        (TransportLimits { hard_cancel_drain_timeout: time, ..limits }).refusal() == Some(
            timeout_refusal("hard_cancel_drain_timeout"@),
        ),
        (TransportLimits { open_timeout: time, ..limits }).refusal() == Some(
            timeout_refusal("open_timeout"@),
        ),
        (TransportLimits { shutdown_timeout: time, ..limits }).refusal() == Some(
            timeout_refusal("shutdown_timeout"@),
        ),
{
}

/// The limits of a connection that asks for none.
pub proof fn the_usual_limits(limits: TransportLimits)
    requires
        limits.is_usual(),
    ensures
        limits.active_io == 1024,
        limits.pending_opens == 1024,
        limits.unauthenticated_handshakes == 64,
        limits.provider_requests == 2048,
        limits.reserved_requests == 64,
        limits.control_message_bytes == 1_048_576,
        limits.queued_control_bytes == 8_388_608,
        limits.reserved_control_bytes == 1_048_576,
        limits.event_queue_bytes == 1_048_576,
        limits.event_queue_messages == 256,
        limits.retained_output_bytes == 16_777_216,
        limits.buffered_value_bytes == 16_777_216,
        limits.cached_handles == 4096,
        nanos_of(limits.output_progress_timeout) == 30_000_000_000,
        nanos_of(limits.hard_cancel_drain_timeout) == 5_000_000_000,
        nanos_of(limits.open_timeout) == 10_000_000_000,
        nanos_of(limits.shutdown_timeout) == 5_000_000_000,
{
}

} // verus!
