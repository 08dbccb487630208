//! The secondary side: delivering one message to the primary's channel,
//! retrying while the channel is busy, within an overall deadline.
use vstd::prelude::*;
use crate::framing::{ensure_payload, framed};
use crate::instance::IpcError;

verus! {

/// Overall deadline of a delivery, in milliseconds from its start.
pub const IPC_CONNECT_TIMEOUT_MS: u64 = 500;

/// Delay between two attempts to open a busy channel, in milliseconds.
pub const IPC_RETRY_DELAY_MS: u64 = 20;

/// What an attempt to open the channel for writing reported.
#[derive(Clone, Copy, Debug, PartialEq, Eq, Structural)]
pub enum ConnectOutcome {
    /// The channel is open for writing.
    Connected,
    /// Another client occupies the only listening instance.
    PipeBusy,
    /// No listening instance exists under the channel's name.
    NotFound,
    /// Any other error.
    Failed,
}

/// What the delivering process does next.
#[derive(Clone, Copy, Debug, PartialEq, Eq, Structural)]
pub enum DeliveryStep {
    /// Write the whole message in one call, flush and close.
    WritePayload,
    /// Wait up to the retry delay for a free instance, sleep the retry delay,
    /// and try to open the channel again.
    WaitAndRetry,
    /// Stop with this error.
    GiveUp(IpcError),
}

/// The next step after an attempt that reported `outcome`, `elapsed_ms`
/// milliseconds after the delivery started.
pub open spec fn delivery_step(outcome: ConnectOutcome, elapsed_ms: u64) -> DeliveryStep {
    match outcome {
        ConnectOutcome::Connected => DeliveryStep::WritePayload,
        ConnectOutcome::NotFound => DeliveryStep::GiveUp(IpcError::DeliveryUnreachable),
        ConnectOutcome::Failed => DeliveryStep::GiveUp(IpcError::DeliveryFailed),
        ConnectOutcome::PipeBusy => if elapsed_ms >= IPC_CONNECT_TIMEOUT_MS {
            DeliveryStep::GiveUp(IpcError::DeliveryTimeout)
        } else {
            DeliveryStep::WaitAndRetry
        },
    }
}

/// One delivery of a message to the running primary.
pub struct Delivery {
    message: Vec<u8>,
}

impl View for Delivery {
    /// The bytes that go on the wire.
    type V = Seq<u8>;

    closed spec fn view(&self) -> Seq<u8> {
        self.message@
    }
}

/// Starts the delivery of `payload` to the running primary: the message to
/// write is the payload with its zero terminator. The caller then opens the
/// channel, reports each attempt to [`Delivery::on_connect`] and does what it
/// answers.
pub fn signal_running_instance(payload: &[u8]) -> (r: Delivery)
    ensures
        r@ == framed(payload@),
{
    Delivery { message: ensure_payload(payload) }
}

impl Delivery {
    /// The bytes to write once the channel is open.
    pub fn message(&self) -> (r: &[u8])
        ensures
            r@ == self@,
    {
        self.message.as_slice()
    }

    /// Decides what follows an attempt to open the channel: write when it is
    /// open; retry while it is busy and the deadline has not passed; give up
    /// when no listener exists, on any other error, or at the deadline.
    pub fn on_connect(&self, outcome: ConnectOutcome, elapsed_ms: u64) -> (r: DeliveryStep)
        ensures
            r == delivery_step(outcome, elapsed_ms),
    {
        match outcome {
            ConnectOutcome::Connected => DeliveryStep::WritePayload,
            ConnectOutcome::NotFound => DeliveryStep::GiveUp(IpcError::DeliveryUnreachable),
            ConnectOutcome::Failed => DeliveryStep::GiveUp(IpcError::DeliveryFailed),
            ConnectOutcome::PipeBusy => {
                if elapsed_ms >= IPC_CONNECT_TIMEOUT_MS {
                    DeliveryStep::GiveUp(IpcError::DeliveryTimeout)
                } else {
                    DeliveryStep::WaitAndRetry
                }
            },
        }
    }

    /// The result of the delivery once the message was written: success when
    /// the write and the flush went through.
    pub fn on_write(&self, written: bool) -> (r: Result<(), IpcError>)
        ensures
            written ==> r == Ok::<(), IpcError>(()),
            !written ==> r == Err::<(), IpcError>(IpcError::DeliveryFailed),
    {
        if written {
            Ok(())
        } else {
            Err(IpcError::DeliveryFailed)
        }
    }
}

/// A delivery against a primary that is gone (its channel is not found, or
/// stays busy) ends with `DeliveryUnreachable` or `DeliveryTimeout`, and no
/// attempt made at or past the deadline is ever retried.
pub proof fn lemma_delivery_ends_at_deadline(outcome: ConnectOutcome, elapsed_ms: u64)
    ensures
        outcome == ConnectOutcome::NotFound ==> delivery_step(outcome, elapsed_ms)
            == DeliveryStep::GiveUp(IpcError::DeliveryUnreachable),
        outcome == ConnectOutcome::PipeBusy ==> delivery_step(outcome, elapsed_ms)
            == DeliveryStep::WaitAndRetry || delivery_step(outcome, elapsed_ms)
            == DeliveryStep::GiveUp(IpcError::DeliveryTimeout),
        delivery_step(outcome, elapsed_ms) == DeliveryStep::WaitAndRetry ==> elapsed_ms
            < IPC_CONNECT_TIMEOUT_MS,
{
}

/// With a clock that advances at least the retry delay between attempts, a
/// delivery retries at most deadline / delay times in a row: it cannot hang.
pub proof fn lemma_retries_bounded(outcomes: Seq<ConnectOutcome>, times: Seq<u64>)
    requires
        outcomes.len() == times.len(),
        forall|i: int|
            0 <= i < times.len() - 1 ==> times[i + 1] >= #[trigger] times[i] + IPC_RETRY_DELAY_MS,
        forall|i: int|
            0 <= i < outcomes.len() ==> delivery_step(#[trigger] outcomes[i], times[i])
                == DeliveryStep::WaitAndRetry,
    ensures
        outcomes.len() <= IPC_CONNECT_TIMEOUT_MS / IPC_RETRY_DELAY_MS,
{
    if times.len() > 0 {
        let last = times.len() - 1;
        lemma_times_grow(times, last);
        assert(delivery_step(outcomes[last], times[last]) == DeliveryStep::WaitAndRetry);
        assert(times[last] < 500);
    }
}

proof fn lemma_times_grow(times: Seq<u64>, k: int)
    requires
        0 <= k < times.len(),
        forall|i: int|
            0 <= i < times.len() - 1 ==> times[i + 1] >= #[trigger] times[i] + IPC_RETRY_DELAY_MS,
    ensures
        times[k] >= times[0] + k * IPC_RETRY_DELAY_MS,
    decreases k,
{
    if k > 0 {
        lemma_times_grow(times, k - 1);
        assert(times[k] >= times[k - 1] + IPC_RETRY_DELAY_MS);
    }
}

} // verus!
