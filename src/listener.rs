//! The primary side: the accept loop that turns each inbound connection into
//! one decoded message for the caller's handler.
//!
//! The loop itself (threads, the platform's pipe calls, the handler) runs
//! outside; [`Listener`] decides after each reported event what it does next.
//! Every action ends with exactly one platform call (create, wait or read)
//! whose result is the next event.
use vstd::prelude::*;
use vstd::utf8::{decode_utf8, valid_utf8};
use crate::framing::{
    CHUNK_SIZE, MessageReader, chunk_reads, framed, lemma_chunked_reception,
    lemma_payload_round_trip, trim_trailing_zeros, utf8_lossy,
};
use crate::instance::InstanceGuard;

verus! {

/// Which platform result the listener is waiting for.
#[derive(Clone, Copy, Debug, PartialEq, Eq, Structural)]
pub enum Awaiting {
    /// The creation of a listening instance of the channel.
    Create,
    /// A client's connection to the listening instance.
    Client,
    /// The next read from the connected client.
    Read,
}

/// What the platform reported for the listener's last call.
pub enum ListenerEvent {
    /// A listening instance was created.
    PipeCreated,
    /// The listening instance could not be created.
    CreateFailed,
    /// A client connected while the listener waited.
    ClientConnected,
    /// A client had connected before the wait began.
    AlreadyConnected,
    /// Waiting for a client failed.
    WaitFailed,
    /// A read returned these bytes (at most a chunk).
    Read(Vec<u8>),
    /// A read failed.
    ReadFailed,
}

/// What the listener does next.
pub enum ListenerAction {
    /// Create a listening instance of the channel.
    CreatePipe,
    /// Sleep the retry delay, then create a listening instance.
    RetryCreate,
    /// Wait for a client to connect.
    WaitForClient,
    /// Recover from a failed wait or read: flush and disconnect the client if
    /// one is connected, close the listening instance, sleep the retry delay,
    /// then create a new instance.
    CloseAndRecreate,
    /// Read up to a chunk from the client.
    ReadChunk,
    /// Hand this text to the handler; then flush, disconnect and close the
    /// instance, and create a new one.
    Deliver(String),
}

/// The action that `awaiting` stands for: repeated when an event comes that
/// does not answer it.
pub open spec fn pending_action(awaiting: Awaiting, action: ListenerAction) -> bool {
    match awaiting {
        Awaiting::Create => action is CreatePipe,
        Awaiting::Client => action is WaitForClient,
        Awaiting::Read => action is ReadChunk,
    }
}

/// One step of the accept loop: from what it awaited and what it had read,
/// and the event that came, to what it awaits and has read next, and the
/// action it takes.
pub open spec fn listener_step(
    awaiting: Awaiting,
    received: Seq<u8>,
    event: ListenerEvent,
    next_awaiting: Awaiting,
    next_received: Seq<u8>,
    action: ListenerAction,
) -> bool {
    match (awaiting, event) {
        (Awaiting::Create, ListenerEvent::PipeCreated) => next_awaiting == Awaiting::Client
            && action is WaitForClient,
        (Awaiting::Create, ListenerEvent::CreateFailed) => next_awaiting == Awaiting::Create
            && action is RetryCreate,
        (Awaiting::Client, ListenerEvent::ClientConnected) | (
            Awaiting::Client,
            ListenerEvent::AlreadyConnected,
        ) => next_awaiting == Awaiting::Read && next_received == Seq::<u8>::empty()
            && action is ReadChunk,
        (Awaiting::Client, ListenerEvent::WaitFailed) => next_awaiting == Awaiting::Create
            && action is CloseAndRecreate,
        (Awaiting::Read, ListenerEvent::Read(bytes)) => if bytes@.len() > CHUNK_SIZE {
            next_awaiting == Awaiting::Create && action is CloseAndRecreate
        } else if bytes@.len() == CHUNK_SIZE {
            next_awaiting == Awaiting::Read && next_received == received + bytes@
                && action is ReadChunk
        } else {
            next_awaiting == Awaiting::Create && (action matches ListenerAction::Deliver(text)
                && text@ == utf8_lossy(trim_trailing_zeros(received + bytes@)) && (valid_utf8(
                trim_trailing_zeros(received + bytes@),
            ) ==> text@ == decode_utf8(trim_trailing_zeros(received + bytes@))))
        },
        (Awaiting::Read, ListenerEvent::ReadFailed) => next_awaiting == Awaiting::Create
            && action is CloseAndRecreate,
        _ => next_awaiting == awaiting && next_received == received && pending_action(
            awaiting,
            action,
        ),
    }
}

enum Phase {
    Create,
    Client,
    Read(MessageReader),
}

/// The decisions of the accept loop on the channel `pipe_name`. A new
/// listener awaits the creation of its first listening instance: its first
/// action is [`ListenerAction::CreatePipe`].
pub struct Listener {
    pipe_name: String,
    phase: Phase,
}

impl Listener {
    /// What the listener waits for.
    pub closed spec fn awaiting(&self) -> Awaiting {
        match self.phase {
            Phase::Create => Awaiting::Create,
            Phase::Client => Awaiting::Client,
            Phase::Read(_) => Awaiting::Read,
        }
    }

    /// What it has read of the current message.
    pub closed spec fn received(&self) -> Seq<u8> {
        match self.phase {
            Phase::Read(reader) => reader@.0,
            _ => Seq::empty(),
        }
    }

    pub closed spec fn spec_pipe_name(&self) -> Seq<char> {
        self.pipe_name@
    }

    /// A listener on the channel `pipe_name`, about to create its first
    /// listening instance.
    pub fn new(pipe_name: &str) -> (r: Listener)
        ensures
            r.awaiting() == Awaiting::Create,
            r.spec_pipe_name() == pipe_name@,
    {
        Listener { pipe_name: String::from_str(pipe_name), phase: Phase::Create }
    }

    /// The channel on which the listener accepts connections.
    pub fn pipe_name(&self) -> (r: &str)
        ensures
            r@ == self.spec_pipe_name(),
    {
        self.pipe_name.as_str()
    }

    /// Takes the result of the last platform call and says what to do next:
    /// a created instance waits for a client, a connected client is read
    /// chunk by chunk until a short read, whose message is delivered, and a
    /// failed creation, wait or read is recovered after the retry delay with a
    /// fresh instance.
    pub fn next(&mut self, event: ListenerEvent) -> (r: ListenerAction)
        ensures
            listener_step(
                old(self).awaiting(),
                old(self).received(),
                event,
                final(self).awaiting(),
                final(self).received(),
                r,
            ),
            final(self).spec_pipe_name() == old(self).spec_pipe_name(),
    {
        let mut phase = Phase::Create;
        std::mem::swap(&mut self.phase, &mut phase);
        match (phase, event) {
            (Phase::Create, ListenerEvent::PipeCreated) => {
                self.phase = Phase::Client;
                ListenerAction::WaitForClient
            },
            (Phase::Create, ListenerEvent::CreateFailed) => ListenerAction::RetryCreate,
            (Phase::Create, _) => ListenerAction::CreatePipe,
            (Phase::Client, ListenerEvent::ClientConnected) | (
                Phase::Client,
                ListenerEvent::AlreadyConnected,
            ) => {
                self.phase = Phase::Read(MessageReader::new());
                ListenerAction::ReadChunk
            },
            (Phase::Client, ListenerEvent::WaitFailed) => ListenerAction::CloseAndRecreate,
            (Phase::Client, _) => {
                self.phase = Phase::Client;
                ListenerAction::WaitForClient
            },
            (Phase::Read(mut reader), ListenerEvent::Read(bytes)) => {
                if bytes.len() > CHUNK_SIZE {
                    ListenerAction::CloseAndRecreate
                } else {
                    reader.push_chunk(bytes.as_slice());
                    if reader.is_complete() {
                        ListenerAction::Deliver(reader.into_text())
                    } else {
                        self.phase = Phase::Read(reader);
                        ListenerAction::ReadChunk
                    }
                }
            },
            (Phase::Read(_), ListenerEvent::ReadFailed) => ListenerAction::CloseAndRecreate,
            (Phase::Read(reader), _) => {
                self.phase = Phase::Read(reader);
                ListenerAction::ReadChunk
            },
        }
    }
}

/// The reads of one message, as listener events.
pub open spec fn reads_as_events(events: Seq<ListenerEvent>, reads: Seq<Seq<u8>>) -> bool {
    events.len() == reads.len() && forall|i: int|
        0 <= i < events.len() ==> (#[trigger] events[i] matches ListenerEvent::Read(b) && b@
            == reads[i])
}

/// A run of the listener: `awaiting[i]` and `received[i]` before event
/// `i`, and `actions[i]` the answer to it.
pub open spec fn is_run(
    events: Seq<ListenerEvent>,
    awaiting: Seq<Awaiting>,
    received: Seq<Seq<u8>>,
    actions: Seq<ListenerAction>,
) -> bool {
    &&& awaiting.len() == events.len() + 1
    &&& received.len() == events.len() + 1
    &&& actions.len() == events.len()
    &&& forall|i: int|
        0 <= i < events.len() ==> listener_step(
            awaiting[i],
            received[i],
            #[trigger] events[i],
            awaiting[i + 1],
            received[i + 1],
            actions[i],
        )
}

proof fn lemma_run_prefix(
    reads: Seq<Seq<u8>>,
    events: Seq<ListenerEvent>,
    awaiting: Seq<Awaiting>,
    received: Seq<Seq<u8>>,
    actions: Seq<ListenerAction>,
    k: int,
)
    requires
        reads.len() >= 1,
        forall|i: int| 0 <= i < reads.len() - 1 ==> #[trigger] reads[i].len() == CHUNK_SIZE,
        reads_as_events(events, reads),
        is_run(events, awaiting, received, actions),
        awaiting[0] == Awaiting::Read,
        received[0] == Seq::<u8>::empty(),
        0 <= k < reads.len(),
    ensures
        awaiting[k] == Awaiting::Read,
        received[k] == reads.subrange(0, k).flatten(),
        forall|i: int| 0 <= i < k ==> #[trigger] actions[i] is ReadChunk,
    decreases k,
{
    if k == 0 {
        assert(reads.subrange(0, 0) =~= Seq::<Seq<u8>>::empty());
    } else {
        lemma_run_prefix(reads, events, awaiting, received, actions, k - 1);
        let i = k - 1;
        assert(events[i] matches ListenerEvent::Read(b) && b@ == reads[i]);
        assert(reads[i].len() == CHUNK_SIZE);
        assert(listener_step(awaiting[i], received[i], events[i], awaiting[k], received[k], actions[i]));
        assert(reads.subrange(0, k) =~= reads.subrange(0, i).push(reads[i]));
        reads.subrange(0, i).lemma_flatten_push(reads[i]);
    }
}

/// Reads of one message as a connection yields them: full chunks, then one
/// short read.
pub open spec fn is_message_reads(reads: Seq<Seq<u8>>) -> bool {
    &&& reads.len() >= 1
    &&& forall|i: int| 0 <= i < reads.len() - 1 ==> #[trigger] reads[i].len() == CHUNK_SIZE
    &&& reads.last().len() < CHUNK_SIZE
}

/// A listener with a client connected, given any number of reads of one
/// message (full chunks, then a short read), asks for another read after
/// each full chunk and after the short one delivers once the text of the
/// concatenated reads without their trailing zero bytes: decoded exactly
/// when it is UTF-8, with invalid bytes replaced otherwise.
pub proof fn lemma_listener_delivers_reads(
    reads: Seq<Seq<u8>>,
    events: Seq<ListenerEvent>,
    awaiting: Seq<Awaiting>,
    received: Seq<Seq<u8>>,
    actions: Seq<ListenerAction>,
)
    requires
        is_message_reads(reads),
        reads_as_events(events, reads),
        is_run(events, awaiting, received, actions),
        awaiting[0] == Awaiting::Read,
        received[0] == Seq::<u8>::empty(),
    ensures
        forall|i: int| 0 <= i < actions.len() - 1 ==> #[trigger] actions[i] is ReadChunk,
        actions.last() matches ListenerAction::Deliver(t) && t@ == utf8_lossy(
            trim_trailing_zeros(reads.flatten()),
        ) && (valid_utf8(trim_trailing_zeros(reads.flatten())) ==> t@ == decode_utf8(
            trim_trailing_zeros(reads.flatten()),
        )),
        awaiting.last() == Awaiting::Create,
{
    let last = reads.len() - 1;
    lemma_run_prefix(reads, events, awaiting, received, actions, last);
    assert(events[last] matches ListenerEvent::Read(b) && b@ == reads[last]);
    assert(listener_step(
        awaiting[last],
        received[last],
        events[last],
        awaiting[last + 1],
        received[last + 1],
        actions[last],
    ));
    assert(reads =~= reads.subrange(0, last).push(reads[last]));
    reads.subrange(0, last).lemma_flatten_push(reads[last]);
}

/// A listener whose client sends a payload without zero bytes, however
/// long, asks for another read after each full chunk, and after the short
/// last read delivers exactly once the payload's text: the payload decoded,
/// when it is UTF-8.
pub proof fn lemma_listener_delivers_payload(
    payload: Seq<u8>,
    events: Seq<ListenerEvent>,
    awaiting: Seq<Awaiting>,
    received: Seq<Seq<u8>>,
    actions: Seq<ListenerAction>,
)
    requires
        forall|i: int| 0 <= i < payload.len() ==> payload[i] != 0,
        reads_as_events(events, chunk_reads(framed(payload))),
        is_run(events, awaiting, received, actions),
        awaiting[0] == Awaiting::Read,
        received[0] == Seq::<u8>::empty(),
    ensures
        forall|i: int| 0 <= i < actions.len() - 1 ==> #[trigger] actions[i] is ReadChunk,
        actions.last() matches ListenerAction::Deliver(t) && t@ == utf8_lossy(payload) && (
        valid_utf8(payload) ==> t@ == decode_utf8(payload)),
        awaiting.last() == Awaiting::Create,
{
    lemma_chunked_reception(framed(payload));
    lemma_payload_round_trip(payload);
    lemma_listener_delivers_reads(chunk_reads(framed(payload)), events, awaiting, received, actions);
}

/// Whether event `i` of a run completes a message: a short read while the
/// listener awaits a read.
pub open spec fn completes_message(awaiting: Seq<Awaiting>, events: Seq<ListenerEvent>, i: int) -> bool {
    awaiting[i] == Awaiting::Read && (events[i] matches ListenerEvent::Read(b) && b@.len()
        < CHUNK_SIZE)
}

/// How many of the first `n` events of a run complete a message.
pub open spec fn completed_messages(awaiting: Seq<Awaiting>, events: Seq<ListenerEvent>, n: int) -> nat
    decreases n,
{
    if n <= 0 {
        0
    } else {
        completed_messages(awaiting, events, n - 1) + (if completes_message(awaiting, events, n - 1) {
            1nat
        } else {
            0nat
        })
    }
}

/// How many of the first `n` actions hand a message to the handler.
pub open spec fn handler_calls(actions: Seq<ListenerAction>, n: int) -> nat
    decreases n,
{
    if n <= 0 {
        0
    } else {
        handler_calls(actions, n - 1) + (if actions[n - 1] is Deliver {
            1nat
        } else {
            0nat
        })
    }
}

/// Over any run of the listener, whatever mix of connections, failures and
/// stray events it sees, the handler is called exactly once per message that
/// a connection completed: never for a failed creation, wait or read, and
/// never twice for one message.
pub proof fn lemma_handler_calls_match_messages(
    events: Seq<ListenerEvent>,
    awaiting: Seq<Awaiting>,
    received: Seq<Seq<u8>>,
    actions: Seq<ListenerAction>,
    n: int,
)
    requires
        is_run(events, awaiting, received, actions),
        0 <= n <= events.len(),
    ensures
        handler_calls(actions, n) == completed_messages(awaiting, events, n),
    decreases n,
{
    if n > 0 {
        lemma_handler_calls_match_messages(events, awaiting, received, actions, n - 1);
        let i = n - 1;
        assert(listener_step(
            awaiting[i],
            received[i],
            events[i],
            awaiting[i + 1],
            received[i + 1],
            actions[i],
        ));
    }
}

impl<H> InstanceGuard<H> {
    /// The accept loop of this guard's channel. The caller runs it on a
    /// thread of its own for the rest of the process's life.
    pub fn spawn_listener(&self) -> (r: Listener)
        ensures
            r.awaiting() == Awaiting::Create,
            r.spec_pipe_name() == self.spec_pipe_name(),
    {
        Listener::new(self.pipe_name())
    }
}

} // verus!
