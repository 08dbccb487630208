//! The wire format of a delivery and its reassembly on the listening side.
//!
//! A message is the payload followed by one zero byte. The listener reads it
//! in chunks of at most [`CHUNK_SIZE`] bytes until a short read, drops the
//! trailing zero bytes and decodes what is left as UTF-8.
use vstd::prelude::*;
use vstd::utf8::{decode_utf8, valid_utf8};

verus! {

/// Size of the listener's read buffer, and of the channel's buffers.
pub const CHUNK_SIZE: usize = 2048;

/// The message that goes on the wire for `payload`: the payload itself when it
/// already ends in a zero byte, else the payload with one zero byte appended.
pub open spec fn framed(payload: Seq<u8>) -> Seq<u8> {
    if payload.len() > 0 && payload.last() == 0 {
        payload
    } else {
        payload.push(0)
    }
}

/// `bytes` without its trailing run of zero bytes.
pub open spec fn trim_trailing_zeros(bytes: Seq<u8>) -> Seq<u8>
    decreases bytes.len(),
{
    if bytes.len() > 0 && bytes.last() == 0 {
        trim_trailing_zeros(bytes.drop_last())
    } else {
        bytes
    }
}

/// The reads with which a listener receives `message`: full chunks while
/// at least a chunk is left, then one short read (possibly empty).
pub open spec fn chunk_reads(message: Seq<u8>) -> Seq<Seq<u8>>
    decreases message.len(),
{
    if message.len() < CHUNK_SIZE {
        seq![message]
    } else {
        seq![message.subrange(0, CHUNK_SIZE as int)]
            + chunk_reads(message.subrange(CHUNK_SIZE as int, message.len() as int))
    }
}

/// What text decoding yields for bytes that may not be valid UTF-8: each
/// invalid sequence is replaced by U+FFFD.
pub uninterp spec fn utf8_lossy(bytes: Seq<u8>) -> Seq<char>;

/// Relies on `String::from_utf8_lossy`: valid UTF-8 is decoded unchanged,
/// and the result depends on the bytes alone.
#[verifier::external_body]
pub(crate) fn decode_utf8_lossy(bytes: &[u8]) -> (r: String)
    ensures
        r@ == utf8_lossy(bytes@),
        valid_utf8(bytes@) ==> r@ == decode_utf8(bytes@),
{
    String::from_utf8_lossy(bytes).into_owned()
}

/// Frames `payload` for the wire: a trailing zero byte is added unless the
/// payload already ends in one.
pub fn ensure_payload(payload: &[u8]) -> (r: Vec<u8>)
    ensures
        r@ == framed(payload@),
{
    let mut owned: Vec<u8> = Vec::new();
    let mut i: usize = 0;
    while i < payload.len()
        invariant
            i <= payload@.len(),
            owned@ == payload@.subrange(0, i as int),
        decreases payload@.len() - i,
    {
        owned.push(payload[i]);
        i = i + 1;
    }
    assert(owned@ =~= payload@);
    let n = payload.len();
    if n > 0 && payload[n - 1] == 0 {
        owned
    } else {
        owned.push(0);
        owned
    }
}

/// Length of `bytes` once its trailing zero bytes are dropped.
fn trimmed_len(bytes: &[u8]) -> (r: usize)
    ensures
        r <= bytes@.len(),
        bytes@.subrange(0, r as int) == trim_trailing_zeros(bytes@),
{
    let mut end = bytes.len();
    assert(bytes@.subrange(0, end as int) =~= bytes@);
    while end > 0 && bytes[end - 1] == 0
        invariant
            end <= bytes@.len(),
            trim_trailing_zeros(bytes@.subrange(0, end as int)) == trim_trailing_zeros(bytes@),
        decreases end,
    {
        assert(bytes@.subrange(0, end as int).drop_last() =~= bytes@.subrange(0, end - 1));
        end = end - 1;
    }
    assert(bytes@.subrange(0, end as int) == trim_trailing_zeros(bytes@.subrange(0, end as int)));
    end
}

/// The text that a received message carries: the bytes without their
/// trailing zero bytes, decoded as UTF-8 with invalid sequences replaced.
pub fn decode_message(message: &[u8]) -> (r: String)
    ensures
        r@ == utf8_lossy(trim_trailing_zeros(message@)),
        valid_utf8(trim_trailing_zeros(message@)) ==> r@ == decode_utf8(
            trim_trailing_zeros(message@),
        ),
{
    let end = trimmed_len(message);
    decode_utf8_lossy(&message[0..end])
}

/// Reassembles one message from the reads of a connection.
pub struct MessageReader {
    collected: Vec<u8>,
    complete: bool,
}

impl View for MessageReader {
    /// The bytes collected so far, and whether the message is complete.
    type V = (Seq<u8>, bool);

    closed spec fn view(&self) -> (Seq<u8>, bool) {
        (self.collected@, self.complete)
    }
}

impl MessageReader {
    /// A reader that has received nothing yet.
    pub fn new() -> (r: MessageReader)
        ensures
            r@ == (Seq::<u8>::empty(), false),
    {
        MessageReader { collected: Vec::new(), complete: false }
    }

    /// Takes in the bytes of one read. A read shorter than a chunk (an empty
    /// one included) ends the message.
    pub fn push_chunk(&mut self, chunk: &[u8])
        requires
            chunk@.len() <= CHUNK_SIZE,
        ensures
            final(self)@.0 == old(self)@.0 + chunk@,
            final(self)@.1 == (chunk@.len() < CHUNK_SIZE),
    {
        let mut i: usize = 0;
        let ghost start = self.collected@;
        while i < chunk.len()
            invariant
                i <= chunk@.len(),
                self.collected@ == start + chunk@.subrange(0, i as int),
                self.complete == old(self).complete,
            decreases chunk@.len() - i,
        {
            self.collected.push(chunk[i]);
            i = i + 1;
            assert(self.collected@ =~= start + chunk@.subrange(0, i as int));
        }
        assert(chunk@.subrange(0, chunk@.len() as int) =~= chunk@);
        self.complete = chunk.len() < CHUNK_SIZE;
    }

    /// Whether a short read has ended the message.
    pub fn is_complete(&self) -> (r: bool)
        ensures
            r == self@.1,
    {
        self.complete
    }

    /// The bytes received so far.
    pub fn bytes(&self) -> (r: &[u8])
        ensures
            r@ == self@.0,
    {
        self.collected.as_slice()
    }

    /// The text of the message received.
    pub fn into_text(self) -> (r: String)
        ensures
            r@ == utf8_lossy(trim_trailing_zeros(self@.0)),
            valid_utf8(trim_trailing_zeros(self@.0)) ==> r@ == decode_utf8(
                trim_trailing_zeros(self@.0),
            ),
    {
        decode_message(self.collected.as_slice())
    }
}

/// A message of any length is received whole, in order, by concatenating its
/// reads: every read but the last is a full chunk, and the last one is short,
/// so a reader stops exactly after it.
pub proof fn lemma_chunked_reception(message: Seq<u8>)
    ensures
        chunk_reads(message).flatten() == message,
        chunk_reads(message).len() == (message.len() as int) / (CHUNK_SIZE as int) + 1,
        chunk_reads(message).last().len() < CHUNK_SIZE,
        forall|i: int|
            0 <= i < chunk_reads(message).len() - 1 ==> #[trigger] chunk_reads(message)[i].len()
                == CHUNK_SIZE,
    decreases message.len(),
{
    let reads = chunk_reads(message);
    if message.len() < CHUNK_SIZE {
        assert(reads.drop_first() =~= Seq::<Seq<u8>>::empty());
        assert(reads.drop_first().flatten() =~= Seq::<u8>::empty());
        assert(reads.flatten() == reads.first() + reads.drop_first().flatten());
        assert(reads.flatten() =~= message);
    } else {
        let head = message.subrange(0, CHUNK_SIZE as int);
        let rest = message.subrange(CHUNK_SIZE as int, message.len() as int);
        lemma_chunked_reception(rest);
        assert(reads.drop_first() =~= chunk_reads(rest));
        assert(reads.flatten() =~= head + chunk_reads(rest).flatten());
        assert(head + rest =~= message);
        assert((rest.len() as int) / (CHUNK_SIZE as int) + 1 == (message.len() as int) / (CHUNK_SIZE as int)) by {
            assert(rest.len() == message.len() - 2048);
        }
        assert forall|i: int| 0 <= i < reads.len() - 1 implies #[trigger] reads[i].len()
            == CHUNK_SIZE by {
            if i > 0 {
                assert(reads[i] == chunk_reads(rest)[i - 1]);
            }
        }
    }
}

proof fn lemma_trim_framed(payload: Seq<u8>)
    requires
        forall|i: int| 0 <= i < payload.len() ==> payload[i] != 0,
    ensures
        trim_trailing_zeros(framed(payload)) == payload,
{
    if payload.len() > 0 {
        assert(payload.last() != 0);
    }
    assert(framed(payload) == payload.push(0));
    assert(framed(payload).drop_last() =~= payload);
    assert(trim_trailing_zeros(framed(payload)) == trim_trailing_zeros(payload));
    assert(trim_trailing_zeros(payload) == payload);
}

/// A payload without zero bytes survives the wire unchanged: framed, cut into
/// reads, reassembled and stripped of its terminator, it is the payload again;
/// and a payload that is valid UTF-8 is decoded to the text it encodes.
pub proof fn lemma_payload_round_trip(payload: Seq<u8>)
    requires
        forall|i: int| 0 <= i < payload.len() ==> payload[i] != 0,
    ensures
        trim_trailing_zeros(chunk_reads(framed(payload)).flatten()) == payload,
        valid_utf8(payload) ==> decode_utf8(
            trim_trailing_zeros(chunk_reads(framed(payload)).flatten()),
        ) == decode_utf8(payload),
{
    lemma_chunked_reception(framed(payload));
    lemma_trim_framed(payload);
}

} // verus!
