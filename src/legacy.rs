//! The earlier coordination scheme, still used when the exclusion primitive
//! cannot be created: names derived from the application identifier as it
//! is, and one fixed-size read per message, terminated by a zero byte.
use vstd::prelude::*;
use crate::framing::{decode_utf8_lossy, utf8_lossy};

verus! {

/// Size of the buffer of the earlier scheme's single read.
pub const LEGACY_BUFFER_SIZE: usize = 128;

pub const LEGACY_MUTEX_SUFFIX: &'static str = "-Instance-Mutex";

pub const LEGACY_PIPE_PREFIX: &'static str = "\\\\.\\pipe\\";

pub const LEGACY_PIPE_SUFFIX: &'static str = "-Named-Pipe";

/// The earlier scheme's mutex name for `app_id`.
pub fn legacy_mutex_name(app_id: &str) -> (r: String)
    ensures
        r@ == app_id@ + LEGACY_MUTEX_SUFFIX@,
{
    let mut name = String::from_str(app_id);
    name.append(LEGACY_MUTEX_SUFFIX);
    name
}

/// The earlier scheme's pipe name for `app_id`.
pub fn legacy_pipe_name(app_id: &str) -> (r: String)
    ensures
        r@ == LEGACY_PIPE_PREFIX@ + app_id@ + LEGACY_PIPE_SUFFIX@,
{
    let mut name = String::from_str(LEGACY_PIPE_PREFIX);
    name.append(app_id);
    name.append(LEGACY_PIPE_SUFFIX);
    name
}

/// Index of the first zero byte of `bytes`, or its length when it has none.
pub open spec fn first_zero(bytes: Seq<u8>) -> int
    decreases bytes.len(),
{
    if bytes.len() == 0 {
        0
    } else if bytes[0] == 0 {
        0
    } else {
        1 + first_zero(bytes.drop_first())
    }
}

/// A buffer of the earlier scheme that holds no terminating zero byte.
#[derive(Clone, Copy, Debug, PartialEq, Eq, Structural)]
pub enum LegacyMessageError {
    MissingTerminator,
}

/// The message that a buffer of the earlier scheme holds: its bytes up to
/// the first zero byte, decoded as UTF-8 with invalid bytes replaced. A
/// buffer without a zero byte holds no message.
pub fn decode_legacy_message(buffer: &[u8]) -> (r: Result<String, LegacyMessageError>)
    ensures
        first_zero(buffer@) >= buffer@.len() ==> r == Err::<String, LegacyMessageError>(
            LegacyMessageError::MissingTerminator,
        ),
        first_zero(buffer@) < buffer@.len() ==> (r matches Ok(t) && t@ == utf8_lossy(
            buffer@.subrange(0, first_zero(buffer@)),
        )),
{
    let mut i: usize = 0;
    assert(buffer@.subrange(0, buffer@.len() as int) =~= buffer@);
    while i < buffer.len() && buffer[i] != 0
        invariant
            i <= buffer@.len(),
            first_zero(buffer@) == i + first_zero(buffer@.subrange(i as int, buffer@.len() as int)),
        decreases buffer@.len() - i,
    {
        assert(buffer@.subrange(i as int, buffer@.len() as int).drop_first() =~= buffer@.subrange(
            i + 1,
            buffer@.len() as int,
        ));
        i = i + 1;
    }
    if i >= buffer.len() {
        Err(LegacyMessageError::MissingTerminator)
    } else {
        Ok(decode_utf8_lossy(&buffer[0..i]))
    }
}

} // verus!
