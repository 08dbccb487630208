//! Derivation of the two system-wide names that coordinate the instances of
//! one application: the exclusion name (leader election) and the channel
//! name (message delivery).
use vstd::prelude::*;
use vstd::utf8::encode_utf8;

verus! {

/// The text of the name-based (version 5, SHA-1) UUID of `name` in the OID
/// namespace, in its lower-case hyphenated form.
pub uninterp spec fn oid_uuid_v5_text(name: Seq<u8>) -> Seq<char>;

pub open spec fn is_lower_hex_digit(c: char) -> bool {
    ('0' <= c && c <= '9') || ('a' <= c && c <= 'f')
}

/// The hyphenated text of a UUID: 36 characters, lower-case hexadecimal
/// digits in groups of 8, 4, 4, 4 and 12 separated by hyphens.
pub open spec fn is_uuid_text(t: Seq<char>) -> bool {
    t.len() == 36 && forall|i: int|
        0 <= i < 36 ==> if i == 8 || i == 13 || i == 18 || i == 23 {
            #[trigger] t[i] == '-'
        } else {
            is_lower_hex_digit(t[i])
        }
}

/// Relies on `uuid::Uuid::new_v5` in the OID namespace and on the UUID's
/// `Display` form (lower-case hyphenated): the text depends on the bytes of
/// `name` alone.
#[verifier::external_body]
fn oid_uuid_v5(name: &[u8]) -> (r: String)
    ensures
        r@ == oid_uuid_v5_text(name@),
        is_uuid_text(r@),
{
    String::from(uuid::Uuid::new_v5(&uuid::Uuid::NAMESPACE_OID, name))
}

/// Prefix of the exclusion primitive's name (the global kernel namespace).
pub const EXCLUSION_PREFIX: &'static str = "Global\\\\Zed_";

/// Prefix of the messaging channel's name (the local pipe namespace).
pub const CHANNEL_PREFIX: &'static str = "\\\\.\\pipe\\zed-launcher-";

/// Appended to the identifier before hashing, to derive the exclusion name.
pub const EXCLUSION_SALT: &'static str = "/exclusion";

/// Appended to the identifier before hashing, to derive the channel name.
pub const CHANNEL_SALT: &'static str = "/channel";

/// The key of the exclusion name: the UUID of the identifier with its own
/// salt, so that it tells nothing of the channel's key.
pub open spec fn exclusion_key(app_id: Seq<char>) -> Seq<char> {
    oid_uuid_v5_text(encode_utf8(app_id + EXCLUSION_SALT@))
}

/// The key of the channel name.
pub open spec fn channel_key(app_id: Seq<char>) -> Seq<char> {
    oid_uuid_v5_text(encode_utf8(app_id + CHANNEL_SALT@))
}

pub open spec fn exclusion_name_for(app_id: Seq<char>) -> Seq<char> {
    EXCLUSION_PREFIX@ + exclusion_key(app_id)
}

pub open spec fn channel_name_for(app_id: Seq<char>) -> Seq<char> {
    CHANNEL_PREFIX@ + channel_key(app_id)
}

/// The pair of names that coordinate the instances of one application.
pub struct Identity {
    pub exclusion_name: String,
    pub channel_name: String,
}

/// The names built on their keys: each is its prefix followed by its key.
pub fn names_from_keys(exclusion_key: &str, channel_key: &str) -> (r: Identity)
    ensures
        r.exclusion_name@ == EXCLUSION_PREFIX@ + exclusion_key@,
        r.channel_name@ == CHANNEL_PREFIX@ + channel_key@,
{
    let mut exclusion_name = String::from_str(EXCLUSION_PREFIX);
    exclusion_name.append(exclusion_key);
    let mut channel_name = String::from_str(CHANNEL_PREFIX);
    channel_name.append(channel_key);
    Identity { exclusion_name, channel_name }
}

/// The UUID text of `app_id` followed by `salt`.
fn salted_key(app_id: &str, salt: &str) -> (r: String)
    ensures
        r@ == oid_uuid_v5_text(encode_utf8(app_id@ + salt@)),
{
    let mut salted = String::from_str(app_id);
    salted.append(salt);
    oid_uuid_v5(salted.as_str().as_bytes())
}

/// Resolves the exclusion name and the channel name of the application
/// identified by `app_id`.
pub fn ipc_identity(app_id: &str) -> (r: Identity)
    ensures
        r.exclusion_name@ == exclusion_name_for(app_id@),
        r.channel_name@ == channel_name_for(app_id@),
{
    let exclusion = salted_key(app_id, EXCLUSION_SALT);
    let channel = salted_key(app_id, CHANNEL_SALT);
    names_from_keys(exclusion.as_str(), channel.as_str())
}

proof fn lemma_prefix_cancel(p: Seq<char>, x: Seq<char>, y: Seq<char>)
    ensures
        p + x == p + y <==> x == y,
{
    if p + x == p + y {
        assert(x =~= (p + x).subrange(p.len() as int, (p + x).len() as int));
        assert(y =~= (p + y).subrange(p.len() as int, (p + y).len() as int));
    }
}

/// Identity derivation is deterministic, and it is exactly as collision
/// resistant as the UUIDs it is built on: two identifiers share an exclusion
/// name (or a channel name) only if their UUID texts coincide. The two names
/// of one identifier never coincide.
pub proof fn lemma_identity_names(a: Seq<char>, b: Seq<char>)
    ensures
        a == b ==> exclusion_name_for(a) == exclusion_name_for(b)
            && channel_name_for(a) == channel_name_for(b),
        exclusion_name_for(a) == exclusion_name_for(b) <==> exclusion_key(a) == exclusion_key(b),
        channel_name_for(a) == channel_name_for(b) <==> channel_key(a) == channel_key(b),
        exclusion_name_for(a) != channel_name_for(a),
{
    lemma_prefix_cancel(EXCLUSION_PREFIX@, exclusion_key(a), exclusion_key(b));
    lemma_prefix_cancel(CHANNEL_PREFIX@, channel_key(a), channel_key(b));
    reveal_strlit("Global\\\\Zed_");
    reveal_strlit("\\\\.\\pipe\\zed-launcher-");
    assert(exclusion_name_for(a)[0] == 'G');
    assert(channel_name_for(a)[0] == '\\');
}

} // verus!
