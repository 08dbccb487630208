//! Names of the byte-stream pipes that carry credential prompts.
use vstd::prelude::*;
use crate::identity::is_uuid_text;
use crate::text::starts_with;

verus! {

/// The local pipe namespace that every pipe name must start with.
pub const PIPE_NAMESPACE: &'static str = r"\\\\.\\pipe\\";

/// The prefix of the names that [`unique_pipe_name`] makes.
pub const ASKPASS_PIPE_PREFIX: &'static str = r"\\\\.\\pipe\\zed-askpass-";

/// A pipe name outside the local pipe namespace.
#[derive(Clone, Copy, Debug, PartialEq, Eq, Structural)]
pub enum PipeNameError {
    MissingPipePrefix,
}

/// Accepts `name` when it lies in the local pipe namespace.
pub fn ensure_pipe_prefix(name: &str) -> (r: Result<(), PipeNameError>)
    ensures
        r is Ok <==> PIPE_NAMESPACE@.is_prefix_of(name@),
        r is Err ==> r == Err::<(), PipeNameError>(PipeNameError::MissingPipePrefix),
{
    if starts_with(name, PIPE_NAMESPACE) {
        Ok(())
    } else {
        Err(PipeNameError::MissingPipePrefix)
    }
}

/// A listener bound to a pipe name of the local namespace.
pub struct NamedPipeListener {
    name: String,
}

impl NamedPipeListener {
    pub closed spec fn spec_name(&self) -> Seq<char> {
        self.name@
    }

    /// Binds a listener to `name`, which must lie in the local pipe namespace.
    pub fn bind(name: &str) -> (r: Result<NamedPipeListener, PipeNameError>)
        ensures
            PIPE_NAMESPACE@.is_prefix_of(name@) ==> (r matches Ok(l) && l.spec_name() == name@),
            !PIPE_NAMESPACE@.is_prefix_of(name@) ==> r == Err::<NamedPipeListener, PipeNameError>(
                PipeNameError::MissingPipePrefix,
            ),
    {
        match ensure_pipe_prefix(name) {
            Ok(()) => Ok(NamedPipeListener { name: String::from_str(name) }),
            Err(e) => Err(e),
        }
    }

    /// The name the listener is bound to.
    pub fn name(&self) -> (r: &str)
        ensures
            r@ == self.spec_name(),
    {
        self.name.as_str()
    }
}

/// Relies on `uuid::Uuid::new_v4` and the UUID's `Display` form: the
/// lower-case hyphenated text of a random UUID. Nothing is promised of which.
#[verifier::external_body]
fn random_uuid_text() -> (r: String)
    ensures
        is_uuid_text(r@),
{
    uuid::Uuid::new_v4().to_string()
}

/// A fresh pipe name: the askpass prefix followed by the text of a random
/// UUID.
pub fn unique_pipe_name() -> (r: String)
    ensures
        ASKPASS_PIPE_PREFIX@.is_prefix_of(r@),
        is_uuid_text(r@.subrange(ASKPASS_PIPE_PREFIX@.len() as int, r@.len() as int)),
{
    let mut name = String::from_str(ASKPASS_PIPE_PREFIX);
    let id = random_uuid_text();
    let ghost before = name@;
    name.append(id.as_str());
    assert(name@.subrange(0, before.len() as int) =~= before);
    assert(name@.subrange(before.len() as int, name@.len() as int) =~= id@);
    name
}

/// Every name that [`unique_pipe_name`] makes is accepted by
/// [`NamedPipeListener::bind`].
pub proof fn lemma_unique_names_bind(name: Seq<char>)
    requires
        ASKPASS_PIPE_PREFIX@.is_prefix_of(name),
    ensures
        PIPE_NAMESPACE@.is_prefix_of(name),
{
    reveal_strlit(r"\\\\.\\pipe\\");
    reveal_strlit(r"\\\\.\\pipe\\zed-askpass-");
    assert forall|i: int| 0 <= i < PIPE_NAMESPACE@.len() implies PIPE_NAMESPACE@[i] == name[i] by {
        assert(PIPE_NAMESPACE@[i] == ASKPASS_PIPE_PREFIX@[i]);
    }
}

} // verus!
