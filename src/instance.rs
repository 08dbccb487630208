//! Leader election among the processes of one application: the guard that an
//! acquisition yields, the decision a launch takes from it, and an in-memory
//! exclusion table with the create-or-detect semantics of the platform's
//! named primitive.
use vstd::prelude::*;
use crate::identity::Identity;

verus! {

/// The conditions that acquisition and delivery report to their caller.
#[derive(Clone, Copy, Debug, PartialEq, Eq, Structural)]
pub enum IpcError {
    /// The exclusion primitive could not be created or opened at all.
    LockUnavailable,
    /// No listener is registered on the channel: the primary is gone or has
    /// not started listening.
    DeliveryUnreachable,
    /// The channel stayed busy until the delivery deadline.
    DeliveryTimeout,
    /// Any other failure to open the channel or to write the message.
    DeliveryFailed,
}

/// What the platform reported when asked to create the named exclusion
/// primitive; `H` is the local handle it returned.
pub enum CreateOutcome<H> {
    /// The primitive did not exist before: this process created it.
    Created(H),
    /// The primitive existed already: another process created it.
    AlreadyExists(H),
    /// The primitive could not be created; the platform's error code.
    Failed(u32),
}

/// The result of an acquisition attempt.
pub struct InstanceGuard<H> {
    handle: H,
    pipe_name: String,
    is_primary: bool,
}

impl<H> InstanceGuard<H> {
    pub closed spec fn spec_handle(&self) -> H {
        self.handle
    }

    pub closed spec fn spec_pipe_name(&self) -> Seq<char> {
        self.pipe_name@
    }

    pub closed spec fn spec_is_primary(&self) -> bool {
        self.is_primary
    }

    /// Returns `true` if this process is the primary instance.
    pub fn is_primary(&self) -> (r: bool)
        ensures
            r == self.spec_is_primary(),
    {
        self.is_primary
    }

    /// The name of the channel on which the primary listens.
    pub fn pipe_name(&self) -> (r: &str)
        ensures
            r@ == self.spec_pipe_name(),
    {
        self.pipe_name.as_str()
    }

    /// The local handle to the exclusion primitive.
    pub fn handle(&self) -> (r: &H)
        ensures
            *r == self.spec_handle(),
    {
        &self.handle
    }

    /// Gives up the guard of a secondary: the local handle comes back to be
    /// closed. The primitive itself is untouched, since a secondary never owned
    /// it.
    pub fn release(self) -> (r: H)
        ensures
            r == self.spec_handle(),
    {
        self.handle
    }

    /// Keeps the guard of a primary for the rest of the process's life: the
    /// primitive is released only when the process ends.
    pub fn into_held(self) -> (r: HeldInstance<H>)
        requires
            self.spec_is_primary(),
        ensures
            r.spec_handle() == self.spec_handle(),
            r.spec_pipe_name() == self.spec_pipe_name(),
    {
        HeldInstance { handle: self.handle, pipe_name: self.pipe_name }
    }
}

/// The guard of a primary, held until the process ends.
pub struct HeldInstance<H> {
    handle: H,
    pipe_name: String,
}

impl<H> HeldInstance<H> {
    pub closed spec fn spec_handle(&self) -> H {
        self.handle
    }

    pub closed spec fn spec_pipe_name(&self) -> Seq<char> {
        self.pipe_name@
    }

    /// The name of the channel on which this primary listens.
    pub fn pipe_name(&self) -> (r: &str)
        ensures
            r@ == self.spec_pipe_name(),
    {
        self.pipe_name.as_str()
    }
}

/// Turns the platform's answer to the creation of the exclusion primitive
/// named `identity.exclusion_name` into a guard: primary when this process
/// created the primitive, secondary when it existed already, and
/// `LockUnavailable` when it could not be created.
pub fn acquire_lock<H>(identity: &Identity, created: CreateOutcome<H>) -> (r: Result<
    InstanceGuard<H>,
    IpcError,
>)
    ensures
        match created {
            CreateOutcome::Created(h) => r matches Ok(g) && g.spec_is_primary()
                && g.spec_handle() == h && g.spec_pipe_name() == identity.channel_name@,
            CreateOutcome::AlreadyExists(h) => r matches Ok(g) && !g.spec_is_primary()
                && g.spec_handle() == h && g.spec_pipe_name() == identity.channel_name@,
            CreateOutcome::Failed(_) => r == Err::<InstanceGuard<H>, IpcError>(
                IpcError::LockUnavailable,
            ),
        },
{
    match created {
        CreateOutcome::Created(handle) => Ok(
            InstanceGuard { handle, pipe_name: identity.channel_name.clone(), is_primary: true },
        ),
        CreateOutcome::AlreadyExists(handle) => Ok(
            InstanceGuard { handle, pipe_name: identity.channel_name.clone(), is_primary: false },
        ),
        CreateOutcome::Failed(_) => Err(IpcError::LockUnavailable),
    }
}

/// What a launching process does once it has tried to acquire the lock.
#[derive(Clone, Copy, Debug, PartialEq, Eq, Structural)]
pub enum LaunchPlan {
    /// Primary: hold the guard, start the listener, run.
    ServeAsPrimary,
    /// Secondary: release the guard, deliver the launch request, exit.
    ForwardToPrimary,
    /// Secondary started in the foreground: release the guard, deliver nothing.
    RunInForeground,
    /// No coordination information: the caller's fallback policy decides.
    FallBack,
}

impl LaunchPlan {
    /// Whether the launching process runs as the first instance.
    pub fn is_first_instance(&self) -> (r: bool)
        ensures
            r == (*self == LaunchPlan::ServeAsPrimary),
    {
        match self {
            LaunchPlan::ServeAsPrimary => true,
            _ => false,
        }
    }
}

/// Decides what a launch does with the result of its acquisition: a primary
/// serves, a secondary forwards its request unless it was asked to stay in
/// the foreground, and a failed acquisition falls back to the caller's policy.
pub fn handle_single_instance<H>(acquired: &Result<InstanceGuard<H>, IpcError>, foreground: bool) -> (r:
    LaunchPlan)
    ensures
        match acquired {
            Ok(g) => if g.spec_is_primary() {
                r == LaunchPlan::ServeAsPrimary
            } else if foreground {
                r == LaunchPlan::RunInForeground
            } else {
                r == LaunchPlan::ForwardToPrimary
            },
            Err(_) => r == LaunchPlan::FallBack,
        },
{
    match acquired {
        Ok(guard) => {
            if guard.is_primary() {
                LaunchPlan::ServeAsPrimary
            } else if foreground {
                LaunchPlan::RunInForeground
            } else {
                LaunchPlan::ForwardToPrimary
            }
        },
        Err(_) => LaunchPlan::FallBack,
    }
}

/// An in-memory stand-in for the system-wide namespace of exclusion
/// primitives: creating a name atomically reports whether it existed, and a
/// name stays taken until its owner ends.
pub struct ExclusionTable {
    names: Vec<String>,
}

impl View for ExclusionTable {
    /// The names that are taken.
    type V = Set<Seq<char>>;

    closed spec fn view(&self) -> Set<Seq<char>> {
        Set::new(|n: Seq<char>| exists|i: int| 0 <= i < self.names@.len() && self.names@[i]@ == n)
    }
}

impl ExclusionTable {
    /// A namespace in which no name is taken.
    pub fn new() -> (r: ExclusionTable)
        ensures
            r@ == Set::<Seq<char>>::empty(),
    {
        let r = ExclusionTable { names: Vec::new() };
        assert(r@ =~= Set::<Seq<char>>::empty());
        r
    }

    /// Whether `name` is taken.
    pub fn holds(&self, name: &str) -> (r: bool)
        ensures
            r == self@.contains(name@),
    {
        self.position(name).is_some()
    }

    fn position(&self, name: &str) -> (r: Option<usize>)
        ensures
            match r {
                Some(i) => i < self.names@.len() && self.names@[i as int]@ == name@,
                None => !self@.contains(name@),
            },
    {
        let wanted = String::from_str(name);
        let mut i: usize = 0;
        while i < self.names.len()
            invariant
                i <= self.names@.len(),
                wanted@ == name@,
                forall|j: int| 0 <= j < i ==> self.names@[j]@ != name@,
            decreases self.names@.len() - i,
        {
            if self.names[i] == wanted {
                return Some(i);
            }
            i = i + 1;
        }
        None
    }

    /// Creates the primitive `name`, atomically reporting whether it existed.
    pub fn create(&mut self, name: &str) -> (r: CreateOutcome<()>)
        ensures
            r matches CreateOutcome::Created(_) <==> !old(self)@.contains(name@),
            r matches CreateOutcome::AlreadyExists(_) <==> old(self)@.contains(name@),
            final(self)@ == old(self)@.insert(name@),
    {
        match self.position(name) {
            Some(_) => {
                assert(self@ =~= self@.insert(name@));
                CreateOutcome::AlreadyExists(())
            },
            None => {
                let ghost before = self@;
                let ghost old_names = self.names@;
                self.names.push(String::from_str(name));
                assert(self@ =~= before.insert(name@)) by {
                    assert(self.names@[self.names@.len() - 1]@ == name@);
                    assert forall|n: Seq<char>| before.contains(n) implies #[trigger] self@.contains(
                        n,
                    ) by {
                        let i = choose|i: int| 0 <= i < old_names.len() && old_names[i]@ == n;
                        assert(self.names@[i] == old_names[i]);
                    }
                    assert forall|n: Seq<char>| #[trigger] self@.contains(n) && n != name@
                        implies before.contains(n) by {
                        let i = choose|i: int| 0 <= i < self.names@.len() && self.names@[i]@ == n;
                        assert(i < self.names@.len() - 1);
                    }
                }
                CreateOutcome::Created(())
            },
        }
    }

    /// Acquires the lock of `identity` against this namespace, as
    /// [`acquire_lock`] does against the platform's: the guard is primary
    /// exactly when the exclusion name was free, and the name is taken after.
    pub fn acquire(&mut self, identity: &Identity) -> (r: Result<InstanceGuard<()>, IpcError>)
        ensures
            r matches Ok(g) && g.spec_is_primary() == !old(self)@.contains(
                identity.exclusion_name@,
            ) && g.spec_pipe_name() == identity.channel_name@,
            final(self)@ == old(self)@.insert(identity.exclusion_name@),
    {
        let created = self.create(identity.exclusion_name.as_str());
        acquire_lock(identity, created)
    }

    /// The owner of `name` has ended: the name is free again.
    pub fn release_owner(&mut self, name: &str)
        ensures
            final(self)@ == old(self)@.remove(name@),
    {
        let ghost before = self@;
        let mut kept: Vec<String> = Vec::new();
        let wanted = String::from_str(name);
        let mut i: usize = 0;
        while i < self.names.len()
            invariant
                i <= self.names@.len(),
                wanted@ == name@,
                before == self@,
                forall|j: int| 0 <= j < kept@.len() ==> #[trigger] kept@[j]@ != name@,
                forall|j: int|
                    0 <= j < kept@.len() ==> exists|k: int|
                        0 <= k < i && #[trigger] self.names@[k]@ == (#[trigger] kept@[j])@,
                forall|k: int|
                    0 <= k < i && #[trigger] self.names@[k]@ != name@ ==> exists|j: int|
                        0 <= j < kept@.len() && kept@[j]@ == self.names@[k]@,
            decreases self.names@.len() - i,
        {
            if !(self.names[i] == wanted) {
                let ghost prev = kept@;
                kept.push(self.names[i].clone());
                assert(kept@[kept@.len() - 1]@ == self.names@[i as int]@);
                assert forall|k: int|
                    0 <= k < i + 1 && #[trigger] self.names@[k]@ != name@ implies exists|j: int|
                        0 <= j < kept@.len() && kept@[j]@ == self.names@[k]@ by {
                    if k < i {
                        let j = choose|j: int| 0 <= j < prev.len() && prev[j]@ == self.names@[k]@;
                        assert(kept@[j] == prev[j]);
                    } else {
                        assert(kept@[kept@.len() - 1]@ == self.names@[k]@);
                    }
                }
                assert forall|j: int| 0 <= j < kept@.len() implies exists|k: int|
                    0 <= k < i + 1 && #[trigger] self.names@[k]@ == (#[trigger] kept@[j])@ by {
                    if j < prev.len() {
                        assert(kept@[j] == prev[j]);
                    } else {
                        assert(self.names@[i as int]@ == kept@[j]@);
                    }
                }
            }
            i = i + 1;
        }
        let ghost old_names = self.names@;
        self.names = kept;
        assert(self@ =~= before.remove(name@)) by {
            assert forall|n: Seq<char>| #[trigger] self@.contains(n) implies before.remove(
                name@,
            ).contains(n) by {
                let j = choose|j: int| 0 <= j < self.names@.len() && self.names@[j]@ == n;
                assert(self.names@[j]@ != name@);
                let k = choose|k: int| 0 <= k < old_names.len() && #[trigger] old_names[k]@ == self.names@[j]@;
            }
            assert forall|n: Seq<char>| before.remove(name@).contains(n) implies #[trigger] self@.contains(
                n,
            ) by {
                let k = choose|k: int| 0 <= k < old_names.len() && old_names[k]@ == n;
                assert(old_names[k]@ != name@);
            }
        }
    }
}

/// How many of the creations of `names`, made one after another against the
/// taken names `held`, report that they created their primitive.
pub open spec fn primaries(held: Set<Seq<char>>, names: Seq<Seq<char>>) -> nat
    decreases names.len(),
{
    if names.len() == 0 {
        0
    } else {
        (if held.contains(names[0]) { 0nat } else { 1nat }) + primaries(
            held.insert(names[0]),
            names.drop_first(),
        )
    }
}

/// The taken names after the creations of `names`, one after another,
/// starting from `held`.
pub open spec fn held_after(held: Set<Seq<char>>, names: Seq<Seq<char>>) -> Set<Seq<char>>
    decreases names.len(),
{
    if names.len() == 0 {
        held
    } else {
        held_after(held.insert(names[0]), names.drop_first())
    }
}

/// Leader election: when N >= 1 processes of one application (one exclusion
/// name) create the primitive while nobody holds it, in whatever order the
/// platform serialises them, exactly one becomes primary. While the primary
/// holds the name, further attempts, however many secondaries come and drop
/// their guards, make no primary and leave the taken names as they were:
/// leadership never flips.
pub proof fn lemma_single_primary(held: Set<Seq<char>>, name: Seq<char>, names: Seq<Seq<char>>)
    requires
        forall|i: int| 0 <= i < names.len() ==> names[i] == name,
    ensures
        held.contains(name) ==> primaries(held, names) == 0 && held_after(held, names) == held,
        !held.contains(name) && names.len() >= 1 ==> primaries(held, names) == 1,
        held_after(held, names).contains(name) <==> held.contains(name) || names.len() >= 1,
    decreases names.len(),
{
    if names.len() > 0 {
        let rest = names.drop_first();
        assert forall|i: int| 0 <= i < rest.len() implies rest[i] == name by {
            assert(rest[i] == names[i + 1]);
        }
        lemma_single_primary(held.insert(name), name, rest);
        assert(held.insert(name).contains(name));
        if held.contains(name) {
            assert(held.insert(name) =~= held);
        }
    }
}

} // verus!
