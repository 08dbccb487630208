//! The steps of an application update that each platform provides.
use vstd::prelude::*;

verus! {

/// An update package that has been staged for installation.
pub struct StagedUpdate {
    pub package: String,
}

/// The installation that an update can be rolled back to.
pub struct RollbackPoint {
    pub previous: String,
}

/// Why an update step failed.
pub struct UpdateError {
    pub message: String,
}

/// The platform's update steps, implemented by each platform.
pub trait PlatformUpdate {
    fn stage_update(&self, pkg: &str) -> Result<StagedUpdate, UpdateError>;

    fn apply_update(&self, staged: StagedUpdate) -> Result<(), UpdateError>;

    fn rollback(&self, previous: RollbackPoint) -> Result<(), UpdateError>;
}

} // verus!
