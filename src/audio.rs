//! The inventory of the system's audio devices.
use vstd::prelude::*;

verus! {

/// The audio devices of the system, by name.
pub struct WindowsAudioInventory {
    pub inputs: Vec<String>,
    pub outputs: Vec<String>,
}

} // verus!
