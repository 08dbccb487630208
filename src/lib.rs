//! Single-instance coordination for a desktop application: which process is
//! the primary one, how later launches reach it, and the small platform
//! helpers that sit next to that logic.

pub mod identity;
pub mod framing;
pub mod instance;
pub mod delivery;
pub mod listener;
pub mod text;
pub mod renderer;
pub mod ime;
pub mod askpass;
pub mod paths;
pub mod shell;
pub mod git;
pub mod proxy;
pub mod update;
pub mod audio;
pub mod legacy;
pub mod launch;
