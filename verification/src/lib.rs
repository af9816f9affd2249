//! The logic of a small Minecraft launcher: request validation, install
//! progress, launch sequencing, mod catalogue queries and the state
//! machine behind the launcher window.
use vstd::prelude::*;

pub mod text;
pub mod launch;
pub mod mods;
pub mod ui;

verus! {

} // verus!
