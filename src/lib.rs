//! Deep-link capture and single-instance hand-off for a desktop application shell.

use vstd::prelude::*;

pub mod deep_link;
pub mod pending;
pub mod relaunch;
pub mod show_in_folder;

verus! {

} // verus!
