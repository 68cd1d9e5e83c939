//! The platforms between which the launcher's rules differ.

use vstd::prelude::*;

verus! {

/// The operating system that the launcher runs on.
#[derive(Clone, Copy, Debug, PartialEq, Eq, Structural)]
pub enum Platform {
    Windows,
    MacOs,
    Linux,
    Other,
}

} // verus!
