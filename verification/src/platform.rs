//! The operating system families the adapters distinguish.

use vstd::prelude::*;

verus! {

/// The detected operating system family. Every platform-conditional decision
/// in the library branches on this value and on nothing else; `Other` stands
/// for any family without a known backend and always yields an
/// unsupported-platform failure.
#[derive(Clone, Copy, PartialEq, Eq, Structural, Debug)]
pub enum Platform {
    Windows,
    Linux,
    MacOs,
    Other,
}

} // verus!
