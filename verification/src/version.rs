//! The version of the WiredTiger engine that the library speaks to.
use vstd::prelude::*;

verus! {

/// The engine's major version.
pub const WIREDTIGER_VERSION_MAJOR: u32 = 10;

/// The engine's minor version.
pub const WIREDTIGER_VERSION_MINOR: u32 = 0;

/// The engine's patch version.
pub const WIREDTIGER_VERSION_PATCH: u32 = 0;

} // verus!
