//! The version stamp carried by the versioned interchange handle.

use vstd::prelude::*;

verus! {

/// Major version of the interchange ABI this crate speaks.
pub const DLPACK_MAJOR_VERSION: u32 = 1;

/// Minor version of the interchange ABI this crate speaks.
pub const DLPACK_MINOR_VERSION: u32 = 1;

/// The ABI version stamped onto a versioned managed tensor.
#[derive(Debug, Copy, Clone, PartialEq, Eq, Structural)]
pub struct PackVersion {
    /// Major version.
    pub major: u32,
    /// Minor version.
    pub minor: u32,
}

impl PackVersion {
    /// Assemble a version stamp from its two fields.
    pub fn new(major: u32, minor: u32) -> (r: Self)
        ensures
            r == (PackVersion { major, minor }),
    {
        PackVersion { major, minor }
    }
}

impl Default for PackVersion {
    /// The version of the ABI this crate speaks.
    fn default() -> (r: Self)
        ensures
            r == (PackVersion { major: DLPACK_MAJOR_VERSION, minor: DLPACK_MINOR_VERSION }),
    {
        PackVersion { major: DLPACK_MAJOR_VERSION, minor: DLPACK_MINOR_VERSION }
    }
}

} // verus!
