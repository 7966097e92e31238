//! The bitmask carried by the versioned interchange handle.

use vstd::prelude::*;

verus! {

/// Bit marking the tensor's buffer as read-only.
pub const FLAG_READ_ONLY: u64 = 1;

/// Bit marking the tensor as a copy of another tensor.
pub const FLAG_IS_COPIED: u64 = 2;

/// Bit marking a sub-byte element type as padded to whole bytes.
pub const FLAG_IS_SUBBYTE_TYPE_PADDED: u64 = 4;

/// All bits the ABI defines.
pub const FLAG_ALL: u64 = 7;

/// Bitmask flags of a versioned managed tensor: read-only, copied, and
/// sub-byte-padded bits.
#[derive(Debug, Copy, Clone, PartialEq, Eq, Hash, Structural)]
pub struct Flags {
    /// The raw bitmask.
    pub bits: u64,
}

impl Flags {
    /// Only bits the ABI defines are set.
    pub open spec fn spec_valid(bits: u64) -> bool {
        bits & FLAG_ALL == bits
    }

    /// The bits this value carries.
    pub open spec fn spec_bits(self) -> u64 {
        self.bits
    }

    /// All of `other`'s bits are set in `self`.
    pub open spec fn spec_contains(self, other: Flags) -> bool {
        self.bits & other.bits == other.bits
    }

    /// The empty mask.
    pub fn empty() -> (r: Self)
        ensures
            r.spec_bits() == 0,
    {
        Flags { bits: 0 }
    }

    /// The mask with only the read-only bit set.
    pub fn read_only() -> (r: Self)
        ensures
            r.spec_bits() == FLAG_READ_ONLY,
    {
        Flags { bits: FLAG_READ_ONLY }
    }

    /// The mask with only the copied bit set.
    pub fn is_copied() -> (r: Self)
        ensures
            r.spec_bits() == FLAG_IS_COPIED,
    {
        Flags { bits: FLAG_IS_COPIED }
    }

    /// The mask with only the sub-byte-padded bit set.
    pub fn is_subbyte_type_padded() -> (r: Self)
        ensures
            r.spec_bits() == FLAG_IS_SUBBYTE_TYPE_PADDED,
    {
        Flags { bits: FLAG_IS_SUBBYTE_TYPE_PADDED }
    }

    /// The raw bits.
    pub fn bits(&self) -> (r: u64)
        ensures
            r == self.spec_bits(),
    {
        self.bits
    }

    /// Accept raw bits only when every set bit is one the ABI defines.
    pub fn from_bits(bits: u64) -> (r: Option<Flags>)
        ensures
            r matches Some(f) ==> f.spec_bits() == bits && Flags::spec_valid(bits),
            r is None <==> !Flags::spec_valid(bits),
    {
        if bits & FLAG_ALL == bits {
            Some(Flags { bits })
        } else {
            None
        }
    }

    /// Accept raw bits, silently clearing bits the ABI does not define.
    pub fn from_bits_truncate(bits: u64) -> (r: Flags)
        ensures
            r.spec_bits() == bits & FLAG_ALL,
    {
        Flags { bits: bits & FLAG_ALL }
    }

    /// Whether all of `other`'s bits are set in `self`.
    pub fn contains(&self, other: Flags) -> (r: bool)
        ensures
            r == self.spec_contains(other),
    {
        self.bits & other.bits == other.bits
    }

    /// The union of the two masks.
    pub fn union(self, other: Flags) -> (r: Flags)
        ensures
            r.spec_bits() == self.spec_bits() | other.spec_bits(),
    {
        Flags { bits: self.bits | other.bits }
    }
}

impl Default for Flags {
    /// A fresh versioned handle is marked read-only by default.
    fn default() -> (r: Self)
        ensures
            r.spec_bits() == FLAG_READ_ONLY,
    {
        Flags { bits: FLAG_READ_ONLY }
    }
}

} // verus!
