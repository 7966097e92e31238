//! The managed-tensor records: a descriptor paired with the owner whose drop
//! releases the buffer, in the plain and the versioned form.

use vstd::prelude::*;

use crate::flags::Flags;
use crate::pack_version::PackVersion;
use crate::tensor::Tensor;

verus! {

/// The exporter's erased record together with the ABI handle embedded in it:
/// the descriptor plus the owner whose drop releases the buffer. In the C
/// ABI this record is reached through a raw pointer and freed by its release
/// callback; in this value model the record owns the owner outright, so
/// releasing is consuming the record, which move semantics allow at most
/// once.
#[derive(Debug)]
pub struct ManagedTensor<T> {
    dl_tensor: Tensor,
    inner: T,
}

impl<T> ManagedTensor<T> {
    /// The descriptor.
    pub closed spec fn spec_tensor(self) -> Tensor {
        self.dl_tensor
    }

    /// The owner of the buffer.
    pub closed spec fn spec_inner(self) -> T {
        self.inner
    }

    /// Pair a descriptor with the owner whose drop releases the buffer.
    pub fn new(dl_tensor: Tensor, inner: T) -> (r: Self)
        ensures
            r.spec_tensor() == dl_tensor,
            r.spec_inner() == inner,
    {
        ManagedTensor { dl_tensor, inner }
    }

    /// The descriptor.
    pub fn dl_tensor(&self) -> (r: &Tensor)
        ensures
            *r == self.spec_tensor(),
    {
        &self.dl_tensor
    }

    /// The owner, still in place.
    pub fn inner(&self) -> (r: &T)
        ensures
            *r == self.spec_inner(),
    {
        &self.inner
    }

    /// Release: consume the record and hand the owner back, whose drop frees
    /// the buffer. The record is gone afterwards, so no second release can
    /// follow.
    pub fn into_inner(self) -> (r: T)
        ensures
            r == self.spec_inner(),
    {
        self.inner
    }
}

/// The versioned managed-tensor record: the descriptor, the owner, the ABI
/// version stamp and the flags bitmask.
#[derive(Debug)]
pub struct ManagedTensorVersioned<T> {
    version: PackVersion,
    flags: u64,
    dl_tensor: Tensor,
    inner: T,
}

impl<T> ManagedTensorVersioned<T> {
    /// The descriptor.
    pub closed spec fn spec_tensor(self) -> Tensor {
        self.dl_tensor
    }

    /// The owner of the buffer.
    pub closed spec fn spec_inner(self) -> T {
        self.inner
    }

    /// The ABI version stamped onto the record.
    pub closed spec fn spec_version(self) -> PackVersion {
        self.version
    }

    /// The raw flags bitmask.
    pub closed spec fn spec_flags(self) -> u64 {
        self.flags
    }

    /// Pair a descriptor with its owner, version stamp and flags.
    pub fn new(version: PackVersion, flags: Flags, dl_tensor: Tensor, inner: T) -> (r: Self)
        ensures
            r.spec_version() == version,
            r.spec_flags() == flags.spec_bits(),
            r.spec_tensor() == dl_tensor,
            r.spec_inner() == inner,
    {
        ManagedTensorVersioned { version, flags: flags.bits(), dl_tensor, inner }
    }

    /// The descriptor.
    pub fn dl_tensor(&self) -> (r: &Tensor)
        ensures
            *r == self.spec_tensor(),
    {
        &self.dl_tensor
    }

    /// The owner, still in place.
    pub fn inner(&self) -> (r: &T)
        ensures
            *r == self.spec_inner(),
    {
        &self.inner
    }

    /// The ABI version stamped onto the record.
    pub fn version(&self) -> (r: &PackVersion)
        ensures
            *r == self.spec_version(),
    {
        &self.version
    }

    /// The raw flags bitmask.
    pub fn flags_bits(&self) -> (r: u64)
        ensures
            r == self.spec_flags(),
    {
        self.flags
    }

    /// Release: consume the record and hand the owner back, whose drop frees
    /// the buffer. The record is gone afterwards, so no second release can
    /// follow.
    pub fn into_inner(self) -> (r: T)
        ensures
            r == self.spec_inner(),
    {
        self.inner
    }
}

} // verus!
