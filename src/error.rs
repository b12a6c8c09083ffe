use vstd::prelude::*;

verus! {

/// What went wrong with a region, with the operating system's description
/// where it gave one.
#[derive(Debug, PartialEq, Eq)]
pub enum RegionError {
    /// The request for memory was refused, or what came back is not a usable
    /// mapping.
    Allocation(String),
    /// A change of access mode was refused, or a write was attempted on a
    /// region whose mode does not permit it.
    Protection(String),
    /// The mapping could not be returned to the operating system.
    Release(String),
    /// The instruction bytes do not fit in the region.
    Load { len: usize, capacity: usize },
}

} // verus!
