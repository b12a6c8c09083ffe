use vstd::prelude::*;
use crate::error::RegionError;
use crate::protection::Protection;

verus! {

/// What `mmap` returns when it could not create the mapping.
pub const MAP_FAILED: usize = usize::MAX;

/// The mathematical picture of a region: where it starts, how long it is, and
/// the access mode it was last successfully put in.
pub struct RegionModel {
    pub addr: int,
    pub len: nat,
    pub mode: Protection,
}

impl RegionModel {
    /// A live region: non-null, non-empty, not wrapping around the address
    /// space, and either still being filled or already executable.
    pub open spec fn wf(self) -> bool {
        &&& 0 < self.addr
        &&& 0 < self.len
        &&& self.addr + self.len <= usize::MAX
        &&& (self.mode == Protection::ReadWrite || self.mode == Protection::ReadExec)
    }
}

/// A mapping of `len` bytes at `addr` returned by the operating system is
/// one a region can own.
pub open spec fn mapping_usable(addr: int, len: int) -> bool {
    0 < addr && 0 < len && addr + len <= usize::MAX
}

/// The region after a request to make it executable, given whether the
/// operating system granted it. Address and length never change.
pub open spec fn after_protect(m: RegionModel, granted: bool) -> RegionModel {
    if granted {
        RegionModel { mode: Protection::ReadExec, ..m }
    } else {
        m
    }
}

/// The region after a series of requests to make it executable, each
/// granted or refused as `grants` says.
pub open spec fn after_protects(m: RegionModel, grants: Seq<bool>) -> RegionModel
    decreases grants.len(),
{
    if grants.len() == 0 {
        m
    } else {
        after_protects(after_protect(m, grants[0]), grants.drop_first())
    }
}

/// However many mode changes are requested, and whichever of them are
/// granted, a region stays well formed, keeps the address and length it was
/// created with, and never goes back from executable to writable. Its one
/// release therefore hands back exactly the mapping that was created.
pub proof fn lemma_release_range_fixed(m: RegionModel, grants: Seq<bool>)
    requires
        m.wf(),
    ensures
        after_protects(m, grants).wf(),
        after_protects(m, grants).addr == m.addr,
        after_protects(m, grants).len == m.len,
        m.mode == Protection::ReadExec ==> after_protects(m, grants).mode == Protection::ReadExec,
    decreases grants.len(),
{
    if grants.len() > 0 {
        lemma_release_range_fixed(after_protect(m, grants[0]), grants.drop_first());
    }
}

/// Sole owner of one anonymous memory mapping.
///
/// The type is neither `Clone` nor `Copy`: the only way to give the mapping
/// back is `release`, which consumes the value, so a region is released at
/// most once.
pub struct MappedRegion {
    addr: usize,
    len: usize,
    mode: Protection,
}

impl View for MappedRegion {
    type V = RegionModel;

    closed spec fn view(&self) -> RegionModel {
        RegionModel { addr: self.addr as int, len: self.len as nat, mode: self.mode }
    }
}

impl MappedRegion {
    #[verifier::type_invariant]
    spec fn inv(self) -> bool {
        self@.wf()
    }

    /// Start of the region. Only meaningful while the region is alive.
    pub fn base_address(&self) -> (r: usize)
        ensures
            r == self@.addr,
            r != 0,
    {
        proof {
            use_type_invariant(self);
        }
        self.addr
    }

    /// Length of the region in bytes, never zero.
    pub fn len(&self) -> (r: usize)
        ensures
            r == self@.len,
            r > 0,
    {
        proof {
            use_type_invariant(self);
        }
        self.len
    }

    /// The access mode the region is currently in.
    pub fn mode(&self) -> (r: Protection)
        ensures
            r == self@.mode,
    {
        self.mode
    }

    /// Records the outcome of asking the operating system to switch the
    /// region to read-execute: the mode changes only if it was granted.
    pub fn make_executable(&mut self, outcome: Result<(), String>) -> (r: Result<(), RegionError>)
        ensures
            final(self)@ == after_protect(old(self)@, outcome is Ok),
            r == match outcome {
                Ok(()) => Ok::<(), RegionError>(()),
                Err(msg) => Err(RegionError::Protection(msg)),
            },
    {
        proof {
            use_type_invariant(&*self);
        }
        match outcome {
            Ok(()) => {
                self.mode = Protection::ReadExec;
                Ok(())
            },
            Err(msg) => Err(RegionError::Protection(msg)),
        }
    }

    /// Gives up ownership and returns the `(address, length)` pair to unmap,
    /// exactly the pair the region was created with.
    pub fn release(self) -> (r: (usize, usize))
        ensures
            r.0 == self@.addr,
            r.1 == self@.len,
    {
        (self.addr, self.len)
    }
}

/// Takes ownership of what an anonymous read-write `mmap` of `size` bytes
/// returned. `addr` is the call's result and `os_error` the operating
/// system's last error message, which is kept when the call failed.
pub fn safe_mmap(size: usize, addr: usize, os_error: String) -> (r: Result<MappedRegion, RegionError>)
    ensures
        addr == MAP_FAILED ==> r == Err::<MappedRegion, RegionError>(RegionError::Allocation(os_error)),
        r is Ok <==> mapping_usable(addr as int, size as int),
        r is Err ==> r->Err_0 is Allocation,
        r matches Ok(region) ==> region@ == (RegionModel {
            addr: addr as int,
            len: size as nat,
            mode: Protection::ReadWrite,
        }),
{
    if addr == MAP_FAILED {
        Err(RegionError::Allocation(os_error))
    } else if addr == 0 {
        Err(RegionError::Allocation("mapping placed at the null address".to_owned()))
    } else if size == 0 {
        Err(RegionError::Allocation("mapping of zero bytes".to_owned()))
    } else if size > MAP_FAILED - addr {
        Err(RegionError::Allocation("mapping wraps around the address space".to_owned()))
    } else {
        Ok(MappedRegion { addr, len: size, mode: Protection::ReadWrite })
    }
}

} // verus!
