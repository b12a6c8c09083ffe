use vstd::prelude::*;
use crate::error::RegionError;
use crate::protection::{lemma_mode_flags, lemma_write_xor_execute, Protection, PROT_WRITE};
use crate::region::{after_protect, MappedRegion, RegionModel};

verus! {

/// Copying `code_len` bytes into the region is allowed: the region is still
/// writable and the bytes fit.
pub open spec fn emit_permitted(m: RegionModel, code_len: nat) -> bool {
    m.mode.writable() && code_len <= m.len
}

/// The region's memory after `code` was written at its start: the code,
/// followed by whatever was there beyond it.
pub open spec fn emitted(memory: Seq<u8>, code: Seq<u8>) -> Seq<u8> {
    code + memory.skip(code.len() as int)
}

/// Copies the instruction bytes `src` to the start of the region `mem`, whose
/// memory is `memory`.
///
/// A region that is no longer writable refuses with a protection error; bytes
/// that do not fit are refused with a load error. Either way the memory is
/// left as it was.
pub fn emit_code(src: &[u8], mem: &MappedRegion, memory: &mut [u8]) -> (r: Result<(), RegionError>)
    requires
        old(memory)@.len() == mem@.len,
    ensures
        r is Ok <==> emit_permitted(mem@, src@.len()),
        !mem@.mode.writable() ==> r matches Err(RegionError::Protection(_)),
        mem@.mode.writable() && src@.len() > mem@.len ==> r == Err::<(), RegionError>(
            RegionError::Load { len: src@.len() as usize, capacity: mem@.len as usize },
        ),
        r is Ok ==> final(memory)@ == emitted(old(memory)@, src@),
        r is Err ==> final(memory)@ == old(memory)@,
{
    let capacity = mem.len();
    if !mem.mode().is_writable() {
        return Err(RegionError::Protection("region is not writable".to_owned()));
    }
    if src.len() > capacity {
        return Err(RegionError::Load { len: src.len(), capacity });
    }
    let ghost before = memory@;
    let mut i: usize = 0;
    while i < src.len()
        invariant
            i <= src@.len() <= memory@.len(),
            memory@.len() == before.len(),
            forall|k: int| 0 <= k < i ==> memory@[k] == src@[k],
            forall|k: int| i <= k < memory@.len() ==> memory@[k] == before[k],
        decreases src@.len() - i,
    {
        memory[i] = src[i];
        i = i + 1;
    }
    assert(memory@ =~= emitted(before, src@));
    Ok(())
}

/// The arguments of the `mprotect` call that makes the region executable:
/// its address, its length, and the read-execute flags.
pub fn make_mem_exec(mem: &MappedRegion) -> (r: (usize, usize, i32))
    ensures
        r.0 == mem@.addr,
        r.1 == mem@.len,
        r.2 == Protection::ReadExec.spec_bits(),
{
    (mem.base_address(), mem.len(), Protection::ReadExec.bits())
}

/// Once the switch to executable has been granted, the region is no longer
/// writable: the flags it was given lack the write bit, and every later
/// attempt to copy code into it is refused.
pub proof fn lemma_no_write_after_exec(m: RegionModel, code_len: nat)
    requires
        m.wf(),
    ensures
        after_protect(m, true).mode.executable(),
        !after_protect(m, true).mode.writable(),
        after_protect(m, true).mode.spec_bits() & PROT_WRITE == 0,
        !emit_permitted(after_protect(m, true), code_len),
{
    lemma_mode_flags(after_protect(m, true).mode);
    lemma_write_xor_execute(after_protect(m, true).mode);
}

} // verus!
