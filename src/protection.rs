use vstd::prelude::*;

verus! {

/// Bit the operating system reads as "no access".
pub const PROT_NONE: i32 = 0;

/// Bit that permits reading.
pub const PROT_READ: i32 = 1;

/// Bit that permits writing.
pub const PROT_WRITE: i32 = 2;

/// Bit that permits instruction fetch.
pub const PROT_EXEC: i32 = 4;

/// The access modes a region can be put in.
///
/// The set is closed on purpose: there is no mode that grants writing and
/// execution together.
#[derive(Clone, Copy, Debug, PartialEq, Eq, Structural)]
pub enum Protection {
    NoAccess,
    Read,
    ReadWrite,
    ReadExec,
}

impl Protection {
    /// The protection flags handed to the operating system for this mode.
    pub open spec fn spec_bits(self) -> i32 {
        match self {
            Protection::NoAccess => PROT_NONE,
            Protection::Read => PROT_READ,
            Protection::ReadWrite => PROT_READ | PROT_WRITE,
            Protection::ReadExec => PROT_READ | PROT_EXEC,
        }
    }

    /// The mode lets the process write to the range.
    pub open spec fn writable(self) -> bool {
        self == Protection::ReadWrite
    }

    /// The mode lets the processor fetch instructions from the range.
    pub open spec fn executable(self) -> bool {
        self == Protection::ReadExec
    }

    pub fn bits(&self) -> (r: i32)
        ensures
            r == self.spec_bits(),
    {
        match self {
            Protection::NoAccess => PROT_NONE,
            Protection::Read => PROT_READ,
            Protection::ReadWrite => PROT_READ | PROT_WRITE,
            Protection::ReadExec => PROT_READ | PROT_EXEC,
        }
    }

    pub fn is_writable(&self) -> (r: bool)
        ensures
            r == self.writable(),
    {
        proof {
            lemma_mode_flags(*self);
        }
        self.bits() & PROT_WRITE != 0
    }

    pub fn is_executable(&self) -> (r: bool)
        ensures
            r == self.executable(),
    {
        proof {
            lemma_mode_flags(*self);
        }
        self.bits() & PROT_EXEC != 0
    }
}

/// The flags handed to the operating system agree with the model: a mode
/// carries the write flag exactly when it is writable, and the execute flag
/// exactly when it is executable.
pub proof fn lemma_mode_flags(p: Protection)
    ensures
        (p.spec_bits() & PROT_WRITE != 0) <==> p.writable(),
        (p.spec_bits() & PROT_EXEC != 0) <==> p.executable(),
{
    assert((0i32 & 2i32) == 0 && (0i32 & 4i32) == 0) by (bit_vector);
    assert((1i32 & 2i32) == 0 && (1i32 & 4i32) == 0) by (bit_vector);
    assert((1i32 | 2i32) == 3i32 && (3i32 & 2i32) != 0 && (3i32 & 4i32) == 0) by (bit_vector);
    assert((1i32 | 4i32) == 5i32 && (5i32 & 2i32) == 0 && (5i32 & 4i32) != 0) by (bit_vector);
}

/// Write-xor-execute: no mode lets a range be written and executed at once,
/// neither in this model nor in the flags handed to the operating system.
pub proof fn lemma_write_xor_execute(p: Protection)
    ensures
        !(p.writable() && p.executable()),
        p.spec_bits() & (PROT_WRITE | PROT_EXEC) != (PROT_WRITE | PROT_EXEC),
{
    lemma_mode_flags(p);
    assert((0i32 & (2i32 | 4i32)) != (2i32 | 4i32)) by (bit_vector);
    assert((1i32 & (2i32 | 4i32)) != (2i32 | 4i32)) by (bit_vector);
    assert(((1i32 | 2i32) & (2i32 | 4i32)) != (2i32 | 4i32)) by (bit_vector);
    assert(((1i32 | 4i32) & (2i32 | 4i32)) != (2i32 | 4i32)) by (bit_vector);
}

} // verus!
