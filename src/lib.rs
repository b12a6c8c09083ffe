//! Bookkeeping and checked byte transfer for executable memory regions.
//!
//! A region is acquired as an anonymous read-write mapping, filled with
//! machine code, switched to read-execute, and finally released. The system
//! calls themselves are made by the caller; this crate decides, for each step,
//! whether it may happen and what state the region is in afterwards, and it
//! performs the copy of the instruction bytes into the region's memory.
pub mod error;
pub mod loader;
pub mod protection;
pub mod region;

pub use error::RegionError;
pub use loader::{emit_code, make_mem_exec};
pub use protection::Protection;
pub use region::{safe_mmap, MappedRegion, RegionModel};
