//! A hardened allocator core: guarded page layout, canary-based corruption
//! detection, and access-control state for memory that holds sensitive data.
//!
//! The allocator places each allocation in its own page-aligned region of four
//! parts: a metadata page (holding the region's usable size), a leading guard
//! page, the data pages (a secret canary immediately followed by the user
//! data, right-aligned so the data ends exactly at the trailing guard), and a
//! trailing guard page. All metadata is recovered from the user pointer by
//! address arithmetic alone; that arithmetic, the layout invariants, and the
//! canary scheme are what this crate verifies.

use vstd::prelude::*;

pub mod arith;
pub mod bytes;
pub mod context;
pub mod layout;
pub mod prot;
pub mod region;

verus! {

/// Length in bytes of the secret canary placed immediately before user data.
pub const CANARY_SIZE: usize = 16;

/// Fixed, recognizable, non-zero byte written over a fresh allocation so that
/// a read of uninitialized memory surfaces as this value rather than zero.
pub const GARBAGE_VALUE: u8 = 0xd0;

} // verus!
