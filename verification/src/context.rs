//! The process context: the page size the layouts are computed with and the
//! secret random canary. It is built exactly once, before any allocation, and
//! read-only afterwards; a caller that cannot build one must treat that as
//! fatal, since every later bounds computation rests on it.

use vstd::prelude::*;
use crate::layout::valid_page_size;
use crate::CANARY_SIZE;

verus! {

/// The immutable per-process configuration of the allocator.
pub struct Context {
    /// Bytes per OS page; a power of two, at least as large as the canary.
    pub page_size: usize,
    /// The secret canary placed immediately before every allocation's user
    /// data; `CANARY_SIZE` unpredictable bytes.
    pub canary: Vec<u8>,
}

impl Context {
    pub open spec fn wf(self) -> bool {
        &&& valid_page_size(self.page_size)
        &&& self.canary@.len() == CANARY_SIZE
    }

    /// Builds a context from an already-filled canary. Returns `None` exactly
    /// when the page size is degenerate (smaller than the canary — which also
    /// covers a machine word — not a power of two, or too large for four-page
    /// address arithmetic) or the canary has the wrong length.
    pub fn from_parts(page_size: usize, canary: Vec<u8>) -> (r: Option<Context>)
        ensures
            (r is Some) <==> (valid_page_size(page_size) && canary@.len() == CANARY_SIZE),
            r matches Some(c) ==> c.wf() && c.page_size == page_size && c.canary@ == canary@,
    {
        if page_size < CANARY_SIZE {
            return None;
        }
        if page_size & (page_size - 1) != 0 {
            return None;
        }
        if page_size > usize::MAX / 4 {
            return None;
        }
        if canary.len() != CANARY_SIZE {
            return None;
        }
        Some(Context { page_size, canary })
    }

    /// Builds the context for a process whose OS reports `page_size` bytes per
    /// page, drawing the canary from the operating system's random source.
    /// Returns `None` when the page size is degenerate or no randomness could
    /// be obtained; the caller must treat `None` as fatal, since a predictable
    /// canary defeats corruption detection.
    pub fn init(page_size: usize) -> (r: Option<Context>)
        ensures
            r matches Some(c) ==> c.wf() && c.page_size == page_size,
            !valid_page_size(page_size) ==> r is None,
    {
        let mut canary: Vec<u8> = Vec::new();
        let mut i: usize = 0;
        while i < CANARY_SIZE
            invariant
                canary@.len() == i,
                i <= CANARY_SIZE,
            decreases CANARY_SIZE - i,
        {
            canary.push(0);
            i = i + 1;
        }
        if !fill_random(&mut canary) {
            return None;
        }
        Context::from_parts(page_size, canary)
    }
}

/// Relies on `getrandom::getrandom`: on success the whole buffer is filled
/// with bytes from the operating system's cryptographically secure random
/// source; a slice's length cannot change. Nothing can be promised about the
/// bytes themselves.
#[verifier::external_body]
fn fill_random(buf: &mut Vec<u8>) -> (r: bool)
    ensures
        final(buf)@.len() == old(buf)@.len(),
{
    getrandom::getrandom(buf.as_mut_slice()).is_ok()
}

} // verus!
