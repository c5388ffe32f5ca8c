//! The guarded region layout: how an allocation request is turned into a
//! four-part page-aligned region (metadata page, leading guard page, data
//! pages holding canary plus right-aligned user data, trailing guard page),
//! and how every metadata address is recovered from the user pointer alone.

use vstd::prelude::*;
use crate::arith::{round_up, align_down, page_round, addr_align_down};
use crate::arith::{lemma_round_up_props, lemma_align_down_of_offset, lemma_multiple_plus_multiple};
use crate::CANARY_SIZE;

verus! {

/// A usable page size: a power of two no smaller than the canary (the canary
/// must fit inside the data pages' first page, and sixteen bytes also covers a
/// machine word, so the metadata page can hold the stored size), and small
/// enough that four pages of address arithmetic cannot overflow.
pub open spec fn valid_page_size(p: usize) -> bool {
    &&& CANARY_SIZE <= p
    &&& p & ((p - 1) as usize) == 0
    &&& 4 * p <= usize::MAX
}

/// The page layout computed for one allocation request, all sizes in bytes.
/// Offsets are relative to the region's base address, in address order:
/// metadata page, leading guard page, data pages, trailing guard page.
#[derive(Clone, Copy, PartialEq, Eq, Structural, Debug)]
pub struct AllocLayout {
    /// The process page size the layout was computed with.
    pub page_size: usize,
    /// The requested user size.
    pub size: usize,
    /// Size of the data pages: canary plus user size, rounded up to a page
    /// multiple.
    pub unprotected_size: usize,
    /// Size of the whole region: metadata page, leading guard, data pages,
    /// trailing guard.
    pub total_size: usize,
}

impl AllocLayout {
    pub open spec fn wf(self) -> bool {
        &&& valid_page_size(self.page_size)
        &&& self.unprotected_size == round_up(CANARY_SIZE + self.size, self.page_size as int)
        &&& CANARY_SIZE + self.size <= self.unprotected_size
        &&& self.unprotected_size as int % self.page_size as int == 0
        &&& self.total_size == 3 * self.page_size + self.unprotected_size
    }

    /// The metadata page holding the stored `unprotected_size` word.
    pub open spec fn metadata_offset(self) -> int {
        0
    }

    /// The no-access page immediately before the data pages.
    pub open spec fn leading_guard_offset(self) -> int {
        self.page_size as int
    }

    /// Start of the data pages.
    pub open spec fn unprotected_offset(self) -> int {
        2 * self.page_size
    }

    /// The no-access page immediately after the data pages.
    pub open spec fn trailing_guard_offset(self) -> int {
        2 * self.page_size + self.unprotected_size
    }

    /// Start of the canary bytes, immediately before the user data.
    pub open spec fn canary_offset(self) -> int {
        self.trailing_guard_offset() - self.size - CANARY_SIZE
    }

    /// Start of the user data; the user pointer is the base plus this offset.
    pub open spec fn user_offset(self) -> int {
        self.canary_offset() + CANARY_SIZE
    }

    /// Executable accessor for `unprotected_offset`.
    pub fn data_offset(&self) -> (r: usize)
        requires
            self.wf(),
        ensures
            r == self.unprotected_offset(),
    {
        2 * self.page_size
    }

    /// Executable accessor for `canary_offset`.
    pub fn canary_off(&self) -> (r: usize)
        requires
            self.wf(),
        ensures
            r == self.canary_offset(),
    {
        2 * self.page_size + (self.unprotected_size - self.size - CANARY_SIZE)
    }

    /// Executable accessor for `user_offset`.
    pub fn user_off(&self) -> (r: usize)
        requires
            self.wf(),
        ensures
            r == self.user_offset(),
    {
        2 * self.page_size + (self.unprotected_size - self.size)
    }

    /// Executable accessor for `trailing_guard_offset`.
    pub fn trailing_guard_off(&self) -> (r: usize)
        requires
            self.wf(),
        ensures
            r == self.trailing_guard_offset(),
    {
        2 * self.page_size + self.unprotected_size
    }
}

/// The region invariants the layout guarantees: the total size is an exact
/// multiple of the page size; both guard pages sit immediately adjacent to the
/// data pages; the user data is right-aligned, ending exactly at the trailing
/// guard; and the canary immediately precedes the user data.
pub proof fn lemma_layout_invariants(lay: AllocLayout)
    requires
        lay.wf(),
    ensures
        lay.total_size as int % lay.page_size as int == 0,
        lay.leading_guard_offset() == lay.metadata_offset() + lay.page_size,
        lay.unprotected_offset() == lay.leading_guard_offset() + lay.page_size,
        lay.trailing_guard_offset() == lay.unprotected_offset() + lay.unprotected_size,
        lay.total_size == lay.trailing_guard_offset() + lay.page_size,
        lay.user_offset() + lay.size == lay.trailing_guard_offset(),
        lay.canary_offset() + CANARY_SIZE == lay.user_offset(),
        lay.unprotected_offset() <= lay.canary_offset(),
{
    lemma_multiple_plus_multiple(lay.unprotected_size as int, 3, lay.page_size as int);
}

/// Computes the layout for a request of `size` bytes, or `None` when the
/// four-page-plus-data total cannot be represented in address arithmetic.
pub fn plan(page_size: usize, size: usize) -> (r: Option<AllocLayout>)
    requires
        valid_page_size(page_size),
    ensures
        (r is Some) <==> (size < usize::MAX - 4 * page_size
            && round_up(CANARY_SIZE + size, page_size as int) <= usize::MAX - 3 * page_size),
        size >= usize::MAX - 4 * page_size ==> r is None,
        size + CANARY_SIZE + 4 * page_size <= usize::MAX + 1 ==> r is Some,
        r matches Some(lay) ==> lay.wf() && lay.page_size == page_size && lay.size == size,
{
    if size >= usize::MAX - 4 * page_size {
        return None;
    }
    let size_with_canary: usize = CANARY_SIZE + size;
    let unprotected_size: usize = page_round(size_with_canary, page_size);
    if unprotected_size > usize::MAX - 3 * page_size {
        return None;
    }
    let total_size: usize = page_size + page_size + unprotected_size + page_size;
    Some(AllocLayout { page_size, size, unprotected_size, total_size })
}

/// Recomputes a region's total size from the data-page size its metadata page
/// stores: metadata page, leading guard, data pages, trailing guard. Returns
/// `None` when the sum cannot be represented — a stored size no region built
/// by `plan` can carry, so the caller must treat it as metadata corruption.
pub fn region_total_size(page_size: usize, unprotected_size: usize) -> (r: Option<usize>)
    requires
        valid_page_size(page_size),
    ensures
        (r is Some) <==> 3 * page_size + unprotected_size <= usize::MAX,
        r matches Some(t) ==> t == 3 * page_size + unprotected_size,
{
    if unprotected_size > usize::MAX - 3 * page_size {
        return None;
    }
    Some(page_size + page_size + unprotected_size + page_size)
}

/// The metadata addresses recovered from a user pointer by address arithmetic
/// alone: subtract the canary length, align down to the page boundary to find
/// the data pages, and step back two pages to the region base.
#[derive(Clone, Copy, PartialEq, Eq, Structural, Debug)]
pub struct Recovered {
    /// The region's base address (the metadata page).
    pub base_addr: usize,
    /// Start of the data pages.
    pub unprotected_addr: usize,
    /// Address of the canary bytes, immediately before the user data.
    pub canary_addr: usize,
}

/// Recovers the metadata addresses from a user address. Returns `None` when
/// the arithmetic would step below the lowest address any region produced by
/// this layout can occupy: such a pointer is foreign or corrupted, and the
/// caller must treat it as fatal.
pub fn recover_addrs(page_size: usize, user_addr: usize) -> (r: Option<Recovered>)
    requires
        valid_page_size(page_size),
    ensures
        (r is Some) <==> (user_addr >= CANARY_SIZE
            && align_down(user_addr - CANARY_SIZE, page_size as int) > 2 * page_size),
        r matches Some(rec) ==> {
            &&& rec.canary_addr == user_addr - CANARY_SIZE
            &&& rec.unprotected_addr == align_down(rec.canary_addr as int, page_size as int)
            &&& rec.unprotected_addr > 2 * page_size
            &&& rec.base_addr == rec.unprotected_addr - 2 * page_size
            &&& rec.base_addr > 0
        },
{
    if user_addr < CANARY_SIZE {
        return None;
    }
    let canary_addr: usize = user_addr - CANARY_SIZE;
    let unprotected_addr: usize = addr_align_down(canary_addr, page_size);
    if unprotected_addr <= 2 * page_size {
        return None;
    }
    let base_addr: usize = unprotected_addr - 2 * page_size;
    Some(Recovered { base_addr, unprotected_addr, canary_addr })
}

/// Self-consistency of the layout: for a region of layout `lay` placed at any
/// page-aligned base address, recovering the metadata addresses from the user
/// pointer reproduces exactly the addresses the allocator computed — the
/// canary address, the start of the data pages, and the region base.
pub proof fn lemma_recover_matches_layout(lay: AllocLayout, base: usize)
    requires
        lay.wf(),
        base as int % lay.page_size as int == 0,
        base >= lay.page_size,
        base + lay.total_size <= usize::MAX + 1,
    ensures
        base + lay.user_offset() >= CANARY_SIZE,
        align_down(base + lay.user_offset() - CANARY_SIZE, lay.page_size as int)
            == base + lay.unprotected_offset(),
        base + lay.unprotected_offset() > 2 * lay.page_size,
        base + lay.unprotected_offset() - 2 * lay.page_size == base,
{
    let p = lay.page_size as int;
    lemma_round_up_props(CANARY_SIZE + lay.size, p);
    let d = lay.unprotected_size - (CANARY_SIZE + lay.size) as int;
    assert(0 <= d < p);
    assert(base + lay.user_offset() - CANARY_SIZE == base + lay.canary_offset());
    assert(base + lay.canary_offset() == (base + 2 * p) + d);
    lemma_multiple_plus_multiple(base as int, 2, p);
    assert((base + 2 * p) % p == 0) by {
        assert(2 * p + base == base + 2 * p);
    }
    lemma_align_down_of_offset(base + 2 * p, d, p);
}

} // verus!
