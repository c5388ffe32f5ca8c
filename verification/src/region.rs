//! The guarded allocation itself, modeled at byte level: the data-page span of
//! one region, holding the secret canary immediately followed by the
//! right-aligned user data, together with its layout, its access level, and
//! the size word the metadata page stores. Allocation fills fresh user bytes
//! with the recognizable garbage pattern; deallocation verifies the canary and
//! consumes the region, so a second free of the same allocation cannot be
//! expressed.

use vstd::prelude::*;
use crate::arith::{round_up, lemma_round_up_props};
use crate::bytes::{fill_range, copy_into, copy_vec, ct_eq_range};
use crate::context::Context;
use crate::layout::{AllocLayout, plan};
use crate::prot::{Prot, prot_readable, prot_writable};
use crate::{CANARY_SIZE, GARBAGE_VALUE};

verus! {

/// Start of the user data within the data-page span: the data is right-aligned
/// so that it ends exactly at the trailing guard page.
pub open spec fn user_start_of(lay: AllocLayout) -> int {
    lay.unprotected_size - lay.size
}

/// Start of the canary within the data-page span, immediately before the user
/// data.
pub open spec fn canary_start_of(lay: AllocLayout) -> int {
    user_start_of(lay) - CANARY_SIZE
}

/// The user data bytes of a data-page span.
pub open spec fn user_slice(b: Seq<u8>, lay: AllocLayout) -> Seq<u8> {
    b.subrange(user_start_of(lay), b.len() as int)
}

/// The canary bytes of a data-page span.
pub open spec fn canary_slice(b: Seq<u8>, lay: AllocLayout) -> Seq<u8> {
    b.subrange(canary_start_of(lay), user_start_of(lay))
}

/// A data-page span after `d` has been written over the range starting at
/// `off`; all other bytes keep their old value.
pub open spec fn overwrite(b: Seq<u8>, off: int, d: Seq<u8>) -> Seq<u8> {
    Seq::new(b.len(), |i: int| if off <= i < off + d.len() { d[i - off] } else { b[i] })
}

/// The span coordinates this model uses agree with the region offsets: within
/// the whole region the data pages start at `unprotected_offset`, so a span
/// index is the region offset minus `unprotected_offset`.
pub proof fn lemma_span_matches_region_offsets(lay: AllocLayout)
    requires
        lay.wf(),
    ensures
        user_start_of(lay) == lay.user_offset() - lay.unprotected_offset(),
        canary_start_of(lay) == lay.canary_offset() - lay.unprotected_offset(),
{
}

/// Law: writing a full-size byte sequence into the user span and reading the
/// user span back yields exactly that sequence.
pub proof fn lemma_write_read_round_trip(b: Seq<u8>, lay: AllocLayout, d: Seq<u8>)
    requires
        lay.wf(),
        b.len() == lay.unprotected_size,
        d.len() == lay.size,
    ensures
        user_slice(overwrite(b, user_start_of(lay), d), lay) == d,
{
    assert(user_slice(overwrite(b, user_start_of(lay), d), lay) =~= d);
}

/// Law: a write confined to the user span leaves the canary bytes unchanged —
/// the canary immediately precedes the user data, so ordinary use of an
/// allocation never disturbs the corruption detector.
pub proof fn lemma_user_write_preserves_canary(b: Seq<u8>, lay: AllocLayout, d: Seq<u8>)
    requires
        lay.wf(),
        b.len() == lay.unprotected_size,
        d.len() == lay.size,
    ensures
        canary_slice(overwrite(b, user_start_of(lay), d), lay) == canary_slice(b, lay),
{
    assert(canary_slice(overwrite(b, user_start_of(lay), d), lay) =~= canary_slice(b, lay));
}

/// One live guarded allocation.
pub struct GuardedRegion {
    /// The bytes of the data pages (`layout.unprotected_size` of them).
    pub bytes: Vec<u8>,
    /// The layout the allocation was built with.
    pub layout: AllocLayout,
    /// The process canary the allocation was built with.
    pub canary: Vec<u8>,
    /// The data-page size as recorded in the metadata page; deallocation and
    /// protection changes trust this stored value.
    pub stored_size: usize,
    /// The access level currently applied to the data pages.
    pub prot: Prot,
}

impl GuardedRegion {
    pub open spec fn wf(self) -> bool {
        &&& self.layout.wf()
        &&& self.canary@.len() == CANARY_SIZE
        &&& self.bytes@.len() == self.layout.unprotected_size
        &&& self.stored_size == self.layout.unprotected_size
    }

    /// The user data bytes.
    pub open spec fn user_bytes(self) -> Seq<u8> {
        user_slice(self.bytes@, self.layout)
    }

    /// The canary bytes as they currently sit in the region.
    pub open spec fn canary_bytes(self) -> Seq<u8> {
        canary_slice(self.bytes@, self.layout)
    }

    /// Whether the canary is intact: deallocation verifies exactly this, and
    /// treats a mismatch as fatal corruption.
    pub open spec fn canary_ok(self) -> bool {
        self.canary_bytes() == self.canary@
    }

    /// The requested user size of this allocation.
    pub fn user_size(&self) -> (r: usize)
        ensures
            r == self.layout.size,
    {
        self.layout.size
    }

    /// The data-page size as the metadata page records it.
    pub fn stored_unprotected_size(&self) -> (r: usize)
        ensures
            r == self.stored_size,
    {
        self.stored_size
    }

    /// Writes a full-size byte sequence into the user span. The canary, the
    /// layout, and the access level are untouched.
    pub fn write(&mut self, data: &Vec<u8>)
        requires
            old(self).wf(),
            data@.len() == old(self).layout.size,
            prot_writable(old(self).prot),
        ensures
            final(self).wf(),
            final(self).layout == old(self).layout,
            final(self).canary@ == old(self).canary@,
            final(self).stored_size == old(self).stored_size,
            final(self).prot == old(self).prot,
            final(self).bytes@ == overwrite(old(self).bytes@, user_start_of(old(self).layout), data@),
            final(self).user_bytes() == data@,
            final(self).canary_bytes() == old(self).canary_bytes(),
            final(self).canary_ok() == old(self).canary_ok(),
    {
        let ustart: usize = self.layout.unprotected_size - self.layout.size;
        copy_into(&mut self.bytes, ustart, data);
        proof {
            assert(self.bytes@ =~= overwrite(old(self).bytes@, user_start_of(old(self).layout), data@));
            lemma_write_read_round_trip(old(self).bytes@, old(self).layout, data@);
            lemma_user_write_preserves_canary(old(self).bytes@, old(self).layout, data@);
        }
    }

    /// Reads the user span back.
    pub fn read(&self) -> (r: Vec<u8>)
        requires
            self.wf(),
            prot_readable(self.prot),
        ensures
            r@ == self.user_bytes(),
    {
        let ustart: usize = self.layout.unprotected_size - self.layout.size;
        let mut r: Vec<u8> = Vec::new();
        let mut i: usize = 0;
        while i < self.layout.size
            invariant
                i <= self.layout.size,
                self.wf(),
                ustart == user_start_of(self.layout),
                r@ == self.bytes@.subrange(ustart as int, ustart + i),
            decreases self.layout.size - i,
        {
            r.push(self.bytes[ustart + i]);
            proof {
                assert(r@ =~= self.bytes@.subrange(ustart as int, ustart + i + 1));
            }
            i = i + 1;
        }
        proof {
            assert(r@ =~= self.user_bytes());
        }
        r
    }

    /// Re-applies an access level to the data pages — and only to them: the
    /// guard and metadata pages keep their protection. The bytes are
    /// unchanged; a caller can mark secret material inaccessible while idle
    /// and read-write when needed, without reallocating.
    pub fn protect(&mut self, level: Prot) -> (r: bool)
        requires
            old(self).wf(),
        ensures
            r,
            final(self).wf(),
            final(self).bytes@ == old(self).bytes@,
            final(self).layout == old(self).layout,
            final(self).canary@ == old(self).canary@,
            final(self).stored_size == old(self).stored_size,
            final(self).prot == level,
    {
        self.prot = level;
        true
    }

    /// Deallocates the region after verifying the canary, examining every
    /// canary byte. Returns whether the canary was intact; a `false` verdict
    /// means an overflow or underflow has corrupted the allocator's own
    /// metadata, and the caller must terminate rather than continue. The
    /// region is consumed, so this design cannot express a double free.
    pub fn free(self) -> (r: bool)
        requires
            self.wf(),
        ensures
            r == self.canary_ok(),
    {
        let ustart: usize = self.layout.unprotected_size - self.layout.size;
        let cstart: usize = ustart - CANARY_SIZE;
        let r = ct_eq_range(&self.bytes, cstart, &self.canary, CANARY_SIZE);
        proof {
            if r {
                assert(self.canary_bytes() =~= self.canary@);
            } else {
                if self.canary_ok() {
                    assert(forall|i: int|
                        0 <= i < CANARY_SIZE ==> self.bytes@[cstart + i] == self.canary_bytes()[i]);
                }
            }
        }
        r
    }
}

/// Allocates a guarded region for `size` user bytes. Returns `None` exactly
/// when the four-page-plus-data total cannot be represented in address
/// arithmetic (in particular for every `size` at or above
/// `usize::MAX - 4 * page_size`) or, in the operating-system-backed setting,
/// when the backend has no memory; this model has no backend to run out.
/// A fresh region has its canary in place, read-write access, and every user
/// byte equal to the fixed garbage pattern, so a read of never-written memory
/// surfaces as that recognizable value.
pub fn allocate(ctx: &Context, size: usize) -> (r: Option<GuardedRegion>)
    requires
        ctx.wf(),
    ensures
        (r is Some) <==> (size < usize::MAX - 4 * ctx.page_size
            && round_up(CANARY_SIZE + size, ctx.page_size as int)
                <= usize::MAX - 3 * ctx.page_size),
        size >= usize::MAX - 4 * ctx.page_size ==> r is None,
        size + CANARY_SIZE + 4 * ctx.page_size <= usize::MAX + 1 ==> r is Some,
        r matches Some(reg) ==> {
            &&& reg.wf()
            &&& reg.layout.page_size == ctx.page_size
            &&& reg.layout.size == size
            &&& reg.canary@ == ctx.canary@
            &&& reg.canary_ok()
            &&& reg.user_bytes() == Seq::new(size as nat, |i: int| GARBAGE_VALUE)
            &&& reg.prot == Prot::ReadWrite
        },
{
    let lay = match plan(ctx.page_size, size) {
        None => {
            return None;
        },
        Some(lay) => lay,
    };
    proof {
        lemma_round_up_props(CANARY_SIZE + size, ctx.page_size as int);
    }
    let mut bytes: Vec<u8> = Vec::new();
    let mut i: usize = 0;
    while i < lay.unprotected_size
        invariant
            bytes@.len() == i,
            i <= lay.unprotected_size,
        decreases lay.unprotected_size - i,
    {
        bytes.push(0);
        i = i + 1;
    }
    let ustart: usize = lay.unprotected_size - lay.size;
    let cstart: usize = ustart - CANARY_SIZE;
    copy_into(&mut bytes, cstart, &ctx.canary);
    fill_range(&mut bytes, ustart, lay.size, GARBAGE_VALUE);
    let reg = GuardedRegion {
        bytes,
        layout: lay,
        canary: copy_vec(&ctx.canary),
        stored_size: lay.unprotected_size,
        prot: Prot::ReadWrite,
    };
    proof {
        assert(reg.canary_bytes() =~= reg.canary@);
        assert(reg.user_bytes() =~= Seq::new(size as nat, |i: int| GARBAGE_VALUE));
    }
    Some(reg)
}

/// Allocates a guarded region for `count` elements of `elem_size` bytes each;
/// the product is subject to the same arithmetic bound as `allocate`, and a
/// product that overflows is rejected.
pub fn allocate_array(ctx: &Context, count: usize, elem_size: usize) -> (r: Option<GuardedRegion>)
    requires
        ctx.wf(),
    ensures
        count * elem_size > usize::MAX ==> r is None,
        (r is Some) <==> (count * elem_size <= usize::MAX
            && count * elem_size < usize::MAX - 4 * ctx.page_size
            && round_up(CANARY_SIZE + count * elem_size, ctx.page_size as int)
                <= usize::MAX - 3 * ctx.page_size),
        r matches Some(reg) ==> {
            &&& reg.wf()
            &&& reg.layout.page_size == ctx.page_size
            &&& reg.layout.size == count * elem_size
            &&& reg.canary@ == ctx.canary@
            &&& reg.canary_ok()
            &&& reg.user_bytes() == Seq::new((count * elem_size) as nat, |i: int| GARBAGE_VALUE)
            &&& reg.prot == Prot::ReadWrite
        },
{
    match count.checked_mul(elem_size) {
        None => None,
        Some(size) => allocate(ctx, size),
    }
}

/// Law: a region fresh from `allocate` passes the canary verification that
/// `free` performs, and still passes after any full-size write to the user
/// span — so allocate, use, free never trips the fatal corruption path.
pub proof fn lemma_allocate_write_free_safe(reg: GuardedRegion, d: Seq<u8>)
    requires
        reg.wf(),
        reg.canary_ok(),
        d.len() == reg.layout.size,
    ensures
        canary_slice(overwrite(reg.bytes@, user_start_of(reg.layout), d), reg.layout) == reg.canary@,
{
    lemma_user_write_preserves_canary(reg.bytes@, reg.layout, d);
}

} // verus!
