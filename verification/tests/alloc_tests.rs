use memsec::{CANARY_SIZE, GARBAGE_VALUE};
use memsec::bytes::{ct_eq_range, memeq, memzero, fill_range, copy_into, copy_vec};
use memsec::context::Context;
use memsec::layout::{plan, recover_addrs, region_total_size};
use memsec::prot::{Prot, allows_read, allows_write};
use memsec::region::{allocate, allocate_array};
use memsec::arith::{page_round, addr_align_down};

const PAGE: usize = 4096;

fn test_context() -> Context {
    let canary: Vec<u8> = (1..=16).collect();
    Context::from_parts(PAGE, canary).expect("valid page size and canary")
}

#[test]
fn context_init_test() {
    let a = Context::init(PAGE).expect("init with a normal page size");
    assert_eq!(a.page_size, PAGE);
    assert_eq!(a.canary.len(), CANARY_SIZE);
    // The canary comes from the OS random source: two contexts drawing
    // independently must not agree (a collision has probability 2^-128).
    let b = Context::init(PAGE).expect("second init");
    assert_ne!(a.canary, b.canary);
}

#[test]
fn context_invalid_page_test() {
    // Smaller than the canary (and than a machine word): degenerate.
    assert!(Context::init(8).is_none());
    // Not a power of two.
    assert!(Context::init(4095).is_none());
    // So large that four pages of address arithmetic would overflow.
    assert!(Context::init(1usize << 63).is_none());
    // Wrong canary length.
    assert!(Context::from_parts(PAGE, vec![0u8; 15]).is_none());
    assert!(Context::from_parts(PAGE, vec![0u8; 16]).is_some());
}

#[test]
fn memzero_test() {
    let mut x = vec![1u8; 16];
    memzero(&mut x, 0, 16);
    assert_eq!(x, [0u8; 16]);
    x.copy_from_slice(&[1u8; 16]);
    assert_eq!(x, [1u8; 16]);
    memzero(&mut x, 1, 10);
    assert_eq!(x, [1, 0, 0, 0, 0, 0, 0, 0, 0, 0, 0, 1, 1, 1, 1, 1]);
}

#[test]
fn memeq_test() {
    let a = vec![3u8, 1, 4, 1, 5];
    let b = vec![3u8, 1, 4, 1, 5];
    let c = vec![3u8, 1, 4, 1, 6]; // differs only in the last byte
    assert!(memeq(&a, &b));
    assert!(!memeq(&a, &c));
    assert!(ct_eq_range(&a, 1, &vec![1u8, 4, 1], 3));
    assert!(!ct_eq_range(&a, 0, &vec![1u8, 4, 1], 3));
}

#[test]
fn fill_and_copy_test() {
    let mut buf = vec![0u8; 8];
    fill_range(&mut buf, 2, 3, 0xab);
    assert_eq!(buf, [0, 0, 0xab, 0xab, 0xab, 0, 0, 0]);
    copy_into(&mut buf, 5, &vec![9u8, 8]);
    assert_eq!(buf, [0, 0, 0xab, 0xab, 0xab, 9, 8, 0]);
    assert_eq!(copy_vec(&buf), buf);
}

#[test]
fn page_round_test() {
    assert_eq!(page_round(0, PAGE), 0);
    assert_eq!(page_round(1, PAGE), PAGE);
    assert_eq!(page_round(PAGE, PAGE), PAGE);
    assert_eq!(page_round(PAGE + 1, PAGE), 2 * PAGE);
    assert_eq!(addr_align_down(0, PAGE), 0);
    assert_eq!(addr_align_down(PAGE - 1, PAGE), 0);
    assert_eq!(addr_align_down(3 * PAGE + 7, PAGE), 3 * PAGE);
}

#[test]
fn plan_layout_test() {
    let lay = plan(PAGE, 100).expect("small request");
    assert_eq!(lay.page_size, PAGE);
    assert_eq!(lay.size, 100);
    // canary + 100 bytes fit in one data page
    assert_eq!(lay.unprotected_size, PAGE);
    assert_eq!(lay.total_size, 4 * PAGE);
    assert_eq!(lay.data_offset(), 2 * PAGE);
    assert_eq!(lay.trailing_guard_off(), 3 * PAGE);
    // right-aligned: user data ends exactly at the trailing guard
    assert_eq!(lay.user_off() + 100, lay.trailing_guard_off());
    // the canary immediately precedes the user data
    assert_eq!(lay.canary_off() + CANARY_SIZE, lay.user_off());
}

#[test]
fn allocation_bound_test() {
    // At and above usize::MAX - 4 * page_size: no allocation.
    assert!(plan(PAGE, usize::MAX - 4 * PAGE).is_none());
    assert!(plan(PAGE, usize::MAX).is_none());
    // Just below the threshold, as soon as canary + data + four pages fit the
    // address space, the layout is granted.
    assert!(plan(PAGE, usize::MAX - 4 * PAGE - CANARY_SIZE).is_some());
    assert!(plan(PAGE, usize::MAX - 4 * PAGE - CANARY_SIZE + 1).is_some());
    // In the last fifteen bytes before the threshold the rounded total itself
    // no longer fits address arithmetic, so the request is refused as well.
    assert!(plan(PAGE, usize::MAX - 4 * PAGE - CANARY_SIZE + 2).is_none());
    assert!(plan(PAGE, usize::MAX - 4 * PAGE - 1).is_none());
}

#[test]
fn recover_addrs_test() {
    let base = 10 * PAGE;
    let lay = plan(PAGE, 100).unwrap();
    let user_addr = base + lay.user_off();
    let rec = recover_addrs(PAGE, user_addr).expect("pointer from this layout");
    // recovery reproduces exactly the addresses the allocator computed
    assert_eq!(rec.canary_addr, user_addr - CANARY_SIZE);
    assert_eq!(rec.unprotected_addr, base + lay.data_offset());
    assert_eq!(rec.base_addr, base);
    // an address below the lowest any region can occupy is foreign: fatal
    assert!(recover_addrs(PAGE, 5).is_none());
    assert!(recover_addrs(PAGE, 2 * PAGE + CANARY_SIZE).is_none());
}

#[test]
fn region_total_size_test() {
    assert_eq!(region_total_size(PAGE, PAGE), Some(4 * PAGE));
    assert_eq!(region_total_size(PAGE, 3 * PAGE), Some(6 * PAGE));
    // a stored size this large cannot come from any region: corruption
    assert_eq!(region_total_size(PAGE, usize::MAX - PAGE), None);
}

#[test]
fn malloc_free_test() {
    let ctx = test_context();

    let reg = allocate(&ctx, 1).expect("one byte");
    assert!(reg.free());

    let reg = allocate(&ctx, 0).expect("zero bytes is allowed");
    assert!(reg.free());

    assert!(allocate(&ctx, usize::MAX - 1).is_none());

    let mut buf = allocate_array(&ctx, 16, 1).expect("array of 16 bytes");
    buf.write(&vec![0u8; 16]);
    assert_eq!(buf.read(), vec![0u8; 16]);
    // free consumes the region, so a second free of the same allocation
    // cannot even be written; double free stays out of the model's reach.
    assert!(buf.free());
}

#[test]
fn malloc_u64_test() {
    let ctx = test_context();
    let mut reg = allocate(&ctx, 8).expect("a machine word");
    reg.write(&vec![0xffu8; 8]);
    assert_eq!(reg.read(), vec![0xffu8; 8]);
    assert!(reg.free());
}

#[test]
fn malloc_mprotect_1_test() {
    let ctx = test_context();
    let mut x = allocate(&ctx, 16).unwrap();

    x.write(&vec![1u8; 16]);
    assert!(x.protect(Prot::ReadOnly));
    assert_eq!(x.read(), vec![1u8; 16]);
    assert!(x.protect(Prot::NoAccess));
    assert!(x.protect(Prot::ReadWrite));
    x.write(&vec![0u8; 16]);
    assert!(x.free());
}

#[test]
fn garbage_fill_test() {
    let ctx = test_context();
    // A fresh, never-written allocation holds the fixed garbage pattern in
    // every byte: recognizable and not zero.
    assert_eq!(GARBAGE_VALUE, 0xd0);
    let reg = allocate(&ctx, 5).unwrap();
    assert_eq!(reg.read(), vec![GARBAGE_VALUE; 5]);
    assert!(reg.free());
}

#[test]
fn write_read_round_trip_test() {
    let ctx = test_context();
    // A payload longer than one page, with all byte values represented.
    let data: Vec<u8> = (0..5000u32).map(|i| (i % 256) as u8).collect();
    let mut reg = allocate(&ctx, data.len()).unwrap();
    reg.write(&data);
    assert_eq!(reg.read(), data);
    assert!(reg.free());
}

#[test]
fn end_to_end_test() {
    let ctx = test_context();
    let mut reg = allocate(&ctx, 16).unwrap();
    reg.write(&vec![0xffu8; 16]);
    assert!(reg.protect(Prot::ReadOnly));
    assert_eq!(reg.read(), vec![0xffu8; 16]);
    assert!(reg.protect(Prot::NoAccess));
    assert!(reg.protect(Prot::ReadWrite));
    reg.write(&vec![0u8; 16]);
    assert!(reg.free());
}

#[test]
fn allocate_array_overflow_test() {
    let ctx = test_context();
    assert!(allocate_array(&ctx, usize::MAX, 2).is_none());
    assert!(allocate_array(&ctx, usize::MAX / 2 + 1, 2).is_none());
    let reg = allocate_array(&ctx, 4, 4).expect("sixteen bytes");
    assert_eq!(reg.user_size(), 16);
    assert!(reg.free());
    let reg = allocate_array(&ctx, 0, 8).expect("empty array is allowed");
    assert_eq!(reg.user_size(), 0);
    assert!(reg.free());
}

#[test]
fn canary_corruption_test() {
    let ctx = test_context();
    let mut reg = allocate(&ctx, 16).unwrap();
    // simulate a buffer underflow: damage one canary byte, which sits
    // immediately before the user data in the data-page span
    let user_start = reg.layout.unprotected_size - reg.layout.size;
    let canary_start = user_start - CANARY_SIZE;
    reg.bytes[canary_start] ^= 1;
    // free detects the corruption; a real caller must treat this as fatal
    assert!(!reg.free());
}

#[test]
fn prot_flags_test() {
    assert!(!allows_read(Prot::NoAccess));
    assert!(!allows_write(Prot::NoAccess));
    assert!(allows_read(Prot::ReadOnly));
    assert!(!allows_write(Prot::ReadOnly));
    assert!(!allows_read(Prot::WriteOnly));
    assert!(allows_write(Prot::WriteOnly));
    assert!(allows_read(Prot::ReadWrite));
    assert!(allows_write(Prot::ReadWrite));
    assert!(!allows_read(Prot::Execute));
    assert!(!allows_write(Prot::Execute));
    assert!(allows_read(Prot::ReadExec));
    assert!(!allows_write(Prot::ReadExec));
    assert!(!allows_read(Prot::WriteExec));
    assert!(allows_write(Prot::WriteExec));
    assert!(allows_read(Prot::ReadWriteExec));
    assert!(allows_write(Prot::ReadWriteExec));
}

#[test]
fn stored_size_test() {
    let ctx = test_context();
    let reg = allocate(&ctx, 100).unwrap();
    // the metadata page records the data-page span the deallocator trusts
    assert_eq!(reg.stored_unprotected_size(), PAGE);
    assert!(reg.free());
}
