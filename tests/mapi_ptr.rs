use outlook_mapi::mapi_ptr::{hresult_from_status, E_OUTOFMEMORY};
use outlook_mapi::{CbNewSPropTagArray, ExternalAllocator, MAPIAllocError, MAPIOutParam, MAPIUninit};

/// An allocator that hands out increasing addresses and records every call.
struct TestAllocator {
    next: usize,
    status: i32,
    null: bool,
    roots: Vec<(u32, usize)>,
    chained: Vec<(u32, usize, usize)>,
    freed: Vec<usize>,
}

impl TestAllocator {
    fn new() -> Self {
        TestAllocator {
            next: 0x1000,
            status: 0,
            null: false,
            roots: Vec::new(),
            chained: Vec::new(),
            freed: Vec::new(),
        }
    }

    fn take(&mut self, byte_count: u32) -> usize {
        let addr = self.next;
        self.next += byte_count as usize + 0x100;
        addr
    }
}

impl ExternalAllocator for TestAllocator {
    fn allocate_root(&mut self, byte_count: u32) -> (i32, usize) {
        let addr = self.take(byte_count);
        self.roots.push((byte_count, addr));
        (self.status, if self.null { 0 } else { addr })
    }

    fn allocate_chained(&mut self, byte_count: u32, root: usize) -> (i32, usize) {
        let addr = self.take(byte_count);
        self.chained.push((byte_count, root, addr));
        (self.status, if self.null { 0 } else { addr })
    }

    fn free_root(&mut self, root: usize) {
        self.freed.push(root);
    }
}

#[allow(dead_code)]
#[derive(Debug)]
struct TestTags {
    c_values: u32,
    aul_prop_tag: [u32; 2],
}

#[test]
fn buffer_uninit() {
    let mut alloc = TestAllocator::new();
    let mut mapi_buffer = MAPIUninit::<TestTags>::new(1, &mut alloc).expect("new failed");
    assert!(mapi_buffer.uninit().is_ok());
    mapi_buffer.free(&mut alloc);
}

#[test]
fn buffer_into() {
    let mut alloc = TestAllocator::new();
    let mut mapi_buffer =
        MAPIUninit::<u8>::new(CbNewSPropTagArray(2), &mut alloc).expect("new failed");
    assert!(mapi_buffer.uninit().is_ok());
    let mut mapi_buffer = mapi_buffer.into::<TestTags>().ok().expect("into failed");
    assert!(mapi_buffer.uninit().is_ok());
    mapi_buffer.free(&mut alloc);
}

#[test]
fn buffer_iter() {
    let mut alloc = TestAllocator::new();
    let mapi_buffer = MAPIUninit::<u32>::new(2, &mut alloc).expect("new failed");
    let base = mapi_buffer.addr();
    let mut next = mapi_buffer.iter();
    match next.next() {
        Some(item) => {
            assert_eq!(item.addr(), base);
            assert_eq!(item.root(), base);
            assert_eq!(item.byte_count(), 4);
            assert!(!item.is_root());
        }
        None => panic!("first element missing"),
    }
    match next.next() {
        Some(item) => {
            assert_eq!(item.addr(), base + 4);
            assert_eq!(item.root(), base);
            assert_eq!(item.byte_count(), 4);
        }
        None => panic!("second element missing"),
    }
    assert!(next.next().is_none());
    assert!(alloc.chained.is_empty());
}

#[test]
fn buffer_assume_init() {
    let mut alloc = TestAllocator::new();
    let mut mapi_buffer = MAPIUninit::<TestTags>::new(1, &mut alloc).expect("new failed");
    let slot = mapi_buffer.uninit().expect("uninit failed");
    let mut mapi_buffer = mapi_buffer.assume_init();
    let test_tags = mapi_buffer.as_mut().expect("as_mut failed");
    assert_eq!(slot, test_tags);
    assert_eq!(mapi_buffer.byte_count(), 12);
}

#[test]
fn new_requests_count_times_size() {
    let mut alloc = TestAllocator::new();
    let buffer = MAPIUninit::<u32>::new(4, &mut alloc).expect("new failed");
    assert_eq!(buffer.byte_count(), 16);
    assert_eq!(alloc.roots, vec![(16, buffer.addr())]);
    assert!(buffer.is_root());
    assert_eq!(buffer.root(), buffer.addr());
}

#[test]
fn chain_then_free_in_either_order() {
    for root_first in [true, false] {
        let mut alloc = TestAllocator::new();
        let root = MAPIUninit::<u32>::new(4, &mut alloc).expect("new failed");
        assert_eq!(root.byte_count(), 16);
        let chained = root.chain::<u8, _>(20, &mut alloc).expect("chain failed");
        assert_eq!(chained.byte_count(), 20);
        assert_eq!(chained.root(), root.addr());
        assert_eq!(alloc.chained, vec![(20, root.addr(), chained.addr())]);
        let root_addr = root.addr();
        if root_first {
            root.free(&mut alloc);
            chained.free(&mut alloc);
        } else {
            chained.free(&mut alloc);
            root.free(&mut alloc);
        }
        assert_eq!(alloc.freed, vec![root_addr]);
    }
}

#[test]
fn chain_of_chain_keeps_root() {
    let mut alloc = TestAllocator::new();
    let root = MAPIUninit::<u8>::new(8, &mut alloc).expect("new failed");
    let first = root.chain::<u16, _>(3, &mut alloc).expect("chain failed");
    assert_eq!(first.byte_count(), 6);
    let second = first.chain::<u64, _>(2, &mut alloc).expect("chain failed");
    assert_eq!(second.byte_count(), 16);
    assert_eq!(second.root(), root.addr());
    assert_eq!(alloc.chained[1].1, root.addr());
    let ready = root.assume_init();
    let third = ready.chain::<u8, _>(1, &mut alloc).expect("chain failed");
    assert_eq!(third.root(), ready.addr());
    assert_eq!(first.release(), None);
    assert_eq!(second.release(), None);
    assert_eq!(third.release(), None);
    assert_eq!(ready.release(), Some(alloc.roots[0].1));
}

#[test]
fn into_too_small_keeps_buffer() {
    let mut alloc = TestAllocator::new();
    let buffer = MAPIUninit::<u8>::new(4, &mut alloc).expect("new failed");
    let addr = buffer.addr();
    match buffer.into::<u64>() {
        Ok(_) => panic!("a u64 does not fit in 4 bytes"),
        Err((error, mut kept)) => {
            assert!(matches!(error, MAPIAllocError::OutOfBoundsAccess));
            assert_eq!(kept.byte_count(), 4);
            assert_eq!(kept.addr(), addr);
            assert_eq!(kept.uninit().ok(), Some(addr));
            kept.free(&mut alloc);
        }
    }
    assert_eq!(alloc.freed, vec![addr]);
}

#[test]
fn into_exact_fit_succeeds() {
    let mut alloc = TestAllocator::new();
    let buffer = MAPIUninit::<u8>::new(8, &mut alloc).expect("new failed");
    let addr = buffer.addr();
    let wide = buffer.into::<u64>().ok().expect("into failed");
    assert_eq!(wide.addr(), addr);
    assert_eq!(wide.byte_count(), 8);
}

#[test]
fn new_size_overflow() {
    let mut alloc = TestAllocator::new();
    match MAPIUninit::<u64>::new(0x2000_0000, &mut alloc) {
        Err(MAPIAllocError::SizeOverflow(bytes)) => assert_eq!(bytes, 0x1_0000_0000),
        other => panic!("unexpected {other:?}"),
    }
    match MAPIUninit::<u64>::new(usize::MAX, &mut alloc) {
        Err(MAPIAllocError::SizeOverflow(bytes)) => assert_eq!(bytes, usize::MAX),
        other => panic!("unexpected {other:?}"),
    }
    assert!(alloc.roots.is_empty());
    let largest = MAPIUninit::<u8>::new(0xFFFF_FFFF, &mut alloc).expect("new failed");
    assert_eq!(largest.byte_count(), 0xFFFF_FFFF);
}

#[test]
fn chain_size_overflow() {
    let mut alloc = TestAllocator::new();
    let root = MAPIUninit::<u8>::new(1, &mut alloc).expect("new failed");
    match root.chain::<u32, _>(0x4000_0000, &mut alloc) {
        Err(MAPIAllocError::SizeOverflow(bytes)) => assert_eq!(bytes, 0x1_0000_0000),
        other => panic!("unexpected {other:?}"),
    }
    assert!(alloc.chained.is_empty());
}

#[test]
fn new_allocation_failed_status() {
    let mut alloc = TestAllocator::new();
    alloc.status = E_OUTOFMEMORY;
    match MAPIUninit::<u8>::new(4, &mut alloc) {
        Err(MAPIAllocError::AllocationFailed(e)) => assert_eq!(e.code().0, E_OUTOFMEMORY),
        other => panic!("unexpected {other:?}"),
    }
    alloc.status = 5;
    match MAPIUninit::<u8>::new(4, &mut alloc) {
        Err(MAPIAllocError::AllocationFailed(e)) => assert_eq!(e.code().0, -2147024891),
        other => panic!("unexpected {other:?}"),
    }
}

#[test]
fn new_null_pointer_is_out_of_memory() {
    let mut alloc = TestAllocator::new();
    alloc.null = true;
    match MAPIUninit::<u8>::new(4, &mut alloc) {
        Err(MAPIAllocError::AllocationFailed(e)) => assert_eq!(e.code().0, E_OUTOFMEMORY),
        other => panic!("unexpected {other:?}"),
    }
    let mut good = TestAllocator::new();
    let root = MAPIUninit::<u8>::new(4, &mut good).expect("new failed");
    good.null = true;
    match root.chain::<u8, _>(4, &mut good) {
        Err(MAPIAllocError::AllocationFailed(e)) => assert_eq!(e.code().0, E_OUTOFMEMORY),
        other => panic!("unexpected {other:?}"),
    }
}

#[test]
fn accept_root_rejects_wrapping_buffer() {
    assert!(MAPIUninit::<u8>::accept_root(16, 0, usize::MAX - 8).is_err());
    let ok = MAPIUninit::<u8>::accept_root(16, 0, usize::MAX - 16).expect("accept failed");
    assert_eq!(ok.byte_count(), 16);
}

#[test]
fn status_to_hresult() {
    assert_eq!(hresult_from_status(0), 0);
    assert_eq!(hresult_from_status(5), -2147024891);
    assert_eq!(hresult_from_status(0x1_0005), -2147024891);
    assert_eq!(hresult_from_status(E_OUTOFMEMORY), E_OUTOFMEMORY);
}

#[test]
fn iter_drops_remainder() {
    let mut alloc = TestAllocator::new();
    let bytes = MAPIUninit::<u8>::new(10, &mut alloc).expect("new failed");
    let base = bytes.addr();
    let words = bytes.into::<u32>().ok().expect("into failed");
    let mut it = words.iter();
    let mut addrs = Vec::new();
    while let Some(item) = it.next() {
        assert_eq!(item.byte_count(), 4);
        addrs.push(item.addr());
    }
    assert_eq!(addrs, vec![base, base + 4]);
    let mut again = words.iter();
    assert_eq!(again.next().map(|item| item.addr()), Some(base));
}

#[test]
fn uninit_too_small() {
    let mut alloc = TestAllocator::new();
    let mut small = MAPIUninit::<u8>::new(2, &mut alloc).expect("new failed");
    assert!(small.uninit().is_ok());
    let chained = small.chain::<u64, _>(0, &mut alloc).expect("chain failed");
    let mut chained = chained;
    assert!(matches!(chained.uninit(), Err(MAPIAllocError::OutOfBoundsAccess)));
    let mut ready = chained.assume_init();
    assert!(matches!(ready.as_mut(), Err(MAPIAllocError::OutOfBoundsAccess)));
}

#[test]
fn out_param_null_check() {
    let mut alloc = TestAllocator::new();
    let mut out = MAPIOutParam::<u32>::default();
    assert_eq!(out.as_mut(), None);
    assert_eq!(out.as_mut_slice(3), None);
    *out.as_mut_ptr() = 0x4000;
    assert_eq!(out.as_mut(), Some(0x4000));
    assert_eq!(out.as_mut_slice(3), Some((0x4000, 3)));
    out.free(&mut alloc);
    assert_eq!(alloc.freed, vec![0x4000]);
    let empty = MAPIOutParam::<u32>::default();
    assert_eq!(empty.release(), None);
}
