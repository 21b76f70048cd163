//! Handles for memory allocated with MAPI's root allocator (freed with a single call) or its
//! chained allocator (tied to a root and reclaimed together with it).
//!
//! Foreign addresses are carried as `usize` values, where `0` stands for a null pointer. The
//! allocator itself is supplied by the caller through [`ExternalAllocator`].

use core::marker::PhantomData;
use vstd::layout::size_of;
use vstd::prelude::*;

verus! {

/// The `HRESULT` that reports an allocation which returned a null pointer.
pub const E_OUTOFMEMORY: i32 = -2147024882;

/// Largest byte count that the allocator's 32-bit size parameter can carry.
pub const MAX_REQUEST: usize = 0xFFFF_FFFF;

#[verifier::external_type_specification]
#[verifier::external_body]
pub struct ExWindowsError(windows_core::Error);

/// Errors which can be returned from this module.
#[derive(Debug)]
pub enum MAPIAllocError {
    /// The requested number of bytes does not fit the allocator's `u32` size parameter. The
    /// value is the requested byte count, saturated at `usize::MAX`.
    SizeOverflow(usize),
    /// A cast or accessor needs more bytes than the buffer holds.
    OutOfBoundsAccess,
    /// The allocator reported a failure, or handed back a null pointer.
    AllocationFailed(windows_core::Error),
}

/// The foreign allocator. Addresses are `usize` values, `0` being null; statuses are MAPI
/// `SCODE` values.
pub trait ExternalAllocator {
    /// Allocate a root buffer of `byte_count` bytes.
    fn allocate_root(&mut self, byte_count: u32) -> (i32, usize);

    /// Allocate a buffer of `byte_count` bytes chained to the root buffer at `root`.
    fn allocate_chained(&mut self, byte_count: u32, root: usize) -> (i32, usize);

    /// Free the root buffer at `root` and every buffer chained to it.
    fn free_root(&mut self, root: usize);
}

/// What `HRESULT::from_win32` computes from an `SCODE` status: a status that is zero or
/// negative is kept, a positive one is folded into the Win32 facility with the failure bit set.
pub open spec fn hresult_of_status(status: i32) -> int {
    if status <= 0 {
        status as int
    } else {
        (status as int % 0x1_0000) + 0x7_0000 - 0x8000_0000
    }
}

/// Map an `SCODE` status to an `HRESULT`, as `HRESULT::from_win32` does.
pub fn hresult_from_status(status: i32) -> (r: i32)
    ensures
        r == hresult_of_status(status),
{
    if status <= 0 {
        status
    } else {
        let low: u32 = (status as u32) & 0xFFFF;
        proof {
            let x = status as u32;
            assert(x & 0xFFFF == x % 0x1_0000) by (bit_vector);
        }
        (low as i64 + 0x7_0000 - 0x8000_0000) as i32
    }
}

/// Relies on `windows_core::HRESULT::ok`: `Ok` exactly for a non-negative `HRESULT`.
#[verifier::external_body]
fn hresult_ok(hr: i32) -> (r: Result<(), windows_core::Error>)
    ensures
        r is Ok <==> hr >= 0,
{
    windows_core::HRESULT(hr).ok()
}

/// Relies on `windows_core::Error::from_hresult` to build the error for an `HRESULT`.
#[verifier::external_body]
fn error_from_hresult(hr: i32) -> (r: windows_core::Error) {
    windows_core::Error::from_hresult(windows_core::HRESULT(hr))
}

/// What a caller can know of an allocation handle.
pub struct AllocationView {
    /// Address of the buffer's first byte.
    pub addr: usize,
    /// Number of bytes the buffer holds.
    pub byte_count: usize,
    /// Address of the root buffer that this one belongs to (its own address for a root).
    pub root: usize,
    /// Whether this handle owns a root buffer, which it frees when released.
    pub is_root: bool,
    /// Whether the caller has asserted that the buffer is fully written.
    pub ready: bool,
}

impl AllocationView {
    /// A non-null buffer that does not run past the end of the address space, whose root is
    /// known.
    pub open spec fn wf(self) -> bool {
        &&& self.addr != 0
        &&& self.addr + self.byte_count <= usize::MAX
        &&& self.root != 0
        &&& self.is_root ==> self.root == self.addr
    }

    /// The same buffer, once the caller has asserted that it is fully written.
    pub open spec fn initialized(self) -> AllocationView {
        AllocationView { ready: true, ..self }
    }

    /// The address of a slot of `size` bytes at the start of the buffer, when the buffer has
    /// room for it.
    pub open spec fn slot(self, size: nat) -> Option<usize> {
        if size <= self.byte_count {
            Some(self.addr)
        } else {
            None
        }
    }

    /// The root address that releasing this handle hands to the allocator's free call.
    pub open spec fn released(self) -> Option<usize> {
        if self.is_root {
            Some(self.root)
        } else {
            None
        }
    }
}

/// The number of bytes of `count` elements of `size` bytes, saturated at `usize::MAX`.
pub open spec fn requested_bytes(count: usize, size: nat) -> usize {
    if count * size <= usize::MAX {
        (count * size) as usize
    } else {
        usize::MAX
    }
}

/// A reply of the allocator that stands for a usable buffer of `byte_count` bytes.
pub open spec fn reply_ok(byte_count: usize, status: i32, addr: usize) -> bool {
    status == 0 && addr != 0 && addr + byte_count <= usize::MAX
}

/// Whether an error is `SizeOverflow` with the given byte count.
pub open spec fn is_size_overflow(e: MAPIAllocError, bytes: usize) -> bool {
    match e {
        MAPIAllocError::SizeOverflow(b) => b == bytes,
        _ => false,
    }
}

/// Check that `count` elements of `size` bytes fit the allocator's `u32` size parameter, and
/// give that byte count.
pub fn byte_request(count: usize, size: usize) -> (r: Result<u32, MAPIAllocError>)
    ensures
        r is Ok <==> count * size <= MAX_REQUEST,
        r is Ok ==> r->Ok_0 == count * size,
        r is Err ==> is_size_overflow(r->Err_0, requested_bytes(count, size as nat)),
{
    match count.checked_mul(size) {
        Some(bytes) => {
            if bytes <= MAX_REQUEST {
                Ok(bytes as u32)
            } else {
                Err(MAPIAllocError::SizeOverflow(bytes))
            }
        },
        None => Err(MAPIAllocError::SizeOverflow(usize::MAX)),
    }
}

/// Turn the allocator's reply into the address of a usable buffer of `byte_count` bytes. A
/// failing status is reported as it came; a null pointer, or one whose buffer would run past
/// the end of the address space, as `E_OUTOFMEMORY`.
fn accept_reply(byte_count: usize, status: i32, addr: usize) -> (r: Result<usize, MAPIAllocError>)
    ensures
        r is Ok <==> reply_ok(byte_count, status, addr),
        r is Ok ==> r->Ok_0 == addr,
        r is Err ==> r->Err_0 is AllocationFailed,
{
    match hresult_ok(hresult_from_status(status)) {
        Err(e) => Err(MAPIAllocError::AllocationFailed(e)),
        Ok(()) => {
            if addr == 0 || addr > usize::MAX - byte_count {
                Err(MAPIAllocError::AllocationFailed(error_from_hresult(E_OUTOFMEMORY)))
            } else {
                Ok(addr)
            }
        },
    }
}

#[derive(Debug)]
enum Buffer {
    Uninit(usize),
    Ready(usize),
}

impl Buffer {
    spec fn addr(&self) -> usize {
        match self {
            Buffer::Uninit(a) => *a,
            Buffer::Ready(a) => *a,
        }
    }

    fn get_addr(&self) -> (r: usize)
        ensures
            r == self.addr(),
    {
        match self {
            Buffer::Uninit(a) => *a,
            Buffer::Ready(a) => *a,
        }
    }
}

/// A buffer of the root allocator (`root` is `None`) or of the chained allocator.
#[derive(Debug)]
struct Allocation<T> {
    buffer: Buffer,
    byte_count: usize,
    root: Option<usize>,
    phantom: PhantomData<T>,
}

impl<T> Allocation<T> {
    spec fn view(&self) -> AllocationView {
        AllocationView {
            addr: self.buffer.addr(),
            byte_count: self.byte_count,
            root: match self.root {
                Some(r) => r,
                None => self.buffer.addr(),
            },
            is_root: self.root is None,
            ready: self.buffer is Ready,
        }
    }

    fn root_addr(&self) -> (r: usize)
        ensures
            r == self.view().root,
    {
        match self.root {
            Some(r) => r,
            None => self.buffer.get_addr(),
        }
    }
}


/// A buffer from the root or the chained allocator which has not been initialized yet.
#[derive(Debug)]
pub struct MAPIUninit<T>(Allocation<T>);

impl<T> View for MAPIUninit<T> {
    type V = AllocationView;

    closed spec fn view(&self) -> AllocationView {
        self.0.view()
    }
}

impl<T> MAPIUninit<T> {
    #[verifier::type_invariant]
    spec fn inv(self) -> bool {
        self.0.view().wf() && !self.0.view().ready
    }

    /// Take the allocator's reply to a root request of `byte_count` bytes.
    pub fn accept_root(byte_count: u32, status: i32, addr: usize) -> (r: Result<
        Self,
        MAPIAllocError,
    >)
        ensures
            r is Ok <==> reply_ok(byte_count as usize, status, addr),
            r is Ok ==> r->Ok_0@ == (AllocationView {
                addr,
                byte_count: byte_count as usize,
                root: addr,
                is_root: true,
                ready: false,
            }),
            r is Err ==> r->Err_0 is AllocationFailed,
    {
        match accept_reply(byte_count as usize, status, addr) {
            Ok(a) => Ok(MAPIUninit(Allocation {
                buffer: Buffer::Uninit(a),
                byte_count: byte_count as usize,
                root: None,
                phantom: PhantomData,
            })),
            Err(e) => Err(e),
        }
    }

    /// Allocate room for `count` elements of `T` with the root allocator. The buffer and every
    /// buffer chained to it are freed together when this handle, or the [`MAPIBuffer`] it
    /// becomes, is released.
    pub fn new<A: ExternalAllocator>(count: usize, allocator: &mut A) -> (r: Result<
        Self,
        MAPIAllocError,
    >)
        ensures
            (r matches Err(MAPIAllocError::SizeOverflow(_))) <==> count * size_of::<T>()
                > MAX_REQUEST,
            r is Err ==> r->Err_0 is AllocationFailed || is_size_overflow(
                r->Err_0,
                requested_bytes(count, size_of::<T>()),
            ),
            r is Ok ==> r->Ok_0@.byte_count == count * size_of::<T>(),
            r is Ok ==> r->Ok_0@.is_root && !r->Ok_0@.ready && r->Ok_0@.wf(),
    {
        match byte_request(count, core::mem::size_of::<T>()) {
            Ok(bytes) => {
                let (status, addr) = allocator.allocate_root(bytes);
                Self::accept_root(bytes, status, addr)
            },
            Err(e) => Err(e),
        }
    }

    /// The address of the buffer's first byte.
    pub fn addr(&self) -> (r: usize)
        ensures
            r == self@.addr,
    {
        self.0.buffer.get_addr()
    }

    /// The number of bytes the buffer holds.
    pub fn byte_count(&self) -> (r: usize)
        ensures
            r == self@.byte_count,
    {
        self.0.byte_count
    }

    /// Whether this handle owns a root buffer.
    pub fn is_root(&self) -> (r: bool)
        ensures
            r == self@.is_root,
    {
        match self.0.root {
            None => true,
            Some(_) => false,
        }
    }

    /// The address of the root buffer that this one belongs to.
    pub fn root(&self) -> (r: usize)
        ensures
            r == self@.root,
    {
        self.0.root_addr()
    }

    /// Take the allocator's reply to a chained request of `byte_count` bytes made against
    /// [`Self::root`].
    pub fn accept_chained<P>(&self, byte_count: u32, status: i32, addr: usize) -> (r: Result<
        MAPIUninit<P>,
        MAPIAllocError,
    >)
        ensures
            r is Ok <==> reply_ok(byte_count as usize, status, addr),
            r is Ok ==> r->Ok_0@ == (AllocationView {
                addr,
                byte_count: byte_count as usize,
                root: self@.root,
                is_root: false,
                ready: false,
            }),
            r is Err ==> r->Err_0 is AllocationFailed,
    {
        proof {
            use_type_invariant(self);
        }
        chained_from_reply(self.0.root_addr(), byte_count, status, addr)
    }

    /// Allocate room for `count` elements of `P` with the chained allocator, tied to the same
    /// root as `self`. The result is never freed on its own.
    pub fn chain<P, A: ExternalAllocator>(&self, count: usize, allocator: &mut A) -> (r: Result<
        MAPIUninit<P>,
        MAPIAllocError,
    >)
        ensures
            (r matches Err(MAPIAllocError::SizeOverflow(_))) <==> count * size_of::<P>()
                > MAX_REQUEST,
            r is Err ==> r->Err_0 is AllocationFailed || is_size_overflow(
                r->Err_0,
                requested_bytes(count, size_of::<P>()),
            ),
            r is Ok ==> r->Ok_0@.byte_count == count * size_of::<P>(),
            r is Ok ==> !r->Ok_0@.is_root && !r->Ok_0@.ready && r->Ok_0@.root == self@.root,
            r is Ok ==> r->Ok_0@.wf(),
    {
        proof {
            use_type_invariant(self);
        }
        chain_allocation(self.0.root_addr(), count, allocator)
    }

    /// View the buffer as holding elements of `P`. This succeeds exactly when the buffer has
    /// room for one `P`; otherwise the handle comes back unchanged with `OutOfBoundsAccess`.
    pub fn into<P>(self) -> (r: Result<MAPIUninit<P>, (MAPIAllocError, MAPIUninit<T>)>)
        ensures
            r is Ok <==> size_of::<P>() <= self@.byte_count,
            r is Ok ==> r->Ok_0@ == self@,
            r is Err ==> r->Err_0.0 is OutOfBoundsAccess && r->Err_0.1@ == self@,
    {
        proof {
            use_type_invariant(&self);
        }
        if core::mem::size_of::<P>() <= self.0.byte_count {
            let MAPIUninit(a) = self;
            Ok(MAPIUninit(Allocation {
                buffer: a.buffer,
                byte_count: a.byte_count,
                root: a.root,
                phantom: PhantomData,
            }))
        } else {
            Err((MAPIAllocError::OutOfBoundsAccess, self))
        }
    }

    /// Split the buffer into elements of `T`, each a chained handle of `size_of::<T>()` bytes.
    pub fn iter(&self) -> (r: MAPIUninitIter<T>)
        ensures
            r@ == (IterView {
                next_addr: self@.addr,
                remaining: self@.byte_count,
                root: self@.root,
                element_size: size_of::<T>() as usize,
            }),
            r@.wf(),
    {
        proof {
            use_type_invariant(self);
        }
        MAPIUninitIter {
            alloc: self.0.buffer.get_addr(),
            byte_count: self.0.byte_count,
            root: self.0.root_addr(),
            element_size: core::mem::size_of::<T>(),
            phantom: PhantomData,
        }
    }

    /// The address of the slot for one `T` at the start of the buffer, to be written before
    /// [`Self::assume_init`].
    pub fn uninit(&mut self) -> (r: Result<usize, MAPIAllocError>)
        ensures
            final(self)@ == old(self)@,
            r is Ok <==> old(self)@.slot(size_of::<T>()) is Some,
            r is Ok ==> old(self)@.slot(size_of::<T>()) == Some(r->Ok_0),
            r is Err ==> r->Err_0 is OutOfBoundsAccess,
    {
        if core::mem::size_of::<T>() <= self.0.byte_count {
            Ok(self.0.buffer.get_addr())
        } else {
            Err(MAPIAllocError::OutOfBoundsAccess)
        }
    }

    /// Record that the buffer has been completely written. Nothing is checked: the caller
    /// asserts it.
    pub fn assume_init(self) -> (r: MAPIBuffer<T>)
        ensures
            r@ == self@.initialized(),
    {
        proof {
            use_type_invariant(&self);
        }
        let MAPIUninit(a) = self;
        MAPIBuffer(Allocation {
            buffer: Buffer::Ready(a.buffer.get_addr()),
            byte_count: a.byte_count,
            root: a.root,
            phantom: PhantomData,
        })
    }

    /// Give up the handle: the root address to hand to the allocator's free call for a root
    /// handle, and nothing for a chained one, whose memory goes with its root.
    pub fn release(self) -> (r: Option<usize>)
        ensures
            r == self@.released(),
    {
        self.0.release()
    }

    /// Give up the handle, calling the allocator's free on the root address for a root handle.
    pub fn free<A: ExternalAllocator>(self, allocator: &mut A) {
        if let Some(root) = self.release() {
            allocator.free_root(root);
        }
    }
}

/// A buffer which the caller has asserted to be fully written.
#[derive(Debug)]
pub struct MAPIBuffer<T>(Allocation<T>);

impl<T> View for MAPIBuffer<T> {
    type V = AllocationView;

    closed spec fn view(&self) -> AllocationView {
        self.0.view()
    }
}

impl<T> MAPIBuffer<T> {
    #[verifier::type_invariant]
    spec fn inv(self) -> bool {
        self.0.view().wf() && self.0.view().ready
    }

    /// The address of the buffer's first byte.
    pub fn addr(&self) -> (r: usize)
        ensures
            r == self@.addr,
    {
        self.0.buffer.get_addr()
    }

    /// The number of bytes the buffer holds.
    pub fn byte_count(&self) -> (r: usize)
        ensures
            r == self@.byte_count,
    {
        self.0.byte_count
    }

    /// Whether this handle owns a root buffer.
    pub fn is_root(&self) -> (r: bool)
        ensures
            r == self@.is_root,
    {
        match self.0.root {
            None => true,
            Some(_) => false,
        }
    }

    /// The address of the root buffer that this one belongs to.
    pub fn root(&self) -> (r: usize)
        ensures
            r == self@.root,
    {
        self.0.root_addr()
    }

    /// Take the allocator's reply to a chained request of `byte_count` bytes made against
    /// [`Self::root`].
    pub fn accept_chained<P>(&self, byte_count: u32, status: i32, addr: usize) -> (r: Result<
        MAPIUninit<P>,
        MAPIAllocError,
    >)
        ensures
            r is Ok <==> reply_ok(byte_count as usize, status, addr),
            r is Ok ==> r->Ok_0@ == (AllocationView {
                addr,
                byte_count: byte_count as usize,
                root: self@.root,
                is_root: false,
                ready: false,
            }),
            r is Err ==> r->Err_0 is AllocationFailed,
    {
        proof {
            use_type_invariant(self);
        }
        chained_from_reply(self.0.root_addr(), byte_count, status, addr)
    }

    /// Allocate room for `count` elements of `P` with the chained allocator, tied to the same
    /// root as `self`.
    pub fn chain<P, A: ExternalAllocator>(&self, count: usize, allocator: &mut A) -> (r: Result<
        MAPIUninit<P>,
        MAPIAllocError,
    >)
        ensures
            (r matches Err(MAPIAllocError::SizeOverflow(_))) <==> count * size_of::<P>()
                > MAX_REQUEST,
            r is Err ==> r->Err_0 is AllocationFailed || is_size_overflow(
                r->Err_0,
                requested_bytes(count, size_of::<P>()),
            ),
            r is Ok ==> r->Ok_0@.byte_count == count * size_of::<P>(),
            r is Ok ==> !r->Ok_0@.is_root && !r->Ok_0@.ready && r->Ok_0@.root == self@.root,
            r is Ok ==> r->Ok_0@.wf(),
    {
        proof {
            use_type_invariant(self);
        }
        chain_allocation(self.0.root_addr(), count, allocator)
    }

    /// The address of the initialized `T` at the start of the buffer.
    pub fn as_mut(&mut self) -> (r: Result<usize, MAPIAllocError>)
        ensures
            final(self)@ == old(self)@,
            r is Ok <==> old(self)@.slot(size_of::<T>()) is Some,
            r is Ok ==> old(self)@.slot(size_of::<T>()) == Some(r->Ok_0),
            r is Err ==> r->Err_0 is OutOfBoundsAccess,
    {
        if core::mem::size_of::<T>() <= self.0.byte_count {
            Ok(self.0.buffer.get_addr())
        } else {
            Err(MAPIAllocError::OutOfBoundsAccess)
        }
    }

    /// Give up the handle: the root address to hand to the allocator's free call for a root
    /// handle, and nothing for a chained one.
    pub fn release(self) -> (r: Option<usize>)
        ensures
            r == self@.released(),
    {
        self.0.release()
    }

    /// Give up the handle, calling the allocator's free on the root address for a root handle.
    pub fn free<A: ExternalAllocator>(self, allocator: &mut A) {
        if let Some(root) = self.release() {
            allocator.free_root(root);
        }
    }
}

impl<T> Allocation<T> {
    fn release(self) -> (r: Option<usize>)
        ensures
            r == self.view().released(),
    {
        match self.root {
            None => Some(self.buffer.get_addr()),
            Some(_) => None,
        }
    }
}

/// A chained handle for the allocator's reply, tied to `root`.
fn chained_from_reply<P>(root: usize, byte_count: u32, status: i32, addr: usize) -> (r: Result<
    MAPIUninit<P>,
    MAPIAllocError,
>)
    requires
        root != 0,
    ensures
        r is Ok <==> reply_ok(byte_count as usize, status, addr),
        r is Ok ==> r->Ok_0@ == (AllocationView {
            addr,
            byte_count: byte_count as usize,
            root,
            is_root: false,
            ready: false,
        }),
        r is Err ==> r->Err_0 is AllocationFailed,
{
    match accept_reply(byte_count as usize, status, addr) {
        Ok(a) => Ok(MAPIUninit(Allocation {
            buffer: Buffer::Uninit(a),
            byte_count: byte_count as usize,
            root: Some(root),
            phantom: PhantomData,
        })),
        Err(e) => Err(e),
    }
}

/// Ask the chained allocator for `count` elements of `P` tied to `root`.
fn chain_allocation<P, A: ExternalAllocator>(
    root: usize,
    count: usize,
    allocator: &mut A,
) -> (r: Result<
    MAPIUninit<P>,
    MAPIAllocError,
>)
    requires
        root != 0,
    ensures
        (r matches Err(MAPIAllocError::SizeOverflow(_))) <==> count * size_of::<P>()
                > MAX_REQUEST,
        r is Err ==> r->Err_0 is AllocationFailed || is_size_overflow(
            r->Err_0,
            requested_bytes(count, size_of::<P>()),
        ),
        r is Ok ==> r->Ok_0@.byte_count == count * size_of::<P>(),
        r is Ok ==> !r->Ok_0@.is_root && !r->Ok_0@.ready && r->Ok_0@.root == root,
        r is Ok ==> r->Ok_0@.wf(),
{
    match byte_request(count, core::mem::size_of::<P>()) {
        Ok(bytes) => {
            let (status, addr) = allocator.allocate_chained(bytes, root);
            chained_from_reply(root, bytes, status, addr)
        },
        Err(e) => Err(e),
    }
}

/// What a caller can know of an element iterator.
pub struct IterView {
    /// Address of the next element.
    pub next_addr: usize,
    /// Bytes not yet handed out.
    pub remaining: usize,
    /// Root shared by every element.
    pub root: usize,
    /// Size of one element.
    pub element_size: usize,
}

impl IterView {
    /// The next element is non-null, the remaining bytes do not run past the end of the
    /// address space, and the root is known.
    pub open spec fn wf(self) -> bool {
        &&& self.next_addr != 0
        &&& self.next_addr + self.remaining <= usize::MAX
        &&& self.root != 0
    }
}

/// The handle of the element at the front of an iterator.
pub open spec fn front_element(v: IterView) -> AllocationView {
    AllocationView {
        addr: v.next_addr,
        byte_count: v.element_size,
        root: v.root,
        is_root: false,
        ready: false,
    }
}

/// The iterator once its front element has been handed out.
pub open spec fn advanced(v: IterView) -> IterView {
    IterView {
        next_addr: (v.next_addr + v.element_size) as usize,
        remaining: (v.remaining - v.element_size) as usize,
        ..v
    }
}

/// The elements an iterator hands out, in order.
pub open spec fn iter_items(v: IterView) -> Seq<AllocationView>
    decreases v.remaining,
{
    if v.element_size == 0 || v.remaining < v.element_size {
        Seq::empty()
    } else {
        seq![front_element(v)] + iter_items(advanced(v))
    }
}

/// Iterator over the uninitialized elements of a [`MAPIUninit`] buffer. It makes no call to the
/// allocator.
pub struct MAPIUninitIter<T> {
    alloc: usize,
    byte_count: usize,
    root: usize,
    element_size: usize,
    phantom: PhantomData<T>,
}

impl<T> View for MAPIUninitIter<T> {
    type V = IterView;

    closed spec fn view(&self) -> IterView {
        IterView {
            next_addr: self.alloc,
            remaining: self.byte_count,
            root: self.root,
            element_size: self.element_size,
        }
    }
}

impl<T> MAPIUninitIter<T> {
    #[verifier::type_invariant]
    spec fn inv(self) -> bool {
        &&& self.alloc != 0
        &&& self.alloc + self.byte_count <= usize::MAX
        &&& self.root != 0
    }

    /// Hand out the next element, or nothing once fewer than `element_size` bytes remain.
    pub fn next(&mut self) -> (r: Option<MAPIUninit<T>>)
        ensures
            old(self)@.remaining < old(self)@.element_size ==> r is None && final(self)@ == old(
                self,
            )@,
            old(self)@.remaining >= old(self)@.element_size ==> r is Some && r->Some_0@
                == front_element(old(self)@) && final(self)@ == advanced(old(self)@),
            final(self)@.wf(),
            r is Some ==> r->Some_0@.wf(),
            old(self)@.element_size > 0 ==> iter_items(old(self)@) == match r {
                None => Seq::<AllocationView>::empty(),
                Some(x) => seq![x@] + iter_items(final(self)@),
            },
    {
        proof {
            use_type_invariant(&*self);
        }
        if self.byte_count < self.element_size {
            return None;
        }
        let item = MAPIUninit(Allocation {
            buffer: Buffer::Uninit(self.alloc),
            byte_count: self.element_size,
            root: Some(self.root),
            phantom: PhantomData,
        });
        *self = MAPIUninitIter {
            alloc: self.alloc + self.element_size,
            byte_count: self.byte_count - self.element_size,
            root: self.root,
            element_size: self.element_size,
            phantom: PhantomData,
        };
        Some(item)
    }
}


/// An out-parameter for MAPI functions that allocate their own result, of a size not known
/// in advance, and hand back only its address. Nothing but a null check stands between the
/// address and its use.
pub struct MAPIOutParam<T> {
    ptr: usize,
    phantom: PhantomData<T>,
}

impl<T> View for MAPIOutParam<T> {
    /// The address held, `0` for null.
    type V = usize;

    closed spec fn view(&self) -> usize {
        self.ptr
    }
}

impl<T> Default for MAPIOutParam<T> {
    /// An out-parameter holding null.
    fn default() -> (r: Self)
        ensures
            r@ == 0,
    {
        MAPIOutParam { ptr: 0, phantom: PhantomData }
    }
}

/// The address, unless it is null.
pub open spec fn non_null(addr: usize) -> Option<usize> {
    if addr == 0 {
        None
    } else {
        Some(addr)
    }
}

impl<T> MAPIOutParam<T> {
    /// The slot for the address, for the MAPI function to fill in.
    pub fn as_mut_ptr(&mut self) -> (r: &mut usize)
        ensures
            *r == old(self)@,
            final(self)@ == *final(r),
    {
        &mut self.ptr
    }

    /// The address of the single `T` it points to, unless it is null.
    pub fn as_mut(&mut self) -> (r: Option<usize>)
        ensures
            final(self)@ == old(self)@,
            r == non_null(old(self)@),
    {
        if self.ptr == 0 {
            None
        } else {
            Some(self.ptr)
        }
    }

    /// The address and length of a slice of `count` elements of `T`, unless the address is
    /// null. The length is not checked against anything.
    pub fn as_mut_slice(&mut self, count: usize) -> (r: Option<(usize, usize)>)
        ensures
            final(self)@ == old(self)@,
            r == (if old(self)@ == 0 {
                None
            } else {
                Some((old(self)@, count))
            }),
    {
        if self.ptr == 0 {
            None
        } else {
            Some((self.ptr, count))
        }
    }

    /// Give up the out-parameter: the address to free with the allocator's free call, unless
    /// it is null.
    pub fn release(self) -> (r: Option<usize>)
        ensures
            r == non_null(self@),
    {
        if self.ptr == 0 {
            None
        } else {
            Some(self.ptr)
        }
    }

    /// Give up the out-parameter, calling the allocator's free on a non-null address.
    pub fn free<A: ExternalAllocator>(self, allocator: &mut A) {
        if let Some(addr) = self.release() {
            allocator.free_root(addr);
        }
    }
}

/// The element at position `j` of an iterator's output.
pub open spec fn nth_element(v: IterView, j: int) -> AllocationView {
    AllocationView {
        addr: (v.next_addr + j * v.element_size) as usize,
        byte_count: v.element_size,
        root: v.root,
        is_root: false,
        ready: false,
    }
}

/// Over `k` whole elements and a remainder shorter than one element, an iterator hands out
/// exactly `k` chained elements of one element's size, at contiguous increasing addresses that
/// start at the buffer's own, and drops the remainder.
pub proof fn lemma_iter_items(v: IterView, k: nat, r: nat)
    requires
        v.element_size > 0,
        v.remaining == k * v.element_size + r,
        r < v.element_size,
        v.next_addr + v.remaining <= usize::MAX,
    ensures
        iter_items(v).len() == k,
        forall|j: int| 0 <= j < k ==> #[trigger] iter_items(v)[j] == nth_element(v, j),
    decreases k,
{
    if k == 0 {
        assert(k * v.element_size == 0) by (nonlinear_arith)
            requires
                k == 0,
        ;
    } else {
        let e = v.element_size;
        assert(k * e == (k - 1) * e + e) by (nonlinear_arith);
        assert((k - 1) * e >= 0) by (nonlinear_arith)
            requires
                k >= 1,
        ;
        let w = advanced(v);
        assert(w.remaining == (k - 1) as nat * e + r);
        lemma_iter_items(w, (k - 1) as nat, r);
        assert forall|j: int| 0 <= j < k implies #[trigger] iter_items(v)[j] == nth_element(v, j) by {
            if j > 0 {
                assert(iter_items(v)[j] == iter_items(w)[j - 1]);
                assert(v.next_addr + e + (j - 1) * e == v.next_addr + j * e) by (nonlinear_arith);
            }
        }
    }
}

/// The root addresses that releasing each handle of `hs`, in order, hands to the free call.
pub open spec fn frees(hs: Seq<AllocationView>) -> Seq<usize>
    decreases hs.len(),
{
    if hs.len() == 0 {
        Seq::empty()
    } else {
        frees(hs.drop_last()) + match hs.last().released() {
            Some(p) => seq![p],
            None => Seq::empty(),
        }
    }
}

proof fn lemma_no_root_no_free(hs: Seq<AllocationView>)
    requires
        forall|j: int| 0 <= j < hs.len() ==> !(#[trigger] hs[j]).is_root,
    ensures
        frees(hs) == Seq::<usize>::empty(),
    decreases hs.len(),
{
    if hs.len() > 0 {
        lemma_no_root_no_free(hs.drop_last());
        assert(frees(hs) == frees(hs.drop_last()) + Seq::<usize>::empty());
    }
}

/// Releasing one root handle together with any number of handles chained to it, in any
/// order, calls the free exactly once, on that root's address.
pub proof fn lemma_single_free(hs: Seq<AllocationView>, i: int)
    requires
        0 <= i < hs.len(),
        hs[i].is_root,
        forall|j: int| 0 <= j < hs.len() && j != i ==> !(#[trigger] hs[j]).is_root,
    ensures
        frees(hs) == seq![hs[i].root],
    decreases hs.len(),
{
    let last = hs.len() - 1;
    if i == last {
        lemma_no_root_no_free(hs.drop_last());
        assert(frees(hs) == Seq::<usize>::empty() + seq![hs[i].root]);
        assert(Seq::<usize>::empty() + seq![hs[i].root] =~= seq![hs[i].root]);
    } else {
        let init = hs.drop_last();
        assert(init[i] == hs[i]);
        assert forall|j: int| 0 <= j < init.len() && j != i implies !(#[trigger] init[j]).is_root by {
            assert(init[j] == hs[j]);
        }
        lemma_single_free(init, i);
        assert(!hs[last].is_root);
        assert(frees(hs) == seq![hs[i].root] + Seq::<usize>::empty());
        assert(seq![hs[i].root] + Seq::<usize>::empty() =~= seq![hs[i].root]);
    }
}

/// Asserting that a buffer is written changes neither its size nor where its slot is: the
/// accessor after initialization reaches the bytes that the one before it exposed.
pub proof fn lemma_init_keeps_slot(v: AllocationView, size: nat)
    ensures
        v.initialized().slot(size) == v.slot(size),
        v.initialized().byte_count == v.byte_count,
        v.initialized().released() == v.released(),
{
}

} // verus!
