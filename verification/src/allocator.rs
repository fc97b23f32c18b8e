//! The arena core: bump allocation over a backing buffer through a cursor,
//! zero-filled allocation, best-effort tail reclamation, and in-place value
//! placement, plus the two concrete arena flavors.

use vstd::prelude::*;

use crate::boxed::Box;
use crate::buffer::{Buffer, HeapBuf, StackBuf};
use crate::{AllocError, AllocErrorKind, AllocRes};

verus! {

/// A size/alignment request, mirroring what a type's representation asks of
/// an allocator. The bump algorithm advances the cursor by `size` alone and
/// performs no rounding for `align` (see `ArenaAllocatorImpl::bump_alloc`).
#[derive(Clone, Copy, Debug, PartialEq, Eq, Structural)]
pub struct Layout {
    /// Number of bytes requested.
    pub size: usize,
    /// Requested alignment; recorded but not acted on by the bump algorithm.
    pub align: usize,
}

impl Layout {
    /// The layout of a value of type `T`.
    pub fn new<T>() -> (r: Layout)
        ensures
            r.size as nat == vstd::layout::size_of::<T>(),
            r.align as nat == vstd::layout::align_of::<T>(),
    {
        Layout {
            size: core::mem::size_of::<T>(),
            align: core::mem::align_of::<T>(),
        }
    }

    /// A layout built from an explicit size and alignment.
    pub fn from_size_align(size: usize, align: usize) -> (r: Layout)
        ensures
            r.size == size,
            r.align == align,
    {
        Layout { size, align }
    }
}

/// A raw memory descriptor: the address of an issued byte range and its
/// length. An address is an offset into the arena's backing buffer.
#[derive(Clone, Copy, Debug, PartialEq, Eq, Structural)]
pub struct MemSpan {
    /// Offset of the first byte of the range.
    pub addr: usize,
    /// Length of the range in bytes.
    pub len: usize,
}

/// Whether a request of `size` bytes fits in the free part of a buffer of
/// `cap` bytes whose cursor stands at `cursor`.
pub open spec fn can_bump(cap: nat, cursor: nat, size: nat) -> bool {
    cursor + size <= cap
}

/// The cursor after a best-effort reclamation of the range at `addr` of
/// `size` bytes: the cursor rolls back exactly when that range is the
/// most-recently-issued one, and is untouched otherwise.
pub open spec fn reclaim_cursor(cursor: nat, addr: nat, size: nat) -> nat {
    if size <= cursor && addr + size == cursor {
        (cursor - size) as nat
    } else {
        cursor
    }
}

/// The capability surface of an arena: bump allocation, zero-filled bump
/// allocation, best-effort tail reclamation, in-place value placement, and
/// byte access to the backing buffer (the model of dereferencing an issued
/// descriptor).
///
/// The arena's abstract state is a byte buffer of fixed length together
/// with a cursor in `[0, length]`: bytes below the cursor are issued, bytes
/// at or above it are free.
pub trait ArenaAllocatorImpl: Sized {
    /// The bytes of the backing buffer.
    spec fn contents(&self) -> Seq<u8>;

    /// The "next free offset" cursor.
    spec fn cursor(&self) -> nat;

    /// The backing buffer is a real region of memory, so its length fits a
    /// machine word.
    proof fn contents_len_bounded(&self)
        ensures
            self.contents().len() <= usize::MAX,
    ;

    /// Carve the next `layout.size` bytes out of the buffer. Succeeds if
    /// and only if the request fits in the remaining capacity, and then
    /// returns the descriptor of the range starting at the old cursor; a
    /// request that does not fit fails with `OOM` and changes nothing. The
    /// cursor advances by the size alone: no alignment rounding is applied.
    fn bump_alloc(&mut self, layout: Layout) -> (r: AllocRes<MemSpan>)
        requires
            old(self).cursor() <= old(self).contents().len(),
        ensures
            final(self).contents() == old(self).contents(),
            final(self).cursor() <= final(self).contents().len(),
            can_bump(old(self).contents().len(), old(self).cursor(), layout.size as nat) ==> {
                &&& r matches Ok(span)
                &&& span.addr as nat == old(self).cursor()
                &&& span.len == layout.size
                &&& final(self).cursor() == old(self).cursor() + layout.size
            },
            !can_bump(old(self).contents().len(), old(self).cursor(), layout.size as nat) ==> {
                &&& r matches Err(e) && e.spec_kind() == AllocErrorKind::OOM
                &&& final(self).cursor() == old(self).cursor()
            },
    ;

    /// Best-effort tail reclamation: if `data` addresses exactly the
    /// most-recently-issued `layout.size` bytes, the cursor rolls back by
    /// that size; any other request is a silent no-op, never an error.
    fn dealloc(&mut self, data: usize, layout: Layout)
        requires
            old(self).cursor() <= old(self).contents().len(),
        ensures
            final(self).contents() == old(self).contents(),
            final(self).cursor() == reclaim_cursor(old(self).cursor(), data as nat, layout.size as nat),
    ;

    /// Read one byte of the backing buffer at `addr`.
    fn read_byte(&self, addr: usize) -> (b: u8)
        requires
            addr < self.contents().len(),
        ensures
            b == self.contents()[addr as int],
    ;

    /// Overwrite one byte of the backing buffer at `addr`.
    fn write_byte(&mut self, addr: usize, value: u8)
        requires
            addr < old(self).contents().len(),
        ensures
            final(self).contents() == old(self).contents().update(addr as int, value),
            final(self).cursor() == old(self).cursor(),
    ;

    /// `bump_alloc`, then overwrite the returned range with zero bytes
    /// before handing it out. Succeeds and fails exactly as `bump_alloc`
    /// does; on success every byte of the issued range is zero and every
    /// byte outside it is untouched.
    fn bump_alloc_zeroed(&mut self, layout: Layout) -> (r: AllocRes<MemSpan>)
        requires
            old(self).cursor() <= old(self).contents().len(),
        ensures
            final(self).contents().len() == old(self).contents().len(),
            final(self).cursor() <= final(self).contents().len(),
            can_bump(old(self).contents().len(), old(self).cursor(), layout.size as nat) ==> {
                &&& r matches Ok(span)
                &&& span.addr as nat == old(self).cursor()
                &&& span.len == layout.size
                &&& final(self).cursor() == old(self).cursor() + layout.size
                &&& forall|i: int|
                    0 <= i < final(self).contents().len() ==> final(self).contents()[i] == (
                    if span.addr <= i < span.addr + span.len {
                        0u8
                    } else {
                        old(self).contents()[i]
                    })
            },
            !can_bump(old(self).contents().len(), old(self).cursor(), layout.size as nat) ==> {
                &&& r matches Err(e) && e.spec_kind() == AllocErrorKind::OOM
                &&& final(self).cursor() == old(self).cursor()
                &&& final(self).contents() == old(self).contents()
            },
    {
        let span = match self.bump_alloc(layout) {
            Ok(span) => span,
            Err(e) => {
                return Err(e);
            },
        };
        let ghost after_alloc = self.contents();
        proof {
            self.contents_len_bounded();
        }
        let end: usize = span.addr + span.len;
        let mut i: usize = span.addr;
        while i < end
            invariant
                span.addr <= i <= end,
                end <= self.contents().len(),
                self.contents().len() == after_alloc.len(),
                self.cursor() == end,
                forall|j: int|
                    0 <= j < self.contents().len() ==> self.contents()[j] == (
                    if span.addr <= j < i {
                        0u8
                    } else {
                        after_alloc[j]
                    }),
            decreases end - i,
        {
            self.write_byte(i, 0);
            i = i + 1;
        }
        Ok(span)
    }

    /// Place a value into the arena: a `bump_alloc` sized for the value's
    /// representation, with the value moved into the returned handle.
    /// Succeeds and fails exactly as `bump_alloc` does for that size.
    fn alloc_val<T>(&mut self, value: T) -> (r: AllocRes<Box<T>>)
        requires
            old(self).cursor() <= old(self).contents().len(),
        ensures
            final(self).contents() == old(self).contents(),
            final(self).cursor() <= final(self).contents().len(),
            can_bump(
                old(self).contents().len(),
                old(self).cursor(),
                vstd::layout::size_of::<T>(),
            ) ==> {
                &&& r matches Ok(b)
                &&& b.spec_addr() == old(self).cursor()
                &&& b.spec_value() == value
                &&& final(self).cursor() == old(self).cursor() + vstd::layout::size_of::<T>()
            },
            !can_bump(
                old(self).contents().len(),
                old(self).cursor(),
                vstd::layout::size_of::<T>(),
            ) ==> {
                &&& r matches Err(e) && e.spec_kind() == AllocErrorKind::OOM
                &&& final(self).cursor() == old(self).cursor()
            },
    {
        let space = match self.bump_alloc(Layout::new::<T>()) {
            Ok(span) => span,
            Err(e) => {
                return Err(e);
            },
        };
        Ok(Box::from_parts(space.addr, value))
    }
}

/// The arena core: exclusively owns one backing buffer and the cursor.
pub(crate) struct ArenaAllocator<B: Buffer> {
    buf: B,
    next_free: usize,
}

impl<B: Buffer> ArenaAllocator<B> {
    /// An arena over the given storage, with the cursor at zero.
    pub(crate) fn new_in(buf: B) -> (r: Self)
        ensures
            r.cursor() == 0,
            r.contents() == buf.contents(),
    {
        Self { buf, next_free: 0 }
    }
}

impl<B: Buffer> ArenaAllocatorImpl for ArenaAllocator<B> {
    closed spec fn contents(&self) -> Seq<u8> {
        self.buf.contents()
    }

    closed spec fn cursor(&self) -> nat {
        self.next_free as nat
    }

    proof fn contents_len_bounded(&self)
        ensures
            self.contents().len() <= usize::MAX,
    {
        self.buf.contents_len_bounded();
    }

    fn bump_alloc(&mut self, layout: Layout) -> (r: AllocRes<MemSpan>) {
        let cap = self.buf.len();
        if layout.size > cap - self.next_free {
            return Err(
                AllocError::with_message(AllocErrorKind::OOM, "Not enough memory in buffer"),
            );
        }
        let addr = self.next_free;
        self.next_free = self.next_free + layout.size;
        Ok(MemSpan { addr, len: layout.size })
    }

    fn dealloc(&mut self, data: usize, layout: Layout) {
        let cur = self.next_free;
        if layout.size > cur {
            return;
        }
        let last = cur - layout.size;
        if data == last {
            // The freed range is exactly the most-recently-issued one, so
            // the cursor may roll back over it.
            self.next_free = last;
        }
    }

    fn read_byte(&self, addr: usize) -> (b: u8) {
        self.buf.read(addr)
    }

    fn write_byte(&mut self, addr: usize, value: u8) {
        self.buf.write(addr, value);
    }
}

/// A fixed-size arena: capacity is a compile-time constant and no dynamic
/// allocation happens at all.
pub struct StackAllocator<const N: usize>(ArenaAllocator<StackBuf<N>>);

impl<const N: usize> StackAllocator<N> {
    /// A fresh arena of `N` zero bytes with the cursor at zero.
    pub fn new() -> (r: Self)
        ensures
            r.cursor() == 0,
            r.contents() == Seq::<u8>::new(N as nat, |i: int| 0u8),
    {
        Self(ArenaAllocator::new_in(StackBuf::new()))
    }
}

impl<const N: usize> ArenaAllocatorImpl for StackAllocator<N> {
    closed spec fn contents(&self) -> Seq<u8> {
        self.0.contents()
    }

    closed spec fn cursor(&self) -> nat {
        self.0.cursor()
    }

    proof fn contents_len_bounded(&self)
        ensures
            self.contents().len() <= usize::MAX,
    {
        self.0.contents_len_bounded();
    }

    fn bump_alloc(&mut self, layout: Layout) -> (r: AllocRes<MemSpan>) {
        self.0.bump_alloc(layout)
    }

    fn dealloc(&mut self, data: usize, layout: Layout) {
        self.0.dealloc(data, layout)
    }

    fn read_byte(&self, addr: usize) -> (b: u8) {
        self.0.read_byte(addr)
    }

    fn write_byte(&mut self, addr: usize, value: u8) {
        self.0.write_byte(addr, value);
    }
}

impl<const N: usize> Default for StackAllocator<N> {
    fn default() -> (r: Self)
        ensures
            r.cursor() == 0,
            r.contents() == Seq::<u8>::new(N as nat, |i: int| 0u8),
    {
        Self::new()
    }
}

/// A heap-backed arena: constructed with a runtime size, it performs
/// exactly one dynamic allocation for its whole lifetime.
pub struct HeapAllocator(ArenaAllocator<HeapBuf>);

impl HeapAllocator {
    /// A fresh arena of `size` zero bytes with the cursor at zero.
    pub fn new(size: usize) -> (r: Self)
        ensures
            r.cursor() == 0,
            r.contents() == Seq::<u8>::new(size as nat, |i: int| 0u8),
    {
        Self(ArenaAllocator::new_in(HeapBuf::new(size)))
    }
}

impl ArenaAllocatorImpl for HeapAllocator {
    closed spec fn contents(&self) -> Seq<u8> {
        self.0.contents()
    }

    closed spec fn cursor(&self) -> nat {
        self.0.cursor()
    }

    proof fn contents_len_bounded(&self)
        ensures
            self.contents().len() <= usize::MAX,
    {
        self.0.contents_len_bounded();
    }

    fn bump_alloc(&mut self, layout: Layout) -> (r: AllocRes<MemSpan>) {
        self.0.bump_alloc(layout)
    }

    fn dealloc(&mut self, data: usize, layout: Layout) {
        self.0.dealloc(data, layout)
    }

    fn read_byte(&self, addr: usize) -> (b: u8) {
        self.0.read_byte(addr)
    }

    fn write_byte(&mut self, addr: usize, value: u8) {
        self.0.write_byte(addr, value);
    }
}

} // verus!
