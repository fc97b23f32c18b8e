//! Backing storage: a fixed region of bytes with a stable length,
//! established at construction and never resized.

use vstd::prelude::*;

verus! {

/// A region of raw bytes an arena sub-allocates from. The length is fixed
/// for the storage's lifetime; individual bytes are mutable in place.
pub trait Buffer: Sized {
    /// The bytes this storage currently holds.
    spec fn contents(&self) -> Seq<u8>;

    /// The storage is a real region of memory, so its length fits a
    /// machine word.
    proof fn contents_len_bounded(&self)
        ensures
            self.contents().len() <= usize::MAX,
    ;

    /// The fixed length of the storage.
    fn len(&self) -> (n: usize)
        ensures
            n == self.contents().len(),
    ;

    /// Read one byte.
    fn read(&self, i: usize) -> (b: u8)
        requires
            i < self.contents().len(),
        ensures
            b == self.contents()[i as int],
    ;

    /// Overwrite one byte in place; the length never changes.
    fn write(&mut self, i: usize, b: u8)
        requires
            i < old(self).contents().len(),
        ensures
            final(self).contents() == old(self).contents().update(i as int, b),
    ;

    /// The whole region as a slice.
    fn as_slice(&self) -> (s: &[u8])
        ensures
            s@ == self.contents(),
    ;
}

/// Fixed-capacity storage: the capacity is a compile-time constant and every
/// byte starts out zero.
pub struct StackBuf<const N: usize> {
    inner: Vec<u8>,
}

impl<const N: usize> StackBuf<N> {
    /// Fresh storage of exactly `N` zero bytes.
    pub fn new() -> (r: Self)
        ensures
            r.contents() == Seq::<u8>::new(N as nat, |i: int| 0u8),
    {
        let mut inner: Vec<u8> = Vec::new();
        let mut k: usize = 0;
        while k < N
            invariant
                k <= N,
                inner@ == Seq::<u8>::new(k as nat, |i: int| 0u8),
            decreases N - k,
        {
            inner.push(0u8);
            k = k + 1;
            proof {
                assert(inner@ =~= Seq::<u8>::new(k as nat, |i: int| 0u8));
            }
        }
        Self { inner }
    }
}

impl<const N: usize> Buffer for StackBuf<N> {
    closed spec fn contents(&self) -> Seq<u8> {
        self.inner@
    }

    proof fn contents_len_bounded(&self)
        ensures
            self.contents().len() <= usize::MAX,
    {
        broadcast use vstd::std_specs::vec::axiom_spec_len;

        assert(vstd::std_specs::vec::spec_vec_len(&self.inner) == self.inner@.len());
    }

    fn len(&self) -> (n: usize)
        ensures
            n == self.contents().len(),
    {
        self.inner.len()
    }

    fn read(&self, i: usize) -> (b: u8)
        ensures
            b == self.contents()[i as int],
    {
        self.inner[i]
    }

    fn write(&mut self, i: usize, b: u8)
        ensures
            final(self).contents() == old(self).contents().update(i as int, b),
    {
        self.inner.set(i, b);
    }

    fn as_slice(&self) -> (s: &[u8])
        ensures
            s@ == self.contents(),
    {
        self.inner.as_slice()
    }
}

impl<const N: usize> Default for StackBuf<N> {
    fn default() -> (r: Self)
        ensures
            r.contents() == Seq::<u8>::new(N as nat, |i: int| 0u8),
    {
        Self::new()
    }
}

/// One-shot dynamically sized storage: the capacity is chosen at
/// construction and the bytes are obtained once, up front.
pub struct HeapBuf {
    inner: Vec<u8>,
}

impl HeapBuf {
    /// Fresh storage of exactly `size` zero bytes.
    pub fn new(size: usize) -> (r: Self)
        ensures
            r.contents() == Seq::<u8>::new(size as nat, |i: int| 0u8),
    {
        let mut inner: Vec<u8> = Vec::new();
        let mut k: usize = 0;
        while k < size
            invariant
                k <= size,
                inner@ == Seq::<u8>::new(k as nat, |i: int| 0u8),
            decreases size - k,
        {
            inner.push(0u8);
            k = k + 1;
            proof {
                assert(inner@ =~= Seq::<u8>::new(k as nat, |i: int| 0u8));
            }
        }
        Self { inner }
    }
}

impl Buffer for HeapBuf {
    closed spec fn contents(&self) -> Seq<u8> {
        self.inner@
    }

    proof fn contents_len_bounded(&self)
        ensures
            self.contents().len() <= usize::MAX,
    {
        broadcast use vstd::std_specs::vec::axiom_spec_len;

        assert(vstd::std_specs::vec::spec_vec_len(&self.inner) == self.inner@.len());
    }

    fn len(&self) -> (n: usize)
        ensures
            n == self.contents().len(),
    {
        self.inner.len()
    }

    fn read(&self, i: usize) -> (b: u8)
        ensures
            b == self.contents()[i as int],
    {
        self.inner[i]
    }

    fn write(&mut self, i: usize, b: u8)
        ensures
            final(self).contents() == old(self).contents().update(i as int, b),
    {
        self.inner.set(i, b);
    }

    fn as_slice(&self) -> (s: &[u8])
        ensures
            s@ == self.contents(),
    {
        self.inner.as_slice()
    }
}

} // verus!
