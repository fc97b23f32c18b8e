//! The arena-scoped owning pointer: a handle over one value placed in an
//! arena. The handle carries the placed value together with the address of
//! the bytes it occupies; escaping to raw form and reconstituting from it
//! move exactly that pair. No operation here runs any cleanup on the
//! arena's memory: dropping a handle through ordinary disuse abandons the
//! value's bytes until tail reclamation or the arena's own discard.

use vstd::prelude::*;

use crate::allocator::ArenaAllocatorImpl;
use crate::AllocRes;

verus! {

/// An owning pointer to a value placed in an arena: the value itself plus
/// the address (buffer offset) of the range issued for it.
#[derive(Debug)]
pub struct Box<T> {
    addr: usize,
    value: T,
}

/// A handle escaped to raw form: the same address/value pair, with the
/// handle's bookkeeping suppressed. Whoever holds it is responsible for
/// reconstituting a handle from it, or not.
#[derive(Debug)]
pub struct RawHandle<T> {
    addr: usize,
    value: T,
}

impl<T> Box<T> {
    /// The address of the issued range the value occupies.
    pub closed spec fn spec_addr(&self) -> nat {
        self.addr as nat
    }

    /// The value this handle owns.
    pub closed spec fn spec_value(&self) -> T {
        self.value
    }

    /// This handle in raw form.
    pub closed spec fn spec_raw(&self) -> RawHandle<T> {
        RawHandle { addr: self.addr, value: self.value }
    }

    /// A handle over `value` at address `addr`.
    pub(crate) fn from_parts(addr: usize, value: T) -> (r: Self)
        ensures
            r.spec_addr() == addr,
            r.spec_value() == value,
    {
        Self { addr, value }
    }

    /// Place `value` into `alloc` and hand back the owning pointer. Fails
    /// with `OOM` exactly when the arena's value placement does.
    pub fn new_in<A: ArenaAllocatorImpl>(value: T, alloc: &mut A) -> (r: AllocRes<Self>)
        requires
            old(alloc).cursor() <= old(alloc).contents().len(),
        ensures
            final(alloc).contents() == old(alloc).contents(),
            final(alloc).cursor() <= final(alloc).contents().len(),
            crate::allocator::can_bump(
                old(alloc).contents().len(),
                old(alloc).cursor(),
                vstd::layout::size_of::<T>(),
            ) ==> {
                &&& r matches Ok(b)
                &&& b.spec_addr() == old(alloc).cursor()
                &&& b.spec_value() == value
                &&& final(alloc).cursor() == old(alloc).cursor() + vstd::layout::size_of::<T>()
            },
            !crate::allocator::can_bump(
                old(alloc).contents().len(),
                old(alloc).cursor(),
                vstd::layout::size_of::<T>(),
            ) ==> {
                &&& r matches Err(e) && e.spec_kind() == crate::AllocErrorKind::OOM
                &&& final(alloc).cursor() == old(alloc).cursor()
            },
    {
        alloc.alloc_val(value)
    }

    /// Place `value` into `alloc` and hand back the owning pointer already
    /// wrapped in the address-stable guarantee. No extra allocation happens:
    /// arena memory is immovable, so the wrap is a relabeling. Fails with
    /// `OOM` exactly when placement does.
    pub fn pin_in<A: ArenaAllocatorImpl>(value: T, alloc: &mut A) -> (r: AllocRes<Pinned<T>>)
        requires
            old(alloc).cursor() <= old(alloc).contents().len(),
        ensures
            final(alloc).contents() == old(alloc).contents(),
            final(alloc).cursor() <= final(alloc).contents().len(),
            crate::allocator::can_bump(
                old(alloc).contents().len(),
                old(alloc).cursor(),
                vstd::layout::size_of::<T>(),
            ) ==> {
                &&& r matches Ok(p)
                &&& p.spec_addr() == old(alloc).cursor()
                &&& p.spec_value() == value
                &&& final(alloc).cursor() == old(alloc).cursor() + vstd::layout::size_of::<T>()
            },
            !crate::allocator::can_bump(
                old(alloc).contents().len(),
                old(alloc).cursor(),
                vstd::layout::size_of::<T>(),
            ) ==> {
                &&& r matches Err(e) && e.spec_kind() == crate::AllocErrorKind::OOM
                &&& final(alloc).cursor() == old(alloc).cursor()
            },
    {
        match Self::new_in(value, alloc) {
            Ok(b) => Ok(Pinned::from_box(b)),
            Err(e) => Err(e),
        }
    }

    /// Read access to the owned value.
    pub fn get(&self) -> (r: &T)
        ensures
            *r == self.spec_value(),
    {
        &self.value
    }

    /// Exclusive access to the owned value.
    pub fn get_mut(&mut self) -> (r: &mut T)
        ensures
            *r == old(self).spec_value(),
            final(self).spec_value() == *final(r),
            final(self).spec_addr() == old(self).spec_addr(),
    {
        &mut self.value
    }

    /// The address of the owned value, as a plain integer.
    pub fn addr(&self) -> (r: usize)
        ensures
            r == self.spec_addr(),
    {
        self.addr
    }

    /// Consume the handle and return the contained value, explicitly
    /// running no further cleanup on the vacated memory.
    pub fn into_inner(b: Box<T>) -> (r: T)
        ensures
            r == b.spec_value(),
    {
        b.value
    }

    /// Escape the handle to raw form, suppressing the handle's own
    /// bookkeeping. The raw form holds the same address and value.
    pub fn into_raw(b: Box<T>) -> (r: RawHandle<T>)
        ensures
            r == b.spec_raw(),
            r.spec_addr() == b.spec_addr(),
            r.spec_value() == b.spec_value(),
    {
        RawHandle { addr: b.addr, value: b.value }
    }

    /// Reconstitute a handle from its raw form. The raw form must have come
    /// from a matching escape; it carries everything the handle needs.
    pub fn from_raw(raw: RawHandle<T>) -> (r: Box<T>)
        ensures
            r == raw.spec_box(),
            r.spec_addr() == raw.spec_addr(),
            r.spec_value() == raw.spec_value(),
    {
        Box { addr: raw.addr, value: raw.value }
    }

    /// Consume the handle and yield the bare exclusive form with the
    /// arena's lifetime, permanently forgoing handle-level bookkeeping.
    pub fn leak(b: Box<T>) -> (r: RawHandle<T>)
        ensures
            r == b.spec_raw(),
    {
        Self::into_raw(b)
    }
}

impl<T: PartialEq> PartialEq for Box<T> {
    /// Handles compare by their owned values, not their addresses.
    fn eq(&self, other: &Box<T>) -> (r: bool) {
        self.value.eq(&other.value)
    }
}

impl<T: PartialEq> vstd::std_specs::cmp::PartialEqSpecImpl for Box<T> {
    open spec fn obeys_eq_spec() -> bool {
        <T as vstd::std_specs::cmp::PartialEqSpec>::obeys_eq_spec()
    }

    open spec fn eq_spec(&self, other: &Box<T>) -> bool {
        <T as vstd::std_specs::cmp::PartialEqSpec>::eq_spec(&self.spec_value(), &other.spec_value())
    }
}

impl<T: Eq> Eq for Box<T> {
}

impl<T: PartialOrd> PartialOrd for Box<T> {
    /// Handles order by their owned values, not their addresses.
    fn partial_cmp(&self, other: &Box<T>) -> (r: Option<core::cmp::Ordering>) {
        self.value.partial_cmp(&other.value)
    }

    fn lt(&self, other: &Box<T>) -> (r: bool) {
        self.value.lt(&other.value)
    }

    fn le(&self, other: &Box<T>) -> (r: bool) {
        self.value.le(&other.value)
    }

    fn ge(&self, other: &Box<T>) -> (r: bool) {
        self.value.ge(&other.value)
    }

    fn gt(&self, other: &Box<T>) -> (r: bool) {
        self.value.gt(&other.value)
    }
}

impl<T: PartialOrd> vstd::std_specs::cmp::PartialOrdSpecImpl for Box<T> {
    open spec fn obeys_partial_cmp_spec() -> bool {
        <T as vstd::std_specs::cmp::PartialOrdSpec>::obeys_partial_cmp_spec()
    }

    open spec fn partial_cmp_spec(&self, other: &Box<T>) -> Option<core::cmp::Ordering> {
        <T as vstd::std_specs::cmp::PartialOrdSpec>::partial_cmp_spec(&self.spec_value(), &other.spec_value())
    }
}

impl<T> RawHandle<T> {
    /// The address this raw form points at.
    pub closed spec fn spec_addr(&self) -> nat {
        self.addr as nat
    }

    /// The value living at that address.
    pub closed spec fn spec_value(&self) -> T {
        self.value
    }

    /// This raw form reconstituted as a handle.
    pub closed spec fn spec_box(&self) -> Box<T> {
        Box { addr: self.addr, value: self.value }
    }

    /// The raw address, as a plain integer.
    pub fn addr(&self) -> (r: usize)
        ensures
            r == self.spec_addr(),
    {
        self.addr
    }

    /// Read access to the value behind the raw form.
    pub fn get(&self) -> (r: &T)
        ensures
            *r == self.spec_value(),
    {
        &self.value
    }
}

/// An address-stable wrapper around a handle: from the moment of wrapping,
/// the value's memory address is guaranteed never to change for the rest
/// of its lifetime. Arena memory is already immovable while the arena owns
/// it, so the wrap costs nothing.
#[derive(Debug)]
pub struct Pinned<T> {
    inner: Box<T>,
}

impl<T> Pinned<T> {
    /// The wrapped handle.
    pub closed spec fn spec_inner(&self) -> Box<T> {
        self.inner
    }

    /// The stable address.
    pub closed spec fn spec_addr(&self) -> nat {
        self.inner.spec_addr()
    }

    /// The wrapped value.
    pub closed spec fn spec_value(&self) -> T {
        self.inner.spec_value()
    }

    /// Wrap a handle in the address-stable guarantee.
    pub fn from_box(b: Box<T>) -> (r: Self)
        ensures
            r.spec_inner() == b,
            r.spec_addr() == b.spec_addr(),
            r.spec_value() == b.spec_value(),
    {
        Pinned { inner: b }
    }

    /// Read access to the wrapped value.
    pub fn get(&self) -> (r: &T)
        ensures
            *r == self.spec_value(),
    {
        self.inner.get()
    }

    /// The stable address, as a plain integer.
    pub fn addr(&self) -> (r: usize)
        ensures
            r == self.spec_addr(),
    {
        self.inner.addr()
    }
}

/// A fixed-length array handle: a sequence handle whose element count is
/// pinned to the compile-time constant `N`.
#[derive(Debug)]
pub struct FixedBox<T, const N: usize> {
    inner: Box<Vec<T>>,
}

impl<T, const N: usize> FixedBox<T, N> {
    /// The underlying sequence handle.
    pub closed spec fn spec_inner(&self) -> Box<Vec<T>> {
        self.inner
    }

    /// A fixed-length handle holds exactly `N` elements.
    pub closed spec fn wf(&self) -> bool {
        self.inner.spec_value()@.len() == N
    }

    /// Reinterpret this fixed-length handle as a variable-length sequence
    /// handle of the same element type and length. No allocation happens:
    /// the handle is handed on as it is.
    pub fn into_seq(self) -> (r: Box<Vec<T>>)
        requires
            self.wf(),
        ensures
            r == self.spec_inner(),
            r.spec_value()@.len() == N,
    {
        self.inner
    }
}

impl<T> Box<Vec<T>> {
    /// The fixed-length reinterpretation of this sequence handle.
    pub closed spec fn spec_fixed<const N: usize>(&self) -> FixedBox<T, N> {
        FixedBox { inner: *self }
    }

    /// Reinterpret this sequence handle as a fixed-length handle of `N`
    /// elements. Succeeds exactly when the runtime length matches `N`; on
    /// mismatch the untouched sequence handle comes back as the error
    /// payload.
    pub fn try_into_fixed<const N: usize>(self) -> (r: Result<FixedBox<T, N>, Box<Vec<T>>>)
        ensures
            self.spec_value()@.len() == N ==> {
                &&& r matches Ok(f)
                &&& f == self.spec_fixed::<N>()
                &&& f.spec_inner() == self
                &&& f.wf()
            },
            self.spec_value()@.len() != N ==> (r matches Err(e) && e == self),
    {
        if self.value.len() == N {
            Ok(FixedBox { inner: self })
        } else {
            Err(self)
        }
    }
}

/// Escaping a handle to raw form and reconstituting a handle from it yields
/// a handle identical to the original: same address, same contained value.
pub proof fn lemma_raw_round_trip<T>(b: Box<T>)
    ensures
        b.spec_raw().spec_box() == b,
{
}

/// Converting a fixed-length handle to a sequence handle and back to the
/// same fixed length gives back the very handle, address and contents
/// untouched. (Conversion back to a mismatched length fails and returns
/// the sequence handle unchanged: see `try_into_fixed`.)
pub proof fn lemma_shape_round_trip<T, const N: usize>(f: FixedBox<T, N>)
    requires
        f.wf(),
    ensures
        f.spec_inner().spec_fixed::<N>() == f,
{
}

} // verus!
