//! A bump-pointer arena: a sub-allocator that carves byte ranges out of a
//! single backing buffer through a monotone cursor, with best-effort
//! reclamation of the most-recently-issued range, plus an owning-pointer
//! wrapper for values placed in the arena.
//!
//! Memory is modelled with plain values: an address is an offset into the
//! backing buffer, the buffer itself is a sequence of bytes, and a placed
//! value travels with its handle. Allocation state changes go through
//! `&mut self`, so every contract relates the arena before and after a call.
//! The cursor is the sole arbiter of who owns which bytes: because each
//! call's whole effect on the arena is one cursor update, any interleaving
//! of callers amounts to some sequence of calls, and the contracts and the
//! lemmas of `laws` describe every such sequence. Rollback happens only
//! through tail reclamation, and a reclamation that does not match the
//! tail changes nothing.

use vstd::prelude::*;

pub mod allocator;
pub mod boxed;
mod buffer;
pub mod laws;

pub use allocator::{ArenaAllocatorImpl, HeapAllocator, Layout, MemSpan, StackAllocator};

verus! {

/// Outcome of an allocation-class operation.
pub type AllocRes<T> = Result<T, AllocError>;

/// What went wrong during an allocation-class operation.
#[derive(Clone, Copy, Debug, PartialEq, Eq, Structural)]
pub enum AllocErrorKind {
    /// The requested size exceeds the remaining capacity.
    OOM,
    /// A memory descriptor could not be constructed (defensive; not produced
    /// by any operation of this crate).
    InvalidPtr,
    /// Reserved.
    Other,
}

/// An allocation error: a kind plus an optional static message.
#[derive(Clone, Copy, Debug)]
pub struct AllocError {
    kind: AllocErrorKind,
    msg: Option<&'static str>,
}

impl AllocError {
    /// The kind this error carries.
    pub closed spec fn spec_kind(&self) -> AllocErrorKind {
        self.kind
    }

    /// The message this error carries, if any.
    pub closed spec fn spec_msg(&self) -> Option<&'static str> {
        self.msg
    }

    /// An error of the given kind, with no message.
    pub fn new(kind: AllocErrorKind) -> (r: Self)
        ensures
            r.spec_kind() == kind,
            r.spec_msg() is None,
    {
        Self { kind, msg: None }
    }

    /// An error of the given kind carrying a static message.
    pub fn with_message(kind: AllocErrorKind, msg: &'static str) -> (r: Self)
        ensures
            r.spec_kind() == kind,
            r.spec_msg() == Some(msg),
    {
        Self { kind, msg: Some(msg) }
    }

    /// Read the kind back out.
    pub fn kind(&self) -> (k: AllocErrorKind)
        ensures
            k == self.spec_kind(),
    {
        self.kind
    }

    /// Read the message back out.
    pub fn message(&self) -> (m: Option<&'static str>)
        ensures
            m == self.spec_msg(),
    {
        self.msg
    }
}

} // verus!
