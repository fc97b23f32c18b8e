//! The algebra of the bump cursor, stated once and proved for every arena:
//! successful allocations issue pairwise non-overlapping ranges whose sizes
//! never total more than the capacity, tail reclamation restores exactly
//! the reclaimed size, any other reclamation changes nothing, and a fresh
//! arena serves a fixed request size exactly `capacity / size` times.
//!
//! Every allocation-class operation states its effect on the cursor in its
//! `ensures` (see `ArenaAllocatorImpl`): a successful request of `s` bytes
//! returns the range `[cursor, cursor + s)` and advances the cursor by `s`.
//! The lemmas here speak of that same arithmetic, so they hold of any
//! sequence of calls on any arena.

use vstd::prelude::*;

use crate::allocator::{can_bump, reclaim_cursor};

verus! {

/// The total number of bytes in a sequence of request sizes.
pub open spec fn sum_of(sizes: Seq<nat>) -> nat
    decreases sizes.len(),
{
    if sizes.len() == 0 {
        0
    } else {
        sizes[0] + sum_of(sizes.skip(1))
    }
}

/// All the requests in `sizes`, made in order against a buffer of `cap`
/// bytes whose cursor stands at `start`, fit as they are made.
pub open spec fn all_fit(cap: nat, start: nat, sizes: Seq<nat>) -> bool
    decreases sizes.len(),
{
    sizes.len() == 0 || (can_bump(cap, start, sizes[0]) && all_fit(
        cap,
        start + sizes[0],
        sizes.skip(1),
    ))
}

/// The cursor right before the `i`-th request of `sizes` is served, which
/// is also the address of the `i`-th issued range.
pub open spec fn span_start(start: nat, sizes: Seq<nat>, i: int) -> nat {
    start + sum_of(sizes.take(i))
}

/// `count` requests of `size` bytes each.
pub open spec fn repeated(size: nat, count: nat) -> Seq<nat> {
    Seq::new(count, |i: int| size)
}

proof fn lemma_sum_take_step(sizes: Seq<nat>, i: int)
    requires
        0 <= i < sizes.len(),
    ensures
        sum_of(sizes.take(i + 1)) == sum_of(sizes.take(i)) + sizes[i],
    decreases i,
{
    if i == 0 {
        assert(sizes.take(1).skip(1) =~= Seq::<nat>::empty());
        assert(sizes.take(0) =~= Seq::<nat>::empty());
        assert(sizes.take(1)[0] == sizes[0]);
    } else {
        lemma_sum_take_step(sizes.skip(1), i - 1);
        assert(sizes.take(i + 1).skip(1) =~= sizes.skip(1).take(i));
        assert(sizes.take(i).skip(1) =~= sizes.skip(1).take(i - 1));
        assert(sizes.take(i + 1)[0] == sizes[0]);
        assert(sizes.take(i)[0] == sizes[0]);
    }
}

proof fn lemma_sum_take_mono(sizes: Seq<nat>, i: int, j: int)
    requires
        0 <= i <= j <= sizes.len(),
    ensures
        sum_of(sizes.take(i)) <= sum_of(sizes.take(j)),
    decreases j - i,
{
    if i < j {
        lemma_sum_take_step(sizes, j - 1);
        lemma_sum_take_mono(sizes, i, j - 1);
    }
}

/// Every request of a sequence that fits does so with room to spare for
/// what was issued before it: the `i`-th request finds the cursor at
/// `span_start` and fits there.
pub proof fn lemma_all_fit_at(cap: nat, start: nat, sizes: Seq<nat>, i: int)
    requires
        all_fit(cap, start, sizes),
        0 <= i < sizes.len(),
    ensures
        can_bump(cap, span_start(start, sizes, i), sizes[i]),
    decreases i,
{
    if i == 0 {
        assert(sizes.take(0) =~= Seq::<nat>::empty());
    } else {
        lemma_all_fit_at(cap, start + sizes[0], sizes.skip(1), i - 1);
        lemma_sum_take_step(sizes, 0);
        assert(sizes.skip(1).take(i - 1) =~= sizes.take(i).skip(1));
        assert(sizes.take(i)[0] == sizes[0]);
        assert(sizes.take(0) =~= Seq::<nat>::empty());
    }
}

/// Successful bump allocations issue pairwise non-overlapping byte ranges:
/// of two ranges issued by one sequence of successful calls, the earlier
/// one ends no later than the later one starts.
pub proof fn lemma_spans_disjoint(cap: nat, start: nat, sizes: Seq<nat>, i: int, j: int)
    requires
        all_fit(cap, start, sizes),
        0 <= i < j < sizes.len(),
    ensures
        span_start(start, sizes, i) + sizes[i] <= span_start(start, sizes, j),
{
    lemma_sum_take_step(sizes, i);
    lemma_sum_take_mono(sizes, i + 1, j);
}

/// The sizes of any sequence of successful bump allocations never total
/// more than the capacity.
pub proof fn lemma_spans_within_capacity(cap: nat, start: nat, sizes: Seq<nat>)
    requires
        start <= cap,
        all_fit(cap, start, sizes),
    ensures
        start + sum_of(sizes) <= cap,
    decreases sizes.len(),
{
    if sizes.len() > 0 {
        lemma_spans_within_capacity(cap, start + sizes[0], sizes.skip(1));
    }
}

/// Reclaiming the most-recently-issued range restores exactly that many
/// bytes of capacity: after a successful allocation of `size` bytes at the
/// tail, reclaiming that very range puts the cursor back where it stood,
/// and the same request fits again.
pub proof fn lemma_reclaim_tail_restores(cap: nat, cursor: nat, size: nat)
    requires
        can_bump(cap, cursor, size),
    ensures
        reclaim_cursor(cursor + size, cursor, size) == cursor,
        can_bump(cap, reclaim_cursor(cursor + size, cursor, size), size),
{
}

/// Reclaiming any range other than the current tail is a no-op: the cursor
/// is unchanged, so exactly the requests that fit before fit after.
pub proof fn lemma_reclaim_non_tail_noop(cap: nat, cursor: nat, addr: nat, size: nat, req: nat)
    requires
        addr + size != cursor,
    ensures
        reclaim_cursor(cursor, addr, size) == cursor,
        can_bump(cap, reclaim_cursor(cursor, addr, size), req) == can_bump(cap, cursor, req),
{
}

/// The bytes requested by `count` fixed-size calls.
pub proof fn lemma_sum_repeated(size: nat, count: nat)
    ensures
        sum_of(repeated(size, count)) == count * size,
    decreases count,
{
    if count == 0 {
    } else {
        assert(repeated(size, count).skip(1) =~= repeated(size, (count - 1) as nat));
        lemma_sum_repeated(size, (count - 1) as nat);
        assert(size + (count - 1) * size == count * size) by (nonlinear_arith);
    }
}

proof fn lemma_repeated_fit_from(cap: nat, start: nat, size: nat, count: nat)
    requires
        start + count * size <= cap,
    ensures
        all_fit(cap, start, repeated(size, count)),
    decreases count,
{
    if count > 0 {
        assert(size <= count * size && (start + size) + (count - 1) * size == start + count * size)
            by (nonlinear_arith)
            requires
                count >= 1,
        ;
        lemma_repeated_fit_from(cap, start + size, size, (count - 1) as nat);
        assert(repeated(size, count).skip(1) =~= repeated(size, (count - 1) as nat));
    }
}

/// Against a fresh arena of capacity `cap`, requests of a fixed positive
/// `size` succeed exactly `cap / size` times: that many calls all fit, and
/// the next one no longer does.
pub proof fn lemma_fixed_size_success_count(cap: nat, size: nat)
    requires
        size > 0,
    ensures
        all_fit(cap, 0, repeated(size, cap / size)),
        !all_fit(cap, 0, repeated(size, cap / size + 1)),
{
    vstd::arithmetic::div_mod::lemma_fundamental_div_mod(cap as int, size as int);
    vstd::arithmetic::div_mod::lemma_mod_bound(cap as int, size as int);
    assert((cap / size) * size <= cap < (cap / size + 1) * size) by (nonlinear_arith)
        requires
            size > 0,
            cap == size * (cap / size) + cap % size,
            0 <= cap % size < size,
    ;
    lemma_repeated_fit_from(cap, 0, size, cap / size);
    if all_fit(cap, 0, repeated(size, cap / size + 1)) {
        lemma_spans_within_capacity(cap, 0, repeated(size, cap / size + 1));
        lemma_sum_repeated(size, cap / size + 1);
    }
}

} // verus!
