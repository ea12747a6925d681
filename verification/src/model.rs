//! The mathematical model that the contracts of this crate speak of, and what
//! follows from it.
//!
//! A block of foreign memory is the sequence of its elements. A checked read
//! is [`read_at`]; a write replaces one element (`Seq::update`); an iterator
//! is the sequence of the elements it has still to hand out, and a call of
//! `next` takes the first of them away ([`yielded`], [`left_after`]).

use vstd::prelude::*;

verus! {

/// What a bounds-checked read at `ofs` finds in `elems`: the element there,
/// or nothing when `ofs` is past the end.
pub open spec fn read_at<T>(elems: Seq<T>, ofs: usize) -> Option<T> {
    if ofs < elems.len() {
        Some(elems[ofs as int])
    } else {
        None
    }
}

/// What a call of `next` hands out when `left` is still to come: the first
/// element, or nothing when none is left.
pub open spec fn yielded<T>(left: Seq<T>) -> Option<T> {
    if left.len() > 0 {
        Some(left[0])
    } else {
        None
    }
}

/// What is still to come after a call of `next` when `left` was still to
/// come before it.
pub open spec fn left_after<T>(left: Seq<T>) -> Seq<T> {
    if left.len() > 0 {
        left.skip(1)
    } else {
        left
    }
}

/// What is still to come after `calls` calls of `next` on a fresh iterator
/// over `elems`.
pub open spec fn left_after_calls<T>(elems: Seq<T>, calls: nat) -> Seq<T>
    decreases calls,
{
    if calls == 0 {
        elems
    } else {
        left_after(left_after_calls(elems, (calls - 1) as nat))
    }
}

/// A checked read finds in a block exactly what is there: inside the bounds
/// the element at that index, past the end nothing.
pub proof fn lemma_read_at<T>(elems: Seq<T>, ofs: usize)
    ensures
        ofs < elems.len() ==> read_at(elems, ofs) == Some(elems[ofs as int]),
        ofs >= elems.len() ==> read_at(elems, ofs) is None,
{
}

/// After `x` was written at `ofs`, a read at `ofs` finds `x`, and a read
/// anywhere else finds what it found before. This holds of the view that was
/// written through and of the handle that lent it, since both end up with
/// the same elements.
pub proof fn lemma_write_then_read<T>(elems: Seq<T>, ofs: usize, x: T, other: usize)
    requires
        ofs < elems.len(),
    ensures
        read_at(elems.update(ofs as int, x), ofs) == Some(x),
        other != ofs ==> read_at(elems.update(ofs as int, x), other) == read_at(elems, other),
        elems.update(ofs as int, x).len() == elems.len(),
{
}

/// After `calls` calls of `next`, a fresh iterator over `elems` has handed
/// out the first `calls` elements, or all of them if there are fewer.
pub proof fn lemma_left_after_calls<T>(elems: Seq<T>, calls: nat)
    ensures
        calls <= elems.len() ==> left_after_calls(elems, calls) == elems.skip(calls as int),
        calls >= elems.len() ==> left_after_calls(elems, calls) == Seq::<T>::empty(),
    decreases calls,
{
    if calls > 0 {
        let before = (calls - 1) as nat;
        lemma_left_after_calls(elems, before);
        let prev = left_after_calls(elems, before);
        if before < elems.len() {
            assert(prev == elems.skip(before as int));
            assert(prev.skip(1) =~= elems.skip(calls as int));
        }
        if calls >= elems.len() {
            assert(left_after(prev) =~= Seq::<T>::empty());
        }
    } else {
        assert(elems.skip(0) =~= elems);
        if elems.len() == 0 {
            assert(elems =~= Seq::<T>::empty());
        }
    }
}

/// An iterator over `elems` hands out exactly the elements of `elems`, in
/// index order, and then nothing, however often it is asked: the call
/// number `calls`, counted from zero, yields the element at index `calls`
/// while there is one, and nothing from then on.
pub proof fn lemma_iteration_order<T>(elems: Seq<T>, calls: nat)
    ensures
        calls < elems.len() ==> yielded(left_after_calls(elems, calls)) == Some(
            elems[calls as int],
        ),
        calls >= elems.len() ==> yielded(left_after_calls(elems, calls)) is None,
{
    lemma_left_after_calls(elems, calls);
}

/// A snapshot of elements whose clones are equal to what they were made from
/// holds the same elements in the same order.
pub proof fn lemma_snapshot_equal<T: Clone>(elems: Seq<T>, snapshot: Seq<T>)
    requires
        snapshot.len() == elems.len(),
        forall|i: int| 0 <= i < elems.len() ==> cloned(elems[i], #[trigger] snapshot[i]),
        forall|a: T, b: T| #[trigger] cloned(a, b) ==> a == b,
    ensures
        snapshot == elems,
{
    assert(snapshot =~= elems);
}

} // verus!
