//! Laws of the bounded FIFO queue, stated over the abstract contents and the
//! spec-level descriptions of `write` and `read` (`push_result`,
//! `pop_result`, `popped_value` in [`crate::buffer`]).

use vstd::prelude::*;
use crate::buffer::{pop_result, popped_value, push_result};

verus! {

/// The contents after pushing each element of `values` in order.
pub open spec fn push_all<T>(contents: Seq<T>, capacity: nat, values: Seq<T>) -> Seq<T>
    decreases values.len(),
{
    if values.len() == 0 {
        contents
    } else {
        push_all(push_result(contents, capacity, values.first()), capacity, values.drop_first())
    }
}

/// The contents after popping `n` times.
pub open spec fn pop_n<T>(contents: Seq<T>, n: nat) -> Seq<T>
    decreases n,
{
    if n == 0 {
        contents
    } else {
        pop_n(pop_result(contents), (n - 1) as nat)
    }
}

/// While there is room for all of them, pushed values are appended in order
/// and none is lost or altered.
pub proof fn lemma_push_all_appends<T>(contents: Seq<T>, capacity: nat, values: Seq<T>)
    requires
        contents.len() + values.len() <= capacity,
    ensures
        push_all(contents, capacity, values) == contents + values,
    decreases values.len(),
{
    if values.len() == 0 {
        assert(contents + values =~= contents);
    } else {
        let pushed = push_result(contents, capacity, values.first());
        lemma_push_all_appends(pushed, capacity, values.drop_first());
        assert(contents.push(values.first()) + values.drop_first() =~= contents + values);
    }
}

/// Popping `n` times removes exactly the `n` oldest elements.
pub proof fn lemma_pop_n_skips<T>(contents: Seq<T>, n: nat)
    requires
        n <= contents.len(),
    ensures
        pop_n(contents, n) == contents.skip(n as int),
    decreases n,
{
    if n == 0 {
        assert(contents.skip(0) =~= contents);
    } else {
        lemma_pop_n_skips(contents.drop_first(), (n - 1) as nat);
        assert(contents.drop_first().skip(n - 1) =~= contents.skip(n as int));
    }
}

/// For any run of pushes that stays within the capacity, starting from an
/// empty buffer: after `k` pushes the buffer holds exactly those `k` values,
/// so its count is `k`; it is full exactly when `k` equals the capacity.
pub proof fn lemma_count_after_pushes<T>(capacity: nat, values: Seq<T>)
    requires
        values.len() <= capacity,
    ensures
        push_all(Seq::<T>::empty(), capacity, values) == values,
        push_all(Seq::<T>::empty(), capacity, values).len() == values.len(),
{
    lemma_push_all_appends(Seq::<T>::empty(), capacity, values);
    assert(Seq::<T>::empty() + values =~= values);
}

/// FIFO order: pushing `values` (within capacity) into an empty buffer and
/// then popping that many times yields the same values in the same order,
/// and leaves the buffer empty.
pub proof fn lemma_fifo_order<T>(capacity: nat, values: Seq<T>)
    requires
        values.len() <= capacity,
    ensures
        push_all(Seq::<T>::empty(), capacity, values) == values,
        forall|j: int|
            0 <= j < values.len() ==> popped_value(#[trigger] pop_n(values, j as nat)) == Some(
                values[j],
            ),
        pop_n(values, values.len()) == Seq::<T>::empty(),
{
    lemma_count_after_pushes(capacity, values);
    assert forall|j: int|
        0 <= j < values.len() implies popped_value(#[trigger] pop_n(values, j as nat)) == Some(
        values[j],
    ) by {
        lemma_pop_n_skips(values, j as nat);
        assert(values.skip(j).len() > 0);
        assert(values.skip(j).first() == values[j]);
    }
    lemma_pop_n_skips(values, values.len());
    assert(values.skip(values.len() as int) =~= Seq::<T>::empty());
}

/// Wrap-around: filling the buffer with a first batch, draining it fully,
/// then filling it with a second batch yields the second batch, in order and
/// uncorrupted by the cursors having wrapped.
pub proof fn lemma_wrap_around<T>(capacity: nat, first: Seq<T>, second: Seq<T>)
    requires
        first.len() == capacity,
        second.len() == capacity,
    ensures
        push_all(Seq::<T>::empty(), capacity, first) == first,
        pop_n(first, capacity) == Seq::<T>::empty(),
        push_all(pop_n(first, capacity), capacity, second) == second,
        forall|j: int|
            0 <= j < capacity ==> popped_value(#[trigger] pop_n(second, j as nat)) == Some(
                second[j],
            ),
{
    lemma_fifo_order(capacity, first);
    lemma_fifo_order(capacity, second);
}

} // verus!
