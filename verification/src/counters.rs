//! The mathematical model of a syscall counter table: what counting one call,
//! or a run of calls, does to it.

use vstd::prelude::*;
use crate::config::MAX_SYSCALL_NUM;

verus! {

/// The table of a task that has made no system call: `MAX_SYSCALL_NUM` zeros.
pub open spec fn zero_counts() -> Seq<u32> {
    Seq::new(MAX_SYSCALL_NUM as nat, |i: int| 0u32)
}

/// `table` after one call of syscall `index`: the counter at `index` is one
/// higher; an `index` outside the table changes nothing.
pub open spec fn count_call(table: Seq<u32>, index: int) -> Seq<u32>
    recommends
        0 <= index < table.len() ==> table[index] < u32::MAX,
{
    if 0 <= index < table.len() {
        table.update(index, (table[index] + 1) as u32)
    } else {
        table
    }
}

/// `table` after the calls in `calls`, counted in order.
pub open spec fn count_calls(table: Seq<u32>, calls: Seq<int>) -> Seq<u32>
    decreases calls.len(),
{
    if calls.len() == 0 {
        table
    } else {
        count_call(count_calls(table, calls.drop_last()), calls.last())
    }
}

/// How many times `index` occurs in `calls`.
pub open spec fn occurrences(calls: Seq<int>, index: int) -> nat
    decreases calls.len(),
{
    if calls.len() == 0 {
        0
    } else {
        occurrences(calls.drop_last(), index) + if calls.last() == index {
            1nat
        } else {
            0nat
        }
    }
}

/// Counting never resizes the table.
pub proof fn lemma_count_calls_len(table: Seq<u32>, calls: Seq<int>)
    ensures
        count_calls(table, calls).len() == table.len(),
    decreases calls.len(),
{
    if calls.len() > 0 {
        lemma_count_calls_len(table, calls.drop_last());
    }
}

/// After any run of calls, each counter has grown by the number of times
/// its own index was passed, as long as that number still fits the counter.
/// Indices outside the table count nowhere.
pub proof fn lemma_count_calls_counts_occurrences(table: Seq<u32>, calls: Seq<int>)
    requires
        forall|i: int|
            0 <= i < table.len() ==> table[i] + #[trigger] occurrences(calls, i) <= u32::MAX,
    ensures
        count_calls(table, calls).len() == table.len(),
        forall|i: int|
            0 <= i < table.len() ==> #[trigger] count_calls(table, calls)[i] == table[i]
                + occurrences(calls, i),
    decreases calls.len(),
{
    if calls.len() > 0 {
        let earlier = calls.drop_last();
        assert forall|i: int| 0 <= i < table.len() implies table[i] + #[trigger] occurrences(
            earlier,
            i,
        ) <= u32::MAX by {
            assert(occurrences(earlier, i) <= occurrences(calls, i));
        }
        lemma_count_calls_counts_occurrences(table, earlier);
    }
}

/// From the all-zero table, each counter ends up equal to the number of
/// times its index was passed.
pub proof fn lemma_count_calls_from_zero(calls: Seq<int>)
    requires
        forall|i: int|
            0 <= i < MAX_SYSCALL_NUM ==> #[trigger] occurrences(calls, i) <= u32::MAX,
    ensures
        count_calls(zero_counts(), calls).len() == MAX_SYSCALL_NUM,
        forall|i: int|
            0 <= i < MAX_SYSCALL_NUM ==> #[trigger] count_calls(zero_counts(), calls)[i]
                == occurrences(calls, i),
{
    lemma_count_calls_counts_occurrences(zero_counts(), calls);
}

/// Calls whose index lies outside the table leave the whole table as it was.
pub proof fn lemma_out_of_range_calls_change_nothing(table: Seq<u32>, calls: Seq<int>)
    requires
        forall|k: int| 0 <= k < calls.len() ==> !(0 <= #[trigger] calls[k] < table.len()),
    ensures
        count_calls(table, calls) == table,
    decreases calls.len(),
{
    if calls.len() > 0 {
        lemma_out_of_range_calls_change_nothing(table, calls.drop_last());
    }
}

} // verus!
