//! Fork counters that wrap, and the test that tells a stale one.
use vstd::prelude::*;

verus! {

/// The number of values that a fork counter takes before it is back at zero.
pub open spec fn counter_range() -> int {
    usize::MAX + 1
}

/// The largest number of unseen forks that is still recognised: half the
/// counter's range.
pub open spec fn detection_window() -> int {
    counter_range() / 2
}

/// The number of increments that lead from `cached` to `global`, the wrap at
/// the end of the range included.
pub open spec fn epoch_gap(cached: usize, global: usize) -> int {
    if global >= cached {
        global - cached
    } else {
        global - cached + counter_range()
    }
}

/// A cached counter is behind the global one when the global one is at least
/// one increment and at most half the range ahead of it.
pub open spec fn epoch_behind(cached: usize, global: usize) -> bool {
    1 <= epoch_gap(cached, global) <= detection_window()
}

/// The counter that `forks` increments make of `epoch`.
pub open spec fn epoch_after(epoch: usize, forks: int) -> usize
    recommends
        0 <= forks < counter_range(),
{
    if epoch + forks < counter_range() {
        (epoch + forks) as usize
    } else {
        (epoch + forks - counter_range()) as usize
    }
}

/// The gap between a counter and what `forks` increments make of it is
/// `forks`, as long as the counter has not gone round once.
pub proof fn lemma_gap_after_forks(epoch: usize, forks: int)
    requires
        0 <= forks < counter_range(),
    ensures
        epoch_gap(epoch, epoch_after(epoch, forks)) == forks,
{
}

/// After `forks` increments a cached counter is behind exactly when there
/// was at least one increment and no more than the detection window holds.
pub proof fn lemma_behind_after_forks(epoch: usize, forks: int)
    requires
        0 <= forks < counter_range(),
    ensures
        epoch_behind(epoch, epoch_after(epoch, forks)) <==> 1 <= forks <= detection_window(),
{
    lemma_gap_after_forks(epoch, forks);
}

} // verus!
