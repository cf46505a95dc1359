//! What holds of every schedule, proved over the model of the bookkeeping.
use crate::epoch::{detection_window, epoch_after, epoch_behind, epoch_gap, lemma_behind_after_forks};
use crate::schedule::{
    all_valid, bytes_since_reseed, countdown_limit, no_fork_seen, total_bytes, BlockRequest, Path,
    Schedule,
};
use vstd::prelude::*;

verus! {

/// A request leaves a valid schedule valid. It never touches the threshold
/// and leaves the countdown at or below it. The fork counter stays, or
/// becomes the one of the request; either way it is then not behind the one
/// of the request.
pub proof fn lemma_step_keeps_valid(schedule: Schedule, request: BlockRequest)
    requires
        schedule.valid(),
        request.valid(),
    ensures
        schedule.step(request).valid(),
        schedule.step(request).threshold == schedule.threshold,
        schedule.step(request).bytes_until_reseed <= schedule.threshold,
        schedule.step(request).fork_counter == schedule.fork_counter || schedule.step(
            request,
        ).fork_counter == request.global_fork_counter,
        !schedule.step(request).is_forked(request.global_fork_counter),
{
}

/// A row of requests leaves a valid schedule valid and never touches the
/// threshold.
pub proof fn lemma_run_keeps_valid(schedule: Schedule, requests: Seq<BlockRequest>)
    requires
        schedule.valid(),
        all_valid(requests),
    ensures
        schedule.run(requests).valid(),
        schedule.run(requests).threshold == schedule.threshold,
    decreases requests.len(),
{
    if requests.len() > 0 {
        lemma_run_keeps_valid(schedule, requests.drop_last());
        lemma_step_keeps_valid(schedule.run(requests.drop_last()), requests.last());
    }
}

/// The bytes of a row of valid requests are no fewer than those of the row
/// without its last request, and not negative.
pub proof fn lemma_total_bytes_grows(requests: Seq<BlockRequest>)
    requires
        all_valid(requests),
    ensures
        0 <= total_bytes(requests),
        requests.len() > 0 ==> total_bytes(requests.drop_last()) <= total_bytes(requests),
    decreases requests.len(),
{
    if requests.len() > 0 {
        lemma_total_bytes_grows(requests.drop_last());
    }
}

/// With periodic reseeding switched off, a wrapped generator is never
/// reseeded as long as the process does not fork and fewer bytes have been
/// produced than the largest countdown holds: every request of the row takes
/// the fast path, and the countdown has gone down by the bytes produced.
pub proof fn lemma_unlimited_takes_fast_path(requests: Seq<BlockRequest>)
    requires
        all_valid(requests),
        forall|i: int|
            0 <= i < requests.len() ==> !epoch_behind(
                0,
                (#[trigger] requests[i]).global_fork_counter,
            ),
        requests.len() > 0 ==> total_bytes(requests.drop_last()) < countdown_limit(),
    ensures
        Schedule::fresh(0).run(requests) == (Schedule {
            threshold: countdown_limit(),
            bytes_until_reseed: countdown_limit() - total_bytes(requests),
            fork_counter: 0,
        }),
        forall|k: int|
            0 <= k < requests.len() ==> (#[trigger] Schedule::fresh(0).run(requests.take(k))).path(
                requests[k].global_fork_counter,
            ) == Path::Fast,
    decreases requests.len(),
{
    if requests.len() > 0 {
        let earlier = requests.drop_last();
        lemma_total_bytes_grows(earlier);
        lemma_unlimited_takes_fast_path(earlier);
        assert(requests.last() == requests[requests.len() - 1]);
        assert forall|k: int| 0 <= k < requests.len() implies (#[trigger] Schedule::fresh(0).run(
            requests.take(k),
        )).path(requests[k].global_fork_counter) == Path::Fast by {
            if k < earlier.len() {
                assert(requests.take(k) == earlier.take(k));
                assert(requests[k] == earlier[k]);
            } else {
                assert(requests.take(k) == earlier);
            }
        }
    }
}

/// With a threshold that a countdown can hold, and in a process that does
/// not fork, the countdown is at all times the threshold less the bytes
/// produced since the last reseed. So the next request takes the slow path
/// exactly when those bytes have reached the threshold.
pub proof fn lemma_reseeds_when_threshold_reached(
    threshold_bytes: u64,
    requests: Seq<BlockRequest>,
)
    requires
        1 <= threshold_bytes <= countdown_limit(),
        all_valid(requests),
        no_fork_seen(Schedule::fresh(threshold_bytes), requests),
    ensures
        Schedule::fresh(threshold_bytes).run(requests).bytes_until_reseed == threshold_bytes
            - bytes_since_reseed(threshold_bytes as int, requests),
        forall|global_fork_counter: usize|
            !Schedule::fresh(threshold_bytes).run(requests).is_forked(global_fork_counter) ==> (
            Schedule::fresh(threshold_bytes).run(requests).path(global_fork_counter) == Path::Slow
                <==> bytes_since_reseed(threshold_bytes as int, requests) >= threshold_bytes),
    decreases requests.len(),
{
    let start = Schedule::fresh(threshold_bytes);
    if requests.len() > 0 {
        let earlier = requests.drop_last();
        assert forall|k: int| 0 <= k < earlier.len() implies !(#[trigger] start.run(
            earlier.take(k),
        )).is_forked(earlier[k].global_fork_counter) by {
            assert(requests.take(k) == earlier.take(k));
            assert(requests[k] == earlier[k]);
        }
        lemma_reseeds_when_threshold_reached(threshold_bytes, earlier);
        lemma_run_keeps_valid(start, earlier);
        assert(requests.take(requests.len() - 1) == earlier);
        assert(!start.run(requests.take(requests.len() - 1)).is_forked(
            requests[requests.len() - 1].global_fork_counter,
        ));
    }
}

/// Where a block holds at least as many bytes as the threshold, the request
/// after it takes the slow path, whatever the fork counter: the generator
/// is reseeded before every block but the first.
pub proof fn lemma_block_sized_threshold_reseeds_every_block(
    schedule: Schedule,
    request: BlockRequest,
    global_fork_counter: usize,
)
    requires
        schedule.valid(),
        request.valid(),
        request.num_bytes >= schedule.threshold,
    ensures
        schedule.step(request).path(global_fork_counter) == Path::Slow,
{
}

/// A fork between two requests sends the second one down the slow path. It
/// holds for any number of forks between the two, as long as neither before
/// the first request nor before the second more forks went unseen than the
/// detection window holds.
pub proof fn lemma_fork_forces_slow_path(schedule: Schedule, request: BlockRequest, forks: int)
    requires
        schedule.valid(),
        request.valid(),
        epoch_gap(schedule.fork_counter, request.global_fork_counter) <= detection_window(),
        1 <= forks <= detection_window(),
    ensures
        schedule.step(request).fork_counter == request.global_fork_counter,
        schedule.step(request).is_forked(epoch_after(request.global_fork_counter, forks)),
        schedule.step(request).path(epoch_after(request.global_fork_counter, forks)) == Path::Slow,
{
    lemma_behind_after_forks(request.global_fork_counter, forks);
}

/// The first request to a copy takes the slow path, whatever the fork
/// counter and however much countdown was left where it was copied from.
/// The copy has the threshold and the fork counter of what it was copied
/// from.
pub proof fn lemma_copy_takes_slow_path(schedule: Schedule, global_fork_counter: usize)
    ensures
        schedule.duplicate().path(global_fork_counter) == Path::Slow,
        schedule.duplicate().threshold == schedule.threshold,
        schedule.duplicate().fork_counter == schedule.fork_counter,
        schedule.valid() ==> schedule.duplicate().valid(),
{
}

} // verus!
