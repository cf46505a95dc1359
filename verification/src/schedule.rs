//! The bookkeeping of one wrapped generator as plain numbers, and the rule
//! that says before each block whether the generator is reseeded first.
use crate::epoch::epoch_behind;
use vstd::prelude::*;

verus! {

/// The way a request for one block is served.
#[derive(Clone, Copy, Debug, PartialEq, Eq, Structural)]
pub enum Path {
    /// The current generator fills the block.
    Fast,
    /// The generator is reseeded first, then fills the block.
    Slow,
}

/// The largest countdown that can be held. A threshold of zero, which
/// switches periodic reseeding off, and every threshold above this value
/// stand for this value.
pub open spec fn countdown_limit() -> int {
    i64::MAX as int
}

/// The threshold that is kept for a requested one.
pub open spec fn clamp_threshold(threshold_bytes: u64) -> int {
    if threshold_bytes == 0 || threshold_bytes > countdown_limit() {
        countdown_limit()
    } else {
        threshold_bytes as int
    }
}

/// One request for a block: the bytes that the block holds, and the fork
/// counter of the process at the time of the request.
pub struct BlockRequest {
    pub num_bytes: int,
    pub global_fork_counter: usize,
}

impl BlockRequest {
    /// A block holds no more bytes than a countdown can count.
    pub open spec fn valid(self) -> bool {
        0 <= self.num_bytes <= countdown_limit()
    }
}

/// The numbers that decide when a generator is reseeded.
pub struct Schedule {
    /// The bytes after which the generator is reseeded; fixed once made.
    pub threshold: int,
    /// The bytes that may still be produced before the next reseed.
    pub bytes_until_reseed: int,
    /// The fork counter that was last seen.
    pub fork_counter: usize,
}

impl Schedule {
    /// What holds of every schedule that the library makes: the threshold is
    /// positive, and the countdown is never above it.
    pub open spec fn valid(self) -> bool {
        &&& 1 <= self.threshold <= countdown_limit()
        &&& -countdown_limit() < self.bytes_until_reseed <= self.threshold
    }

    /// The schedule of a generator that was just wrapped.
    pub open spec fn fresh(threshold_bytes: u64) -> Schedule {
        Schedule {
            threshold: clamp_threshold(threshold_bytes),
            bytes_until_reseed: clamp_threshold(threshold_bytes),
            fork_counter: 0,
        }
    }

    /// The process has forked since this schedule last looked.
    pub open spec fn is_forked(self, global_fork_counter: usize) -> bool {
        epoch_behind(self.fork_counter, global_fork_counter)
    }

    /// The generator has to be reseeded before it produces anything more.
    pub open spec fn needs_reseed(self, global_fork_counter: usize) -> bool {
        self.bytes_until_reseed <= 0 || self.is_forked(global_fork_counter)
    }

    /// The way the next block is served.
    pub open spec fn path(self, global_fork_counter: usize) -> Path {
        if self.needs_reseed(global_fork_counter) {
            Path::Slow
        } else {
            Path::Fast
        }
    }

    /// The schedule after a block of `num_bytes` bytes on the fast path.
    pub open spec fn advance(self, num_bytes: int) -> Schedule {
        Schedule { bytes_until_reseed: self.bytes_until_reseed - num_bytes, ..self }
    }

    /// The schedule after a block of `num_bytes` bytes on the slow path,
    /// whether the reseed went well or not.
    pub open spec fn restart(self, num_bytes: int, global_fork_counter: usize) -> Schedule {
        Schedule {
            threshold: self.threshold,
            bytes_until_reseed: self.threshold - num_bytes,
            fork_counter: global_fork_counter,
        }
    }

    /// The schedule after a reseed that the caller asked for and that went
    /// well.
    pub open spec fn reseeded(self) -> Schedule {
        Schedule { bytes_until_reseed: self.threshold, ..self }
    }

    /// The schedule of a copy: its countdown has run out.
    pub open spec fn duplicate(self) -> Schedule {
        Schedule { bytes_until_reseed: 0, ..self }
    }

    /// The schedule after one request.
    pub open spec fn step(self, request: BlockRequest) -> Schedule {
        if self.needs_reseed(request.global_fork_counter) {
            self.restart(request.num_bytes, request.global_fork_counter)
        } else {
            self.advance(request.num_bytes)
        }
    }

    /// The schedule after a row of requests, the first first.
    pub open spec fn run(self, requests: Seq<BlockRequest>) -> Schedule
        decreases requests.len(),
    {
        if requests.len() == 0 {
            self
        } else {
            self.run(requests.drop_last()).step(requests.last())
        }
    }
}

/// Every request of the row is valid.
pub open spec fn all_valid(requests: Seq<BlockRequest>) -> bool {
    forall|i: int| 0 <= i < requests.len() ==> (#[trigger] requests[i]).valid()
}

/// The bytes that a row of requests asks for.
pub open spec fn total_bytes(requests: Seq<BlockRequest>) -> int
    decreases requests.len(),
{
    if requests.len() == 0 {
        0
    } else {
        total_bytes(requests.drop_last()) + requests.last().num_bytes
    }
}

/// The bytes produced since the generator was last reseeded, where it is
/// reseeded before a block whenever the bytes since the reseed before have
/// reached `threshold`. The block that follows a reseed counts.
pub open spec fn bytes_since_reseed(threshold: int, requests: Seq<BlockRequest>) -> int
    decreases requests.len(),
{
    if requests.len() == 0 {
        0
    } else if bytes_since_reseed(threshold, requests.drop_last()) >= threshold {
        requests.last().num_bytes
    } else {
        bytes_since_reseed(threshold, requests.drop_last()) + requests.last().num_bytes
    }
}

/// No request of the row finds the fork counter ahead of the one that the
/// schedule holds at that time: the process does not fork.
pub open spec fn no_fork_seen(start: Schedule, requests: Seq<BlockRequest>) -> bool {
    forall|k: int|
        0 <= k < requests.len() ==> !(#[trigger] start.run(requests.take(k))).is_forked(
            requests[k].global_fork_counter,
        )
}

} // verus!
