//! The state of one wrapped generator and the operations that keep it.
use crate::schedule::{Path, Schedule};
use vstd::prelude::*;

verus! {

/// `rand_core::Error`, the failure that `rand_core::SeedableRng::from_rng`
/// returns where the reseed source could not fill a seed. It is declared so
/// that it can be carried through; nothing is claimed of what it holds.
#[verifier::external_type_specification]
#[verifier::external_body]
pub struct ExSeedingError(rand_core::Error);

/// What a [`ReseedingCore`] holds, as contracts see it.
pub struct ReseedingState<R, Rsdr> {
    /// The generator that produces the output.
    pub inner: R,
    /// The source from which a new generator is derived.
    pub reseeder: Rsdr,
    /// The numbers that decide when that is done.
    pub schedule: Schedule,
}

/// A generator, the source from which it is reseeded, and the bookkeeping
/// that decides before each block whether it is reseeded first.
#[derive(Debug)]
pub struct ReseedingCore<R, Rsdr> {
    inner: R,
    reseeder: Rsdr,
    counters: Counters,
}

/// The numbers of a schedule as the machine holds them. They always make a
/// valid schedule.
#[derive(Debug)]
struct Counters {
    threshold: i64,
    bytes_until_reseed: i64,
    fork_counter: usize,
}

impl View for Counters {
    type V = Schedule;

    closed spec fn view(&self) -> Schedule {
        Schedule {
            threshold: self.threshold as int,
            bytes_until_reseed: self.bytes_until_reseed as int,
            fork_counter: self.fork_counter,
        }
    }
}

impl Counters {
    #[verifier::type_invariant]
    spec fn well_formed(self) -> bool {
        self@.valid()
    }
}

impl<R, Rsdr> View for ReseedingCore<R, Rsdr> {
    type V = ReseedingState<R, Rsdr>;

    closed spec fn view(&self) -> ReseedingState<R, Rsdr> {
        ReseedingState { inner: self.inner, reseeder: self.reseeder, schedule: self.counters@ }
    }
}

impl<R, Rsdr> ReseedingCore<R, Rsdr> {
    /// Wraps `rng`, to be reseeded from `reseeder` after `threshold` bytes.
    /// A threshold of zero switches periodic reseeding off; so large a
    /// threshold that no countdown can hold it stands for the largest that
    /// one can. The new core has seen no fork yet.
    pub fn new(rng: R, threshold: u64, reseeder: Rsdr) -> (wrapped: Self)
        ensures
            wrapped@ == (ReseedingState { inner: rng, reseeder, schedule: Schedule::fresh(threshold) }),
    {
        let threshold: i64 = if threshold == 0 {
            i64::MAX
        } else if threshold <= i64::MAX as u64 {
            threshold as i64
        } else {
            i64::MAX
        };
        ReseedingCore {
            inner: rng,
            reseeder,
            counters: Counters { threshold, bytes_until_reseed: threshold, fork_counter: 0 },
        }
    }

    /// Takes the outcome of deriving a new generator from the reseed source.
    /// A new generator replaces the old one and the countdown starts again
    /// at the threshold. A failure changes nothing and is handed back as it
    /// came.
    pub fn reseed(&mut self, derived: Result<R, rand_core::Error>) -> (res: Result<
        (),
        rand_core::Error,
    >)
        ensures
            match derived {
                Ok(fresh) => res is Ok && final(self)@ == (ReseedingState {
                    inner: fresh,
                    reseeder: old(self)@.reseeder,
                    schedule: old(self)@.schedule.reseeded(),
                }),
                Err(failure) => res == Err::<(), rand_core::Error>(failure) && final(self)@ == old(
                    self,
                )@,
            },
            derived is Ok ==> final(self)@.schedule.bytes_until_reseed == old(
                self,
            )@.schedule.threshold,
    {
        proof {
            use_type_invariant(&self.counters);
        }
        match derived {
            Ok(fresh) => {
                self.counters.bytes_until_reseed = self.counters.threshold;
                self.inner = fresh;
                Ok(())
            },
            Err(failure) => Err(failure),
        }
    }

    /// Whether the process has forked since this core last looked, given the
    /// fork counter of the process. The counters may wrap: the test holds
    /// as long as fewer forks went unseen than half the counter's range.
    pub fn is_forked(&self, global_fork_counter: usize) -> (forked: bool)
        ensures
            forked == self@.schedule.is_forked(global_fork_counter),
    {
        self.counters.fork_counter.wrapping_sub(global_fork_counter) > usize::MAX / 2
    }

    /// Decides how the next block, of `num_bytes` bytes, is served. On the
    /// fast path the bytes are taken off the countdown and the caller lets
    /// the generator fill the block. On the slow path nothing changes yet:
    /// the caller derives a new generator from the reseed source and hands
    /// the outcome to [`ReseedingCore::reseed_and_generate`].
    pub fn generate(&mut self, num_bytes: usize, global_fork_counter: usize) -> (path: Path)
        requires
            num_bytes <= i64::MAX,
        ensures
            path == old(self)@.schedule.path(global_fork_counter),
            path == Path::Slow ==> final(self)@ == old(self)@,
            path == Path::Fast ==> final(self)@ == (ReseedingState {
                schedule: old(self)@.schedule.advance(num_bytes as int),
                ..old(self)@
            }),
    {
        proof {
            use_type_invariant(&self.counters);
        }
        if self.counters.bytes_until_reseed <= 0 || self.is_forked(global_fork_counter) {
            return Path::Slow;
        }
        self.counters.bytes_until_reseed -= num_bytes as i64;
        Path::Fast
    }

    /// The slow path: takes the outcome of deriving a new generator, notes
    /// the fork counter of the process and starts the countdown again, less
    /// the `num_bytes` bytes of the block that the caller lets the generator
    /// fill next. A failed reseed keeps the old generator and is not
    /// reported: the counter and the countdown move on all the same, so
    /// that the reseed is not tried again for every block.
    pub fn reseed_and_generate(
        &mut self,
        derived: Result<R, rand_core::Error>,
        num_bytes: usize,
        global_fork_counter: usize,
    )
        requires
            num_bytes <= i64::MAX,
        ensures
            final(self)@ == (ReseedingState {
                inner: match derived {
                    Ok(fresh) => fresh,
                    Err(_) => old(self)@.inner,
                },
                reseeder: old(self)@.reseeder,
                schedule: old(self)@.schedule.restart(num_bytes as int, global_fork_counter),
            }),
    {
        proof {
            use_type_invariant(&self.counters);
        }
        let _ = self.reseed(derived);
        proof {
            use_type_invariant(&self.counters);
        }
        self.counters.fork_counter = global_fork_counter;
        self.counters.bytes_until_reseed = self.counters.threshold - num_bytes as i64;
    }

    /// The threshold that was kept at construction.
    pub fn threshold(&self) -> (threshold: i64)
        ensures
            threshold == self@.schedule.threshold,
            threshold >= 1,
    {
        proof {
            use_type_invariant(&self.counters);
        }
        self.counters.threshold
    }

    /// The bytes that may still be produced before the next reseed. It is
    /// never above the threshold.
    pub fn bytes_until_reseed(&self) -> (bytes: i64)
        ensures
            bytes == self@.schedule.bytes_until_reseed,
            bytes <= self@.schedule.threshold,
    {
        proof {
            use_type_invariant(&self.counters);
        }
        self.counters.bytes_until_reseed
    }

    /// The fork counter that this core last saw.
    pub fn fork_counter(&self) -> (counter: usize)
        ensures
            counter == self@.schedule.fork_counter,
    {
        self.counters.fork_counter
    }

    /// The generator.
    pub fn inner(&self) -> (inner: &R)
        ensures
            *inner == self@.inner,
    {
        &self.inner
    }

    /// The generator, to let it fill a block. The bookkeeping stays as it
    /// is, whatever the caller does with the generator.
    pub fn inner_mut(&mut self) -> (inner: &mut R)
        ensures
            *inner == old(self)@.inner,
            final(self)@ == (ReseedingState { inner: *final(inner), ..old(self)@ }),
    {
        &mut self.inner
    }

    /// The reseed source, to derive a new generator from it. The
    /// bookkeeping stays as it is, whatever the caller does with the source.
    pub fn reseeder_mut(&mut self) -> (reseeder: &mut Rsdr)
        ensures
            *reseeder == old(self)@.reseeder,
            final(self)@ == (ReseedingState { reseeder: *final(reseeder), ..old(self)@ }),
    {
        &mut self.reseeder
    }
}

impl<R: Clone, Rsdr: Clone> Clone for ReseedingCore<R, Rsdr> {
    /// A copy with a generator and a reseed source of its own, the same
    /// threshold and fork counter, and a countdown that has run out: the copy
    /// is reseeded before its first block, however much the core that it was
    /// made from still had to go.
    fn clone(&self) -> (copy: Self)
        ensures
            cloned(self@.inner, copy@.inner),
            cloned(self@.reseeder, copy@.reseeder),
            copy@.schedule == self@.schedule.duplicate(),
    {
        proof {
            use_type_invariant(&self.counters);
        }
        ReseedingCore {
            inner: self.inner.clone(),
            reseeder: self.reseeder.clone(),
            counters: Counters {
                threshold: self.counters.threshold,
                bytes_until_reseed: 0,
                fork_counter: self.counters.fork_counter,
            },
        }
    }
}

} // verus!
