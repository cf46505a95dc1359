//! Scheduling of reseeds for a block-based pseudorandom generator.
//!
//! A [`ReseedingCore`] owns a generator and a reseed source and keeps the
//! bookkeeping that says, before each block, whether the generator has to be
//! replaced by a freshly seeded one: a countdown of bytes and the last fork
//! counter that the instance has seen. The generator and the source are the
//! caller's: the core decides, the caller derives the new generator and
//! fills the block.
pub mod epoch;
pub mod fork;
pub mod laws;
pub mod reseeding_core;
pub mod schedule;

pub use reseeding_core::ReseedingCore;
pub use reseeding_core::ReseedingState;
pub use schedule::Path;
