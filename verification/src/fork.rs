//! The fork counter of a process without fork notification.
use vstd::prelude::*;

verus! {

/// The current fork counter. Without fork notification no fork is ever
/// counted, so the counter stays at zero.
pub fn get_fork_counter() -> (counter: usize)
    ensures
        counter == 0,
{
    0
}

/// Makes sure that forks are counted from now on. Without fork notification
/// there is nothing to install, and calling this any number of times is the
/// same as calling it once.
pub fn register_fork_handler() {
}

} // verus!
