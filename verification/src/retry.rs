//! What to do when the store gives up on a unit of work for a reason that
//! may pass.
//!
//! Units of work lock the rows they touch. Where two of them wait for each
//! other the store ends one of them, and where a lock cannot be had in time
//! the store says so. Such a unit of work has changed nothing and may simply
//! be run again: a few times, each time after twice the wait of the time
//! before.

use vstd::prelude::*;
use crate::text::same_text;

verus! {

/// Why the store gave up on a unit of work.
#[derive(Clone, Copy, Debug, PartialEq, Eq)]
pub enum StoreFault {
    /// Another unit of work was in the way: a deadlock was found, the unit
    /// of work could not be serialized, or a lock was not to be had.
    Busy,
    /// Anything else.
    Failure,
}

/// The number of times that a unit of work is run again.
pub const MAX_RETRIES: u32 = 4;

/// The wait before the first retry, in milliseconds.
pub const FIRST_WAIT: u64 = 25;

/// The fault that an SQLSTATE code stands for: `40P01` (deadlock detected),
/// `40001` (serialization failure) and `55P03` (lock not available) are
/// busy; every other code, and no code at all, is a failure.
pub open spec fn fault_of(code: Option<Seq<char>>) -> StoreFault {
    match code {
        Some(c) => if c == "40P01"@ || c == "40001"@ || c == "55P03"@ {
            StoreFault::Busy
        } else {
            StoreFault::Failure
        },
        None => StoreFault::Failure,
    }
}

/// The wait before retry number `attempt`, counted from zero: the first
/// wait, doubled once for every retry before.
pub open spec fn wait_of(attempt: nat) -> nat
    decreases attempt,
{
    if attempt == 0 {
        FIRST_WAIT as nat
    } else {
        2 * wait_of((attempt - 1) as nat)
    }
}

/// The waits of the first `attempts` retries together.
pub open spec fn total_wait(attempts: nat) -> nat
    decreases attempts,
{
    if attempts == 0 {
        0
    } else {
        total_wait((attempts - 1) as nat) + wait_of((attempts - 1) as nat)
    }
}

/// What follows a fault after `attempt` retries: the wait before the next
/// retry, or nothing where the unit of work is given up.
pub open spec fn next_step(fault: StoreFault, attempt: u32) -> Option<u64> {
    if fault is Busy && attempt < MAX_RETRIES {
        Some(wait_of(attempt as nat) as u64)
    } else {
        None
    }
}

/// Reads the fault out of the SQLSTATE code of an error of the store.
pub fn classify(code: Option<&str>) -> (r: StoreFault)
    ensures
        match code {
            Some(c) => r == fault_of(Some(c@)),
            None => r == fault_of(None),
        },
{
    match code {
        Some(c) => if same_text(c, "40P01") || same_text(c, "40001") || same_text(c, "55P03") {
            StoreFault::Busy
        } else {
            StoreFault::Failure
        },
        None => StoreFault::Failure,
    }
}

/// Decides what follows a fault after `attempt` retries: a busy store is
/// tried again, up to [`MAX_RETRIES`] times, after a wait that doubles each
/// time; anything else is given up at once.
pub fn next_attempt(fault: StoreFault, attempt: u32) -> (r: Option<u64>)
    ensures
        r == next_step(fault, attempt),
{
    match fault {
        StoreFault::Failure => None,
        StoreFault::Busy => {
            proof {
                reveal_with_fuel(wait_of, 5);
            }
            if attempt == 0 {
                Some(25)
            } else if attempt == 1 {
                Some(50)
            } else if attempt == 2 {
                Some(100)
            } else if attempt == 3 {
                Some(200)
            } else {
                None
            }
        },
    }
}

/// A unit of work that is given up has waited 375 milliseconds at most, and
/// a unit of work is never tried more than five times.
pub proof fn lemma_waits_are_bounded(fault: StoreFault, attempt: u32)
    ensures
        next_step(fault, attempt) is Some ==> attempt < MAX_RETRIES && total_wait(
            (attempt + 1) as nat,
        ) <= 375,
        attempt >= MAX_RETRIES ==> next_step(fault, attempt) is None,
        total_wait(MAX_RETRIES as nat) == 375,
{
    reveal_with_fuel(wait_of, 5);
    reveal_with_fuel(total_wait, 6);
}

} // verus!
