//! Process-wide mutual exclusion for the interpreter lifecycle.
//!
//! At most one lifecycle instance may be live in a process at a time.  The
//! guard models the process-wide lock that enforces this: acquisition hands
//! out a fresh token, and the token is surrendered exactly once on teardown.
//! Blocking is abstracted away: a caller may acquire only while no token is
//! outstanding, so a second construction waits until the first releases.

use vstd::prelude::*;

use crate::errors::NewInterpreterError;

verus! {

/// The process-wide guard: which acquisition (if any) is outstanding, the
/// next token to hand out, and whether a prior holder panicked while
/// holding the lock.
pub struct GuardState {
    /// Token of the outstanding acquisition, if one is live.
    pub holder: Option<u64>,
    /// Next token to be issued; every token ever issued is smaller.
    pub next_token: u64,
    /// True when a prior holder panicked while holding the lock; every
    /// later acquisition fails.
    pub poisoned: bool,
}

impl GuardState {
    /// A fresh guard: nothing outstanding, not poisoned.
    pub fn new() -> (r: GuardState)
        ensures
            r.holder is None,
            !r.poisoned,
            r.next_token == 0,
    {
        GuardState { holder: None, next_token: 0, poisoned: false }
    }

    /// Acquire the guard, obtaining a fresh token.
    ///
    /// Acquisition blocks until any previous holder has released; that
    /// blocking is abstracted into the precondition that nothing is
    /// outstanding.  A poisoned lock can never be acquired again.
    pub fn acquire(&mut self) -> (r: Result<u64, NewInterpreterError>)
        requires
            old(self).holder is None,
            old(self).next_token < u64::MAX,
        ensures
            old(self).poisoned ==> {
                &&& r == Err::<u64, NewInterpreterError>(NewInterpreterError::LockPoisoned)
                &&& *final(self) == *old(self)
            },
            !old(self).poisoned ==> {
                &&& r == Ok::<u64, NewInterpreterError>(old(self).next_token)
                &&& final(self).holder == Some(old(self).next_token)
                &&& final(self).next_token == old(self).next_token + 1
                &&& !final(self).poisoned
            },
    {
        if self.poisoned {
            Err(NewInterpreterError::LockPoisoned)
        } else {
            let token = self.next_token;
            self.holder = Some(token);
            self.next_token = token + 1;
            Ok(token)
        }
    }

    /// Release the outstanding acquisition.  Only the holder of the current
    /// token may release.
    pub fn release(&mut self, token: u64)
        requires
            old(self).holder == Some(token),
        ensures
            final(self).holder is None,
            final(self).next_token == old(self).next_token,
            final(self).poisoned == old(self).poisoned,
    {
        self.holder = None;
    }
}

} // verus!
