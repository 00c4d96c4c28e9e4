//! Synchronization bookkeeping modelled as sequential state: a counting
//! semaphore's permit ledger and a shutdown flag.
//!
//! In a concurrent setting these counters live behind a mutex or an
//! atomic; here the state transitions themselves are specified and
//! verified, and the caller serializes access by holding the value.

use vstd::prelude::*;

verus! {

/// A counting semaphore's permit ledger.
pub struct Semaphore {
    permits: usize,
}

impl Semaphore {
    /// Permits currently available.
    pub closed spec fn spec_permits(&self) -> int {
        self.permits as int
    }

    /// A semaphore holding `permits` permits.
    pub fn new(permits: usize) -> (r: Semaphore)
        ensures
            r.spec_permits() == permits,
    {
        Semaphore { permits }
    }

    /// Takes one permit. The caller must know a permit is available; in a
    /// concurrent setting this is where a thread would block and wait.
    pub fn acquire(&mut self)
        requires
            old(self).spec_permits() > 0,
        ensures
            final(self).spec_permits() == old(self).spec_permits() - 1,
    {
        self.permits = self.permits - 1;
    }

    /// Takes one permit when one is available, reporting whether it did.
    pub fn try_acquire(&mut self) -> (r: bool)
        ensures
            old(self).spec_permits() > 0 ==> r == true && final(self).spec_permits() == old(
                self,
            ).spec_permits() - 1,
            old(self).spec_permits() == 0 ==> r == false && *final(self) == *old(self),
    {
        if self.permits > 0 {
            self.permits = self.permits - 1;
            true
        } else {
            false
        }
    }

    /// Returns one permit.
    pub fn release(&mut self)
        requires
            old(self).spec_permits() < usize::MAX,
        ensures
            final(self).spec_permits() == old(self).spec_permits() + 1,
    {
        self.permits = self.permits + 1;
    }

    /// Permits currently available.
    pub fn available(&self) -> (r: usize)
        ensures
            r == self.spec_permits(),
    {
        self.permits
    }
}

/// A one-way flag asking cooperating workers to stop.
///
/// Once raised it never falls again except by constructing a new flag.
pub struct ShutdownFlag {
    flag: bool,
}

impl ShutdownFlag {
    /// Whether shutdown has been requested.
    pub closed spec fn spec_is_shutdown(&self) -> bool {
        self.flag
    }

    /// A lowered flag.
    pub fn new() -> (r: ShutdownFlag)
        ensures
            !r.spec_is_shutdown(),
    {
        ShutdownFlag { flag: false }
    }

    /// Raises the flag.
    pub fn shutdown(&mut self)
        ensures
            final(self).spec_is_shutdown(),
    {
        self.flag = true;
    }

    /// Whether shutdown has been requested.
    pub fn is_shutdown(&self) -> (r: bool)
        ensures
            r == self.spec_is_shutdown(),
    {
        self.flag
    }

    /// A snapshot of the flag as it stands at the call; the copy does not
    /// follow later changes to the original.
    pub fn clone_handle(&self) -> (r: ShutdownFlag)
        ensures
            r.spec_is_shutdown() == self.spec_is_shutdown(),
    {
        ShutdownFlag { flag: self.flag }
    }
}

} // verus!
