//! An accounting model of the bounded pool the manager is driven by.
//!
//! The generic pool is an external collaborator; what the bootstrap
//! relies on is its bound: with a maximum size of `N`, no more than `N`
//! connections are ever live at once, however acquire and release
//! interleave.  The ledger here is that bookkeeping made explicit.  Each
//! operation is proved to preserve the well-formedness invariant, and
//! `lemma_live_bounded` states the bound itself.

use vstd::prelude::*;

verus! {

/// What a pool must do to serve one acquire request.
#[derive(Debug, Clone, Copy, PartialEq, Eq)]
pub enum AcquireDecision {
    /// Hand out a connection that is idle in the pool.
    ReuseIdle,
    /// Open a new connection through the manager's `connect`.
    CreateNew,
    /// The bound is reached: the request must wait for a release.
    MustWait,
}

/// The occupancy ledger of a bounded pool: how many connections sit
/// idle in the pool and how many are leased out to callers.
#[derive(Debug, Clone, PartialEq, Eq)]
pub struct PoolLedger {
    max_size: u32,
    idle: u32,
    leased: u32,
}

impl PoolLedger {
    /// The bound the pool was created with.
    pub closed spec fn spec_max_size(&self) -> u32 {
        self.max_size
    }

    /// Connections idle in the pool.
    pub closed spec fn spec_idle(&self) -> u32 {
        self.idle
    }

    /// Connections leased out to callers.
    pub closed spec fn spec_leased(&self) -> u32 {
        self.leased
    }

    /// The connections currently alive: idle plus leased.
    pub open spec fn live(&self) -> int {
        self.spec_idle() + self.spec_leased()
    }

    /// The ledger's invariant: live connections never exceed the bound.
    pub open spec fn wf(&self) -> bool {
        self.live() <= self.spec_max_size()
    }

    /// A fresh ledger for a pool bounded by `max_size`: nothing is live.
    pub fn new(max_size: u32) -> (p: PoolLedger)
        ensures
            p.wf(),
            p.spec_max_size() == max_size,
            p.spec_idle() == 0,
            p.spec_leased() == 0,
    {
        PoolLedger { max_size, idle: 0, leased: 0 }
    }

    /// Decide how one acquire request is served, and account for it.  An
    /// idle connection is reused first; a new one is opened only below
    /// the bound; at the bound the request waits.  Live connections
    /// never exceed the bound.
    pub fn acquire(&mut self) -> (d: AcquireDecision)
        requires
            old(self).wf(),
        ensures
            final(self).wf(),
            final(self).spec_max_size() == old(self).spec_max_size(),
            match d {
                AcquireDecision::ReuseIdle => {
                    &&& old(self).spec_idle() > 0
                    &&& final(self).spec_idle() == old(self).spec_idle() - 1
                    &&& final(self).spec_leased() == old(self).spec_leased() + 1
                },
                AcquireDecision::CreateNew => {
                    &&& old(self).spec_idle() == 0
                    &&& old(self).live() < old(self).spec_max_size()
                    &&& final(self).spec_idle() == 0
                    &&& final(self).spec_leased() == old(self).spec_leased() + 1
                },
                AcquireDecision::MustWait => {
                    &&& old(self).spec_idle() == 0
                    &&& old(self).live() == old(self).spec_max_size()
                    &&& *final(self) == *old(self)
                },
            },
    {
        if self.idle > 0 {
            self.idle = self.idle - 1;
            self.leased = self.leased + 1;
            AcquireDecision::ReuseIdle
        } else if self.leased < self.max_size {
            self.leased = self.leased + 1;
            AcquireDecision::CreateNew
        } else {
            AcquireDecision::MustWait
        }
    }

    /// Return a leased connection to the pool.
    pub fn release(&mut self)
        requires
            old(self).wf(),
            old(self).spec_leased() > 0,
        ensures
            final(self).wf(),
            final(self).spec_max_size() == old(self).spec_max_size(),
            final(self).spec_leased() == old(self).spec_leased() - 1,
            final(self).spec_idle() == old(self).spec_idle() + 1,
            final(self).live() == old(self).live(),
    {
        self.leased = self.leased - 1;
        self.idle = self.idle + 1;
    }

    /// Drop a leased connection that failed validation or broke in use:
    /// it leaves the pool instead of returning to it.
    pub fn discard(&mut self)
        requires
            old(self).wf(),
            old(self).spec_leased() > 0,
        ensures
            final(self).wf(),
            final(self).spec_max_size() == old(self).spec_max_size(),
            final(self).spec_leased() == old(self).spec_leased() - 1,
            final(self).spec_idle() == old(self).spec_idle(),
            final(self).live() == old(self).live() - 1,
    {
        self.leased = self.leased - 1;
    }

    /// The bound the pool was created with.
    pub fn max_size(&self) -> (n: u32)
        ensures
            n == self.spec_max_size(),
    {
        self.max_size
    }

    /// Connections idle in the pool.
    pub fn idle_count(&self) -> (n: u32)
        ensures
            n == self.spec_idle(),
    {
        self.idle
    }

    /// Connections leased out to callers.
    pub fn leased_count(&self) -> (n: u32)
        ensures
            n == self.spec_leased(),
    {
        self.leased
    }

    /// The connections currently alive.
    pub fn live_count(&self) -> (n: u32)
        requires
            self.wf(),
        ensures
            n == self.live(),
    {
        self.idle + self.leased
    }

    /// The pool bound: a well-formed ledger never accounts more live
    /// connections than its maximum.  Every operation above preserves
    /// well-formedness, so the bound holds under any sequence of
    /// acquires, releases and discards.
    pub proof fn lemma_live_bounded(&self)
        requires
            self.wf(),
        ensures
            self.live() <= self.spec_max_size(),
    {
    }
}

} // verus!
