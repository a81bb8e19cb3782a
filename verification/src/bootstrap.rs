//! Pool bootstrap: build a bounded pool around a connection manager and
//! eagerly prove it usable before handing it to the caller.
//!
//! The bootstrap is a short, fixed sequence: build the pool, acquire one
//! connection, run the no-op validation query on it, release it.  The
//! driver performs each of those asynchronous actions and reports its
//! outcome; the state machine here takes every decision: which stage
//! comes next, and which `BootstrapFailure` a fault at each stage
//! becomes.  A failure is fatal — there is no retry inside the
//! bootstrap; the caller decides whether to start over.

use vstd::prelude::*;
use crate::errors::BootstrapFailure;
use crate::errors::ConnectError;
use crate::errors::ValidationError;

verus! {

/// The bound on live connections the bootstrap configures the pool
/// with: a small constant fit to typical client concurrency.
pub const MAX_POOL_SIZE: u32 = 2;

/// Where a bootstrap stands.
#[derive(Debug, Clone, PartialEq, Eq)]
pub enum BootstrapState {
    /// The pool is being built around the connection manager.
    BuildingPool,
    /// The pool is built; the smoke check is acquiring a connection.
    AcquiringSmokeConnection,
    /// A connection is acquired; the no-op validation query is running.
    RunningSmokeQuery,
    /// The pool is proven usable and is handed to the caller.
    Ready,
    /// Bootstrap failed; fatal to startup, with the stage that failed.
    Failed(BootstrapFailure),
}

/// What the driver reports after performing one bootstrap action.
#[derive(Debug, Clone, PartialEq, Eq)]
pub enum BootstrapEvent {
    /// The pool was built.
    PoolBuilt,
    /// Pool construction failed; carries the connect error behind it.
    PoolBuildFailed(ConnectError),
    /// The smoke connection was acquired from the pool.
    SmokeConnectionAcquired,
    /// Acquiring the smoke connection failed.
    SmokeAcquireFailed(ConnectError),
    /// The no-op validation query ran and its response drained cleanly.
    SmokeQueryPassed,
    /// The no-op validation query failed.
    SmokeQueryFailed(ValidationError),
}

/// The bootstrap decision rule: the state each event leads to.  A fault
/// moves to `Failed` wrapping exactly the reported cause under the stage
/// it struck; an event that does not belong to the current stage changes
/// nothing; a terminal state is never left.
pub open spec fn bootstrap_step_spec(st: BootstrapState, ev: BootstrapEvent) -> BootstrapState {
    match (st, ev) {
        (BootstrapState::BuildingPool, BootstrapEvent::PoolBuilt) =>
            BootstrapState::AcquiringSmokeConnection,
        (BootstrapState::BuildingPool, BootstrapEvent::PoolBuildFailed(e)) =>
            BootstrapState::Failed(BootstrapFailure::BuildFailed(e)),
        (BootstrapState::AcquiringSmokeConnection, BootstrapEvent::SmokeConnectionAcquired) =>
            BootstrapState::RunningSmokeQuery,
        (BootstrapState::AcquiringSmokeConnection, BootstrapEvent::SmokeAcquireFailed(e)) =>
            BootstrapState::Failed(BootstrapFailure::SmokeAcquireFailed(e)),
        (BootstrapState::RunningSmokeQuery, BootstrapEvent::SmokeQueryPassed) =>
            BootstrapState::Ready,
        (BootstrapState::RunningSmokeQuery, BootstrapEvent::SmokeQueryFailed(e)) =>
            BootstrapState::Failed(BootstrapFailure::SmokeQueryFailed(e)),
        (other, _) => other,
    }
}

/// The state in which every bootstrap begins.
pub fn initial_bootstrap_state() -> (st: BootstrapState)
    ensures
        st == BootstrapState::BuildingPool,
{
    BootstrapState::BuildingPool
}

/// Advance the bootstrap by one reported event.
pub fn bootstrap_step(st: BootstrapState, ev: BootstrapEvent) -> (r: BootstrapState)
    ensures
        r == bootstrap_step_spec(st, ev),
{
    match (st, ev) {
        (BootstrapState::BuildingPool, BootstrapEvent::PoolBuilt) =>
            BootstrapState::AcquiringSmokeConnection,
        (BootstrapState::BuildingPool, BootstrapEvent::PoolBuildFailed(e)) =>
            BootstrapState::Failed(BootstrapFailure::BuildFailed(e)),
        (BootstrapState::AcquiringSmokeConnection, BootstrapEvent::SmokeConnectionAcquired) =>
            BootstrapState::RunningSmokeQuery,
        (BootstrapState::AcquiringSmokeConnection, BootstrapEvent::SmokeAcquireFailed(e)) =>
            BootstrapState::Failed(BootstrapFailure::SmokeAcquireFailed(e)),
        (BootstrapState::RunningSmokeQuery, BootstrapEvent::SmokeQueryPassed) =>
            BootstrapState::Ready,
        (BootstrapState::RunningSmokeQuery, BootstrapEvent::SmokeQueryFailed(e)) =>
            BootstrapState::Failed(BootstrapFailure::SmokeQueryFailed(e)),
        (other, _) => other,
    }
}

/// A fault-free bootstrap reaches `Ready`: the pool is built, the smoke
/// connection acquired and the smoke query passed, in that order.
pub proof fn lemma_fault_free_bootstrap_reaches_ready()
    ensures
        bootstrap_step_spec(
            bootstrap_step_spec(
                bootstrap_step_spec(BootstrapState::BuildingPool, BootstrapEvent::PoolBuilt),
                BootstrapEvent::SmokeConnectionAcquired,
            ),
            BootstrapEvent::SmokeQueryPassed,
        ) == BootstrapState::Ready,
{
}

/// A failed bootstrap stays failed whatever happens next: failure is
/// fatal to the caller, never retried away inside this layer.
pub proof fn lemma_bootstrap_failure_is_fatal(st: BootstrapState, ev: BootstrapEvent)
    requires
        st is Failed,
    ensures
        bootstrap_step_spec(st, ev) == st,
{
}

} // verus!
