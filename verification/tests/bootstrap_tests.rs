use tiberius_pool::bootstrap::{
    bootstrap_step, initial_bootstrap_state, BootstrapEvent, BootstrapState, MAX_POOL_SIZE,
};
use tiberius_pool::errors::{BootstrapFailure, ConnectError, ValidationError};

#[test]
fn pool_bound_is_two() {
    assert_eq!(MAX_POOL_SIZE, 2);
}

#[test]
fn fault_free_bootstrap_reaches_ready() {
    let mut st = initial_bootstrap_state();
    assert_eq!(st, BootstrapState::BuildingPool);
    st = bootstrap_step(st, BootstrapEvent::PoolBuilt);
    assert_eq!(st, BootstrapState::AcquiringSmokeConnection);
    st = bootstrap_step(st, BootstrapEvent::SmokeConnectionAcquired);
    assert_eq!(st, BootstrapState::RunningSmokeQuery);
    st = bootstrap_step(st, BootstrapEvent::SmokeQueryPassed);
    assert_eq!(st, BootstrapState::Ready);
}

#[test]
fn refused_connection_fails_the_build() {
    let cause = ConnectError::TransportFailure("connection refused".to_string());
    let st = bootstrap_step(
        initial_bootstrap_state(),
        BootstrapEvent::PoolBuildFailed(cause.clone()),
    );
    assert_eq!(st, BootstrapState::Failed(BootstrapFailure::BuildFailed(cause)));
}

#[test]
fn rejected_login_fails_the_build() {
    let cause = ConnectError::ProtocolFailure("Login failed for user 'sa'.".to_string());
    let st = bootstrap_step(
        initial_bootstrap_state(),
        BootstrapEvent::PoolBuildFailed(cause.clone()),
    );
    assert_eq!(st, BootstrapState::Failed(BootstrapFailure::BuildFailed(cause)));
}

#[test]
fn smoke_acquire_failure_is_fatal() {
    let cause = ConnectError::TransportFailure("connection refused".to_string());
    let mut st = bootstrap_step(initial_bootstrap_state(), BootstrapEvent::PoolBuilt);
    st = bootstrap_step(st, BootstrapEvent::SmokeAcquireFailed(cause.clone()));
    assert_eq!(st, BootstrapState::Failed(BootstrapFailure::SmokeAcquireFailed(cause)));
}

#[test]
fn smoke_query_failure_is_fatal() {
    let cause = ValidationError { detail: "connection reset".to_string() };
    let mut st = bootstrap_step(initial_bootstrap_state(), BootstrapEvent::PoolBuilt);
    st = bootstrap_step(st, BootstrapEvent::SmokeConnectionAcquired);
    st = bootstrap_step(st, BootstrapEvent::SmokeQueryFailed(cause.clone()));
    assert_eq!(st, BootstrapState::Failed(BootstrapFailure::SmokeQueryFailed(cause)));
}

#[test]
fn failure_is_never_left() {
    let cause = ConnectError::TransportFailure("connection refused".to_string());
    let failed = bootstrap_step(
        initial_bootstrap_state(),
        BootstrapEvent::PoolBuildFailed(cause.clone()),
    );
    let after = bootstrap_step(failed.clone(), BootstrapEvent::PoolBuilt);
    assert_eq!(after, failed);
    let after2 = bootstrap_step(failed.clone(), BootstrapEvent::SmokeQueryPassed);
    assert_eq!(after2, failed);
}

#[test]
fn mismatched_event_changes_nothing() {
    let st = bootstrap_step(initial_bootstrap_state(), BootstrapEvent::SmokeQueryPassed);
    assert_eq!(st, BootstrapState::BuildingPool);
    let ready = bootstrap_step(
        bootstrap_step(
            bootstrap_step(initial_bootstrap_state(), BootstrapEvent::PoolBuilt),
            BootstrapEvent::SmokeConnectionAcquired,
        ),
        BootstrapEvent::SmokeQueryPassed,
    );
    let still = bootstrap_step(ready.clone(), BootstrapEvent::PoolBuilt);
    assert_eq!(still, ready);
}
