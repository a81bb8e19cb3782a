use tiberius_pool::pool::{AcquireDecision, PoolLedger};

#[test]
fn fresh_ledger_is_empty() {
    let p = PoolLedger::new(2);
    assert_eq!(p.max_size(), 2);
    assert_eq!(p.idle_count(), 0);
    assert_eq!(p.leased_count(), 0);
    assert_eq!(p.live_count(), 0);
}

#[test]
fn bound_is_never_exceeded() {
    let mut p = PoolLedger::new(2);
    assert_eq!(p.acquire(), AcquireDecision::CreateNew);
    assert_eq!(p.acquire(), AcquireDecision::CreateNew);
    assert_eq!(p.acquire(), AcquireDecision::MustWait);
    assert_eq!(p.acquire(), AcquireDecision::MustWait);
    assert_eq!(p.live_count(), 2);
}

#[test]
fn idle_connection_is_reused() {
    let mut p = PoolLedger::new(2);
    assert_eq!(p.acquire(), AcquireDecision::CreateNew);
    assert_eq!(p.acquire(), AcquireDecision::CreateNew);
    p.release();
    assert_eq!(p.idle_count(), 1);
    assert_eq!(p.acquire(), AcquireDecision::ReuseIdle);
    assert_eq!(p.live_count(), 2);
}

#[test]
fn discard_frees_a_slot() {
    let mut p = PoolLedger::new(2);
    assert_eq!(p.acquire(), AcquireDecision::CreateNew);
    assert_eq!(p.acquire(), AcquireDecision::CreateNew);
    p.discard();
    assert_eq!(p.live_count(), 1);
    assert_eq!(p.acquire(), AcquireDecision::CreateNew);
    assert_eq!(p.acquire(), AcquireDecision::MustWait);
}

#[test]
fn release_keeps_live_count() {
    let mut p = PoolLedger::new(2);
    assert_eq!(p.acquire(), AcquireDecision::CreateNew);
    p.release();
    assert_eq!(p.live_count(), 1);
    assert_eq!(p.leased_count(), 0);
    assert_eq!(p.idle_count(), 1);
}

#[test]
fn zero_sized_pool_always_waits() {
    let mut p = PoolLedger::new(0);
    assert_eq!(p.acquire(), AcquireDecision::MustWait);
    assert_eq!(p.live_count(), 0);
}
