use scylla::backoff::{jittered, Backoff, BackoffConfig};
use scylla::pool::{
    Connection, NodeConnectionPool, PoolConfig, PoolError, PoolHealth, PoolSize, ShardInfo,
};

fn backoff() -> BackoffConfig {
    BackoffConfig { min_delay_ms: 100, max_delay_ms: 1000 }
}

fn per_shard() -> NodeConnectionPool {
    NodeConnectionPool::new(PoolConfig { pool_size: PoolSize::PerShard, backoff: backoff() })
}

fn shard(s: u16, n: u16) -> Option<ShardInfo> {
    Some(ShardInfo { shard: s, nr_shards: n })
}

#[test]
fn backoff_doubles_up_to_cap_and_resets() {
    let cfg = backoff();
    let mut b = Backoff::new(cfg);
    let delays: Vec<u64> = (0..6).map(|_| b.next(cfg)).collect();
    assert_eq!(delays, vec![100, 200, 400, 800, 1000, 1000]);
    b.reset(cfg);
    assert_eq!(b.delay_ms, 100);
}

#[test]
fn jitter_stays_in_upper_half() {
    assert_eq!(jittered(1000, 0), 500);
    assert_eq!(jittered(1000, 500), 1000);
    assert_eq!(jittered(1000, 501), 500);
    assert_eq!(jittered(1000, 123), 623);
    assert_eq!(jittered(0, 77), 0);
    assert_eq!(jittered(u64::MAX, u64::MAX), u64::MAX / 2 + u64::MAX % (u64::MAX / 2 + 2));
}

#[test]
fn per_shard_pool_starts_with_one_provisional_slot() {
    let p = per_shard();
    assert_eq!(p.slot_count(), 1);
    assert_eq!(p.shard_count(), None);
    assert_eq!(p.get_connection(Some(0)), Err(PoolError::NoConnections));
    assert_eq!(p.health(), PoolHealth { healthy: 0, total: 1 });
    assert_eq!(p.slots_to_fill(), vec![0]);
}

#[test]
fn pool_converges_to_shard_count_and_rebuilds_one_slot() {
    let mut p = per_shard();
    assert_eq!(p.install(0, 11, shard(1, 4), 5), Some(1));
    assert_eq!(p.slot_count(), 4);
    assert_eq!(p.shard_count(), Some(4));
    assert_eq!(p.slots_to_fill(), vec![0, 2, 3]);
    assert_eq!(p.install(0, 10, shard(0, 4), 6), Some(0));
    assert_eq!(p.install(2, 12, shard(2, 4), 7), Some(2));
    assert_eq!(p.install(3, 13, shard(3, 4), 8), Some(3));
    assert_eq!(p.health(), PoolHealth { healthy: 4, total: 4 });
    for s in 0..4u16 {
        let r = p.get_connection(Some(s)).unwrap();
        assert_eq!(r.slot, s as usize);
        assert!(r.shard_local);
        assert_eq!(r.connection.shard_info, shard(s, 4));
    }

    // The connection of slot 2 dies: the others keep serving.
    assert_eq!(p.connection_broken(2, 12), Some(100));
    assert_eq!(p.health(), PoolHealth { healthy: 3, total: 4 });
    for s in [0u16, 1, 3] {
        let r = p.get_connection(Some(s)).unwrap();
        assert_eq!(r.slot, s as usize);
        assert!(r.shard_local);
    }
    let r = p.get_connection(Some(2)).unwrap();
    assert!(!r.shard_local);
    assert_eq!(r.slot, 0);
    assert_eq!(p.slots_to_fill(), vec![2]);

    // Reconnection backs off, then succeeds and resets the backoff.
    assert_eq!(p.reconnect_failed(2), 200);
    assert_eq!(p.reconnect_failed(2), 400);
    assert_eq!(p.slot(2).backoff.delay_ms, 800);
    assert_eq!(p.install(2, 22, shard(2, 4), 50), Some(2));
    assert_eq!(p.slot(2).backoff.delay_ms, 100);
    assert_eq!(p.slot(2).last_good_ms, Some(50));
    assert_eq!(p.slot(1).backoff.delay_ms, 100);
    let r = p.get_connection(Some(2)).unwrap();
    assert!(r.shard_local);
    assert_eq!(r.connection.handle, 22);
    assert_eq!(p.slot_count(), 4);
}

#[test]
fn known_shard_count_never_changes() {
    let mut p = per_shard();
    assert_eq!(p.install(0, 1, shard(0, 4), 0), Some(0));
    assert_eq!(p.install(0, 2, shard(1, 8), 0), None);
    assert_eq!(p.install(0, 3, None, 0), None);
    assert_eq!(p.install(0, 4, shard(0, 4), 0), None);
    assert_eq!(p.shard_count(), Some(4));
    assert_eq!(p.slot_count(), 4);
}

#[test]
fn invalid_shard_info_is_refused() {
    let mut p = per_shard();
    assert_eq!(p.install(0, 1, shard(4, 4), 0), None);
    assert_eq!(p.install(0, 1, shard(0, 0), 0), None);
    assert_eq!(p.slot_count(), 1);
}

#[test]
fn non_shard_aware_node_keeps_one_slot() {
    let mut p = per_shard();
    assert_eq!(p.install(0, 1, None, 0), Some(0));
    assert_eq!(p.slot_count(), 1);
    assert_eq!(p.shard_count(), None);
    let r = p.get_connection(Some(3)).unwrap();
    assert_eq!(r.slot, 0);
    assert!(!r.shard_local);
    assert_eq!(p.get_connection(None).unwrap().connection, Connection { handle: 1, shard_info: None });
}

#[test]
fn stale_break_report_is_ignored() {
    let mut p = per_shard();
    assert_eq!(p.install(0, 7, None, 0), Some(0));
    assert_eq!(p.connection_broken(0, 8), None);
    assert_eq!(p.connection_broken(5, 7), None);
    assert_eq!(p.health().healthy, 1);
}

#[test]
fn fixed_size_pool() {
    let mut p = NodeConnectionPool::new(PoolConfig { pool_size: PoolSize::PerHost(3), backoff: backoff() });
    assert_eq!(p.slot_count(), 3);
    assert_eq!(p.install(1, 5, shard(2, 8), 0), Some(1));
    assert_eq!(p.install(1, 6, shard(3, 8), 0), None);
    assert_eq!(p.install(3, 6, None, 0), None);
    assert_eq!(p.shard_count(), None);
    let r = p.get_connection(Some(2)).unwrap();
    assert_eq!(r.slot, 1);
    assert!(r.shard_local);
    let r = p.get_connection(Some(5)).unwrap();
    assert!(!r.shard_local);
    assert_eq!(p.slots_to_fill(), vec![0, 2]);
}

#[test]
fn closing_returns_connections_and_refuses_requests() {
    let mut p = per_shard();
    p.install(0, 1, shard(1, 2), 0);
    p.install(0, 2, shard(0, 2), 0);
    let closed = p.close();
    assert_eq!(closed.iter().map(|c| c.handle).collect::<Vec<_>>(), vec![2, 1]);
    assert!(p.is_closed());
    assert_eq!(p.get_connection(Some(0)), Err(PoolError::ConnectionClosing));
    assert_eq!(p.install(0, 3, shard(0, 2), 0), None);
    assert!(p.slots_to_fill().is_empty());
    assert_eq!(p.health(), PoolHealth { healthy: 0, total: 2 });
    assert_eq!(p.config().pool_size, PoolSize::PerShard);
}
