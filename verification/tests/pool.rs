use q_distributed_db_client::connection::{
    Checkout, Connection, ConnectionManager, ConnectionPool, DialOutcome, DialStep, HealthProbe,
    PooledConnection,
};
use q_distributed_db_client::error::DatabaseError;
use q_distributed_db_client::retry::RetryStep;
use q_distributed_db_client::types::{ConnectionConfig, PoolConfig, RetryConfig};

fn config(max_connections: u32) -> PoolConfig {
    PoolConfig {
        min_connections: 0,
        max_connections,
        connection_timeout_ms: 5000,
        idle_timeout_ms: 1_000,
        max_lifetime_ms: 10_000,
    }
}

fn hosts(names: &[&str]) -> Vec<String> {
    names.iter().map(|n| n.to_string()).collect()
}

/// Serves one request as a caller would: checkout, and a dial where ordered.
/// `reachable` tells for each host whether the dial succeeds; the session is
/// the host's position plus 100.
fn request(
    pool: &mut ConnectionPool<u32>,
    now: i64,
    reachable: &[bool],
) -> Result<PooledConnection<u32>, DatabaseError> {
    match pool.get_connection_at(now)? {
        Checkout::Ready(connection) => Ok(connection),
        Checkout::MustDial => {
            let mut step = pool.create_connection();
            loop {
                match step {
                    DialStep::Dial(target) => {
                        let outcome = if reachable[target.index] {
                            DialOutcome::Connected(target.index as u32 + 100)
                        } else {
                            DialOutcome::Refused
                        };
                        step = pool.dial_finished(target, outcome, now);
                    }
                    DialStep::Connected(connection) => return Ok(connection),
                    DialStep::Failed(error) => return Err(error),
                }
            }
        }
    }
}

fn assert_exhausted(error: DatabaseError, max: u32) {
    match error {
        DatabaseError::InternalError { component, details } => {
            assert_eq!(component, "ConnectionPool");
            assert_eq!(details, format!("Connection pool exhausted (max: {})", max));
        }
        other => panic!("unexpected: {:?}", other),
    }
}

#[test]
fn test_connection_pool_creation() {
    let hosts = vec!["localhost:7000".to_string()];
    let config = PoolConfig::default();
    let pool: ConnectionPool<u32> = ConnectionPool::new(hosts, config, 5000);

    assert_eq!(pool.total_connections(), 0);
}

#[test]
fn test_pool_exhausts_after_max_connections() {
    for max in 0..5u32 {
        let mut pool = ConnectionPool::new(hosts(&["a:1"]), config(max), 5000);
        let mut held = Vec::new();
        for _ in 0..max {
            held.push(request(&mut pool, 0, &[true]).unwrap());
        }
        assert_eq!(pool.total_connections(), max);
        assert_exhausted(request(&mut pool, 0, &[true]).err().unwrap(), max);
        assert_exhausted(request(&mut pool, 0, &[true]).err().unwrap(), max);
        assert_eq!(held.len() as u32, max);
    }
}

#[test]
fn test_pool_reuses_returned_connection_first_in_first_out() {
    let mut pool = ConnectionPool::new(hosts(&["a:1", "b:2"]), config(3), 5000);
    let first = request(&mut pool, 0, &[true, true]).unwrap();
    let second = request(&mut pool, 0, &[false, true]).unwrap();
    assert_eq!(first.node_id(), 1);
    assert_eq!(second.node_id(), 2);
    pool.return_connection_at(second, 10);
    pool.return_connection_at(first, 20);
    assert_eq!(pool.total_connections(), 2);
    let mut again = request(&mut pool, 30, &[false, false]).unwrap();
    assert_eq!(again.node_id(), 2);
    assert_eq!(*again.connection_mut().session_mut(), 101);
    let again = request(&mut pool, 30, &[false, false]).unwrap();
    assert_eq!(again.node_id(), 1);
    assert_eq!(pool.total_connections(), 2);
}

#[test]
fn test_pool_dials_hosts_in_order_and_returns_last_error() {
    let mut pool = ConnectionPool::new(hosts(&["a:1", "b:2", "c:3"]), config(3), 777);
    let connection = request(&mut pool, 0, &[false, false, true]).unwrap();
    assert_eq!(connection.node_id(), 3);

    // every host fails: the error of the last attempt comes back
    let mut step = pool.create_connection();
    let mut dialed = Vec::new();
    let error = loop {
        match step {
            DialStep::Dial(target) => {
                assert_eq!(target.timeout_ms, 777);
                assert_eq!(target.node_id, target.index as u64 + 1);
                dialed.push(target.host.clone());
                let outcome: DialOutcome<u32> = match target.index {
                    0 => DialOutcome::Refused,
                    1 => DialOutcome::Failed("unreachable".to_string()),
                    _ => DialOutcome::TimedOut,
                };
                step = pool.dial_finished(target, outcome, 0);
            }
            DialStep::Connected(_) => panic!("no host is reachable"),
            DialStep::Failed(error) => break error,
        }
    };
    assert_eq!(dialed, vec!["a:1", "b:2", "c:3"]);
    match error {
        DatabaseError::ConnectionTimeout { host, timeout_ms } => {
            assert_eq!(host, "c:3");
            assert_eq!(timeout_ms, 777);
        }
        other => panic!("unexpected: {:?}", other),
    }
    assert_eq!(pool.total_connections(), 1);
}

#[test]
fn test_pool_without_hosts() {
    let mut pool: ConnectionPool<u32> = ConnectionPool::new(vec![], config(3), 5000);
    match request(&mut pool, 0, &[]) {
        Err(DatabaseError::InternalError { component, details }) => {
            assert_eq!(component, "ConnectionPool");
            assert_eq!(details, "No hosts configured");
        }
        _ => panic!("expected an error"),
    }
}

#[test]
fn test_pool_purges_stale_connections_on_checkout() {
    let mut pool = ConnectionPool::new(hosts(&["a:1"]), config(2), 5000);
    let first = request(&mut pool, 0, &[true]).unwrap();
    let second = request(&mut pool, 0, &[true]).unwrap();
    pool.return_connection_at(first, 100);
    pool.return_connection_at(second, 100);
    // idle for exactly the timeout: still good
    let reused = request(&mut pool, 1_000, &[false]).unwrap();
    pool.return_connection_at(reused, 1_000);
    // at 1_001 the one last used at 0 is stale by one millisecond, the one
    // just used is not
    let fresh = request(&mut pool, 1_001, &[false]).unwrap();
    assert_eq!(fresh.node_id(), 1);
    // the stale one is purged and counted no longer: its place is free
    assert_eq!(pool.total_connections(), 1);
    let dialed = request(&mut pool, 1_001, &[true]).unwrap();
    assert_eq!(pool.total_connections(), 2);
    assert_exhausted(request(&mut pool, 1_001, &[true]).err().unwrap(), 2);
    assert_eq!(dialed.node_id(), 1);
}

#[test]
fn test_stale_connections_do_not_exhaust_the_pool() {
    let mut pool = ConnectionPool::new(hosts(&["a:1"]), config(3), 5000);
    let held: Vec<_> = (0..3).map(|_| request(&mut pool, 0, &[true]).unwrap()).collect();
    for connection in held {
        pool.return_connection_at(connection, 0);
    }
    assert_eq!(pool.total_connections(), 3);
    // all three have outlived their lifetime: a request finds none, counts
    // none, and no host answers
    assert!(matches!(
        request(&mut pool, 20_000, &[false]),
        Err(DatabaseError::ConnectionRefused { .. })
    ));
    assert_eq!(pool.total_connections(), 0);
    // the pool has room for three new ones again
    let held: Vec<_> = (0..3).map(|_| request(&mut pool, 20_000, &[true]).unwrap()).collect();
    assert_eq!(held.len(), 3);
    assert_eq!(pool.total_connections(), 3);
    assert_exhausted(request(&mut pool, 20_000, &[true]).err().unwrap(), 3);
}

#[test]
fn test_count_is_available_plus_checked_out() {
    let mut pool = ConnectionPool::new(hosts(&["a:1"]), config(4), 5000);
    let first = request(&mut pool, 0, &[true]).unwrap();
    let second = request(&mut pool, 800, &[true]).unwrap();
    let third = request(&mut pool, 800, &[true]).unwrap();
    assert_eq!(pool.total_connections(), 3); // 0 available, 3 out
    pool.return_connection_at(first, 900);
    pool.return_connection_at(second, 900);
    assert_eq!(pool.total_connections(), 3); // 2 available, 1 out
    // at 1_500 the first is stale (unused since 0), the second is not
    let reused = request(&mut pool, 1_500, &[false]).unwrap();
    assert_eq!(pool.total_connections(), 2); // 0 available, 2 out
    pool.return_connection_at(reused, 1_500);
    pool.return_connection_at(third, 20_000); // beyond its lifetime
    assert_eq!(pool.total_connections(), 1); // 1 available, 0 out
}

#[test]
fn test_pool_discards_stale_connection_on_return() {
    let mut pool = ConnectionPool::new(hosts(&["a:1"]), config(1), 5000);
    let connection = request(&mut pool, 0, &[true]).unwrap();
    assert_eq!(pool.total_connections(), 1);
    // returned after its lifetime: dropped, and its place is free again
    pool.return_connection_at(connection, 10_001);
    assert_eq!(pool.total_connections(), 0);
    let connection = request(&mut pool, 10_001, &[true]).unwrap();
    assert_eq!(pool.total_connections(), 1);
    // returned within lifetime and idle time: kept
    pool.return_connection_at(connection, 10_500);
    assert_eq!(pool.total_connections(), 1);
    assert!(request(&mut pool, 10_600, &[false]).is_ok());
}

#[test]
fn test_pooled_connection_times() {
    let connection: Connection<u32> =
        Connection::connect("a:1", 4, 10, DialOutcome::Connected(1)).unwrap();
    let mut pooled = PooledConnection::new_at(connection, 1_000);
    assert!(!pooled.is_idle_at(500, 1_500));
    assert!(pooled.is_idle_at(500, 1_501));
    assert!(!pooled.is_expired_at(2_000, 3_000));
    assert!(pooled.is_expired_at(2_000, 3_001));
    pooled.touch_at(1_400);
    assert!(!pooled.is_idle_at(500, 1_900));
    assert!(pooled.is_expired_at(2_000, 3_001));
    // a clock that runs backwards makes nothing stale
    assert!(!pooled.is_idle_at(0, i64::MIN));
    assert!(pooled.is_idle_at(u64::MAX - 1, i64::MAX) == false);
    assert_eq!(pooled.node_id(), 4);
}

#[test]
fn test_pool_by_the_clock() {
    let mut pool = ConnectionPool::new(hosts(&["a:1"]), PoolConfig::default(), 5000);
    assert!(matches!(pool.get_connection(), Ok(Checkout::MustDial)));
    let step = pool.create_connection();
    let target = match step {
        DialStep::Dial(target) => target,
        _ => panic!("expected a target"),
    };
    let now = chrono::Utc::now().timestamp_millis();
    let connection = match pool.dial_finished(target, DialOutcome::Connected(5u32), now) {
        DialStep::Connected(connection) => connection,
        _ => panic!("expected a connection"),
    };
    pool.return_connection(connection);
    assert!(matches!(pool.get_connection(), Ok(Checkout::Ready(_))));
}

// ConnectionManager Tests
#[test]
fn test_connection_manager_creation() {
    let config = ConnectionConfig::default();
    let manager: ConnectionManager<u32> = ConnectionManager::new(config);

    let health = manager.get_node_health();
    assert!(health.is_empty());
}

#[test]
fn test_connection_manager_mark_unhealthy() {
    let config = ConnectionConfig::default();
    let mut manager: ConnectionManager<u32> = ConnectionManager::new(config);

    manager.mark_node_unhealthy(1);

    let health = manager.get_node_health();
    assert_eq!(health.len(), 1);
    assert!(!health.get(&1).unwrap().is_healthy);
}

#[test]
fn test_connection_manager_mark_healthy() {
    let config = ConnectionConfig::default();
    let mut manager: ConnectionManager<u32> = ConnectionManager::new(config);

    manager.mark_node_unhealthy(1);
    manager.mark_node_healthy(1);

    let health = manager.get_node_health();
    assert_eq!(health.len(), 1);
    assert!(health.get(&1).unwrap().is_healthy);
}

#[test]
fn test_connection_manager_disconnect() {
    let config = ConnectionConfig::default();
    let mut manager: ConnectionManager<u32> = ConnectionManager::new(config);

    manager.mark_node_healthy(1);
    manager.disconnect();

    let health = manager.get_node_health();
    assert!(health.is_empty());
}

#[test]
fn test_manager_counts_consecutive_failures() {
    let mut manager: ConnectionManager<u32> = ConnectionManager::new(ConnectionConfig::default());
    manager.mark_node_unhealthy_at(3, 10);
    manager.mark_node_unhealthy_at(3, 20);
    manager.mark_node_unhealthy_at(3, 30);
    let record = *manager.get_node_health().get(&3).unwrap();
    assert_eq!(record.node_id, 3);
    assert!(!record.is_healthy);
    assert_eq!(record.consecutive_failures, 3);
    assert_eq!(record.last_check, 30);
    manager.mark_node_healthy_at(3, 40);
    let record = *manager.get_node_health().get(&3).unwrap();
    assert!(record.is_healthy);
    assert_eq!(record.consecutive_failures, 0);
    assert_eq!(record.last_check, 40);
    // a node first seen healthy
    manager.mark_node_healthy_at(9, 50);
    let record = *manager.get_node_health().get(&9).unwrap();
    assert!(record.is_healthy);
    assert_eq!(record.consecutive_failures, 0);
}

#[test]
fn test_manager_health_check_records_every_probe() {
    let config =
        ConnectionConfig::new(vec!["a:1".to_string(), "b:2".to_string(), "c:3".to_string()]);
    let mut manager: ConnectionManager<u32> = ConnectionManager::new(config);
    let probes = vec![
        HealthProbe { connected: true, ping_sent: true, checked_at: 100 },
        HealthProbe { connected: true, ping_sent: false, checked_at: 200 },
        HealthProbe { connected: false, ping_sent: false, checked_at: 300 },
    ];
    let snapshot = manager.health_check_all_nodes(&probes).unwrap();
    assert_eq!(snapshot.len(), 3);
    assert_eq!(
        snapshot.iter().map(|h| (h.node_id, h.is_healthy)).collect::<Vec<_>>(),
        vec![(1, true), (2, false), (3, false)]
    );
    assert_eq!(
        snapshot.iter().map(|h| h.consecutive_failures).collect::<Vec<_>>(),
        vec![0, 1, 1]
    );
    assert_eq!(snapshot.iter().map(|h| h.last_check).collect::<Vec<_>>(), vec![100, 200, 300]);

    // a second round adds to the failures of the nodes that fail again
    let snapshot = manager.health_check_all_nodes(&probes).unwrap();
    assert_eq!(
        snapshot.iter().map(|h| h.consecutive_failures).collect::<Vec<_>>(),
        vec![0, 2, 2]
    );
    assert_eq!(manager.get_node_health().len(), 3);

    // fewer probes than hosts: the rest stay as they are
    let snapshot = manager.health_check_all_nodes(&probes[..1]).unwrap();
    assert_eq!(snapshot.len(), 1);
    assert_eq!(manager.get_node_health().get(&2).unwrap().consecutive_failures, 2);
}

#[test]
fn test_manager_pool_and_disconnect() {
    let config = ConnectionConfig::new(vec!["a:1".to_string()]).with_pool_config(config(1));
    let mut manager: ConnectionManager<u32> = ConnectionManager::new(config);
    assert!(matches!(manager.get_connection_at(0), Ok(Checkout::MustDial)));
    let target = match manager.create_connection() {
        DialStep::Dial(target) => target,
        _ => panic!("expected a target"),
    };
    let connection = match manager.dial_finished(target, DialOutcome::Connected(1u32), 0) {
        DialStep::Connected(connection) => connection,
        _ => panic!("expected a connection"),
    };
    assert!(manager.get_connection_at(0).is_err());
    manager.return_connection_at(connection, 5);
    manager.disconnect();
    // the pool is empty and counts nothing: a new connection may be dialed
    assert!(matches!(manager.get_connection_at(6), Ok(Checkout::MustDial)));
}

#[test]
fn test_manager_retry_uses_its_policy() {
    let config =
        ConnectionConfig::default().with_retry_config(RetryConfig::new(2, 7, 100, 3000));
    let manager: ConnectionManager<u32> = ConnectionManager::new(config);
    let mut state = manager.start_retry();
    let mut delays = Vec::new();
    let mut attempts = 0u64;
    let error = loop {
        attempts += 1;
        let outcome: Result<(), DatabaseError> =
            Err(DatabaseError::ConnectionLost { node_id: attempts });
        match manager.execute_with_retry(&mut state, outcome) {
            RetryStep::RetryAfter(delay) => delays.push(delay),
            RetryStep::Done(Err(error)) => break error,
            RetryStep::Done(Ok(())) => panic!("cannot succeed"),
        }
    };
    assert_eq!(attempts, 3);
    assert_eq!(delays, vec![7, 21]);
    assert!(matches!(error, DatabaseError::ConnectionLost { node_id: 3 }));
}
