use q_distributed_db_client::client::{Client, ClusterHealth};
use q_distributed_db_client::connection::{Checkout, HealthProbe, NodeHealth};
use q_distributed_db_client::error::DatabaseError;
use q_distributed_db_client::types::ConnectionConfig;

#[test]
fn test_client_needs_password_or_certificate() {
    let config = ConnectionConfig::default();
    match Client::<u8>::connect(config) {
        Err(DatabaseError::AuthenticationFailed { reason }) => {
            assert_eq!(reason, "No password or certificate provided")
        }
        _ => panic!("expected an error"),
    }
}

#[test]
fn test_client_credentials_from_config() {
    let config = ConnectionConfig::default().with_credentials("admin", "secret");
    let credentials = Client::<u8>::credentials_of(&config).unwrap();
    assert_eq!(credentials.username, "admin");
    assert_eq!(credentials.password, Some("secret".to_string()));
    assert!(credentials.certificate.is_none());

    let mut config = ConnectionConfig::default();
    config.username = "svc".to_string();
    config.certificate = Some(vec![1, 2, 3]);
    let credentials = Client::<u8>::credentials_of(&config).unwrap();
    assert_eq!(credentials.username, "svc");
    assert!(credentials.password.is_none());
    assert_eq!(credentials.certificate.unwrap().data, vec![1, 2, 3]);
}

#[test]
fn test_client_lifecycle() {
    let config = ConnectionConfig::new(vec!["a:1".to_string(), "b:2".to_string()])
        .with_credentials("admin", "secret");
    let mut client: Client<u8> = Client::connect(config).unwrap();
    assert_eq!(client.config().hosts.len(), 2);
    assert!(client.auth_manager().get_token().is_none());
    let token = client.auth_manager().authenticate_at(0).unwrap();
    assert_eq!(token.expiration, 86_400_000);
    assert!(matches!(client.connection_manager().get_connection_at(0), Ok(Checkout::MustDial)));

    let health = client
        .health_check(&[
            HealthProbe { connected: true, ping_sent: true, checked_at: 1 },
            HealthProbe { connected: false, ping_sent: false, checked_at: 2 },
        ])
        .unwrap();
    assert_eq!(health.total_nodes, 2);
    assert_eq!(health.healthy_nodes, 1);
    assert_eq!(health.node_healths[1].consecutive_failures, 1);

    assert!(client.data().prepared_statement("SELECT 1").is_none());
    let _ = client.admin();
    assert!(client.disconnect().is_none());
    assert!(client.auth_manager().get_token().is_none());
    assert!(client.connection_manager().get_node_health().is_empty());
    // a second teardown completes too, and reports that no token was held
    assert!(matches!(client.disconnect(), Some(DatabaseError::AuthenticationFailed { .. })));
}

#[test]
fn test_cluster_health_counts_healthy_nodes() {
    let mut records = vec![NodeHealth::new_at(1, 0), NodeHealth::new_at(2, 0), NodeHealth::new_at(3, 0)];
    records[1].mark_unhealthy_at(5);
    let health = ClusterHealth::from_node_healths(records);
    assert_eq!(health.total_nodes, 3);
    assert_eq!(health.healthy_nodes, 2);
    assert_eq!(health.node_healths.len(), 3);
    let empty = ClusterHealth::from_node_healths(vec![]);
    assert_eq!((empty.total_nodes, empty.healthy_nodes), (0, 0));
}

#[test]
fn test_node_health_counter_saturates() {
    let mut record = NodeHealth::new_at(1, 0);
    record.consecutive_failures = u32::MAX - 1;
    record.mark_unhealthy_at(1);
    assert_eq!(record.consecutive_failures, u32::MAX);
    record.mark_unhealthy_at(2);
    assert_eq!(record.consecutive_failures, u32::MAX);
    assert_eq!(record.last_check, 2);
}
