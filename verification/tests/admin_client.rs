use q_distributed_db_client::admin_client::parse_host_port;
use q_distributed_db_client::types::{ClusterNodeInfo, NodeRole, NodeStatus, Role, UserUpdate};

#[test]
fn test_parse_host_port_valid() {
    let result = parse_host_port("localhost:7000");
    assert!(result.is_ok());
    let (hostname, port) = result.unwrap();
    assert_eq!(hostname, "localhost");
    assert_eq!(port, 7000);
}

#[test]
fn test_parse_host_port_with_domain() {
    let result = parse_host_port("node1.example.com:8080");
    assert!(result.is_ok());
    let (hostname, port) = result.unwrap();
    assert_eq!(hostname, "node1.example.com");
    assert_eq!(port, 8080);
}

#[test]
fn test_parse_host_port_invalid_format() {
    let result = parse_host_port("localhost");
    assert!(result.is_err());
}

#[test]
fn test_parse_host_port_invalid_port() {
    let result = parse_host_port("localhost:invalid");
    assert!(result.is_err());
}

#[test]
fn test_parse_host_port_empty() {
    let result = parse_host_port("");
    assert!(result.is_err());
}

#[test]
fn test_parse_host_port_port_out_of_range() {
    let result = parse_host_port("localhost:99999");
    assert!(result.is_err());
}

#[test]
fn test_cluster_node_info_creation() {
    let node = ClusterNodeInfo {
        node_id: 1,
        hostname: "node1.example.com".to_string(),
        port: 7000,
        status: NodeStatus::Healthy,
        role: NodeRole::Primary,
    };

    assert_eq!(node.node_id, 1);
    assert_eq!(node.hostname, "node1.example.com");
    assert_eq!(node.port, 7000);
    assert_eq!(node.status, NodeStatus::Healthy);
    assert_eq!(node.role, NodeRole::Primary);
}

#[test]
fn test_user_update_creation() {
    let update = UserUpdate {
        password: Some("new_password".to_string()),
        roles: Some(vec![Role::User]),
    };

    assert!(update.password.is_some());
    assert!(update.roles.is_some());
    assert_eq!(update.password.unwrap(), "new_password");
}

#[test]
fn test_user_update_partial() {
    let update = UserUpdate {
        password: Some("new_password".to_string()),
        roles: None,
    };

    assert!(update.password.is_some());
    assert!(update.roles.is_none());
}

#[test]
fn test_node_status_variants() {
    let statuses = vec![
        NodeStatus::Healthy,
        NodeStatus::Degraded,
        NodeStatus::Unhealthy,
        NodeStatus::Offline,
    ];

    assert_eq!(statuses.len(), 4);
    assert_eq!(statuses[0], NodeStatus::Healthy);
    assert_ne!(statuses[0], NodeStatus::Degraded);
}

#[test]
fn test_node_role_variants() {
    let roles = vec![NodeRole::Primary, NodeRole::Replica, NodeRole::Coordinator];

    assert_eq!(roles.len(), 3);
    assert_eq!(roles[0], NodeRole::Primary);
    assert_ne!(roles[0], NodeRole::Replica);
}
