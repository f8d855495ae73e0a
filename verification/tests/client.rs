use q_distributed_db_client::client::ClusterHealth;
use q_distributed_db_client::connection::NodeHealth;

#[test]
fn test_cluster_health_creation() {
    let node_health = NodeHealth::new(1);
    let cluster_health = ClusterHealth {
        total_nodes: 3,
        healthy_nodes: 2,
        node_healths: vec![node_health],
    };

    assert_eq!(cluster_health.total_nodes, 3);
    assert_eq!(cluster_health.healthy_nodes, 2);
    assert_eq!(cluster_health.node_healths.len(), 1);
}

#[test]
fn test_cluster_health_all_healthy() {
    let node1 = NodeHealth::new(1);
    let node2 = NodeHealth::new(2);
    let node3 = NodeHealth::new(3);

    let cluster_health = ClusterHealth {
        total_nodes: 3,
        healthy_nodes: 3,
        node_healths: vec![node1, node2, node3],
    };

    assert_eq!(cluster_health.total_nodes, cluster_health.healthy_nodes);
}

#[test]
fn test_cluster_health_partial_healthy() {
    let mut node1 = NodeHealth::new(1);
    node1.mark_healthy();

    let mut node2 = NodeHealth::new(2);
    node2.mark_unhealthy();

    let cluster_health = ClusterHealth {
        total_nodes: 2,
        healthy_nodes: 1,
        node_healths: vec![node1, node2],
    };

    assert_eq!(cluster_health.total_nodes, 2);
    assert_eq!(cluster_health.healthy_nodes, 1);
    assert!(cluster_health.node_healths[0].is_healthy);
    assert!(!cluster_health.node_healths[1].is_healthy);
}
