use q_distributed_db_client::admin_client::{
    AdminClient, AdminRequest, AdminResponse, Request, Response,
};
use q_distributed_db_client::error::DatabaseError;
use q_distributed_db_client::transaction::Exchange;
use q_distributed_db_client::types::{
    ClusterNodeInfo, NodeRole, NodeStatus, Permission, Role, UserUpdate,
};

type Reply = Response<f64, f64, String>;

fn reply(response: AdminResponse<f64, f64, String>) -> Exchange<Reply> {
    Exchange::Reply(Response::Admin(response))
}

fn assert_unexpected<T: std::fmt::Debug>(result: Result<T, DatabaseError>) {
    match result {
        Err(DatabaseError::InternalError { component, details }) => {
            assert_eq!(component, "AdminClient");
            assert_eq!(details, "Unexpected response type");
        }
        other => panic!("unexpected: {:?}", other),
    }
}

#[test]
fn test_admin_requests() {
    let _ = AdminClient::new();
    assert!(matches!(AdminClient::list_nodes(), Request::Admin(AdminRequest::ListNodes)));
    assert!(matches!(
        AdminClient::get_node_health(4),
        Request::Admin(AdminRequest::GetNodeHealth { node_id: 4 })
    ));
    assert!(matches!(
        AdminClient::remove_node(5),
        Request::Admin(AdminRequest::RemoveNode { node_id: 5 })
    ));
    assert!(matches!(
        AdminClient::rebalance_partitions(),
        Request::Admin(AdminRequest::RebalancePartitions)
    ));
    assert!(matches!(
        AdminClient::get_cluster_metrics(),
        Request::Admin(AdminRequest::GetClusterMetrics)
    ));
    assert!(matches!(AdminClient::list_users(), Request::Admin(AdminRequest::ListUsers)));
    assert!(matches!(
        AdminClient::delete_user(6),
        Request::Admin(AdminRequest::DeleteUser { user_id: 6 })
    ));
    assert!(matches!(
        AdminClient::grant_permission(7, Permission::Write),
        Request::Admin(AdminRequest::GrantPermission { user_id: 7, permission: Permission::Write })
    ));
    assert!(matches!(
        AdminClient::revoke_permission(8, Permission::Read),
        Request::Admin(AdminRequest::RevokePermission { user_id: 8, permission: Permission::Read })
    ));
    match AdminClient::update_user(9, UserUpdate { password: None, roles: Some(vec![Role::Admin]) })
    {
        Request::Admin(AdminRequest::UpdateUser { user_id, update }) => {
            assert_eq!(user_id, 9);
            assert_eq!(update.roles, Some(vec![Role::Admin]));
        }
        other => panic!("unexpected: {:?}", other),
    }
    match AdminClient::create_user("dev", "pw", &[Role::User, Role::ReadOnly]) {
        Request::Admin(AdminRequest::CreateUser { username, password, roles }) => {
            assert_eq!(username, "dev");
            assert_eq!(password, "pw");
            assert_eq!(roles, vec![Role::User, Role::ReadOnly]);
        }
        other => panic!("unexpected: {:?}", other),
    }
}

#[test]
fn test_add_node_parses_the_address() {
    match AdminClient::add_node("node1.example.com:8080").unwrap() {
        Request::Admin(AdminRequest::AddNode { host, port }) => {
            assert_eq!(host, "node1.example.com");
            assert_eq!(port, 8080);
        }
        other => panic!("unexpected: {:?}", other),
    }
    assert!(AdminClient::add_node("localhost").is_err());
    assert!(AdminClient::add_node("localhost:99999").is_err());
}

#[test]
fn test_admin_replies() {
    let nodes = vec![ClusterNodeInfo {
        node_id: 1,
        hostname: "a".to_string(),
        port: 1,
        status: NodeStatus::Healthy,
        role: NodeRole::Primary,
    }];
    let listed = AdminClient::list_nodes_finished(reply(AdminResponse::NodeList(nodes))).unwrap();
    assert_eq!(listed.len(), 1);
    assert_eq!(listed[0].hostname, "a");
    assert_eq!(
        AdminClient::get_node_health_finished(reply(AdminResponse::NodeHealth(0.5))).unwrap(),
        0.5
    );
    assert_eq!(AdminClient::add_node_finished(reply(AdminResponse::NodeAdded(3))).unwrap(), 3);
    assert!(AdminClient::remove_node_finished(reply(AdminResponse::NodeRemoved)).is_ok());
    assert!(AdminClient::rebalance_partitions_finished(reply(AdminResponse::PartitionsRebalanced))
        .is_ok());
    assert_eq!(
        AdminClient::get_cluster_metrics_finished(reply(AdminResponse::ClusterMetrics(1.5)))
            .unwrap(),
        1.5
    );
    assert_eq!(AdminClient::create_user_finished(reply(AdminResponse::UserCreated(8))).unwrap(), 8);
    assert_eq!(
        AdminClient::list_users_finished(reply(AdminResponse::UserList(vec!["u".to_string()])))
            .unwrap(),
        vec!["u".to_string()]
    );
    assert!(AdminClient::update_user_finished(reply(AdminResponse::UserUpdated)).is_ok());
    assert!(AdminClient::delete_user_finished(reply(AdminResponse::UserDeleted)).is_ok());
    assert!(AdminClient::grant_permission_finished(reply(AdminResponse::PermissionGranted)).is_ok());
    assert!(AdminClient::revoke_permission_finished(reply(AdminResponse::PermissionRevoked)).is_ok());
}

#[test]
fn test_admin_replies_of_another_kind_are_refused() {
    assert_unexpected(AdminClient::list_nodes_finished(reply(AdminResponse::NodeRemoved)));
    assert_unexpected(AdminClient::get_node_health_finished(reply(AdminResponse::NodeAdded(1))));
    assert_unexpected(AdminClient::add_node_finished(reply(AdminResponse::UserCreated(1))));
    assert_unexpected(AdminClient::remove_node_finished(reply(AdminResponse::UserDeleted)));
    assert_unexpected(AdminClient::rebalance_partitions_finished(reply(AdminResponse::NodeRemoved)));
    assert_unexpected(AdminClient::get_cluster_metrics_finished(reply(
        AdminResponse::NodeHealth(1.0),
    )));
    assert_unexpected(AdminClient::create_user_finished(reply(AdminResponse::NodeAdded(1))));
    assert_unexpected(AdminClient::list_users_finished(reply(AdminResponse::NodeList(vec![]))));
    assert_unexpected(AdminClient::update_user_finished(reply(AdminResponse::UserDeleted)));
    assert_unexpected(AdminClient::delete_user_finished(reply(AdminResponse::UserUpdated)));
    assert_unexpected(AdminClient::grant_permission_finished(reply(
        AdminResponse::PermissionRevoked,
    )));
    assert_unexpected(AdminClient::revoke_permission_finished(reply(
        AdminResponse::PermissionGranted,
    )));
}

#[test]
fn test_admin_errors() {
    match AdminClient::list_nodes_finished::<f64, f64, String>(Exchange::Reply(Response::Error(
        "Node not found: 9".to_string(),
    ))) {
        Err(DatabaseError::InternalError { component, details }) => {
            assert_eq!(component, "AdminClient");
            assert_eq!(details, "Node not found: 9");
        }
        other => panic!("unexpected: {:?}", other),
    }
    match AdminClient::delete_user_finished::<f64, f64, String>(Exchange::Undecodable(
        "eof".to_string(),
    )) {
        Err(DatabaseError::SerializationError { message }) => {
            assert_eq!(message, "Failed to deserialize response: eof")
        }
        other => panic!("unexpected: {:?}", other),
    }
    assert!(matches!(
        AdminClient::add_node_finished::<f64, f64, String>(Exchange::Failed(
            DatabaseError::TimeoutError { operation: "send_request".to_string(), timeout_ms: 5000 }
        )),
        Err(DatabaseError::TimeoutError { timeout_ms: 5000, .. })
    ));
}
