use q_distributed_db_client::error::DatabaseError;
use q_distributed_db_client::text::{push_decimal, push_hex, push_signed_decimal};

#[test]
fn test_push_decimal_matches_display() {
    for n in [0u64, 1, 9, 10, 11, 99, 100, 12345, 1_000_000, u64::MAX] {
        let mut out = String::from("n=");
        push_decimal(&mut out, n);
        assert_eq!(out, format!("n={}", n));
    }
}

#[test]
fn test_push_signed_decimal_matches_display() {
    for i in [0i64, 1, -1, 42, -42, i64::MAX, i64::MIN, i64::MIN + 1] {
        let mut out = String::new();
        push_signed_decimal(&mut out, i);
        assert_eq!(out, format!("{}", i));
    }
}

#[test]
fn test_push_hex_matches_alternate_lower_hex() {
    for n in [0u32, 1, 9, 10, 15, 16, 255, 0x12345678, 0xdeadbeef, u32::MAX] {
        let mut out = String::new();
        push_hex(&mut out, n);
        assert_eq!(out, format!("{:#x}", n));
    }
}

#[test]
fn test_admin_error_display() {
    assert_eq!(DatabaseError::NodeNotFound { node_id: 7 }.to_string(), "Node not found: 7");
    assert_eq!(
        DatabaseError::NodeAlreadyExists { hostname: "n1".to_string() }.to_string(),
        "Node already exists: n1"
    );
    assert_eq!(
        DatabaseError::InsufficientPermissions { required: "Manage\"Users".to_string() }
            .to_string(),
        "Insufficient permissions: \"Manage\\\"Users\" required"
    );
    assert_eq!(DatabaseError::UserNotFound { user_id: 0 }.to_string(), "User not found: 0");
    assert_eq!(
        DatabaseError::UserAlreadyExists { username: "bob".to_string() }.to_string(),
        "User already exists: bob"
    );
    assert_eq!(
        DatabaseError::InvalidRole { role: "root".to_string() }.to_string(),
        "Invalid role: root"
    );
    assert_eq!(
        DatabaseError::CannotRemoveLastAdmin.to_string(),
        "Cannot remove the last admin user"
    );
    assert_eq!(
        DatabaseError::TokenExpired { expired_at: -5 }.to_string(),
        "Token expired at -5"
    );
}

#[test]
fn test_error_classes_are_disjoint_where_expected() {
    let refused = DatabaseError::ConnectionRefused { host: "h".to_string() };
    assert!(refused.is_connection_error());
    assert!(!refused.is_retryable());
    assert!(!refused.is_auth_error());
    let network = DatabaseError::NetworkError { details: "d".to_string() };
    assert!(network.is_retryable());
    assert!(!network.is_connection_error());
    let protocol = DatabaseError::ChecksumMismatch { expected: 1, actual: 2 };
    assert!(!protocol.is_retryable());
    let exhausted = DatabaseError::InternalError {
        component: "ConnectionPool".to_string(),
        details: "x".to_string(),
    };
    assert!(!exhausted.is_retryable());
    assert!(!DatabaseError::TransactionAborted { transaction_id: 1, reason: "r".to_string() }
        .is_retryable());
}
