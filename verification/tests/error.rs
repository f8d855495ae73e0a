use q_distributed_db_client::error::DatabaseError;

#[test]
fn test_connection_timeout_display() {
    let err = DatabaseError::ConnectionTimeout {
        host: "localhost:7000".to_string(),
        timeout_ms: 5000,
    };
    assert_eq!(
        err.to_string(),
        "Connection timeout to localhost:7000 after 5000ms"
    );
}

#[test]
fn test_connection_refused_display() {
    let err = DatabaseError::ConnectionRefused {
        host: "node1:7000".to_string(),
    };
    assert_eq!(err.to_string(), "Connection refused by node1:7000");
}

#[test]
fn test_connection_lost_display() {
    let err = DatabaseError::ConnectionLost { node_id: 42 };
    assert_eq!(err.to_string(), "Connection lost to node 42");
}

#[test]
fn test_authentication_failed_display() {
    let err = DatabaseError::AuthenticationFailed {
        reason: "Invalid token signature".to_string(),
    };
    assert_eq!(
        err.to_string(),
        "Authentication failed: Invalid token signature"
    );
}

#[test]
fn test_token_expired_display() {
    let err = DatabaseError::TokenExpired {
        expired_at: 1704067200000,
    };
    assert_eq!(err.to_string(), "Token expired at 1704067200000");
}

#[test]
fn test_invalid_credentials_display() {
    let err = DatabaseError::InvalidCredentials;
    assert_eq!(err.to_string(), "Invalid credentials");
}

#[test]
fn test_syntax_error_display() {
    let err = DatabaseError::SyntaxError {
        sql: "SELECT * FORM users".to_string(),
        position: 9,
        message: "Expected FROM, got FORM".to_string(),
    };
    let display = err.to_string();
    assert!(display.contains("Syntax error in SQL at position 9"));
    assert!(display.contains("Expected FROM, got FORM"));
    assert!(display.contains("SELECT * FORM users"));
}

#[test]
fn test_table_not_found_display() {
    let err = DatabaseError::TableNotFound {
        table_name: "users".to_string(),
    };
    assert_eq!(err.to_string(), "Table not found: users");
}

#[test]
fn test_column_not_found_display() {
    let err = DatabaseError::ColumnNotFound {
        column_name: "email".to_string(),
    };
    assert_eq!(err.to_string(), "Column not found: email");
}

#[test]
fn test_constraint_violation_display() {
    let err = DatabaseError::ConstraintViolation {
        constraint: "unique_email".to_string(),
        details: "Duplicate email address".to_string(),
    };
    assert_eq!(
        err.to_string(),
        "Constraint violation: unique_email - Duplicate email address"
    );
}

#[test]
fn test_transaction_aborted_display() {
    let err = DatabaseError::TransactionAborted {
        transaction_id: 123,
        reason: "Conflict detected".to_string(),
    };
    assert_eq!(
        err.to_string(),
        "Transaction 123 aborted: Conflict detected"
    );
}

#[test]
fn test_deadlock_detected_display() {
    let err = DatabaseError::DeadlockDetected {
        transaction_id: 456,
    };
    assert_eq!(err.to_string(), "Deadlock detected in transaction 456");
}

#[test]
fn test_isolation_violation_display() {
    let err = DatabaseError::IsolationViolation {
        details: "Read uncommitted data".to_string(),
    };
    assert_eq!(err.to_string(), "Isolation violation: Read uncommitted data");
}

#[test]
fn test_serialization_error_display() {
    let err = DatabaseError::SerializationError {
        message: "Failed to encode message".to_string(),
    };
    assert_eq!(err.to_string(), "Serialization error: Failed to encode message");
}

#[test]
fn test_checksum_mismatch_display() {
    let err = DatabaseError::ChecksumMismatch {
        expected: 0x12345678,
        actual: 0x87654321,
    };
    assert_eq!(
        err.to_string(),
        "Checksum mismatch: expected 0x12345678, got 0x87654321"
    );
}

#[test]
fn test_message_too_large_display() {
    let err = DatabaseError::MessageTooLarge {
        size: 2_000_000,
        max_size: 1_048_576,
    };
    assert_eq!(
        err.to_string(),
        "Message too large: 2000000 bytes (max: 1048576 bytes)"
    );
}

#[test]
fn test_protocol_version_mismatch_display() {
    let err = DatabaseError::ProtocolVersionMismatch {
        client_version: 2,
        server_version: 1,
    };
    assert_eq!(
        err.to_string(),
        "Protocol version mismatch: client v2, server v1"
    );
}

#[test]
fn test_network_error_display() {
    let err = DatabaseError::NetworkError {
        details: "Connection reset by peer".to_string(),
    };
    assert_eq!(err.to_string(), "Network error: Connection reset by peer");
}

#[test]
fn test_timeout_error_display() {
    let err = DatabaseError::TimeoutError {
        operation: "query".to_string(),
        timeout_ms: 5000,
    };
    assert_eq!(err.to_string(), "Operation 'query' timed out after 5000ms");
}

#[test]
fn test_internal_error_display() {
    let err = DatabaseError::InternalError {
        component: "ConnectionPool".to_string(),
        details: "Unexpected state".to_string(),
    };
    assert_eq!(
        err.to_string(),
        "Internal error in ConnectionPool: Unexpected state"
    );
}

#[test]
fn test_is_retryable() {
    // Retryable errors
    assert!(DatabaseError::ConnectionTimeout {
        host: "localhost:7000".to_string(),
        timeout_ms: 5000,
    }
    .is_retryable());

    assert!(DatabaseError::ConnectionLost { node_id: 1 }.is_retryable());

    assert!(DatabaseError::NetworkError {
        details: "Connection reset".to_string(),
    }
    .is_retryable());

    assert!(DatabaseError::TimeoutError {
        operation: "query".to_string(),
        timeout_ms: 5000,
    }
    .is_retryable());

    // Non-retryable errors
    assert!(!DatabaseError::InvalidCredentials.is_retryable());
    assert!(!DatabaseError::SyntaxError {
        sql: "BAD SQL".to_string(),
        position: 0,
        message: "Invalid".to_string(),
    }
    .is_retryable());
    assert!(!DatabaseError::TableNotFound {
        table_name: "users".to_string(),
    }
    .is_retryable());
}

#[test]
fn test_is_connection_error() {
    // Connection errors
    assert!(DatabaseError::ConnectionTimeout {
        host: "localhost:7000".to_string(),
        timeout_ms: 5000,
    }
    .is_connection_error());

    assert!(DatabaseError::ConnectionRefused {
        host: "localhost:7000".to_string(),
    }
    .is_connection_error());

    assert!(DatabaseError::ConnectionLost { node_id: 1 }.is_connection_error());

    // Non-connection errors
    assert!(!DatabaseError::InvalidCredentials.is_connection_error());
    assert!(!DatabaseError::SyntaxError {
        sql: "BAD SQL".to_string(),
        position: 0,
        message: "Invalid".to_string(),
    }
    .is_connection_error());
}

#[test]
fn test_is_auth_error() {
    // Auth errors
    assert!(DatabaseError::InvalidCredentials.is_auth_error());
    assert!(DatabaseError::AuthenticationFailed {
        reason: "Bad token".to_string(),
    }
    .is_auth_error());
    assert!(DatabaseError::TokenExpired {
        expired_at: 1234567890,
    }
    .is_auth_error());

    // Non-auth errors
    assert!(!DatabaseError::ConnectionTimeout {
        host: "localhost:7000".to_string(),
        timeout_ms: 5000,
    }
    .is_auth_error());
    assert!(!DatabaseError::SyntaxError {
        sql: "BAD SQL".to_string(),
        position: 0,
        message: "Invalid".to_string(),
    }
    .is_auth_error());
}

#[test]
fn test_error_clone() {
    let err1 = DatabaseError::ConnectionTimeout {
        host: "localhost:7000".to_string(),
        timeout_ms: 5000,
    };
    let err2 = err1.clone();
    assert_eq!(err1.to_string(), err2.to_string());
}
