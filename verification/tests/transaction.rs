use q_distributed_db_client::auth::AuthToken;
use q_distributed_db_client::connection::{Connection, DialOutcome, PooledConnection};
use q_distributed_db_client::data_client::{DataClient, ExecuteResponse, QueryResponse};
use q_distributed_db_client::error::DatabaseError;
use q_distributed_db_client::protocol::MessageType;
use q_distributed_db_client::result::{ColumnMetadata, DataType};
use q_distributed_db_client::transaction::{
    BeginStep, Exchange, IsolationLevel, OperationStep, RollbackStep, Teardown, Transaction,
    TransactionRequest, TransactionResponse,
};
use q_distributed_db_client::types::Role;

fn pooled() -> PooledConnection<u32> {
    let connection = Connection::connect("node:1", 3, 100, DialOutcome::Connected(11)).unwrap();
    PooledConnection::new_at(connection, 0)
}

fn token() -> AuthToken {
    AuthToken::new(1, vec![Role::User], 10_000, vec![7; 32])
}

fn active(id: u64) -> Transaction<u32> {
    Transaction::new(pooled(), token(), id)
}

fn server_error(message: &str) -> Exchange<TransactionResponse> {
    Exchange::Reply(TransactionResponse::Error { message: message.to_string() })
}

fn assert_not_active(error: DatabaseError) {
    match error {
        DatabaseError::InternalError { component, details } => {
            assert_eq!(component, "Transaction");
            assert_eq!(details, "Transaction has already been committed or rolled back");
        }
        other => panic!("unexpected: {:?}", other),
    }
}

#[test]
fn test_begin_request_takes_its_identifier_from_the_time() {
    assert_eq!(
        DataClient::begin_transaction(1_704_067_200_000),
        TransactionRequest::Begin {
            transaction_id: 1_704_067_200_000,
            isolation_level: IsolationLevel::ReadCommitted,
        }
    );
    assert_eq!(
        DataClient::begin_transaction(-1),
        TransactionRequest::Begin {
            transaction_id: u64::MAX,
            isolation_level: IsolationLevel::ReadCommitted,
        }
    );
}

#[test]
fn test_begin_finished() {
    match DataClient::begin_transaction_finished(
        pooled(),
        token(),
        5,
        Exchange::Reply(TransactionResponse::BeginSuccess),
    ) {
        BeginStep::Started(transaction) => {
            assert_eq!(transaction.transaction_id(), 5);
            assert!(!transaction.is_resolved());
        }
        _ => panic!("expected a transaction"),
    }
    match DataClient::begin_transaction_finished(pooled(), token(), 5, server_error("busy")) {
        BeginStep::Refused { connection, error } => {
            assert_eq!(connection.node_id(), 3);
            match error {
                DatabaseError::InternalError { component, details } => {
                    assert_eq!(component, "DataClient");
                    assert_eq!(details, "Failed to begin transaction: busy");
                }
                other => panic!("unexpected: {:?}", other),
            }
        }
        _ => panic!("expected a refusal"),
    }
    match DataClient::begin_transaction_finished(
        pooled(),
        token(),
        5,
        Exchange::Reply(TransactionResponse::CommitSuccess),
    ) {
        BeginStep::Refused { error: DatabaseError::InternalError { details, .. }, .. } => {
            assert_eq!(details, "Unexpected response to begin transaction")
        }
        _ => panic!("expected a refusal"),
    }
    match DataClient::begin_transaction_finished(
        pooled(),
        token(),
        5,
        Exchange::Failed(DatabaseError::ConnectionLost { node_id: 3 }),
    ) {
        BeginStep::Failed(DatabaseError::ConnectionLost { node_id }) => assert_eq!(node_id, 3),
        _ => panic!("expected a failure"),
    }
    match DataClient::begin_transaction_finished(pooled(), token(), 5, Exchange::Undecodable("eof".to_string()))
    {
        BeginStep::Failed(DatabaseError::SerializationError { message }) => {
            assert_eq!(message, "Failed to deserialize transaction response: eof")
        }
        _ => panic!("expected a failure"),
    }
}

#[test]
fn test_requests_carry_transaction_and_token() {
    let transaction = active(77);
    let request = transaction.execute_with_params("UPDATE t SET a = ?", vec![1i64]).unwrap();
    assert_eq!(request.sql, "UPDATE t SET a = ?");
    assert_eq!(request.params, vec![1]);
    assert_eq!(request.transaction_id, Some(77));
    assert_eq!(request.auth_token, Some(vec![7; 32]));
    let request = transaction.query_with_params("SELECT 1", Vec::<i64>::new()).unwrap();
    assert_eq!(request.sql, "SELECT 1");
    assert!(request.params.is_empty());
    assert_eq!(request.transaction_id, Some(77));
    assert_eq!(request.auth_token, Some(vec![7; 32]));
    assert_eq!(
        transaction.commit().unwrap(),
        TransactionRequest::Commit { transaction_id: 77 }
    );
    let request = transaction.execute::<i64>("DELETE FROM t").unwrap();
    assert!(request.params.is_empty());
    assert_eq!(request.transaction_id, Some(77));
    let request = transaction.query::<i64>("SELECT * FROM t").unwrap();
    assert!(request.params.is_empty());
    assert!(!request.streaming);
    assert_eq!(request.auth_token, Some(vec![7; 32]));
}

#[test]
fn test_messages_use_the_dedicated_connection() {
    let mut transaction = active(77);
    let first = transaction.message(MessageType::Data, vec![1], 5);
    let second = transaction.message(MessageType::Transaction, vec![2], 6);
    assert_eq!((first.recipient, first.sequence_number, first.timestamp), (3, 0, 5));
    assert_eq!((second.recipient, second.sequence_number, second.timestamp), (3, 1, 6));
    assert_eq!(second.message_type, MessageType::Transaction);
    assert!(first.verify_checksum() && second.verify_checksum());
    assert_eq!(*transaction.connection_mut().connection_mut().session_mut(), 11);
}

#[test]
fn test_commit_success_resolves() {
    let mut transaction = active(1);
    match transaction.commit_finished(Exchange::Reply(TransactionResponse::CommitSuccess)) {
        OperationStep::Done(Ok(())) => {}
        _ => panic!("expected success"),
    }
    assert!(transaction.is_resolved());
    assert!(matches!(transaction.rollback(), RollbackStep::AlreadyResolved));
    assert_not_active(transaction.commit().unwrap_err());
    assert_not_active(transaction.check_active().unwrap_err());
    assert_not_active(transaction.execute_with_params("x", vec![0u8]).unwrap_err());
    assert_not_active(transaction.query_with_params("x", vec![0u8]).unwrap_err());
    assert!(matches!(transaction.teardown(), Teardown::Resolved(_)));
}

#[test]
fn test_commit_refused_by_server_orders_rollback() {
    let mut transaction = active(9);
    match transaction.commit_finished(server_error("conflict")) {
        OperationStep::RollBack {
            then_fail: DatabaseError::TransactionAborted { transaction_id, reason },
        } => {
            assert_eq!(transaction_id, 9);
            assert_eq!(reason, "conflict");
        }
        _ => panic!("expected a rollback"),
    }
    assert!(!transaction.is_resolved());
    assert!(matches!(
        transaction.rollback(),
        RollbackStep::Send(TransactionRequest::Rollback { transaction_id: 9 })
    ));
    assert!(transaction.rollback_finished(Exchange::Reply(TransactionResponse::RollbackSuccess)).is_ok());
    assert!(transaction.is_resolved());
}

#[test]
fn test_commit_transport_failure_and_odd_replies() {
    let mut transaction = active(9);
    match transaction.commit_finished(Exchange::Failed(DatabaseError::TimeoutError {
        operation: "send_request".to_string(),
        timeout_ms: 5000,
    })) {
        OperationStep::RollBack { then_fail: DatabaseError::TimeoutError { timeout_ms, .. } } => {
            assert_eq!(timeout_ms, 5000)
        }
        _ => panic!("expected a rollback"),
    }
    match transaction.commit_finished(Exchange::Reply(TransactionResponse::BeginSuccess)) {
        OperationStep::Done(Err(DatabaseError::InternalError { component, details })) => {
            assert_eq!(component, "Transaction");
            assert_eq!(details, "Unexpected response to commit");
        }
        _ => panic!("expected an error"),
    }
    match transaction.commit_finished(Exchange::Undecodable("bad tag".to_string())) {
        OperationStep::Done(Err(DatabaseError::SerializationError { message })) => {
            assert_eq!(message, "Failed to deserialize transaction response: bad tag")
        }
        _ => panic!("expected an error"),
    }
    assert!(!transaction.is_resolved());
}

#[test]
fn test_rollback_is_idempotent() {
    let mut transaction = active(4);
    assert!(matches!(
        transaction.rollback(),
        RollbackStep::Send(TransactionRequest::Rollback { transaction_id: 4 })
    ));
    transaction.rollback_finished(Exchange::Reply(TransactionResponse::RollbackSuccess)).unwrap();
    assert!(transaction.is_resolved());
    for _ in 0..3 {
        assert!(matches!(transaction.rollback(), RollbackStep::AlreadyResolved));
    }
}

#[test]
fn test_rollback_error_response_still_resolves() {
    let mut transaction = active(4);
    match transaction.rollback_finished(server_error("gone")) {
        Err(DatabaseError::TransactionAborted { transaction_id, reason }) => {
            assert_eq!(transaction_id, 4);
            assert_eq!(reason, "gone");
        }
        other => panic!("unexpected: {:?}", other),
    }
    assert!(transaction.is_resolved());
    assert!(matches!(transaction.rollback(), RollbackStep::AlreadyResolved));
}

#[test]
fn test_rollback_that_did_not_reach_the_server_leaves_transaction_active() {
    let mut transaction = active(4);
    assert!(matches!(
        transaction.rollback_finished(Exchange::Failed(DatabaseError::ConnectionLost {
            node_id: 3
        })),
        Err(DatabaseError::ConnectionLost { .. })
    ));
    assert!(!transaction.is_resolved());
    match transaction.rollback_finished(Exchange::Reply(TransactionResponse::CommitSuccess)) {
        Err(DatabaseError::InternalError { details, .. }) => {
            assert_eq!(details, "Unexpected response to rollback")
        }
        other => panic!("unexpected: {:?}", other),
    }
    assert!(!transaction.is_resolved());
    assert!(transaction.rollback_finished(Exchange::Undecodable("x".to_string())).is_err());
    assert!(!transaction.is_resolved());
    match transaction.teardown() {
        Teardown::Unresolved { connection, rollback } => {
            assert_eq!(connection.node_id(), 3);
            assert_eq!(rollback, TransactionRequest::Rollback { transaction_id: 4 });
        }
        Teardown::Resolved(_) => panic!("an active transaction is not resolved"),
    }
}

#[test]
fn test_constraint_violation_rolls_back_and_keeps_the_error() {
    // begin
    let mut transaction = match DataClient::begin_transaction_finished(
        pooled(),
        token(),
        21,
        Exchange::Reply(TransactionResponse::BeginSuccess),
    ) {
        BeginStep::Started(transaction) => transaction,
        _ => panic!("expected a transaction"),
    };
    // execute an update; the server reports a constraint violation
    transaction.execute_with_params("UPDATE users SET email = ?", vec!["a@b"]).unwrap();
    let reply = Exchange::Reply(ExecuteResponse {
        rows_affected: 0,
        last_insert_id: None,
        error: Some("Constraint violation: unique_email - Duplicate email address".to_string()),
    });
    let error = match transaction.execute_finished(reply) {
        OperationStep::RollBack { then_fail } => then_fail,
        OperationStep::Done(_) => panic!("expected a rollback"),
    };
    // the caller carries out the rollback that was ordered
    match transaction.rollback() {
        RollbackStep::Send(TransactionRequest::Rollback { transaction_id }) => {
            assert_eq!(transaction_id, 21)
        }
        _ => panic!("expected a rollback request"),
    }
    let _ = transaction.rollback_finished(Exchange::Reply(TransactionResponse::RollbackSuccess));
    // resolved, and the error is the server's, not "already closed"
    assert!(transaction.is_resolved());
    match error {
        DatabaseError::InternalError { component, details } => {
            assert_eq!(component, "Transaction");
            assert_eq!(details, "Constraint violation: unique_email - Duplicate email address");
        }
        other => panic!("unexpected: {:?}", other),
    }
}

#[test]
fn test_execute_finished() {
    let transaction = active(1);
    match transaction.execute_finished(Exchange::Reply(ExecuteResponse {
        rows_affected: 3,
        last_insert_id: Some(-4),
        error: None,
    })) {
        OperationStep::Done(Ok(result)) => {
            assert_eq!(result.rows_affected, 3);
            assert_eq!(result.last_insert_id, Some(-4));
        }
        _ => panic!("expected a result"),
    }
    match transaction
        .execute_finished(Exchange::Failed(DatabaseError::NetworkError { details: "x".to_string() }))
    {
        OperationStep::RollBack { then_fail: DatabaseError::NetworkError { details } } => {
            assert_eq!(details, "x")
        }
        _ => panic!("expected a rollback"),
    }
    match transaction.execute_finished(Exchange::Undecodable("short".to_string())) {
        OperationStep::Done(Err(DatabaseError::SerializationError { message })) => {
            assert_eq!(message, "Failed to deserialize execute response: short")
        }
        _ => panic!("expected an error"),
    }
}

#[test]
fn test_query_finished() {
    let transaction = active(1);
    let columns = vec![ColumnMetadata {
        name: "id".to_string(),
        data_type: DataType::Int,
        nullable: false,
        ordinal: 0,
    }];
    match transaction.query_finished(Exchange::Reply(QueryResponse {
        columns,
        rows: vec![vec![1i64], vec![2], vec![3]],
        error: None,
    })) {
        OperationStep::Done(Ok(result)) => {
            assert_eq!(result.columns.len(), 1);
            assert_eq!(result.len(), 3);
            assert_eq!(result.rows[0].get(0), Some(&1));
            assert_eq!(result.rows[2].get(0), Some(&3));
        }
        _ => panic!("expected a result"),
    }
    match transaction.query_finished(Exchange::Reply(QueryResponse::<i64> {
        columns: vec![],
        rows: vec![],
        error: Some("Table not found: users".to_string()),
    })) {
        OperationStep::RollBack { then_fail: DatabaseError::InternalError { details, .. } } => {
            assert_eq!(details, "Table not found: users")
        }
        _ => panic!("expected a rollback"),
    }
    match transaction.query_finished::<i64>(Exchange::Undecodable("short".to_string())) {
        OperationStep::Done(Err(DatabaseError::SerializationError { message })) => {
            assert_eq!(message, "Failed to deserialize query response: short")
        }
        _ => panic!("expected an error"),
    }
    assert!(matches!(
        transaction.query_finished::<i64>(Exchange::Failed(DatabaseError::ConnectionLost {
            node_id: 1
        })),
        OperationStep::RollBack { .. }
    ));
}
