use q_distributed_db_client::transaction::IsolationLevel;

#[test]
fn test_isolation_level_default() {
    assert_eq!(IsolationLevel::default(), IsolationLevel::ReadCommitted);
}

#[test]
fn test_isolation_level_equality() {
    assert_eq!(IsolationLevel::ReadCommitted, IsolationLevel::ReadCommitted);
    assert_ne!(IsolationLevel::ReadCommitted, IsolationLevel::Serializable);
}

#[test]
fn test_transaction_api_structure() {
    // Verify that Transaction has the expected public API
    // This is a compile-time check that the API is correctly structured
    
    // Transaction should have these methods:
    // - transaction_id() -> TransactionId
    // - execute(&mut self, sql: &str) -> Result<ExecuteResult>
    // - execute_with_params(&mut self, sql: &str, params: &[Value]) -> Result<ExecuteResult>
    // - query(&mut self, sql: &str) -> Result<QueryResult>
    // - query_with_params(&mut self, sql: &str, params: &[Value]) -> Result<QueryResult>
    // - commit(self) -> Result<()>
    // - rollback(self) -> Result<()>
    
    // This test just verifies the API compiles correctly
}
