//! Client-side connection and protocol layer for a distributed database
//! cluster: wire message framing and integrity checking, connection pooling
//! and health tracking, retry with exponential backoff, the authentication
//! token lifecycle, and the transaction state machine.
//!
//! The library is transport-agnostic. Everything that touches a socket, a
//! lock or a timer is done by the caller; the library decides what to send,
//! what a reply means, and what state results.

pub mod admin_client;
pub mod auth;
pub mod client;
pub mod clock;
pub mod connection;
pub mod data_client;
pub mod error;
pub mod metrics;
pub mod protocol;
pub mod query_builder;
pub mod result;
pub mod retry;
pub mod text;
pub mod transaction;
pub mod types;

pub use admin_client::{AdminClient, AdminRequest, AdminResponse, Request, Response};
pub use auth::{AuthToken, AuthenticationManager, Certificate, Credentials};
pub use client::{Client, ClusterHealth};
pub use connection::{
    Connection, ConnectionManager, ConnectionPool, NodeHealth, PooledConnection, ProtocolType,
};
pub use data_client::{
    BatchContext, DataClient, ExecuteResult, PreparedStatement, QueryResult, ResultStream, Row,
};
pub use error::DatabaseError;
pub use protocol::{Message, MessageCodec, MessageType};
pub use query_builder::{OrderDirection, QueryBuilder, QueryType};
pub use result::{ColumnMetadata, DataType};
pub use transaction::{IsolationLevel, Transaction, TransactionRequest, TransactionResponse};
pub use types::{
    ClusterNodeInfo, ConnectionConfig, Feature, FeatureNegotiation, NodeHealthStatus, NodeId,
    NodeInfo, NodeRole, NodeStatus, Permission, PoolConfig, RetryConfig, Role, StatementId,
    Timestamp, TransactionId, UserId, UserUpdate,
};
