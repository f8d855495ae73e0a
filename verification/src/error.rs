//! The error type of the library, its classification into retryable,
//! connection and authentication errors, and its rendering as text.

use crate::text::{
    debug_quoted, debug_quoted_text, decimal_text, hex_text, push_decimal, push_hex,
    push_signed_decimal, signed_decimal_text,
};
use vstd::prelude::*;

verus! {

/// Every failure that the client can report, from connection failures to
/// query and administration errors.
#[derive(Debug, Clone)]
pub enum DatabaseError {
    /// Connection attempt timed out.
    ConnectionTimeout {
        /// The host that failed to connect.
        host: String,
        /// The timeout duration in milliseconds.
        timeout_ms: u64,
    },
    /// Connection was refused by the server.
    ConnectionRefused {
        /// The host that refused the connection.
        host: String,
    },
    /// Connection was lost during operation.
    ConnectionLost {
        /// The node that the connection was lost to.
        node_id: u64,
    },
    /// Authentication failed.
    AuthenticationFailed {
        /// The reason for the failure.
        reason: String,
    },
    /// Authentication token has expired.
    TokenExpired {
        /// The timestamp at which the token expired.
        expired_at: i64,
    },
    /// Invalid credentials provided.
    InvalidCredentials,
    /// SQL syntax error.
    SyntaxError {
        /// The SQL query that failed.
        sql: String,
        /// The position in the SQL where the error occurred.
        position: usize,
        /// The error message.
        message: String,
    },
    /// Table not found in database.
    TableNotFound {
        /// The name of the table.
        table_name: String,
    },
    /// Column not found in table.
    ColumnNotFound {
        /// The name of the column.
        column_name: String,
    },
    /// Database constraint violation.
    ConstraintViolation {
        /// The constraint that was violated.
        constraint: String,
        /// Additional details about the violation.
        details: String,
    },
    /// Transaction was aborted.
    TransactionAborted {
        /// The transaction that was aborted.
        transaction_id: u64,
        /// The reason for the abort.
        reason: String,
    },
    /// Deadlock detected during transaction.
    DeadlockDetected {
        /// The transaction involved in the deadlock.
        transaction_id: u64,
    },
    /// Transaction isolation level violation.
    IsolationViolation {
        /// Details about the violation.
        details: String,
    },
    /// Message serialization failed.
    SerializationError {
        /// The error message.
        message: String,
    },
    /// Message checksum mismatch.
    ChecksumMismatch {
        /// The checksum recomputed from the message.
        expected: u32,
        /// The checksum that the message carried.
        actual: u32,
    },
    /// Message exceeds maximum size.
    MessageTooLarge {
        /// The actual message size.
        size: usize,
        /// The maximum allowed message size.
        max_size: usize,
    },
    /// Protocol version mismatch.
    ProtocolVersionMismatch {
        /// The client protocol version.
        client_version: u8,
        /// The server protocol version.
        server_version: u8,
    },
    /// Generic network error.
    NetworkError {
        /// Details about the network error.
        details: String,
    },
    /// Operation timed out.
    TimeoutError {
        /// The operation that timed out.
        operation: String,
        /// The timeout duration in milliseconds.
        timeout_ms: u64,
    },
    /// Internal error of the library.
    InternalError {
        /// The component where the error occurred.
        component: String,
        /// Details about the error.
        details: String,
    },
    /// Node not found.
    NodeNotFound {
        /// The node that was not found.
        node_id: u64,
    },
    /// Node already exists.
    NodeAlreadyExists {
        /// The hostname of the existing node.
        hostname: String,
    },
    /// Insufficient permissions.
    InsufficientPermissions {
        /// The required permission.
        required: String,
    },
    /// User not found.
    UserNotFound {
        /// The user that was not found.
        user_id: u64,
    },
    /// User already exists.
    UserAlreadyExists {
        /// The username that already exists.
        username: String,
    },
    /// Invalid role.
    InvalidRole {
        /// The invalid role name.
        role: String,
    },
    /// Cannot remove the last admin user.
    CannotRemoveLastAdmin,
}

impl DatabaseError {
    /// Whether the error is transient, so that the failed operation may
    /// succeed when tried again: a connection timeout, a lost connection, a
    /// generic network error or an operation timeout.
    pub open spec fn retryable(self) -> bool {
        self is ConnectionTimeout || self is ConnectionLost || self is NetworkError
            || self is TimeoutError
    }

    /// Whether the error concerns the connection itself: timeout, refusal or
    /// loss.
    pub open spec fn connection_error(self) -> bool {
        self is ConnectionTimeout || self is ConnectionRefused || self is ConnectionLost
    }

    /// Whether the error concerns authentication: a failed authentication,
    /// an expired token or invalid credentials.
    pub open spec fn auth_error(self) -> bool {
        self is AuthenticationFailed || self is TokenExpired || self is InvalidCredentials
    }

    /// Returns true if this error is retryable.
    pub fn is_retryable(&self) -> (r: bool)
        ensures
            r == self.retryable(),
    {
        match self {
            DatabaseError::ConnectionTimeout { .. } => true,
            DatabaseError::ConnectionLost { .. } => true,
            DatabaseError::NetworkError { .. } => true,
            DatabaseError::TimeoutError { .. } => true,
            _ => false,
        }
    }

    /// Returns true if this error is a connection error.
    pub fn is_connection_error(&self) -> (r: bool)
        ensures
            r == self.connection_error(),
    {
        match self {
            DatabaseError::ConnectionTimeout { .. } => true,
            DatabaseError::ConnectionRefused { .. } => true,
            DatabaseError::ConnectionLost { .. } => true,
            _ => false,
        }
    }

    /// Returns true if this error is an authentication error.
    pub fn is_auth_error(&self) -> (r: bool)
        ensures
            r == self.auth_error(),
    {
        match self {
            DatabaseError::AuthenticationFailed { .. } => true,
            DatabaseError::TokenExpired { .. } => true,
            DatabaseError::InvalidCredentials => true,
            _ => false,
        }
    }

    /// The human-readable message of the error, with every field that
    /// identifies the failure written out.
    pub open spec fn message_text(self) -> Seq<char> {
        match self {
            DatabaseError::ConnectionTimeout { host, timeout_ms } => {
                "Connection timeout to "@
                    + host@
                    + " after "@
                    + decimal_text(timeout_ms as nat)
                    + "ms"@
            },
            DatabaseError::ConnectionRefused { host } => {
                "Connection refused by "@
                    + host@
            },
            DatabaseError::ConnectionLost { node_id } => {
                "Connection lost to node "@
                    + decimal_text(node_id as nat)
            },
            DatabaseError::AuthenticationFailed { reason } => {
                "Authentication failed: "@
                    + reason@
            },
            DatabaseError::TokenExpired { expired_at } => {
                "Token expired at "@
                    + signed_decimal_text(expired_at as int)
            },
            DatabaseError::InvalidCredentials => {
                "Invalid credentials"@
            },
            DatabaseError::SyntaxError { sql, position, message } => {
                "Syntax error in SQL at position "@
                    + decimal_text(position as nat)
                    + ": "@
                    + message@
                    + "\nSQL: "@
                    + sql@
            },
            DatabaseError::TableNotFound { table_name } => {
                "Table not found: "@
                    + table_name@
            },
            DatabaseError::ColumnNotFound { column_name } => {
                "Column not found: "@
                    + column_name@
            },
            DatabaseError::ConstraintViolation { constraint, details } => {
                "Constraint violation: "@
                    + constraint@
                    + " - "@
                    + details@
            },
            DatabaseError::TransactionAborted { transaction_id, reason } => {
                "Transaction "@
                    + decimal_text(transaction_id as nat)
                    + " aborted: "@
                    + reason@
            },
            DatabaseError::DeadlockDetected { transaction_id } => {
                "Deadlock detected in transaction "@
                    + decimal_text(transaction_id as nat)
            },
            DatabaseError::IsolationViolation { details } => {
                "Isolation violation: "@
                    + details@
            },
            DatabaseError::SerializationError { message } => {
                "Serialization error: "@
                    + message@
            },
            DatabaseError::ChecksumMismatch { expected, actual } => {
                "Checksum mismatch: expected "@
                    + hex_text(expected as nat)
                    + ", got "@
                    + hex_text(actual as nat)
            },
            DatabaseError::MessageTooLarge { size, max_size } => {
                "Message too large: "@
                    + decimal_text(size as nat)
                    + " bytes (max: "@
                    + decimal_text(max_size as nat)
                    + " bytes)"@
            },
            DatabaseError::ProtocolVersionMismatch { client_version, server_version } => {
                "Protocol version mismatch: client v"@
                    + decimal_text(client_version as nat)
                    + ", server v"@
                    + decimal_text(server_version as nat)
            },
            DatabaseError::NetworkError { details } => {
                "Network error: "@
                    + details@
            },
            DatabaseError::TimeoutError { operation, timeout_ms } => {
                "Operation '"@
                    + operation@
                    + "' timed out after "@
                    + decimal_text(timeout_ms as nat)
                    + "ms"@
            },
            DatabaseError::InternalError { component, details } => {
                "Internal error in "@
                    + component@
                    + ": "@
                    + details@
            },
            DatabaseError::NodeNotFound { node_id } => {
                "Node not found: "@
                    + decimal_text(node_id as nat)
            },
            DatabaseError::NodeAlreadyExists { hostname } => {
                "Node already exists: "@
                    + hostname@
            },
            DatabaseError::InsufficientPermissions { required } => {
                "Insufficient permissions: "@
                    + debug_quoted_text(required@)
                    + " required"@
            },
            DatabaseError::UserNotFound { user_id } => {
                "User not found: "@
                    + decimal_text(user_id as nat)
            },
            DatabaseError::UserAlreadyExists { username } => {
                "User already exists: "@
                    + username@
            },
            DatabaseError::InvalidRole { role } => {
                "Invalid role: "@
                    + role@
            },
            DatabaseError::CannotRemoveLastAdmin => {
                "Cannot remove the last admin user"@
            },
        }
    }

    /// Renders the error as its human-readable message.
    pub fn to_string(&self) -> (text: String)
        ensures
            text@ == self.message_text(),
    {
        match self {
            DatabaseError::ConnectionTimeout { host, timeout_ms } => {
                let mut text = String::from_str("Connection timeout to ");
                text.append(host.as_str());
                text.append(" after ");
                push_decimal(&mut text, *timeout_ms);
                text.append("ms");
                assert(text@ =~= self.message_text());
                text
            },
            DatabaseError::ConnectionRefused { host } => {
                let mut text = String::from_str("Connection refused by ");
                text.append(host.as_str());
                assert(text@ =~= self.message_text());
                text
            },
            DatabaseError::ConnectionLost { node_id } => {
                let mut text = String::from_str("Connection lost to node ");
                push_decimal(&mut text, *node_id);
                assert(text@ =~= self.message_text());
                text
            },
            DatabaseError::AuthenticationFailed { reason } => {
                let mut text = String::from_str("Authentication failed: ");
                text.append(reason.as_str());
                assert(text@ =~= self.message_text());
                text
            },
            DatabaseError::TokenExpired { expired_at } => {
                let mut text = String::from_str("Token expired at ");
                push_signed_decimal(&mut text, *expired_at);
                assert(text@ =~= self.message_text());
                text
            },
            DatabaseError::InvalidCredentials => {
                let mut text = String::from_str("Invalid credentials");
                assert(text@ =~= self.message_text());
                text
            },
            DatabaseError::SyntaxError { sql, position, message } => {
                let mut text = String::from_str("Syntax error in SQL at position ");
                push_decimal(&mut text, *position as u64);
                text.append(": ");
                text.append(message.as_str());
                text.append("\nSQL: ");
                text.append(sql.as_str());
                assert(text@ =~= self.message_text());
                text
            },
            DatabaseError::TableNotFound { table_name } => {
                let mut text = String::from_str("Table not found: ");
                text.append(table_name.as_str());
                assert(text@ =~= self.message_text());
                text
            },
            DatabaseError::ColumnNotFound { column_name } => {
                let mut text = String::from_str("Column not found: ");
                text.append(column_name.as_str());
                assert(text@ =~= self.message_text());
                text
            },
            DatabaseError::ConstraintViolation { constraint, details } => {
                let mut text = String::from_str("Constraint violation: ");
                text.append(constraint.as_str());
                text.append(" - ");
                text.append(details.as_str());
                assert(text@ =~= self.message_text());
                text
            },
            DatabaseError::TransactionAborted { transaction_id, reason } => {
                let mut text = String::from_str("Transaction ");
                push_decimal(&mut text, *transaction_id);
                text.append(" aborted: ");
                text.append(reason.as_str());
                assert(text@ =~= self.message_text());
                text
            },
            DatabaseError::DeadlockDetected { transaction_id } => {
                let mut text = String::from_str("Deadlock detected in transaction ");
                push_decimal(&mut text, *transaction_id);
                assert(text@ =~= self.message_text());
                text
            },
            DatabaseError::IsolationViolation { details } => {
                let mut text = String::from_str("Isolation violation: ");
                text.append(details.as_str());
                assert(text@ =~= self.message_text());
                text
            },
            DatabaseError::SerializationError { message } => {
                let mut text = String::from_str("Serialization error: ");
                text.append(message.as_str());
                assert(text@ =~= self.message_text());
                text
            },
            DatabaseError::ChecksumMismatch { expected, actual } => {
                let mut text = String::from_str("Checksum mismatch: expected ");
                push_hex(&mut text, *expected);
                text.append(", got ");
                push_hex(&mut text, *actual);
                assert(text@ =~= self.message_text());
                text
            },
            DatabaseError::MessageTooLarge { size, max_size } => {
                let mut text = String::from_str("Message too large: ");
                push_decimal(&mut text, *size as u64);
                text.append(" bytes (max: ");
                push_decimal(&mut text, *max_size as u64);
                text.append(" bytes)");
                assert(text@ =~= self.message_text());
                text
            },
            DatabaseError::ProtocolVersionMismatch { client_version, server_version } => {
                let mut text = String::from_str("Protocol version mismatch: client v");
                push_decimal(&mut text, *client_version as u64);
                text.append(", server v");
                push_decimal(&mut text, *server_version as u64);
                assert(text@ =~= self.message_text());
                text
            },
            DatabaseError::NetworkError { details } => {
                let mut text = String::from_str("Network error: ");
                text.append(details.as_str());
                assert(text@ =~= self.message_text());
                text
            },
            DatabaseError::TimeoutError { operation, timeout_ms } => {
                let mut text = String::from_str("Operation '");
                text.append(operation.as_str());
                text.append("' timed out after ");
                push_decimal(&mut text, *timeout_ms);
                text.append("ms");
                assert(text@ =~= self.message_text());
                text
            },
            DatabaseError::InternalError { component, details } => {
                let mut text = String::from_str("Internal error in ");
                text.append(component.as_str());
                text.append(": ");
                text.append(details.as_str());
                assert(text@ =~= self.message_text());
                text
            },
            DatabaseError::NodeNotFound { node_id } => {
                let mut text = String::from_str("Node not found: ");
                push_decimal(&mut text, *node_id);
                assert(text@ =~= self.message_text());
                text
            },
            DatabaseError::NodeAlreadyExists { hostname } => {
                let mut text = String::from_str("Node already exists: ");
                text.append(hostname.as_str());
                assert(text@ =~= self.message_text());
                text
            },
            DatabaseError::InsufficientPermissions { required } => {
                let mut text = String::from_str("Insufficient permissions: ");
                let quoted = debug_quoted(required.as_str());
                text.append(quoted.as_str());
                text.append(" required");
                assert(text@ =~= self.message_text());
                text
            },
            DatabaseError::UserNotFound { user_id } => {
                let mut text = String::from_str("User not found: ");
                push_decimal(&mut text, *user_id);
                assert(text@ =~= self.message_text());
                text
            },
            DatabaseError::UserAlreadyExists { username } => {
                let mut text = String::from_str("User already exists: ");
                text.append(username.as_str());
                assert(text@ =~= self.message_text());
                text
            },
            DatabaseError::InvalidRole { role } => {
                let mut text = String::from_str("Invalid role: ");
                text.append(role.as_str());
                assert(text@ =~= self.message_text());
                text
            },
            DatabaseError::CannotRemoveLastAdmin => {
                let mut text = String::from_str("Cannot remove the last admin user");
                assert(text@ =~= self.message_text());
                text
            },
        }
    }
}

} // verus!
