//! Transactions: one pooled connection and one token, bound to a
//! transaction identifier, with a single outcome. The library decides what
//! to send and what each reply means; the caller carries the messages.

use crate::auth::{AuthToken, AuthTokenView};
use crate::connection::{Connection, PooledConnection, PooledConnectionView};
use crate::data_client::{
    ExecuteRequest, ExecuteResponse, ExecuteResult, QueryRequest, QueryResponse, QueryResult,
};
use crate::error::DatabaseError;
use crate::protocol::{Message, MessageType};
use crate::types::{Timestamp, TransactionId};
use vstd::prelude::*;
use vstd::slice::slice_to_vec;

verus! {

/// Isolation level for transactions.
#[derive(Debug, Clone, Copy, PartialEq, Eq, Structural)]
pub enum IsolationLevel {
    /// Read uncommitted data.
    ReadUncommitted,
    /// Read committed data only (default).
    ReadCommitted,
    /// Repeatable reads within transaction.
    RepeatableRead,
    /// Full serializable isolation.
    Serializable,
}

impl Default for IsolationLevel {
    fn default() -> (level: Self)
        ensures
            level == IsolationLevel::ReadCommitted,
    {
        IsolationLevel::ReadCommitted
    }
}

/// Transaction control requests.
#[derive(Debug, Clone, Copy, PartialEq, Eq, Structural)]
pub enum TransactionRequest {
    /// Begin a new transaction.
    Begin {
        /// Identifier of the transaction.
        transaction_id: TransactionId,
        /// Isolation level of the transaction.
        isolation_level: IsolationLevel,
    },
    /// Commit a transaction.
    Commit {
        /// Identifier of the transaction.
        transaction_id: TransactionId,
    },
    /// Roll a transaction back.
    Rollback {
        /// Identifier of the transaction.
        transaction_id: TransactionId,
    },
}

/// Transaction control responses.
#[derive(Debug, Clone)]
pub enum TransactionResponse {
    /// Transaction began successfully.
    BeginSuccess,
    /// Transaction committed successfully.
    CommitSuccess,
    /// Transaction rolled back successfully.
    RollbackSuccess,
    /// Transaction operation failed.
    Error {
        /// What the server reports.
        message: String,
    },
}

/// How one request/response exchange on the connection ended.
pub enum Exchange<R> {
    /// The exchange failed on the transport: nothing was sent, or no reply
    /// arrived.
    Failed(DatabaseError),
    /// A reply arrived, but its payload could not be read; the reason is
    /// given as text.
    Undecodable(String),
    /// This reply arrived.
    Reply(R),
}

/// What follows an operation inside a transaction.
pub enum OperationStep<T> {
    /// The operation is over, with this result.
    Done(Result<T, DatabaseError>),
    /// The operation failed: attempt a rollback, then fail with this
    /// error, whatever the rollback gives.
    RollBack {
        /// The error of the operation.
        then_fail: DatabaseError,
    },
}

/// How a rollback starts.
pub enum RollbackStep {
    /// The transaction is resolved already: the rollback succeeds, and
    /// nothing is sent.
    AlreadyResolved,
    /// Send this request.
    Send(TransactionRequest),
}

/// What follows the reply to a begin request.
pub enum BeginStep<S, T> {
    /// The transaction has begun.
    Started(T),
    /// The server refused: return the connection to the pool, then fail
    /// with the error.
    Refused {
        /// The connection that the transaction would have used.
        connection: PooledConnection<S>,
        /// Why no transaction began.
        error: DatabaseError,
    },
    /// The exchange failed; the connection is given up.
    Failed(DatabaseError),
}

/// What is left when a transaction is torn down.
pub enum Teardown<S> {
    /// The transaction was resolved: the connection is free.
    Resolved(PooledConnection<S>),
    /// The transaction was still active: a rollback must be attempted
    /// with this request before the connection is let go.
    Unresolved {
        /// The connection of the transaction.
        connection: PooledConnection<S>,
        /// The rollback to attempt.
        rollback: TransactionRequest,
    },
}

/// A transaction as a mathematical value.
pub struct TransactionView<S> {
    /// The dedicated connection.
    pub connection: PooledConnectionView<S>,
    /// The captured token.
    pub auth_token: AuthTokenView,
    /// The transaction identifier.
    pub transaction_id: TransactionId,
    /// Whether the transaction has been committed or rolled back.
    pub resolved: bool,
}

/// The text of the error for an operation on a resolved transaction.
pub open spec fn resolved_text() -> Seq<char> {
    "Transaction has already been committed or rolled back"@
}

/// Whether `error` tells that the transaction is resolved already.
pub open spec fn is_not_active(error: DatabaseError) -> bool {
    error matches DatabaseError::InternalError { component, details } && component@
        == "Transaction"@ && details@ == resolved_text()
}

/// Whether `error` is an internal error of the transaction with the given
/// details.
pub open spec fn is_transaction_error(error: DatabaseError, text: Seq<char>) -> bool {
    error matches DatabaseError::InternalError { component, details } && component@
        == "Transaction"@ && details@ == text
}

/// Whether `error` reports a reply that could not be read, where `what`
/// names the kind of reply and `reason` is the reason given.
pub open spec fn is_undecodable(error: DatabaseError, what: Seq<char>, reason: Seq<char>) -> bool {
    error matches DatabaseError::SerializationError { message } && message@
        == "Failed to deserialize "@ + what + " response: "@ + reason
}

impl<S> TransactionView<S> {
    /// The transaction with its state set to resolved.
    pub open spec fn resolve(self) -> TransactionView<S> {
        TransactionView { resolved: true, ..self }
    }

    /// The transaction after the reply to a commit: resolved by a
    /// successful commit, else as it was.
    pub open spec fn after_commit(self, outcome: Exchange<TransactionResponse>) -> TransactionView<S> {
        if outcome matches Exchange::Reply(TransactionResponse::CommitSuccess) {
            self.resolve()
        } else {
            self
        }
    }

    /// The transaction after the reply to a rollback: resolved by a
    /// successful rollback and by an error response alike, else as it was.
    pub open spec fn after_rollback(self, outcome: Exchange<TransactionResponse>) -> TransactionView<S> {
        match outcome {
            Exchange::Reply(TransactionResponse::RollbackSuccess) => self.resolve(),
            Exchange::Reply(TransactionResponse::Error { .. }) => self.resolve(),
            _ => self,
        }
    }

    /// How a rollback starts: with nothing to send where the transaction is
    /// resolved, else with the rollback request.
    pub open spec fn rollback_step(self) -> RollbackStep {
        if self.resolved {
            RollbackStep::AlreadyResolved
        } else {
            RollbackStep::Send(TransactionRequest::Rollback { transaction_id: self.transaction_id })
        }
    }

    /// Whether `result` is what the reply to a rollback means.
    pub open spec fn rolled_back_as(
        self,
        outcome: Exchange<TransactionResponse>,
        result: Result<(), DatabaseError>,
    ) -> bool {
        match outcome {
            Exchange::Failed(error) => result == Err::<(), DatabaseError>(error),
            Exchange::Undecodable(reason) => result matches Err(error) && is_undecodable(
                error,
                "transaction"@,
                reason@,
            ),
            Exchange::Reply(TransactionResponse::RollbackSuccess) => result is Ok,
            Exchange::Reply(TransactionResponse::Error { message }) => result matches Err(
                DatabaseError::TransactionAborted { transaction_id, reason },
            ) && transaction_id == self.transaction_id && reason@ == message@,
            Exchange::Reply(_) => result matches Err(error) && is_transaction_error(
                error,
                "Unexpected response to rollback"@,
            ),
        }
    }

    /// Whether `step` is what the reply to a commit means.
    pub open spec fn committed_as(
        self,
        outcome: Exchange<TransactionResponse>,
        step: OperationStep<()>,
    ) -> bool {
        match outcome {
            Exchange::Failed(error) => step == (OperationStep::<()>::RollBack { then_fail: error }),
            Exchange::Undecodable(reason) => step matches OperationStep::Done(Err(error))
                && is_undecodable(error, "transaction"@, reason@),
            Exchange::Reply(TransactionResponse::CommitSuccess) => step matches OperationStep::Done(
                Ok(_),
            ),
            Exchange::Reply(TransactionResponse::Error { message }) => step
                matches OperationStep::RollBack {
                then_fail: DatabaseError::TransactionAborted { transaction_id, reason },
            } && transaction_id == self.transaction_id && reason@ == message@,
            Exchange::Reply(_) => step matches OperationStep::Done(Err(error))
                && is_transaction_error(error, "Unexpected response to commit"@),
        }
    }
}

/// Whether `step` is what the reply to an execute request means: the
/// result where the server reports none; a rollback and then the server's
/// error where it reports one; a rollback and then the transport's error
/// where the exchange failed.
pub open spec fn executed_as(outcome: Exchange<ExecuteResponse>, step: OperationStep<ExecuteResult>) -> bool {
    match outcome {
        Exchange::Failed(error) => step == (OperationStep::<ExecuteResult>::RollBack {
            then_fail: error,
        }),
        Exchange::Undecodable(reason) => step matches OperationStep::Done(Err(error))
            && is_undecodable(error, "execute"@, reason@),
        Exchange::Reply(response) => match response.error {
            Some(text) => step matches OperationStep::RollBack { then_fail } && is_transaction_error(
                then_fail,
                text@,
            ),
            None => step matches OperationStep::Done(Ok(result)) && result.rows_affected
                == response.rows_affected && result.last_insert_id == response.last_insert_id,
        },
    }
}

/// Whether `step` is what the reply to a query request means.
pub open spec fn queried_as<V>(outcome: Exchange<QueryResponse<V>>, step: OperationStep<QueryResult<V>>) -> bool {
    match outcome {
        Exchange::Failed(error) => step == (OperationStep::<QueryResult<V>>::RollBack {
            then_fail: error,
        }),
        Exchange::Undecodable(reason) => step matches OperationStep::Done(Err(error))
            && is_undecodable(error, "query"@, reason@),
        Exchange::Reply(response) => match response.error {
            Some(text) => step matches OperationStep::RollBack { then_fail } && is_transaction_error(
                then_fail,
                text@,
            ),
            None => step matches OperationStep::Done(Ok(result)) && result.columns
                == response.columns && result.rows@.len() == response.rows@.len() && forall|i: int|
                0 <= i < response.rows@.len() ==> (#[trigger] result.rows@[i])@
                    == response.rows@[i]@,
        },
    }
}

fn undecodable(what: &str, reason: String) -> (error: DatabaseError)
    ensures
        is_undecodable(error, what@, reason@),
{
    let mut message = String::from_str("Failed to deserialize ");
    message.append(what);
    message.append(" response: ");
    message.append(reason.as_str());
    DatabaseError::SerializationError { message }
}

fn transaction_error(details: String) -> (error: DatabaseError)
    ensures
        is_transaction_error(error, details@),
{
    DatabaseError::InternalError { component: String::from_str("Transaction"), details }
}

/// A transaction, active or resolved.
pub struct Transaction<S> {
    connection: PooledConnection<S>,
    auth_token: AuthToken,
    transaction_id: TransactionId,
    is_committed: bool,
}

impl<S> View for Transaction<S> {
    type V = TransactionView<S>;

    closed spec fn view(&self) -> TransactionView<S> {
        TransactionView {
            connection: self.connection@,
            auth_token: self.auth_token@,
            transaction_id: self.transaction_id,
            resolved: self.is_committed,
        }
    }
}

impl<S> Transaction<S> {
    /// Creates an active transaction on the given connection.
    pub fn new(connection: PooledConnection<S>, auth_token: AuthToken, transaction_id: TransactionId) -> (transaction:
        Self)
        ensures
            transaction@ == (TransactionView {
                connection: connection@,
                auth_token: auth_token@,
                transaction_id,
                resolved: false,
            }),
    {
        Transaction { connection, auth_token, transaction_id, is_committed: false }
    }

    /// Returns the transaction ID.
    pub fn transaction_id(&self) -> (transaction_id: TransactionId)
        ensures
            transaction_id == self@.transaction_id,
    {
        self.transaction_id
    }

    /// Tells whether the transaction has been committed or rolled back.
    pub fn is_resolved(&self) -> (resolved: bool)
        ensures
            resolved == self@.resolved,
    {
        self.is_committed
    }

    /// The connection of the transaction.
    pub fn connection_mut(&mut self) -> (connection: &mut PooledConnection<S>)
        ensures
            connection@ == old(self)@.connection,
            final(self)@ == (TransactionView { connection: final(connection)@, ..old(self)@ }),
    {
        &mut self.connection
    }

    /// Checks that the transaction is still active.
    pub fn check_active(&self) -> (result: Result<(), DatabaseError>)
        ensures
            match result {
                Ok(_) => !self@.resolved,
                Err(error) => self@.resolved && is_not_active(error),
            },
    {
        if self.is_committed {
            return Err(
                DatabaseError::InternalError {
                    component: String::from_str("Transaction"),
                    details: String::from_str(
                        "Transaction has already been committed or rolled back",
                    ),
                },
            );
        }
        Ok(())
    }

    /// Makes the request for a statement without parameters inside the
    /// transaction.
    pub fn execute<V>(&self, sql: &str) -> (request: Result<ExecuteRequest<V>, DatabaseError>)
        ensures
            match request {
                Ok(request) => request.auth_token matches Some(signature) && signature@
                    == self@.auth_token.signature && request.sql@ == sql@ && request.params@
                    == Seq::<V>::empty() && request.transaction_id == Some(self@.transaction_id)
                    && !self@.resolved,
                Err(error) => self@.resolved && is_not_active(error),
            },
    {
        self.execute_with_params(sql, Vec::new())
    }

    /// Makes the request for a query without parameters inside the
    /// transaction.
    pub fn query<V>(&self, sql: &str) -> (request: Result<QueryRequest<V>, DatabaseError>)
        ensures
            match request {
                Ok(request) => request.auth_token matches Some(signature) && signature@
                    == self@.auth_token.signature && request.sql@ == sql@ && request.params@
                    == Seq::<V>::empty() && request.transaction_id == Some(self@.transaction_id)
                    && !request.streaming && !self@.resolved,
                Err(error) => self@.resolved && is_not_active(error),
            },
    {
        self.query_with_params(sql, Vec::new())
    }

    /// Makes the request for a statement inside the transaction: it
    /// carries the transaction identifier and the signature of the captured
    /// token. Refused where the transaction is resolved.
    pub fn execute_with_params<V>(&self, sql: &str, params: Vec<V>) -> (request: Result<
        ExecuteRequest<V>,
        DatabaseError,
    >)
        ensures
            match request {
                Ok(request) => request.auth_token matches Some(signature) && signature@
                    == self@.auth_token.signature && request.sql@ == sql@ && request.params
                    == params && request.transaction_id == Some(self@.transaction_id)
                    && !self@.resolved,
                Err(error) => self@.resolved && is_not_active(error),
            },
    {
        match self.check_active() {
            Err(error) => Err(error),
            Ok(_) => Ok(
                ExecuteRequest {
                    sql: String::from_str(sql),
                    params,
                    transaction_id: Some(self.transaction_id),
                    auth_token: Some(slice_to_vec(self.auth_token.signature.as_slice())),
                },
            ),
        }
    }

    /// Makes the request for a query inside the transaction: it carries
    /// the transaction identifier and the signature of the captured token.
    /// Refused where the transaction is resolved.
    pub fn query_with_params<V>(&self, sql: &str, params: Vec<V>) -> (request: Result<
        QueryRequest<V>,
        DatabaseError,
    >)
        ensures
            match request {
                Ok(request) => request.auth_token matches Some(signature) && signature@
                    == self@.auth_token.signature && request.sql@ == sql@ && request.params
                    == params && request.transaction_id == Some(self@.transaction_id)
                    && !request.streaming && !self@.resolved,
                Err(error) => self@.resolved && is_not_active(error),
            },
    {
        match self.check_active() {
            Err(error) => Err(error),
            Ok(_) => Ok(
                QueryRequest {
                    sql: String::from_str(sql),
                    params,
                    transaction_id: Some(self.transaction_id),
                    auth_token: Some(slice_to_vec(self.auth_token.signature.as_slice())),
                    streaming: false,
                },
            ),
        }
    }

    /// Makes the message that carries `payload` on the transaction's
    /// connection at `now`: of kind `Data` for statements and queries, of
    /// kind `Transaction` for control requests.
    pub fn message(&mut self, message_type: MessageType, payload: Vec<u8>, now: Timestamp) -> (request:
        Message)
        ensures
            Connection::<S>::request_of(
                old(self)@.connection.connection,
                message_type,
                payload@,
                now,
                request,
            ),
            final(self)@ == (TransactionView {
                connection: PooledConnectionView {
                    connection: old(self)@.connection.connection.advanced(),
                    ..old(self)@.connection
                },
                ..old(self)@
            }),
    {
        self.connection.connection_mut().send_request(message_type, payload, now)
    }

    /// Takes the reply to a statement. A failure of the exchange and an
    /// error reported by the server both order a rollback before the error
    /// is returned.
    pub fn execute_finished(&self, outcome: Exchange<ExecuteResponse>) -> (step: OperationStep<
        ExecuteResult,
    >)
        ensures
            executed_as(outcome, step),
    {
        match outcome {
            Exchange::Failed(error) => OperationStep::RollBack { then_fail: error },
            Exchange::Undecodable(reason) => OperationStep::Done(
                Err(undecodable("execute", reason)),
            ),
            Exchange::Reply(response) => match response.error {
                Some(text) => OperationStep::RollBack { then_fail: transaction_error(text) },
                None => OperationStep::Done(
                    Ok(
                        ExecuteResult {
                            rows_affected: response.rows_affected,
                            last_insert_id: response.last_insert_id,
                        },
                    ),
                ),
            },
        }
    }

    /// Takes the reply to a query. A failure of the exchange and an error
    /// reported by the server both order a rollback before the error is
    /// returned.
    pub fn query_finished<V>(&self, outcome: Exchange<QueryResponse<V>>) -> (step: OperationStep<
        QueryResult<V>,
    >)
        ensures
            queried_as(outcome, step),
    {
        match outcome {
            Exchange::Failed(error) => OperationStep::RollBack { then_fail: error },
            Exchange::Undecodable(reason) => OperationStep::Done(Err(undecodable("query", reason))),
            Exchange::Reply(response) => match response.error {
                Some(text) => OperationStep::RollBack { then_fail: transaction_error(text) },
                None => OperationStep::Done(
                    Ok(QueryResult::from_raw(response.columns, response.rows)),
                ),
            },
        }
    }

    /// Makes the commit request. Refused where the transaction is
    /// resolved.
    pub fn commit(&self) -> (request: Result<TransactionRequest, DatabaseError>)
        ensures
            match request {
                Ok(request) => !self@.resolved && request == (TransactionRequest::Commit {
                    transaction_id: self@.transaction_id,
                }),
                Err(error) => self@.resolved && is_not_active(error),
            },
    {
        match self.check_active() {
            Err(error) => Err(error),
            Ok(_) => Ok(TransactionRequest::Commit { transaction_id: self.transaction_id }),
        }
    }

    /// Takes the reply to a commit. A successful commit resolves the
    /// transaction; an error response and a failure of the exchange order a
    /// rollback before the error is returned.
    pub fn commit_finished(&mut self, outcome: Exchange<TransactionResponse>) -> (step: OperationStep<
        (),
    >)
        ensures
            final(self)@ == old(self)@.after_commit(outcome),
            old(self)@.committed_as(outcome, step),
    {
        match outcome {
            Exchange::Failed(error) => OperationStep::RollBack { then_fail: error },
            Exchange::Undecodable(reason) => OperationStep::Done(
                Err(undecodable("transaction", reason)),
            ),
            Exchange::Reply(TransactionResponse::CommitSuccess) => {
                self.is_committed = true;
                OperationStep::Done(Ok(()))
            },
            Exchange::Reply(TransactionResponse::Error { message }) => OperationStep::RollBack {
                then_fail: DatabaseError::TransactionAborted {
                    transaction_id: self.transaction_id,
                    reason: message,
                },
            },
            Exchange::Reply(_) => OperationStep::Done(
                Err(transaction_error(String::from_str("Unexpected response to commit"))),
            ),
        }
    }

    /// Starts a rollback. On a resolved transaction there is nothing to
    /// send.
    pub fn rollback(&self) -> (step: RollbackStep)
        ensures
            step == self@.rollback_step(),
    {
        if self.is_committed {
            RollbackStep::AlreadyResolved
        } else {
            RollbackStep::Send(TransactionRequest::Rollback { transaction_id: self.transaction_id })
        }
    }

    /// Takes the reply to a rollback. A successful rollback and an error
    /// response both resolve the transaction; where the exchange failed or
    /// the reply was unexpected, it stays as it was.
    pub fn rollback_finished(&mut self, outcome: Exchange<TransactionResponse>) -> (result: Result<
        (),
        DatabaseError,
    >)
        ensures
            final(self)@ == old(self)@.after_rollback(outcome),
            old(self)@.rolled_back_as(outcome, result),
    {
        match outcome {
            Exchange::Failed(error) => Err(error),
            Exchange::Undecodable(reason) => Err(undecodable("transaction", reason)),
            Exchange::Reply(TransactionResponse::RollbackSuccess) => {
                self.is_committed = true;
                Ok(())
            },
            Exchange::Reply(TransactionResponse::Error { message }) => {
                self.is_committed = true;
                Err(
                    DatabaseError::TransactionAborted {
                        transaction_id: self.transaction_id,
                        reason: message,
                    },
                )
            },
            Exchange::Reply(_) => Err(
                transaction_error(String::from_str("Unexpected response to rollback")),
            ),
        }
    }

    /// Ends the transaction's hold on its connection. A transaction that
    /// is still active is never taken for committed: the caller gets the
    /// rollback that it has to attempt.
    pub fn teardown(self) -> (left: Teardown<S>)
        ensures
            match left {
                Teardown::Resolved(connection) => self@.resolved && connection@
                    == self@.connection,
                Teardown::Unresolved { connection, rollback } => !self@.resolved && connection@
                    == self@.connection && rollback == (TransactionRequest::Rollback {
                    transaction_id: self@.transaction_id,
                }),
            },
    {
        if self.is_committed {
            Teardown::Resolved(self.connection)
        } else {
            let rollback = TransactionRequest::Rollback { transaction_id: self.transaction_id };
            Teardown::Unresolved { connection: self.connection, rollback }
        }
    }
}

/// Resolution is final and rollback is idempotent: once a commit or a
/// rollback has resolved a transaction, a rollback has nothing to send and
/// succeeds, and no reply of any kind makes the transaction active again.
pub proof fn lemma_resolution_is_final<S>(
    transaction: TransactionView<S>,
    outcome: Exchange<TransactionResponse>,
)
    requires
        transaction.resolved,
    ensures
        transaction.rollback_step() is AlreadyResolved,
        transaction.after_commit(outcome).resolved,
        transaction.after_rollback(outcome).resolved,
{
}

/// A successful commit resolves the transaction, and so does every reply
/// to a rollback that the server gave on purpose: success and error alike.
pub proof fn lemma_replies_resolve<S>(transaction: TransactionView<S>, message: String)
    ensures
        transaction.after_commit(Exchange::Reply(TransactionResponse::CommitSuccess)).resolved,
        transaction.after_rollback(Exchange::Reply(TransactionResponse::RollbackSuccess)).resolved,
        transaction.after_rollback(
            Exchange::Reply(TransactionResponse::Error { message }),
        ).resolved,
        transaction.after_commit(
            Exchange::Reply(TransactionResponse::CommitSuccess),
        ).rollback_step() is AlreadyResolved,
        transaction.after_rollback(
            Exchange::Reply(TransactionResponse::RollbackSuccess),
        ).rollback_step() is AlreadyResolved,
{
}

} // verus!
