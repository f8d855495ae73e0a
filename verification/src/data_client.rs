//! The logical requests and responses that travel as message payloads, and
//! the results that callers get from them. The library is generic in the
//! type `V` of a database value: it carries values and never looks inside.

use crate::auth::{AuthToken, AuthTokenView};
use crate::connection::{PooledConnection, PooledConnectionView};
use crate::error::DatabaseError;
use crate::protocol::{timestamp_bits, timestamp_to_bits, MessageType};
use crate::query_builder::{is_builder_error, QueryBuilder};
use crate::result::ColumnMetadata;
use crate::transaction::{
    BeginStep, Exchange, IsolationLevel, Transaction, TransactionRequest, TransactionResponse,
    TransactionView,
};
use crate::types::{StatementId, Timestamp, TransactionId};
use vstd::prelude::*;
use vstd::slice::slice_to_vec;

verus! {

/// Result of an execute operation (INSERT, UPDATE, DELETE).
#[derive(Debug, Clone, Copy)]
pub struct ExecuteResult {
    /// Number of rows affected by the operation.
    pub rows_affected: u64,
    /// Last insert ID (for INSERT operations).
    pub last_insert_id: Option<i64>,
}

/// Prepared statement.
#[derive(Debug)]
pub struct PreparedStatement {
    /// Statement identifier.
    pub statement_id: StatementId,
    /// SQL text of the statement.
    pub sql: String,
    /// Number of parameters.
    pub param_count: usize,
}

impl Clone for PreparedStatement {
    fn clone(&self) -> (copy: Self)
        ensures
            copy.statement_id == self.statement_id,
            copy.sql@ == self.sql@,
            copy.param_count == self.param_count,
    {
        PreparedStatement {
            statement_id: self.statement_id,
            sql: self.sql.clone(),
            param_count: self.param_count,
        }
    }
}

/// Request to execute a statement.
#[derive(Debug)]
pub struct ExecuteRequest<V> {
    /// SQL text.
    pub sql: String,
    /// Positional parameters.
    pub params: Vec<V>,
    /// Transaction that the statement belongs to, if any.
    pub transaction_id: Option<TransactionId>,
    /// Signature of the token that authorises the request.
    pub auth_token: Option<Vec<u8>>,
}

/// Response to an execute request.
#[derive(Debug)]
pub struct ExecuteResponse {
    /// Number of rows affected.
    pub rows_affected: u64,
    /// Last insert ID, if any.
    pub last_insert_id: Option<i64>,
    /// Error reported by the server, if any.
    pub error: Option<String>,
}

/// Request to run a query.
#[derive(Debug)]
pub struct QueryRequest<V> {
    /// SQL text.
    pub sql: String,
    /// Positional parameters.
    pub params: Vec<V>,
    /// Transaction that the query belongs to, if any.
    pub transaction_id: Option<TransactionId>,
    /// Signature of the token that authorises the request.
    pub auth_token: Option<Vec<u8>>,
    /// Whether the rows are to be streamed one by one.
    pub streaming: bool,
}

/// Response to a query request.
#[derive(Debug)]
pub struct QueryResponse<V> {
    /// Column metadata.
    pub columns: Vec<ColumnMetadata>,
    /// Row values.
    pub rows: Vec<Vec<V>>,
    /// Error reported by the server, if any.
    pub error: Option<String>,
}

/// A single row in a query result.
#[derive(Debug, Clone)]
pub struct Row<V> {
    values: Vec<V>,
}

impl<V> View for Row<V> {
    type V = Seq<V>;

    closed spec fn view(&self) -> Seq<V> {
        self.values@
    }
}

impl<V> Row<V> {
    /// Creates a row with the given values.
    pub fn new(values: Vec<V>) -> (row: Self)
        ensures
            row@ == values@,
    {
        Row { values }
    }

    /// Gets a value by column index.
    pub fn get(&self, index: usize) -> (value: Option<&V>)
        ensures
            match value {
                Some(value) => index < self@.len() && *value == self@[index as int],
                None => index >= self@.len(),
            },
    {
        if index < self.values.len() {
            Some(&self.values[index])
        } else {
            None
        }
    }

    /// Gets the value in the first column called `name`: `None` where no
    /// column has that name, or where the row is too short to have a value
    /// in it.
    pub fn get_by_name(&self, name: &str, columns: &[ColumnMetadata]) -> (value: Option<&V>)
        ensures
            match value {
                Some(value) => exists|i: int|
                    0 <= i < columns@.len() && i < self@.len() && columns@[i].name@ == name@
                        && (forall|j: int| 0 <= j < i ==> columns@[j].name@ != name@) && *value
                        == self@[i],
                None => forall|i: int|
                    0 <= i < columns@.len() && columns@[i].name@ == name@ && (forall|j: int|
                        0 <= j < i ==> columns@[j].name@ != name@) ==> i >= self@.len(),
            },
    {
        let mut index: usize = 0;
        while index < columns.len()
            invariant
                index <= columns@.len(),
                forall|j: int| 0 <= j < index ==> columns@[j].name@ != name@,
            decreases columns@.len() - index,
        {
            if same_text(columns[index].name.as_str(), name) {
                return self.get(index);
            }
            index = index + 1;
        }
        None
    }

    /// Returns the number of columns in this row.
    pub fn len(&self) -> (len: usize)
        ensures
            len == self@.len(),
    {
        self.values.len()
    }

    /// Returns true if the row has no columns.
    pub fn is_empty(&self) -> (empty: bool)
        ensures
            empty == (self@.len() == 0),
    {
        self.values.len() == 0
    }

    /// Returns the values of the row.
    pub fn values(&self) -> (values: &[V])
        ensures
            values@ == self@,
    {
        self.values.as_slice()
    }
}

/// Tells whether two strings hold the same text.
pub fn same_text(left: &str, right: &str) -> (same: bool)
    ensures
        same == (left@ == right@),
{
    let left_len = left.unicode_len();
    let right_len = right.unicode_len();
    if left_len != right_len {
        return false;
    }
    let mut index: usize = 0;
    while index < left_len
        invariant
            index <= left_len,
            left_len == left@.len(),
            right_len == right@.len(),
            left_len == right_len,
            forall|i: int| 0 <= i < index ==> left@[i] == right@[i],
        decreases left_len - index,
    {
        if left.get_char(index) != right.get_char(index) {
            return false;
        }
        index = index + 1;
    }
    assert(left@ =~= right@);
    true
}

/// Result of a query operation (SELECT).
#[derive(Debug, Clone)]
pub struct QueryResult<V> {
    /// Column metadata.
    pub columns: Vec<ColumnMetadata>,
    /// Result rows.
    pub rows: Vec<Row<V>>,
}

impl<V> QueryResult<V> {
    /// Creates a query result.
    pub fn new(columns: Vec<ColumnMetadata>, rows: Vec<Row<V>>) -> (result: Self)
        ensures
            result.columns == columns,
            result.rows == rows,
    {
        QueryResult { columns, rows }
    }

    /// Creates a query result from column metadata and rows of values: one
    /// row for each, with the same values, in the same order.
    pub fn from_raw(columns: Vec<ColumnMetadata>, value_rows: Vec<Vec<V>>) -> (result: Self)
        ensures
            result.columns == columns,
            result.rows@.len() == value_rows@.len(),
            forall|i: int| 0 <= i < value_rows@.len() ==> (#[trigger] result.rows@[i])@ == value_rows@[i]@,
    {
        let mut pending = value_rows;
        let mut reversed: Vec<Row<V>> = Vec::new();
        let ghost total = pending@.len();
        while pending.len() > 0
            invariant
                total == value_rows@.len(),
                pending@.len() + reversed@.len() == total,
                pending@ == value_rows@.take(pending@.len() as int),
                forall|i: int|
                    0 <= i < reversed@.len() ==> (#[trigger] reversed@[i])@ == value_rows@[total - 1
                        - i]@,
            decreases pending@.len(),
        {
            let values = pending.pop().unwrap();
            reversed.push(Row::new(values));
        }
        let mut rows: Vec<Row<V>> = Vec::new();
        while reversed.len() > 0
            invariant
                total == value_rows@.len(),
                rows@.len() + reversed@.len() == total,
                forall|i: int|
                    0 <= i < reversed@.len() ==> (#[trigger] reversed@[i])@ == value_rows@[total - 1
                        - i]@,
                forall|i: int| 0 <= i < rows@.len() ==> (#[trigger] rows@[i])@ == value_rows@[i]@,
            decreases reversed@.len(),
        {
            let row = reversed.pop().unwrap();
            rows.push(row);
        }
        QueryResult { columns, rows }
    }

    /// Returns the number of rows in the result.
    pub fn len(&self) -> (len: usize)
        ensures
            len == self.rows@.len(),
    {
        self.rows.len()
    }

    /// Returns true if the result has no rows.
    pub fn is_empty(&self) -> (empty: bool)
        ensures
            empty == (self.rows@.len() == 0),
    {
        self.rows.len() == 0
    }
}

/// Request to prepare a statement.
#[derive(Debug)]
pub struct PrepareRequest {
    /// SQL text.
    pub sql: String,
    /// Signature of the token that authorises the request.
    pub auth_token: Option<Vec<u8>>,
}

/// Response to a prepare request.
#[derive(Debug)]
pub struct PrepareResponse {
    /// Identifier of the prepared statement.
    pub statement_id: StatementId,
    /// Number of parameters of the statement.
    pub param_count: usize,
    /// Error reported by the server, if any.
    pub error: Option<String>,
}

/// One operation of a batch.
#[derive(Debug)]
pub enum BatchOperation<V> {
    /// Execute a statement.
    Execute {
        /// SQL text.
        sql: String,
        /// Positional parameters.
        params: Vec<V>,
    },
}

/// Request to execute a batch.
#[derive(Debug)]
pub struct BatchRequest<V> {
    /// The operations, in order.
    pub operations: Vec<BatchOperation<V>>,
    /// Signature of the token that authorises the request.
    pub auth_token: Option<Vec<u8>>,
}

/// Response to a batch request.
#[derive(Debug)]
pub struct BatchResponse {
    /// Result of each operation.
    pub results: Vec<ExecuteResult>,
    /// Error reported by the server, if any.
    pub error: Option<String>,
}

/// How an operation ended, and whether its connection goes back to the
/// pool: it does after a success, and is given up after a failure.
pub struct Completion<T> {
    /// The result of the operation.
    pub result: Result<T, DatabaseError>,
    /// Whether to return the connection to the pool.
    pub release_connection: bool,
}

/// Whether `error` is an internal error of `component` with the given
/// details.
pub open spec fn is_component_error(error: DatabaseError, component: Seq<char>, text: Seq<char>) -> bool {
    error matches DatabaseError::InternalError { component: c, details } && c@ == component
        && details@ == text
}

/// Whether `error` reports a reply that could not be read, where `what`
/// names what was expected and `reason` is the reason given.
pub open spec fn is_unreadable(error: DatabaseError, what: Seq<char>, reason: Seq<char>) -> bool {
    error matches DatabaseError::SerializationError { message } && message@
        == "Failed to deserialize "@ + what + ": "@ + reason
}

fn component_error(component: &str, details: String) -> (error: DatabaseError)
    ensures
        is_component_error(error, component@, details@),
{
    DatabaseError::InternalError { component: String::from_str(component), details }
}

fn unreadable(what: &str, reason: String) -> (error: DatabaseError)
    ensures
        is_unreadable(error, what@, reason@),
{
    let mut message = String::from_str("Failed to deserialize ");
    message.append(what);
    message.append(": ");
    message.append(reason.as_str());
    DatabaseError::SerializationError { message }
}

/// Whether `completion` is what an exchange on a pooled connection comes
/// to for `component`, where `what` names the reply, `reported` gives the
/// error that a reply reports and `fits` tells whether a value is the one
/// that a reply holds: a failure of the exchange and an unreadable reply
/// fail as they are, an error reported by the server fails as an error of
/// the component, and only a reply without error succeeds, with its value,
/// and releases the connection.
pub open spec fn completed_as<R, T>(
    outcome: Exchange<R>,
    component: Seq<char>,
    what: Seq<char>,
    reported: spec_fn(R) -> Option<String>,
    fits: spec_fn(R, T) -> bool,
    completion: Completion<T>,
) -> bool {
    match outcome {
        Exchange::Failed(error) => completion.result == Err::<T, DatabaseError>(error)
            && !completion.release_connection,
        Exchange::Undecodable(reason) => completion.result matches Err(error) && is_unreadable(
            error,
            what,
            reason@,
        ) && !completion.release_connection,
        Exchange::Reply(reply) => match reported(reply) {
            Some(text) => completion.result matches Err(error) && is_component_error(
                error,
                component,
                text@,
            ) && !completion.release_connection,
            None => completion.result matches Ok(value) && fits(reply, value)
                && completion.release_connection,
        },
    }
}

/// Whether `result` holds the columns and the rows of `response`: one row
/// for each, with the same values, in the same order.
pub open spec fn holds_rows<V>(response: QueryResponse<V>, result: QueryResult<V>) -> bool {
    &&& result.columns == response.columns
    &&& result.rows@.len() == response.rows@.len()
    &&& forall|i: int|
        0 <= i < response.rows@.len() ==> (#[trigger] result.rows@[i])@ == response.rows@[i]@
}

/// What a message on a result stream carries, by its kind.
pub enum StreamItem {
    /// A row: the payload holds its values.
    Row,
    /// The end of the stream.
    End,
    /// An error: the payload holds its text.
    Error,
    /// A message that does not belong on a stream.
    Unexpected,
}

/// A stream of rows on a dedicated connection.
pub struct ResultStream<S> {
    connection: PooledConnection<S>,
    columns: Option<Vec<ColumnMetadata>>,
    finished: bool,
}

impl<S> ResultStream<S> {
    /// Whether the end of the stream has been seen.
    pub closed spec fn finished(self) -> bool {
        self.finished
    }

    /// The connection that the stream reads from.
    pub closed spec fn connection(self) -> PooledConnectionView<S> {
        self.connection@
    }

    /// Creates a stream on the given connection.
    pub fn new(connection: PooledConnection<S>) -> (stream: Self)
        ensures
            !stream.finished(),
            stream.connection() == connection@,
            stream.column_metadata() is None,
    {
        ResultStream { connection, columns: None, finished: false }
    }

    /// Tells whether the end has been seen. Once it has, the stream gives
    /// no row and reads no message.
    pub fn is_finished(&self) -> (finished: bool)
        ensures
            finished == self.finished(),
    {
        self.finished
    }

    /// The connection, to receive the next message on.
    pub fn connection_mut(&mut self) -> (connection: &mut PooledConnection<S>)
        ensures
            connection@ == old(self).connection(),
            final(self).connection() == final(connection)@,
            final(self).finished() == old(self).finished(),
    {
        &mut self.connection
    }

    /// Gives up the stream and hands back its connection.
    pub fn into_connection(self) -> (connection: PooledConnection<S>)
        ensures
            connection@ == self.connection(),
    {
        self.connection
    }

    /// The column metadata of the stream, where it is known.
    pub closed spec fn column_metadata(self) -> Option<Vec<ColumnMetadata>> {
        self.columns
    }

    /// Returns the column metadata (if available).
    pub fn columns(&self) -> (columns: Option<&Vec<ColumnMetadata>>)
        ensures
            match columns {
                Some(columns) => self.column_metadata() == Some(*columns),
                None => self.column_metadata() is None,
            },
    {
        self.columns.as_ref()
    }

    /// What a kind of message means on a stream.
    pub open spec fn item_of(message_type: MessageType) -> StreamItem {
        match message_type {
            MessageType::Data => StreamItem::Row,
            MessageType::Ack => StreamItem::End,
            MessageType::Error => StreamItem::Error,
            _ => StreamItem::Unexpected,
        }
    }

    /// Tells what a message of the given kind carries.
    pub fn classify(message_type: MessageType) -> (item: StreamItem)
        ensures
            item == Self::item_of(message_type),
    {
        match message_type {
            MessageType::Data => StreamItem::Row,
            MessageType::Ack => StreamItem::End,
            MessageType::Error => StreamItem::Error,
            _ => StreamItem::Unexpected,
        }
    }

    /// Whether `after` and `row` are what follows the message that was
    /// received: a row gives its values; the end of the stream is
    /// remembered and gives no row; an error and a message that does not
    /// belong on a stream fail. A stream whose end has been seen gives no
    /// row, whatever is handed to it.
    pub open spec fn next_as<V>(
        self,
        received: Received<V>,
        after: Self,
        row: Result<Option<Row<V>>, DatabaseError>,
    ) -> bool {
        &&& after.connection() == self.connection()
        &&& if self.finished() {
            after.finished() && row matches Ok(None)
        } else {
            match received {
                Received::Row(Ok(values)) => !after.finished() && (row matches Ok(Some(r)) && r@
                    == values@),
                Received::Row(Err(reason)) => !after.finished() && (row matches Err(error)
                    && is_unreadable(error, "row data"@, reason@)),
                Received::End => after.finished() && row matches Ok(None),
                Received::Error(Ok(text)) => !after.finished() && (row matches Err(error)
                    && is_component_error(error, "ResultStream"@, text@)),
                Received::Error(Err(reason)) => !after.finished() && (row matches Err(error)
                    && is_unreadable(error, "error"@, reason@)),
                Received::Unexpected => !after.finished() && (row matches Err(error)
                    && is_component_error(
                    error,
                    "ResultStream"@,
                    "Unexpected message type in stream"@,
                )),
            }
        }
    }

    /// Takes the message that was received and gives the next row, if
    /// there is one.
    pub fn next<V>(&mut self, received: Received<V>) -> (row: Result<Option<Row<V>>, DatabaseError>)
        ensures
            old(self).next_as(received, *final(self), row),
    {
        if self.finished {
            return Ok(None);
        }
        match received {
            Received::Row(Ok(values)) => Ok(Some(Row::new(values))),
            Received::Row(Err(reason)) => Err(unreadable("row data", reason)),
            Received::End => {
                self.finished = true;
                Ok(None)
            },
            Received::Error(Ok(text)) => Err(component_error("ResultStream", text)),
            Received::Error(Err(reason)) => Err(unreadable("error", reason)),
            Received::Unexpected => Err(
                component_error(
                    "ResultStream",
                    String::from_str("Unexpected message type in stream"),
                ),
            ),
        }
    }
}

/// What was received on a result stream, read as its kind calls for.
pub enum Received<V> {
    /// A row: its values, or the reason why they could not be read.
    Row(Result<Vec<V>, String>),
    /// The end of the stream.
    End,
    /// An error: its text, or the reason why it could not be read.
    Error(Result<String, String>),
    /// A message that does not belong on a stream.
    Unexpected,
}

/// The operations of a batch, collected before they are sent together.
pub struct BatchContext<V> {
    operations: Vec<BatchOperation<V>>,
}

impl<V> BatchContext<V> {
    /// The operations collected so far.
    pub closed spec fn operations(self) -> Seq<BatchOperation<V>> {
        self.operations@
    }

    /// Creates an empty batch.
    pub fn new() -> (batch: Self)
        ensures
            batch.operations() == Seq::<BatchOperation<V>>::empty(),
    {
        BatchContext { operations: Vec::new() }
    }

    /// Adds an execute operation to the batch.
    pub fn add_execute(&mut self, sql: &str, params: Vec<V>)
        ensures
            final(self).operations().len() == old(self).operations().len() + 1,
            final(self).operations().drop_last() == old(self).operations(),
            final(self).operations().last() matches BatchOperation::Execute { sql: s, params: p }
                && s@ == sql@ && p == params,
    {
        self.operations.push(BatchOperation::Execute { sql: String::from_str(sql), params });
        assert(self.operations@.drop_last() =~= old(self).operations@);
    }

    /// Makes the request for the whole batch, authorised by `token`.
    pub fn execute(self, token: &AuthToken) -> (request: BatchRequest<V>)
        ensures
            request.operations@ == self.operations(),
            request.auth_token matches Some(signature) && signature@ == token@.signature,
    {
        BatchRequest {
            operations: self.operations,
            auth_token: Some(slice_to_vec(token.signature.as_slice())),
        }
    }

    /// Takes the reply to a batch: the results of the operations, or the
    /// error.
    pub fn execute_finished(outcome: Exchange<BatchResponse>) -> (results: Result<
        Vec<ExecuteResult>,
        DatabaseError,
    >)
        ensures
            match outcome {
                Exchange::Failed(error) => results == Err::<Vec<ExecuteResult>, DatabaseError>(
                    error,
                ),
                Exchange::Undecodable(reason) => results matches Err(error) && is_unreadable(
                    error,
                    "batch response"@,
                    reason@,
                ),
                Exchange::Reply(response) => match response.error {
                    Some(text) => results matches Err(error) && is_component_error(
                        error,
                        "BatchContext"@,
                        text@,
                    ),
                    None => results == Ok::<Vec<ExecuteResult>, DatabaseError>(response.results),
                },
            },
    {
        match outcome {
            Exchange::Failed(error) => Err(error),
            Exchange::Undecodable(reason) => Err(unreadable("batch response", reason)),
            Exchange::Reply(response) => match response.error {
                Some(text) => Err(component_error("BatchContext", text)),
                None => Ok(response.results),
            },
        }
    }
}

/// The statement that the cache holds for `sql`: the one that was put in
/// last.
pub open spec fn cached(statements: Seq<PreparedStatement>, sql: Seq<char>) -> Option<
    PreparedStatement,
>
    decreases statements.len(),
{
    if statements.len() == 0 {
        None
    } else if statements.last().sql@ == sql {
        Some(statements.last())
    } else {
        cached(statements.drop_last(), sql)
    }
}

/// Whether `after` is `before` with one more statement that has the
/// identifier, the text and the parameter count of `statement`.
pub open spec fn remembered(
    before: Seq<PreparedStatement>,
    after: Seq<PreparedStatement>,
    statement: PreparedStatement,
) -> bool {
    &&& after.len() == before.len() + 1
    &&& after.drop_last() == before
    &&& after.last().statement_id == statement.statement_id
    &&& after.last().sql@ == statement.sql@
    &&& after.last().param_count == statement.param_count
}

/// Builds the requests of statements and queries outside a transaction,
/// reads their replies, and remembers prepared statements.
pub struct DataClient {
    prepared_statements: Vec<PreparedStatement>,
}

impl DataClient {
    /// The prepared statements that the client remembers, oldest first.
    pub closed spec fn prepared(self) -> Seq<PreparedStatement> {
        self.prepared_statements@
    }

    /// Creates a data client that remembers no statement.
    pub fn new() -> (client: Self)
        ensures
            client.prepared() == Seq::<PreparedStatement>::empty(),
    {
        DataClient { prepared_statements: Vec::new() }
    }

    /// Makes the request for a statement, authorised by `token`.
    pub fn execute_with_params<V>(sql: &str, params: Vec<V>, token: &AuthToken) -> (request:
        ExecuteRequest<V>)
        ensures
            request.sql@ == sql@,
            request.params == params,
            request.transaction_id is None,
            request.auth_token matches Some(signature) && signature@ == token@.signature,
    {
        ExecuteRequest {
            sql: String::from_str(sql),
            params,
            transaction_id: None,
            auth_token: Some(slice_to_vec(token.signature.as_slice())),
        }
    }

    /// Takes the reply to a statement.
    pub fn execute_finished(outcome: Exchange<ExecuteResponse>) -> (completion: Completion<
        ExecuteResult,
    >)
        ensures
            completed_as(
                outcome,
                "DataClient"@,
                "execute response"@,
                |response: ExecuteResponse| response.error,
                |response: ExecuteResponse, result: ExecuteResult|
                    result.rows_affected == response.rows_affected && result.last_insert_id
                        == response.last_insert_id,
                completion,
            ),
    {
        match outcome {
            Exchange::Failed(error) => Completion { result: Err(error), release_connection: false },
            Exchange::Undecodable(reason) => Completion {
                result: Err(unreadable("execute response", reason)),
                release_connection: false,
            },
            Exchange::Reply(response) => match response.error {
                Some(text) => Completion {
                    result: Err(component_error("DataClient", text)),
                    release_connection: false,
                },
                None => Completion {
                    result: Ok(
                        ExecuteResult {
                            rows_affected: response.rows_affected,
                            last_insert_id: response.last_insert_id,
                        },
                    ),
                    release_connection: true,
                },
            },
        }
    }

    /// Makes the request for a query, authorised by `token`; `streaming`
    /// tells whether the rows are to come one by one.
    pub fn query_with_params<V>(sql: &str, params: Vec<V>, token: &AuthToken, streaming: bool) -> (request:
        QueryRequest<V>)
        ensures
            request.sql@ == sql@,
            request.params == params,
            request.transaction_id is None,
            request.auth_token matches Some(signature) && signature@ == token@.signature,
            request.streaming == streaming,
    {
        QueryRequest {
            sql: String::from_str(sql),
            params,
            transaction_id: None,
            auth_token: Some(slice_to_vec(token.signature.as_slice())),
            streaming,
        }
    }

    /// Makes the request for a streaming query without parameters.
    pub fn query_stream<V>(sql: &str, token: &AuthToken) -> (request: QueryRequest<V>)
        ensures
            request.sql@ == sql@,
            request.params@ == Seq::<V>::empty(),
            request.transaction_id is None,
            request.auth_token matches Some(signature) && signature@ == token@.signature,
            request.streaming,
    {
        Self::query_with_params(sql, Vec::new(), token, true)
    }

    /// Takes the reply to a query.
    pub fn query_finished<V>(outcome: Exchange<QueryResponse<V>>) -> (completion: Completion<
        QueryResult<V>,
    >)
        ensures
            completed_as(
                outcome,
                "DataClient"@,
                "query response"@,
                |response: QueryResponse<V>| response.error,
                |response: QueryResponse<V>, result: QueryResult<V>| holds_rows(response, result),
                completion,
            ),
    {
        match outcome {
            Exchange::Failed(error) => Completion { result: Err(error), release_connection: false },
            Exchange::Undecodable(reason) => Completion {
                result: Err(unreadable("query response", reason)),
                release_connection: false,
            },
            Exchange::Reply(response) => match response.error {
                Some(text) => Completion {
                    result: Err(component_error("DataClient", text)),
                    release_connection: false,
                },
                None => Completion {
                    result: Ok(QueryResult::from_raw(response.columns, response.rows)),
                    release_connection: true,
                },
            },
        }
    }

    /// Makes the request for a statement without parameters.
    pub fn execute<V>(sql: &str, token: &AuthToken) -> (request: ExecuteRequest<V>)
        ensures
            request.sql@ == sql@,
            request.params@ == Seq::<V>::empty(),
            request.transaction_id is None,
            request.auth_token matches Some(signature) && signature@ == token@.signature,
    {
        Self::execute_with_params(sql, Vec::new(), token)
    }

    /// Makes the request for a query without parameters.
    pub fn query<V>(sql: &str, token: &AuthToken) -> (request: QueryRequest<V>)
        ensures
            request.sql@ == sql@,
            request.params@ == Seq::<V>::empty(),
            request.transaction_id is None,
            request.auth_token matches Some(signature) && signature@ == token@.signature,
            !request.streaming,
    {
        Self::query_with_params(sql, Vec::new(), token, false)
    }

    /// Makes the request for the query that a builder describes, or tells
    /// why the builder cannot be built.
    pub fn query_builder<V>(builder: QueryBuilder<V>, token: &AuthToken) -> (request: Result<
        QueryRequest<V>,
        DatabaseError,
    >)
        ensures
            match builder@.defect() {
                Some(text) => request matches Err(error) && is_builder_error(error, text),
                None => request matches Ok(request) && request.sql@ == builder@.sql()
                    && request.params@ == builder@.parameters() && request.transaction_id is None
                    && !request.streaming && (request.auth_token matches Some(signature)
                    && signature@ == token@.signature),
            },
    {
        match builder.build() {
            Err(error) => Err(error),
            Ok((sql, params)) => Ok(Self::query_with_params(sql.as_str(), params, token, false)),
        }
    }

    /// Makes the request for the statement that a builder describes, or
    /// tells why the builder cannot be built.
    pub fn execute_builder<V>(builder: QueryBuilder<V>, token: &AuthToken) -> (request: Result<
        ExecuteRequest<V>,
        DatabaseError,
    >)
        ensures
            match builder@.defect() {
                Some(text) => request matches Err(error) && is_builder_error(error, text),
                None => request matches Ok(request) && request.sql@ == builder@.sql()
                    && request.params@ == builder@.parameters() && request.transaction_id is None
                    && (request.auth_token matches Some(signature) && signature@
                    == token@.signature),
            },
    {
        match builder.build() {
            Err(error) => Err(error),
            Ok((sql, params)) => Ok(Self::execute_with_params(sql.as_str(), params, token)),
        }
    }

    /// Creates an empty batch.
    pub fn batch<V>() -> (batch: BatchContext<V>)
        ensures
            batch.operations() == Seq::<BatchOperation<V>>::empty(),
    {
        BatchContext::new()
    }

    /// The request that begins a transaction at `now`: its identifier is
    /// derived from the time, its isolation level is the default.
    pub fn begin_transaction(now: Timestamp) -> (request: TransactionRequest)
        ensures
            request == (TransactionRequest::Begin {
                transaction_id: timestamp_bits(now),
                isolation_level: IsolationLevel::ReadCommitted,
            }),
    {
        TransactionRequest::Begin {
            transaction_id: timestamp_to_bits(now),
            isolation_level: IsolationLevel::default(),
        }
    }

    /// Whether `step` is what the reply to a begin request means.
    pub open spec fn begun_as<S>(
        connection: PooledConnectionView<S>,
        auth_token: AuthTokenView,
        transaction_id: TransactionId,
        outcome: Exchange<TransactionResponse>,
        step: BeginStep<S, Transaction<S>>,
    ) -> bool {
        match outcome {
            Exchange::Failed(error) => step == BeginStep::<S, Transaction<S>>::Failed(error),
            Exchange::Undecodable(reason) => step matches BeginStep::Failed(error)
                && is_unreadable(error, "transaction response"@, reason@),
            Exchange::Reply(TransactionResponse::BeginSuccess) => step matches BeginStep::Started(
                transaction,
            ) && transaction@ == (TransactionView {
                connection,
                auth_token,
                transaction_id,
                resolved: false,
            }),
            Exchange::Reply(TransactionResponse::Error { message }) => step
                matches BeginStep::Refused {
                connection: returned,
                error: DatabaseError::InternalError { component, details },
            } && returned@ == connection && component@ == "DataClient"@ && details@
                == "Failed to begin transaction: "@ + message@,
            Exchange::Reply(_) => step matches BeginStep::Refused {
                connection: returned,
                error: DatabaseError::InternalError { component, details },
            } && returned@ == connection && component@ == "DataClient"@ && details@
                == "Unexpected response to begin transaction"@,
        }
    }

    /// Takes the reply to a begin request. Only a `BeginSuccess` makes a
    /// transaction, and it is active.
    pub fn begin_transaction_finished<S>(
        connection: PooledConnection<S>,
        auth_token: AuthToken,
        transaction_id: TransactionId,
        outcome: Exchange<TransactionResponse>,
    ) -> (step: BeginStep<S, Transaction<S>>)
        ensures
            Self::begun_as(connection@, auth_token@, transaction_id, outcome, step),
    {
        match outcome {
            Exchange::Failed(error) => BeginStep::Failed(error),
            Exchange::Undecodable(reason) => BeginStep::Failed(unreadable("transaction response", reason)),
            Exchange::Reply(TransactionResponse::BeginSuccess) => BeginStep::Started(
                Transaction::new(connection, auth_token, transaction_id),
            ),
            Exchange::Reply(TransactionResponse::Error { message }) => {
                let mut details = String::from_str("Failed to begin transaction: ");
                details.append(message.as_str());
                BeginStep::Refused {
                    connection,
                    error: DatabaseError::InternalError {
                        component: String::from_str("DataClient"),
                        details,
                    },
                }
            },
            Exchange::Reply(_) => BeginStep::Refused {
                connection,
                error: DatabaseError::InternalError {
                    component: String::from_str("DataClient"),
                    details: String::from_str("Unexpected response to begin transaction"),
                },
            },
        }
    }

    /// Looks a statement up among the prepared ones.
    pub fn prepared_statement(&self, sql: &str) -> (statement: Option<PreparedStatement>)
        ensures
            match cached(self.prepared(), sql@) {
                Some(known) => statement matches Some(found) && found.statement_id
                    == known.statement_id && found.sql@ == known.sql@ && found.param_count
                    == known.param_count,
                None => statement is None,
            },
    {
        let mut index: usize = self.prepared_statements.len();
        assert(self.prepared_statements@.take(index as int) =~= self.prepared_statements@);
        while index > 0
            invariant
                index <= self.prepared_statements@.len(),
                cached(self.prepared_statements@, sql@) == cached(
                    self.prepared_statements@.take(index as int),
                    sql@,
                ),
            decreases index,
        {
            let ghost prefix = self.prepared_statements@.take(index as int);
            assert(prefix.drop_last() =~= self.prepared_statements@.take(index - 1));
            assert(prefix.last() == self.prepared_statements@[index - 1]);
            index = index - 1;
            if same_text(self.prepared_statements[index].sql.as_str(), sql) {
                return Some(self.prepared_statements[index].clone());
            }
        }
        assert(self.prepared_statements@.take(0) =~= Seq::empty());
        None
    }

    /// Makes the request to prepare a statement, authorised by `token`.
    pub fn prepare(sql: &str, token: &AuthToken) -> (request: PrepareRequest)
        ensures
            request.sql@ == sql@,
            request.auth_token matches Some(signature) && signature@ == token@.signature,
    {
        PrepareRequest {
            sql: String::from_str(sql),
            auth_token: Some(slice_to_vec(token.signature.as_slice())),
        }
    }

    /// Takes the reply to a prepare request for `sql`. A statement that
    /// the server prepared is remembered, and found again by its SQL text.
    pub fn prepare_finished(&mut self, sql: &str, outcome: Exchange<PrepareResponse>) -> (completion:
        Completion<PreparedStatement>)
        ensures
            completed_as(
                outcome,
                "DataClient"@,
                "prepare response"@,
                |response: PrepareResponse| response.error,
                |response: PrepareResponse, statement: PreparedStatement|
                    statement.statement_id == response.statement_id && statement.sql@ == sql@
                        && statement.param_count == response.param_count,
                completion,
            ),
            match completion.result {
                Ok(statement) => remembered(
                    old(self).prepared(),
                    final(self).prepared(),
                    statement,
                ),
                Err(_) => final(self).prepared() == old(self).prepared(),
            },
    {
        match outcome {
            Exchange::Failed(error) => Completion { result: Err(error), release_connection: false },
            Exchange::Undecodable(reason) => Completion {
                result: Err(unreadable("prepare response", reason)),
                release_connection: false,
            },
            Exchange::Reply(response) => match response.error {
                Some(text) => Completion {
                    result: Err(component_error("DataClient", text)),
                    release_connection: false,
                },
                None => {
                    let statement = PreparedStatement {
                        statement_id: response.statement_id,
                        sql: String::from_str(sql),
                        param_count: response.param_count,
                    };
                    self.prepared_statements.push(statement.clone());
                    assert(self.prepared_statements@.drop_last() =~= old(self).prepared_statements@);
                    Completion { result: Ok(statement), release_connection: true }
                },
            },
        }
    }
}

/// A statement that has been remembered is found again, and remembering
/// it hides nothing but an older statement of the same text.
pub proof fn lemma_cache_finds_latest(statements: Seq<PreparedStatement>, added: PreparedStatement, sql: Seq<char>)
    ensures
        cached(statements.push(added), sql) == if added.sql@ == sql {
            Some(added)
        } else {
            cached(statements, sql)
        },
{
    assert(statements.push(added).drop_last() =~= statements);
}

} // verus!
