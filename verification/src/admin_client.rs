//! Administrative requests and responses, and the parsing of node
//! addresses of the form `hostname:port`.

use crate::data_client::{is_component_error, is_unreadable};
use crate::error::DatabaseError;
use crate::transaction::Exchange;
use crate::types::{ClusterNodeInfo, NodeId, Permission, Role, UserId, UserUpdate};
use vstd::prelude::*;
use vstd::slice::slice_to_vec;

verus! {

/// Whether the character is a decimal digit.
pub open spec fn is_digit(c: char) -> bool {
    '0' as int <= c as int && c as int <= '9' as int
}

/// The number that a string of decimal digits stands for.
pub open spec fn decimal_value(digits: Seq<char>) -> nat
    decreases digits.len(),
{
    if digits.len() == 0 {
        0
    } else {
        (decimal_value(digits.drop_last()) * 10 + (digits.last() as int - '0' as int)) as nat
    }
}

/// Whether every character of a text is a decimal digit.
pub open spec fn all_digits(text: Seq<char>) -> bool {
    forall|i: int| 0 <= i < text.len() ==> is_digit(#[trigger] text[i])
}

/// A text without the `+` that it may begin with.
pub open spec fn unsigned_part(text: Seq<char>) -> Seq<char> {
    if text.len() > 0 && text[0] == '+' {
        text.skip(1)
    } else {
        text
    }
}

/// The port that a text stands for: an optional `+`, then one or more
/// decimal digits whose value is at most 65535.
pub open spec fn parse_port(text: Seq<char>) -> Option<u16> {
    let digits = unsigned_part(text);
    if digits.len() == 0 || !all_digits(digits) || decimal_value(digits) > 65535 {
        None
    } else {
        Some(decimal_value(digits) as u16)
    }
}

/// How often the colon occurs in a text.
pub open spec fn colons(text: Seq<char>) -> nat
    decreases text.len(),
{
    if text.len() == 0 {
        0
    } else {
        colons(text.drop_last()) + if text.last() == ':' {
            1nat
        } else {
            0nat
        }
    }
}

/// The position of the first colon in a text that has one.
pub open spec fn first_colon(text: Seq<char>) -> int {
    choose|i: int| 0 <= i < text.len() && text[i] == ':' && forall|j: int| 0 <= j < i ==> text[j] != ':'
}

/// What parsing makes of an address.
pub enum HostPort {
    /// The address has this hostname and this port.
    Parsed(Seq<char>, u16),
    /// The address does not have exactly one colon.
    BadFormat,
    /// What follows the colon is no port; it is this text.
    BadPort(Seq<char>),
}

/// An address is a hostname and a port with exactly one colon between
/// them.
pub open spec fn host_port(address: Seq<char>) -> HostPort {
    if colons(address) != 1 {
        HostPort::BadFormat
    } else {
        let at = first_colon(address);
        let port_text = address.skip(at + 1);
        match parse_port(port_text) {
            Some(port) => HostPort::Parsed(address.take(at), port),
            None => HostPort::BadPort(port_text),
        }
    }
}

proof fn lemma_value_grows(digits: Seq<char>, shorter: int)
    requires
        0 <= shorter <= digits.len(),
        all_digits(digits),
    ensures
        decimal_value(digits.take(shorter)) <= decimal_value(digits),
    decreases digits.len() - shorter,
{
    if shorter < digits.len() {
        lemma_value_grows(digits, shorter + 1);
        assert(digits.take(shorter + 1).drop_last() =~= digits.take(shorter));
        assert(is_digit(digits[shorter]));
    } else {
        assert(digits.take(shorter) =~= digits);
    }
}

proof fn lemma_colons_of_prefix(text: Seq<char>, shorter: int)
    requires
        0 <= shorter <= text.len(),
    ensures
        colons(text.take(shorter)) <= colons(text),
    decreases text.len() - shorter,
{
    if shorter < text.len() {
        lemma_colons_of_prefix(text, shorter + 1);
        assert(text.take(shorter + 1).drop_last() =~= text.take(shorter));
    } else {
        assert(text.take(shorter) =~= text);
    }
}

proof fn lemma_first_colon(text: Seq<char>, at: int)
    requires
        0 <= at < text.len(),
        text[at] == ':',
        forall|j: int| 0 <= j < at ==> text[j] != ':',
    ensures
        first_colon(text) == at,
{
    let chosen = first_colon(text);
    if chosen < at {
        assert(text[chosen] != ':');
    }
    if at < chosen {
        assert(text[at] != ':');
    }
}

fn invalid_format(host: &str) -> (error: DatabaseError)
    ensures
        error matches DatabaseError::InternalError { component, details } && component@
            == "AdminClient"@ && details@ == "Invalid host format: "@ + host@
            + ". Expected 'hostname:port'"@,
{
    let mut details = String::from_str("Invalid host format: ");
    details.append(host);
    details.append(". Expected 'hostname:port'");
    DatabaseError::InternalError { component: String::from_str("AdminClient"), details }
}

fn invalid_port(port_text: &str) -> (error: DatabaseError)
    ensures
        error matches DatabaseError::InternalError { component, details } && component@
            == "AdminClient"@ && details@ == "Invalid port number: "@ + port_text@,
{
    let mut details = String::from_str("Invalid port number: ");
    details.append(port_text);
    DatabaseError::InternalError { component: String::from_str("AdminClient"), details }
}

/// Reads a port number.
pub fn read_port(text: &str) -> (port: Option<u16>)
    ensures
        port == parse_port(text@),
{
    let len = text.unicode_len();
    let start: usize = if len > 0 && text.get_char(0) == '+' {
        1
    } else {
        0
    };
    let ghost digits = unsigned_part(text@);
    if start >= len {
        return None;
    }
    let mut value: u32 = 0;
    let mut index: usize = start;
    while index < len
        invariant
            start <= index <= len,
            len == text@.len(),
            digits == text@.skip(start as int),
            digits == unsigned_part(text@),
            forall|i: int| 0 <= i < index - start ==> is_digit(#[trigger] digits[i]),
            value == decimal_value(digits.take(index - start)),
            value <= 65535,
        decreases len - index,
    {
        let c = text.get_char(index);
        assert(digits.len() == len - start);
        assert(c == digits[index - start]);
        if !(c >= '0' && c <= '9') {
            assert(!is_digit(digits[index - start]));
            return None;
        }
        let digit: u32 = c as u32 - '0' as u32;
        let ghost longer = digits.take(index - start + 1);
        assert(longer.drop_last() =~= digits.take(index - start));
        assert(longer.last() == c);
        value = value * 10 + digit;
        assert(value == decimal_value(longer));
        if value > 65535 {
            proof {
                if all_digits(digits) {
                    lemma_value_grows(digits, index - start + 1);
                }
            }
            return None;
        }
        index = index + 1;
    }
    assert(digits.take(index - start) =~= digits);
    Some(value as u16)
}

/// Parses a `hostname:port` string. The address must hold exactly one
/// colon, and what follows it must be a port number.
pub fn parse_host_port(host: &str) -> (parsed: Result<(&str, u16), DatabaseError>)
    ensures
        match host_port(host@) {
            HostPort::Parsed(hostname, port) => parsed matches Ok((name, number)) && name@
                == hostname && number == port,
            HostPort::BadFormat => parsed matches Err(
                DatabaseError::InternalError { component, details },
            ) && component@ == "AdminClient"@ && details@ == "Invalid host format: "@ + host@
                + ". Expected 'hostname:port'"@,
            HostPort::BadPort(port_text) => parsed matches Err(
                DatabaseError::InternalError { component, details },
            ) && component@ == "AdminClient"@ && details@ == "Invalid port number: "@ + port_text,
        },
{
    let len = host.unicode_len();
    let mut found: Option<usize> = None;
    let mut index: usize = 0;
    while index < len
        invariant
            index <= len,
            len == host@.len(),
            match found {
                Some(at) => at < index && host@[at as int] == ':' && colons(
                    host@.take(index as int),
                ) == 1 && forall|j: int| 0 <= j < at ==> host@[j] != ':',
                None => colons(host@.take(index as int)) == 0 && forall|j: int|
                    0 <= j < index ==> host@[j] != ':',
            },
        decreases len - index,
    {
        let c = host.get_char(index);
        assert(host@.take(index + 1).drop_last() =~= host@.take(index as int));
        if c == ':' {
            if found.is_some() {
                proof {
                    lemma_colons_of_prefix(host@, index + 1);
                }
                return Err(invalid_format(host));
            }
            found = Some(index);
        }
        index = index + 1;
    }
    assert(host@.take(index as int) =~= host@);
    match found {
        None => Err(invalid_format(host)),
        Some(at) => {
            assert(first_colon(host@) == at) by {
                lemma_first_colon(host@, at as int);
            }
            let hostname = host.substring_char(0, at);
            let port_text = host.substring_char(at + 1, len);
            assert(port_text@ =~= host@.skip(at + 1));
            assert(hostname@ =~= host@.take(at as int));
            match read_port(port_text) {
                Some(port) => Ok((hostname, port)),
                None => Err(invalid_port(port_text)),
            }
        },
    }
}

/// Administrative requests.
#[derive(Debug)]
pub enum AdminRequest {
    /// List all nodes of the cluster.
    ListNodes,
    /// Get the health metrics of a node.
    GetNodeHealth {
        /// The node.
        node_id: NodeId,
    },
    /// Add a node to the cluster.
    AddNode {
        /// Hostname of the node.
        host: String,
        /// Port of the node.
        port: u16,
    },
    /// Remove a node from the cluster.
    RemoveNode {
        /// The node.
        node_id: NodeId,
    },
    /// Rebalance the partitions.
    RebalancePartitions,
    /// Get the metrics of the cluster.
    GetClusterMetrics,
    /// Create a user.
    CreateUser {
        /// Name of the user.
        username: String,
        /// Password of the user.
        password: String,
        /// Roles of the user.
        roles: Vec<Role>,
    },
    /// List all users.
    ListUsers,
    /// Update a user.
    UpdateUser {
        /// The user.
        user_id: UserId,
        /// What to change.
        update: UserUpdate,
    },
    /// Delete a user.
    DeleteUser {
        /// The user.
        user_id: UserId,
    },
    /// Grant a permission to a user.
    GrantPermission {
        /// The user.
        user_id: UserId,
        /// The permission.
        permission: Permission,
    },
    /// Revoke a permission of a user.
    RevokePermission {
        /// The user.
        user_id: UserId,
        /// The permission.
        permission: Permission,
    },
}

/// Administrative responses. `H` is the type of a node's health metrics,
/// `M` that of the cluster's metrics and `U` that of a user's description;
/// the library carries them and never looks inside.
#[derive(Debug)]
pub enum AdminResponse<H, M, U> {
    /// The nodes of the cluster.
    NodeList(Vec<ClusterNodeInfo>),
    /// The health metrics of a node.
    NodeHealth(H),
    /// A node was added; this is its identifier.
    NodeAdded(NodeId),
    /// A node was removed.
    NodeRemoved,
    /// The partitions were rebalanced.
    PartitionsRebalanced,
    /// The metrics of the cluster.
    ClusterMetrics(M),
    /// A user was created; this is its identifier.
    UserCreated(UserId),
    /// The users.
    UserList(Vec<U>),
    /// A user was updated.
    UserUpdated,
    /// A user was deleted.
    UserDeleted,
    /// A permission was granted.
    PermissionGranted,
    /// A permission was revoked.
    PermissionRevoked,
}

/// A request to the server.
#[derive(Debug)]
pub enum Request {
    /// An administrative request.
    Admin(AdminRequest),
}

/// A response of the server.
#[derive(Debug)]
pub enum Response<H, M, U> {
    /// An administrative response.
    Admin(AdminResponse<H, M, U>),
    /// The server reports an error.
    Error(String),
}

/// Whether `result` is what an administrative exchange comes to, where
/// `expected` picks the value out of the response that answers the request:
/// a failure of the exchange fails as it is; an unreadable reply, an error
/// reported by the server and a response of another kind each fail with the
/// error that tells so.
pub open spec fn answered_as<H, M, U, T>(
    outcome: Exchange<Response<H, M, U>>,
    expected: spec_fn(AdminResponse<H, M, U>) -> Option<T>,
    result: Result<T, DatabaseError>,
) -> bool {
    match outcome {
        Exchange::Failed(error) => result == Err::<T, DatabaseError>(error),
        Exchange::Undecodable(reason) => result matches Err(error) && is_unreadable(
            error,
            "response"@,
            reason@,
        ),
        Exchange::Reply(Response::Error(text)) => result matches Err(error)
            && is_component_error(error, "AdminClient"@, text@),
        Exchange::Reply(Response::Admin(response)) => match expected(response) {
            Some(value) => result == Ok::<T, DatabaseError>(value),
            None => result matches Err(error) && is_component_error(
                error,
                "AdminClient"@,
                "Unexpected response type"@,
            ),
        },
    }
}

fn admin_error(details: String) -> (error: DatabaseError)
    ensures
        is_component_error(error, "AdminClient"@, details@),
{
    DatabaseError::InternalError { component: String::from_str("AdminClient"), details }
}

fn unexpected_response() -> (error: DatabaseError)
    ensures
        is_component_error(error, "AdminClient"@, "Unexpected response type"@),
{
    admin_error(String::from_str("Unexpected response type"))
}

fn unreadable_response(reason: String) -> (error: DatabaseError)
    ensures
        is_unreadable(error, "response"@, reason@),
{
    let mut message = String::from_str("Failed to deserialize ");
    message.append("response");
    message.append(": ");
    message.append(reason.as_str());
    DatabaseError::SerializationError { message }
}

/// Builds administrative requests and reads the responses to them.
pub struct AdminClient {}

impl AdminClient {
    /// Creates an admin client.
    pub fn new() -> Self {
        AdminClient {  }
    }

    /// Makes the request to list all nodes of the cluster.
    pub fn list_nodes() -> (request: Request)
        ensures
            request == Request::Admin(AdminRequest::ListNodes),
    {
        Request::Admin(AdminRequest::ListNodes)
    }

    /// Takes the reply to that request: the nodes, or the error.
    pub fn list_nodes_finished<H, M, U>(outcome: Exchange<Response<H, M, U>>) -> (result: Result<
        Vec<ClusterNodeInfo>,
        DatabaseError,
    >)
        ensures
            answered_as(
                outcome,
                |response: AdminResponse<H, M, U>|
                    match response {
                        AdminResponse::NodeList(nodes) => Some(nodes),
                        _ => None,
                    },
                result,
            ),
    {
        match outcome {
            Exchange::Failed(error) => Err(error),
            Exchange::Undecodable(reason) => Err(unreadable_response(reason)),
            Exchange::Reply(Response::Error(text)) => Err(admin_error(text)),
            Exchange::Reply(Response::Admin(AdminResponse::NodeList(nodes))) => Ok(nodes),
            Exchange::Reply(Response::Admin(_)) => Err(unexpected_response()),
        }
    }

    /// Makes the request to get the health metrics of a node.
    pub fn get_node_health(node_id: NodeId) -> (request: Request)
        ensures
            request == Request::Admin(AdminRequest::GetNodeHealth { node_id }),
    {
        Request::Admin(AdminRequest::GetNodeHealth { node_id })
    }

    /// Takes the reply to that request: the metrics, or the error.
    pub fn get_node_health_finished<H, M, U>(outcome: Exchange<Response<H, M, U>>) -> (result: Result<
        H,
        DatabaseError,
    >)
        ensures
            answered_as(
                outcome,
                |response: AdminResponse<H, M, U>|
                    match response {
                        AdminResponse::NodeHealth(health) => Some(health),
                        _ => None,
                    },
                result,
            ),
    {
        match outcome {
            Exchange::Failed(error) => Err(error),
            Exchange::Undecodable(reason) => Err(unreadable_response(reason)),
            Exchange::Reply(Response::Error(text)) => Err(admin_error(text)),
            Exchange::Reply(Response::Admin(AdminResponse::NodeHealth(health))) => Ok(health),
            Exchange::Reply(Response::Admin(_)) => Err(unexpected_response()),
        }
    }

    /// Makes the request to remove a node from the cluster.
    pub fn remove_node(node_id: NodeId) -> (request: Request)
        ensures
            request == Request::Admin(AdminRequest::RemoveNode { node_id }),
    {
        Request::Admin(AdminRequest::RemoveNode { node_id })
    }

    /// Takes the reply to that request: nothing, or the error.
    pub fn remove_node_finished<H, M, U>(outcome: Exchange<Response<H, M, U>>) -> (result: Result<
        (),
        DatabaseError,
    >)
        ensures
            answered_as(
                outcome,
                |response: AdminResponse<H, M, U>|
                    match response {
                        AdminResponse::NodeRemoved => Some(()),
                        _ => None,
                    },
                result,
            ),
    {
        match outcome {
            Exchange::Failed(error) => Err(error),
            Exchange::Undecodable(reason) => Err(unreadable_response(reason)),
            Exchange::Reply(Response::Error(text)) => Err(admin_error(text)),
            Exchange::Reply(Response::Admin(AdminResponse::NodeRemoved)) => Ok(()),
            Exchange::Reply(Response::Admin(_)) => Err(unexpected_response()),
        }
    }

    /// Makes the request to rebalance the partitions.
    pub fn rebalance_partitions() -> (request: Request)
        ensures
            request == Request::Admin(AdminRequest::RebalancePartitions),
    {
        Request::Admin(AdminRequest::RebalancePartitions)
    }

    /// Takes the reply to that request: nothing, or the error.
    pub fn rebalance_partitions_finished<H, M, U>(outcome: Exchange<Response<H, M, U>>) -> (result: Result<
        (),
        DatabaseError,
    >)
        ensures
            answered_as(
                outcome,
                |response: AdminResponse<H, M, U>|
                    match response {
                        AdminResponse::PartitionsRebalanced => Some(()),
                        _ => None,
                    },
                result,
            ),
    {
        match outcome {
            Exchange::Failed(error) => Err(error),
            Exchange::Undecodable(reason) => Err(unreadable_response(reason)),
            Exchange::Reply(Response::Error(text)) => Err(admin_error(text)),
            Exchange::Reply(Response::Admin(AdminResponse::PartitionsRebalanced)) => Ok(()),
            Exchange::Reply(Response::Admin(_)) => Err(unexpected_response()),
        }
    }

    /// Makes the request to get the metrics of the cluster.
    pub fn get_cluster_metrics() -> (request: Request)
        ensures
            request == Request::Admin(AdminRequest::GetClusterMetrics),
    {
        Request::Admin(AdminRequest::GetClusterMetrics)
    }

    /// Takes the reply to that request: the metrics, or the error.
    pub fn get_cluster_metrics_finished<H, M, U>(outcome: Exchange<Response<H, M, U>>) -> (result: Result<
        M,
        DatabaseError,
    >)
        ensures
            answered_as(
                outcome,
                |response: AdminResponse<H, M, U>|
                    match response {
                        AdminResponse::ClusterMetrics(metrics) => Some(metrics),
                        _ => None,
                    },
                result,
            ),
    {
        match outcome {
            Exchange::Failed(error) => Err(error),
            Exchange::Undecodable(reason) => Err(unreadable_response(reason)),
            Exchange::Reply(Response::Error(text)) => Err(admin_error(text)),
            Exchange::Reply(Response::Admin(AdminResponse::ClusterMetrics(metrics))) => Ok(metrics),
            Exchange::Reply(Response::Admin(_)) => Err(unexpected_response()),
        }
    }

    /// Makes the request to list all users.
    pub fn list_users() -> (request: Request)
        ensures
            request == Request::Admin(AdminRequest::ListUsers),
    {
        Request::Admin(AdminRequest::ListUsers)
    }

    /// Takes the reply to that request: the users, or the error.
    pub fn list_users_finished<H, M, U>(outcome: Exchange<Response<H, M, U>>) -> (result: Result<
        Vec<U>,
        DatabaseError,
    >)
        ensures
            answered_as(
                outcome,
                |response: AdminResponse<H, M, U>|
                    match response {
                        AdminResponse::UserList(users) => Some(users),
                        _ => None,
                    },
                result,
            ),
    {
        match outcome {
            Exchange::Failed(error) => Err(error),
            Exchange::Undecodable(reason) => Err(unreadable_response(reason)),
            Exchange::Reply(Response::Error(text)) => Err(admin_error(text)),
            Exchange::Reply(Response::Admin(AdminResponse::UserList(users))) => Ok(users),
            Exchange::Reply(Response::Admin(_)) => Err(unexpected_response()),
        }
    }

    /// Makes the request to update a user.
    pub fn update_user(user_id: UserId, update: UserUpdate) -> (request: Request)
        ensures
            request == Request::Admin(AdminRequest::UpdateUser { user_id, update }),
    {
        Request::Admin(AdminRequest::UpdateUser { user_id, update })
    }

    /// Takes the reply to that request: nothing, or the error.
    pub fn update_user_finished<H, M, U>(outcome: Exchange<Response<H, M, U>>) -> (result: Result<
        (),
        DatabaseError,
    >)
        ensures
            answered_as(
                outcome,
                |response: AdminResponse<H, M, U>|
                    match response {
                        AdminResponse::UserUpdated => Some(()),
                        _ => None,
                    },
                result,
            ),
    {
        match outcome {
            Exchange::Failed(error) => Err(error),
            Exchange::Undecodable(reason) => Err(unreadable_response(reason)),
            Exchange::Reply(Response::Error(text)) => Err(admin_error(text)),
            Exchange::Reply(Response::Admin(AdminResponse::UserUpdated)) => Ok(()),
            Exchange::Reply(Response::Admin(_)) => Err(unexpected_response()),
        }
    }

    /// Makes the request to delete a user.
    pub fn delete_user(user_id: UserId) -> (request: Request)
        ensures
            request == Request::Admin(AdminRequest::DeleteUser { user_id }),
    {
        Request::Admin(AdminRequest::DeleteUser { user_id })
    }

    /// Takes the reply to that request: nothing, or the error.
    pub fn delete_user_finished<H, M, U>(outcome: Exchange<Response<H, M, U>>) -> (result: Result<
        (),
        DatabaseError,
    >)
        ensures
            answered_as(
                outcome,
                |response: AdminResponse<H, M, U>|
                    match response {
                        AdminResponse::UserDeleted => Some(()),
                        _ => None,
                    },
                result,
            ),
    {
        match outcome {
            Exchange::Failed(error) => Err(error),
            Exchange::Undecodable(reason) => Err(unreadable_response(reason)),
            Exchange::Reply(Response::Error(text)) => Err(admin_error(text)),
            Exchange::Reply(Response::Admin(AdminResponse::UserDeleted)) => Ok(()),
            Exchange::Reply(Response::Admin(_)) => Err(unexpected_response()),
        }
    }

    /// Makes the request to grant a permission to a user.
    pub fn grant_permission(user_id: UserId, permission: Permission) -> (request: Request)
        ensures
            request == Request::Admin(AdminRequest::GrantPermission { user_id, permission }),
    {
        Request::Admin(AdminRequest::GrantPermission { user_id, permission })
    }

    /// Takes the reply to that request: nothing, or the error.
    pub fn grant_permission_finished<H, M, U>(outcome: Exchange<Response<H, M, U>>) -> (result: Result<
        (),
        DatabaseError,
    >)
        ensures
            answered_as(
                outcome,
                |response: AdminResponse<H, M, U>|
                    match response {
                        AdminResponse::PermissionGranted => Some(()),
                        _ => None,
                    },
                result,
            ),
    {
        match outcome {
            Exchange::Failed(error) => Err(error),
            Exchange::Undecodable(reason) => Err(unreadable_response(reason)),
            Exchange::Reply(Response::Error(text)) => Err(admin_error(text)),
            Exchange::Reply(Response::Admin(AdminResponse::PermissionGranted)) => Ok(()),
            Exchange::Reply(Response::Admin(_)) => Err(unexpected_response()),
        }
    }

    /// Makes the request to revoke a permission of a user.
    pub fn revoke_permission(user_id: UserId, permission: Permission) -> (request: Request)
        ensures
            request == Request::Admin(AdminRequest::RevokePermission { user_id, permission }),
    {
        Request::Admin(AdminRequest::RevokePermission { user_id, permission })
    }

    /// Takes the reply to that request: nothing, or the error.
    pub fn revoke_permission_finished<H, M, U>(outcome: Exchange<Response<H, M, U>>) -> (result: Result<
        (),
        DatabaseError,
    >)
        ensures
            answered_as(
                outcome,
                |response: AdminResponse<H, M, U>|
                    match response {
                        AdminResponse::PermissionRevoked => Some(()),
                        _ => None,
                    },
                result,
            ),
    {
        match outcome {
            Exchange::Failed(error) => Err(error),
            Exchange::Undecodable(reason) => Err(unreadable_response(reason)),
            Exchange::Reply(Response::Error(text)) => Err(admin_error(text)),
            Exchange::Reply(Response::Admin(AdminResponse::PermissionRevoked)) => Ok(()),
            Exchange::Reply(Response::Admin(_)) => Err(unexpected_response()),
        }
    }

    /// Makes the request to add the node at `host`, an address of the form
    /// `hostname:port`. Fails where the address is not of that form.
    pub fn add_node(host: &str) -> (request: Result<Request, DatabaseError>)
        ensures
            match host_port(host@) {
                HostPort::Parsed(hostname, port) => request matches Ok(
                    Request::Admin(AdminRequest::AddNode { host: h, port: p }),
                ) && h@ == hostname && p == port,
                HostPort::BadFormat => request matches Err(
                    DatabaseError::InternalError { component, details },
                ) && component@ == "AdminClient"@ && details@ == "Invalid host format: "@ + host@
                    + ". Expected 'hostname:port'"@,
                HostPort::BadPort(port_text) => request matches Err(
                    DatabaseError::InternalError { component, details },
                ) && component@ == "AdminClient"@ && details@ == "Invalid port number: "@
                    + port_text,
            },
    {
        match parse_host_port(host) {
            Ok((hostname, port)) => Ok(
                Request::Admin(AdminRequest::AddNode { host: String::from_str(hostname), port }),
            ),
            Err(error) => Err(error),
        }
    }

    /// Takes the reply to that request: the identifier of the new node, or the error.
    pub fn add_node_finished<H, M, U>(outcome: Exchange<Response<H, M, U>>) -> (result: Result<
        NodeId,
        DatabaseError,
    >)
        ensures
            answered_as(
                outcome,
                |response: AdminResponse<H, M, U>|
                    match response {
                        AdminResponse::NodeAdded(node_id) => Some(node_id),
                        _ => None,
                    },
                result,
            ),
    {
        match outcome {
            Exchange::Failed(error) => Err(error),
            Exchange::Undecodable(reason) => Err(unreadable_response(reason)),
            Exchange::Reply(Response::Error(text)) => Err(admin_error(text)),
            Exchange::Reply(Response::Admin(AdminResponse::NodeAdded(node_id))) => Ok(node_id),
            Exchange::Reply(Response::Admin(_)) => Err(unexpected_response()),
        }
    }

    /// Makes the request to create a user with the given name, password and
    /// roles.
    pub fn create_user(username: &str, password: &str, roles: &[Role]) -> (request: Request)
        ensures
            request matches Request::Admin(
                AdminRequest::CreateUser { username: u, password: p, roles: r },
            ) && u@ == username@ && p@ == password@ && r@ == roles@,
    {
        Request::Admin(
            AdminRequest::CreateUser {
                username: String::from_str(username),
                password: String::from_str(password),
                roles: slice_to_vec(roles),
            },
        )
    }

    /// Takes the reply to that request: the identifier of the new user, or the error.
    pub fn create_user_finished<H, M, U>(outcome: Exchange<Response<H, M, U>>) -> (result: Result<
        UserId,
        DatabaseError,
    >)
        ensures
            answered_as(
                outcome,
                |response: AdminResponse<H, M, U>|
                    match response {
                        AdminResponse::UserCreated(user_id) => Some(user_id),
                        _ => None,
                    },
                result,
            ),
    {
        match outcome {
            Exchange::Failed(error) => Err(error),
            Exchange::Undecodable(reason) => Err(unreadable_response(reason)),
            Exchange::Reply(Response::Error(text)) => Err(admin_error(text)),
            Exchange::Reply(Response::Admin(AdminResponse::UserCreated(user_id))) => Ok(user_id),
            Exchange::Reply(Response::Admin(_)) => Err(unexpected_response()),
        }
    }

}

} // verus!
