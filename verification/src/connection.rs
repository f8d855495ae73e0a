//! Connections to cluster nodes, the pool that keeps them for reuse, the
//! health record of each node, and the retry policy with exponential
//! backoff.

use crate::auth::{AuthToken, AuthTokenView, AuthenticationManager};
use crate::clock::now_millis;
use crate::error::DatabaseError;
use crate::protocol::{Message, MessageCodec, MessageType};
use crate::retry::{RetryState, RetryStep};
use crate::text::{decimal_text, push_decimal};
use crate::types::{
    clone_strings, ConnectionConfig, Feature, NodeId, PoolConfig, RetryConfig, Timestamp,
};
use std::collections::{HashMap, VecDeque};
use vstd::prelude::*;

verus! {

/// Decides a bounded wait: `outcome` is what the operation returned, or
/// `None` where it did not finish within `timeout_ms`. A finished operation
/// keeps its result; an unfinished one becomes a `TimeoutError` that names
/// the operation and the timeout.
pub fn execute_with_timeout<T>(
    outcome: Option<Result<T, DatabaseError>>,
    timeout_ms: u64,
    operation_name: &str,
) -> (result: Result<T, DatabaseError>)
    ensures
        match outcome {
            Some(finished) => result == finished,
            None => result matches Err(DatabaseError::TimeoutError { operation, timeout_ms: t })
                && operation@ == operation_name@ && t == timeout_ms,
        },
{
    match outcome {
        Some(finished) => finished,
        None => Err(
            DatabaseError::TimeoutError {
                operation: String::from_str(operation_name),
                timeout_ms,
            },
        ),
    }
}

/// Transport protocols, ranked TLS over TCP over UDP.
#[derive(Debug, Clone, Copy, PartialEq, Eq, Structural)]
pub enum ProtocolType {
    /// Plain stream.
    TCP,
    /// Unreliable datagram.
    UDP,
    /// Encrypted stream.
    TLS,
}

impl ProtocolType {
    /// The rank of the protocol; higher is better.
    pub open spec fn rank(self) -> u8 {
        match self {
            ProtocolType::TLS => 3,
            ProtocolType::TCP => 2,
            ProtocolType::UDP => 1,
        }
    }

    /// The best protocol among `protocols`: TLS where it occurs, else TCP,
    /// else UDP, and none where the list is empty.
    pub open spec fn best_of(protocols: Seq<ProtocolType>) -> Option<ProtocolType> {
        if protocols.contains(ProtocolType::TLS) {
            Some(ProtocolType::TLS)
        } else if protocols.contains(ProtocolType::TCP) {
            Some(ProtocolType::TCP)
        } else if protocols.contains(ProtocolType::UDP) {
            Some(ProtocolType::UDP)
        } else {
            None
        }
    }

    /// The best protocol that occurs in both lists.
    pub open spec fn best_common(client: Seq<ProtocolType>, server: Seq<ProtocolType>) -> Option<
        ProtocolType,
    > {
        if client.contains(ProtocolType::TLS) && server.contains(ProtocolType::TLS) {
            Some(ProtocolType::TLS)
        } else if client.contains(ProtocolType::TCP) && server.contains(ProtocolType::TCP) {
            Some(ProtocolType::TCP)
        } else if client.contains(ProtocolType::UDP) && server.contains(ProtocolType::UDP) {
            Some(ProtocolType::UDP)
        } else {
            None
        }
    }

    /// Returns the priority of the protocol (higher is better).
    pub fn priority(&self) -> (priority: u8)
        ensures
            priority == self.rank(),
    {
        match self {
            ProtocolType::TLS => 3,
            ProtocolType::TCP => 2,
            ProtocolType::UDP => 1,
        }
    }

    /// Tells whether `protocol` occurs in `protocols`.
    pub fn is_among(protocol: ProtocolType, protocols: &[ProtocolType]) -> (found: bool)
        ensures
            found == protocols@.contains(protocol),
    {
        let mut index: usize = 0;
        while index < protocols.len()
            invariant
                index <= protocols@.len(),
                forall|i: int| 0 <= i < index ==> protocols@[i] != protocol,
            decreases protocols@.len() - index,
        {
            if protocols[index] == protocol {
                return true;
            }
            index = index + 1;
        }
        false
    }

    /// Selects the protocol of highest priority from a list.
    pub fn select_best(protocols: &[ProtocolType]) -> (best: Option<ProtocolType>)
        ensures
            best == ProtocolType::best_of(protocols@),
    {
        if ProtocolType::is_among(ProtocolType::TLS, protocols) {
            Some(ProtocolType::TLS)
        } else if ProtocolType::is_among(ProtocolType::TCP, protocols) {
            Some(ProtocolType::TCP)
        } else if ProtocolType::is_among(ProtocolType::UDP, protocols) {
            Some(ProtocolType::UDP)
        } else {
            None
        }
    }
}

/// The best protocol of a list is one of the list and no other of the list
/// ranks higher; a list without a best protocol is empty.
pub proof fn lemma_best_is_highest(protocols: Seq<ProtocolType>)
    ensures
        match ProtocolType::best_of(protocols) {
            Some(best) => protocols.contains(best) && forall|i: int|
                0 <= i < protocols.len() ==> (#[trigger] protocols[i]).rank() <= best.rank(),
            None => protocols.len() == 0,
        },
{
    if ProtocolType::best_of(protocols) is None {
        if protocols.len() > 0 {
            let first = protocols[0];
            assert(protocols.contains(first));
        }
    } else {
        let best = ProtocolType::best_of(protocols).unwrap();
        assert forall|i: int| 0 <= i < protocols.len() implies (#[trigger] protocols[i]).rank()
            <= best.rank() by {
            assert(protocols.contains(protocols[i]));
        }
    }
}

/// The best common protocol occurs in both lists, and no protocol that
/// occurs in both ranks higher; where there is none, the lists share no
/// protocol.
pub proof fn lemma_best_common_is_highest_shared(
    client: Seq<ProtocolType>,
    server: Seq<ProtocolType>,
)
    ensures
        match ProtocolType::best_common(client, server) {
            Some(best) => client.contains(best) && server.contains(best) && forall|
                p: ProtocolType,
            |
                client.contains(p) && server.contains(p) ==> p.rank() <= best.rank(),
            None => forall|p: ProtocolType| !(client.contains(p) && server.contains(p)),
        },
{
}

/// Health record of one node.
#[derive(Debug, Clone, Copy)]
pub struct NodeHealth {
    /// Node identifier.
    pub node_id: NodeId,
    /// Whether the node is healthy.
    pub is_healthy: bool,
    /// Time of the last health check.
    pub last_check: Timestamp,
    /// Number of consecutive failures.
    pub consecutive_failures: u32,
}

impl NodeHealth {
    /// The record of a node first seen at `now`: healthy, without failures.
    pub open spec fn fresh(node_id: NodeId, now: Timestamp) -> NodeHealth {
        NodeHealth { node_id, is_healthy: true, last_check: now, consecutive_failures: 0 }
    }

    /// The record after a healthy observation at `now`: the failure count
    /// is back at zero.
    pub open spec fn healthy_at(self, now: Timestamp) -> NodeHealth {
        NodeHealth {
            node_id: self.node_id,
            is_healthy: true,
            last_check: now,
            consecutive_failures: 0,
        }
    }

    /// The record after an unhealthy observation at `now`: one more
    /// failure, up to the largest count that the counter holds.
    pub open spec fn unhealthy_at(self, now: Timestamp) -> NodeHealth {
        NodeHealth {
            node_id: self.node_id,
            is_healthy: false,
            last_check: now,
            consecutive_failures: if self.consecutive_failures < u32::MAX {
                (self.consecutive_failures + 1) as u32
            } else {
                u32::MAX
            },
        }
    }

    /// Creates the record of a healthy node first seen at `now`.
    pub fn new_at(node_id: NodeId, now: Timestamp) -> (health: Self)
        ensures
            health == NodeHealth::fresh(node_id, now),
    {
        NodeHealth { node_id, is_healthy: true, last_check: now, consecutive_failures: 0 }
    }

    /// Records a healthy observation at `now`.
    pub fn mark_healthy_at(&mut self, now: Timestamp)
        ensures
            *final(self) == old(self).healthy_at(now),
    {
        self.is_healthy = true;
        self.consecutive_failures = 0;
        self.last_check = now;
    }

    /// Records an unhealthy observation at `now`.
    pub fn mark_unhealthy_at(&mut self, now: Timestamp)
        ensures
            *final(self) == old(self).unhealthy_at(now),
    {
        self.is_healthy = false;
        if self.consecutive_failures < u32::MAX {
            self.consecutive_failures = self.consecutive_failures + 1;
        }
        self.last_check = now;
    }

    /// Creates the record of a healthy node, checked by the clock.
    pub fn new(node_id: NodeId) -> (health: Self)
        ensures
            exists|now: Timestamp| health == #[trigger] NodeHealth::fresh(node_id, now),
    {
        let now = now_millis();
        let health = NodeHealth::new_at(node_id, now);
        assert(health == NodeHealth::fresh(node_id, now));
        health
    }

    /// Marks the node as healthy, by the clock.
    pub fn mark_healthy(&mut self)
        ensures
            exists|now: Timestamp| *final(self) == #[trigger] old(self).healthy_at(now),
    {
        let now = now_millis();
        self.mark_healthy_at(now);
        assert(*self == old(self).healthy_at(now));
    }

    /// Marks the node as unhealthy, by the clock.
    pub fn mark_unhealthy(&mut self)
        ensures
            exists|now: Timestamp| *final(self) == #[trigger] old(self).unhealthy_at(now),
    {
        let now = now_millis();
        self.mark_unhealthy_at(now);
        assert(*self == old(self).unhealthy_at(now));
    }
}

/// How an attempt to reach a host ended. `S` is the transport session that
/// a successful attempt hands over; the library keeps it and never looks
/// inside.
pub enum DialOutcome<S> {
    /// The host was reached; the session is ready, in low-latency mode.
    Connected(S),
    /// The host did not answer within the timeout.
    TimedOut,
    /// The host refused the connection.
    Refused,
    /// The attempt failed for another reason, given as text.
    Failed(String),
    /// The host was reached, but low-latency mode could not be set; the
    /// reason is given as text.
    Unconfigured(String),
}

impl<S> DialOutcome<S> {
    /// Whether `result` is what this outcome of dialing `host` becomes: the
    /// session, or the error that names the kind of failure, the host and
    /// the timeout.
    pub open spec fn opened_as(
        self,
        host: Seq<char>,
        timeout_ms: u64,
        result: Result<S, DatabaseError>,
    ) -> bool {
        match self {
            DialOutcome::Connected(session) => result == Ok::<S, DatabaseError>(session),
            DialOutcome::TimedOut => result matches Err(
                DatabaseError::ConnectionTimeout { host: h, timeout_ms: t },
            ) && h@ == host && t == timeout_ms,
            DialOutcome::Refused => result matches Err(DatabaseError::ConnectionRefused { host: h })
                && h@ == host,
            DialOutcome::Failed(reason) => result matches Err(
                DatabaseError::NetworkError { details },
            ) && details@ == "Failed to connect to "@ + host + ": "@ + reason@,
            DialOutcome::Unconfigured(reason) => result matches Err(
                DatabaseError::NetworkError { details },
            ) && details@ == "Failed to set TCP_NODELAY: "@ + reason@,
        }
    }

    /// Turns the outcome of dialing `host` into the session or the error.
    pub fn open(self, host: &str, timeout_ms: u64) -> (result: Result<S, DatabaseError>)
        ensures
            self.opened_as(host@, timeout_ms, result),
    {
        match self {
            DialOutcome::Connected(session) => Ok(session),
            DialOutcome::TimedOut => Err(
                DatabaseError::ConnectionTimeout { host: String::from_str(host), timeout_ms },
            ),
            DialOutcome::Refused => Err(
                DatabaseError::ConnectionRefused { host: String::from_str(host) },
            ),
            DialOutcome::Failed(reason) => {
                let mut details = String::from_str("Failed to connect to ");
                details.append(host);
                details.append(": ");
                details.append(reason.as_str());
                Err(DatabaseError::NetworkError { details })
            },
            DialOutcome::Unconfigured(reason) => {
                let mut details = String::from_str("Failed to set TCP_NODELAY: ");
                details.append(reason.as_str());
                Err(DatabaseError::NetworkError { details })
            },
        }
    }
}

/// The features that both sides support, in the order in which the client
/// lists them.
pub open spec fn shared_features(client: Seq<Feature>, server: Seq<Feature>) -> Seq<Feature>
    decreases client.len(),
{
    if client.len() == 0 {
        Seq::empty()
    } else {
        let earlier = shared_features(client.drop_last(), server);
        if server.contains(client.last()) {
            earlier.push(client.last())
        } else {
            earlier
        }
    }
}

/// A feature is shared exactly when both sides list it.
pub proof fn lemma_shared_is_intersection(client: Seq<Feature>, server: Seq<Feature>, feature: Feature)
    ensures
        shared_features(client, server).contains(feature) <==> client.contains(feature)
            && server.contains(feature),
    decreases client.len(),
{
    if client.len() > 0 {
        let earlier = shared_features(client.drop_last(), server);
        lemma_shared_is_intersection(client.drop_last(), server, feature);
        let last = client.last();
        if client.contains(feature) {
            let i = choose|i: int| 0 <= i < client.len() && client[i] == feature;
            if i < client.len() - 1 {
                assert(client.drop_last()[i] == feature);
            }
        }
        if client.drop_last().contains(feature) {
            let i = choose|i: int| 0 <= i < client.drop_last().len() && client.drop_last()[i] == feature;
            assert(client[i] == feature);
        }
        if server.contains(last) {
            let all = earlier.push(last);
            assert(all[earlier.len() as int] == last);
            if earlier.contains(feature) {
                let i = choose|i: int| 0 <= i < earlier.len() && earlier[i] == feature;
                assert(all[i] == feature);
            }
            if all.contains(feature) {
                let i = choose|i: int| 0 <= i < all.len() && all[i] == feature;
                if i < earlier.len() {
                    assert(earlier[i] == feature);
                }
            }
        }
        assert(client[client.len() - 1] == last);
    }
}

/// Tells whether `feature` occurs in `features`.
pub fn has_feature_among(feature: Feature, features: &[Feature]) -> (found: bool)
    ensures
        found == features@.contains(feature),
{
    let mut index: usize = 0;
    while index < features.len()
        invariant
            index <= features@.len(),
            forall|i: int| 0 <= i < index ==> features@[i] != feature,
        decreases features@.len() - index,
    {
        if features[index] == feature {
            return true;
        }
        index = index + 1;
    }
    false
}

/// A connection as a mathematical value.
pub struct ConnectionView<S> {
    /// The transport session.
    pub session: S,
    /// The node at the other end.
    pub node_id: NodeId,
    /// The largest message that the connection's codec admits.
    pub max_message_size: usize,
    /// Whether messages may be compressed.
    pub compression_enabled: bool,
    /// Size from which messages are compressed.
    pub compression_threshold: usize,
    /// The sequence number of the next request.
    pub sequence_number: u64,
    /// The token attached by authentication, if any.
    pub auth_token: Option<AuthTokenView>,
    /// The negotiated protocol.
    pub protocol: ProtocolType,
    /// The negotiated features.
    pub negotiated_features: Seq<Feature>,
}

impl<S> ConnectionView<S> {
    /// A connection as it is right after dialing: sequence numbers start at
    /// zero, no token is attached, the protocol is TCP and no feature has
    /// been negotiated.
    pub open spec fn opened(
        session: S,
        node_id: NodeId,
        compression_enabled: bool,
        compression_threshold: usize,
    ) -> ConnectionView<S> {
        ConnectionView {
            session,
            node_id,
            max_message_size: 1048576,
            compression_enabled,
            compression_threshold,
            sequence_number: 0,
            auth_token: None,
            protocol: ProtocolType::TCP,
            negotiated_features: Seq::empty(),
        }
    }

    /// The sequence number that follows the current one; after the largest
    /// it starts again at zero.
    pub open spec fn next_sequence_number(self) -> u64 {
        if self.sequence_number == u64::MAX {
            0
        } else {
            (self.sequence_number + 1) as u64
        }
    }

    /// The connection after it has given out a sequence number.
    pub open spec fn advanced(self) -> ConnectionView<S> {
        ConnectionView { sequence_number: self.next_sequence_number(), ..self }
    }

    /// The connection after negotiation against the server's features: it
    /// holds the shared features, and compression stays on only if it is
    /// among them.
    pub open spec fn negotiated(self, client: Seq<Feature>, server: Seq<Feature>) -> ConnectionView<S> {
        ConnectionView {
            negotiated_features: shared_features(client, server),
            compression_enabled: self.compression_enabled && shared_features(
                client,
                server,
            ).contains(Feature::Compression),
            ..self
        }
    }

    /// Why a request that needs authentication cannot be sent at `now`, if
    /// it cannot: no token is attached, or the token has expired.
    pub open spec fn refusal_at(self, now: Timestamp) -> Option<AuthRefusal> {
        match self.auth_token {
            None => Some(AuthRefusal::NoToken),
            Some(token) => if token.expired_at(now) {
                Some(AuthRefusal::Expired { expired_at: token.expiration })
            } else {
                None
            },
        }
    }
}

/// Why a request that needs authentication is not sent.
pub enum AuthRefusal {
    /// No token is attached to the connection.
    NoToken,
    /// The attached token has expired.
    Expired {
        /// When it expired.
        expired_at: Timestamp,
    },
}

/// A live session to one node.
pub struct Connection<S> {
    session: S,
    node_id: NodeId,
    codec: MessageCodec,
    compression_enabled: bool,
    compression_threshold: usize,
    sequence_number: u64,
    auth_token: Option<AuthToken>,
    protocol: ProtocolType,
    negotiated_features: Vec<Feature>,
}

impl<S> View for Connection<S> {
    type V = ConnectionView<S>;

    closed spec fn view(&self) -> ConnectionView<S> {
        ConnectionView {
            session: self.session,
            node_id: self.node_id,
            max_message_size: self.codec.max_message_size,
            compression_enabled: self.compression_enabled,
            compression_threshold: self.compression_threshold,
            sequence_number: self.sequence_number,
            auth_token: match self.auth_token {
                Some(token) => Some(token@),
                None => None,
            },
            protocol: self.protocol,
            negotiated_features: self.negotiated_features@,
        }
    }
}

impl<S> Connection<S> {
    /// The request that goes out for the given kind and payload at `now`:
    /// from the client (sender 0) to the connection's node, under the
    /// current sequence number, with an intact checksum.
    pub open spec fn request_of(
        view: ConnectionView<S>,
        message_type: MessageType,
        payload: Seq<u8>,
        now: Timestamp,
        request: Message,
    ) -> bool {
        &&& request.sender == 0
        &&& request.recipient == view.node_id
        &&& request.sequence_number == view.sequence_number
        &&& request.timestamp == now
        &&& request.message_type == message_type
        &&& request.payload@ == payload
        &&& request@.intact()
    }

    /// Makes the connection from the outcome of dialing `host`. A failed
    /// attempt becomes the error of its kind.
    pub fn connect(host: &str, node_id: NodeId, timeout_ms: u64, outcome: DialOutcome<S>) -> (result:
        Result<Self, DatabaseError>)
        ensures
            match result {
                Ok(connection) => outcome matches DialOutcome::Connected(session)
                    && connection@ == ConnectionView::opened(session, node_id, false, 0),
                Err(error) => !(outcome is Connected) && outcome.opened_as(
                    host@,
                    timeout_ms,
                    Err(error),
                ),
            },
    {
        match outcome.open(host, timeout_ms) {
            Ok(session) => Ok(
                Connection {
                    session,
                    node_id,
                    codec: MessageCodec::new(),
                    compression_enabled: false,
                    compression_threshold: 0,
                    sequence_number: 0,
                    auth_token: None,
                    protocol: ProtocolType::TCP,
                    negotiated_features: Vec::new(),
                },
            ),
            Err(error) => Err(error),
        }
    }

    /// Makes the connection from the outcome of dialing `host`, with the
    /// timeout and the compression settings of `config`.
    pub fn connect_with_config(
        host: &str,
        node_id: NodeId,
        config: &ConnectionConfig,
        outcome: DialOutcome<S>,
    ) -> (result: Result<Self, DatabaseError>)
        ensures
            match result {
                Ok(connection) => outcome matches DialOutcome::Connected(session)
                    && connection@ == ConnectionView::opened(
                    session,
                    node_id,
                    config.compression_enabled,
                    config.compression_threshold,
                ),
                Err(error) => !(outcome is Connected) && outcome.opened_as(
                    host@,
                    config.timeout_ms,
                    Err(error),
                ),
            },
    {
        match outcome.open(host, config.timeout_ms) {
            Ok(session) => Ok(
                Connection {
                    session,
                    node_id,
                    codec: MessageCodec::new(),
                    compression_enabled: config.compression_enabled,
                    compression_threshold: config.compression_threshold,
                    sequence_number: 0,
                    auth_token: None,
                    protocol: ProtocolType::TCP,
                    negotiated_features: Vec::new(),
                },
            ),
            Err(error) => Err(error),
        }
    }

    /// Returns the node ID.
    pub fn node_id(&self) -> (node_id: NodeId)
        ensures
            node_id == self@.node_id,
    {
        self.node_id
    }

    /// The transport session, to read from and write to.
    pub fn session_mut(&mut self) -> (session: &mut S)
        ensures
            *session == old(self)@.session,
            final(self)@ == (ConnectionView { session: *final(session), ..old(self)@ }),
    {
        &mut self.session
    }

    /// Gives up the connection and hands back its transport session.
    pub fn into_session(self) -> (session: S)
        ensures
            session == self@.session,
    {
        self.session
    }

    /// Tells whether messages on this connection may be compressed.
    pub fn compression_enabled(&self) -> (enabled: bool)
        ensures
            enabled == self@.compression_enabled,
    {
        self.compression_enabled
    }

    /// Hands out the current sequence number and moves on to the next.
    pub fn next_sequence_number(&mut self) -> (number: u64)
        ensures
            number == old(self)@.sequence_number,
            final(self)@ == old(self)@.advanced(),
    {
        let number = self.sequence_number;
        self.sequence_number = if number == u64::MAX {
            0
        } else {
            number + 1
        };
        number
    }

    /// The bytes that put `message` on the stream: its frame.
    pub fn send_message(&self, message: &Message) -> (framed: Result<Vec<u8>, DatabaseError>)
        ensures
            match framed {
                Ok(bytes) => (MessageCodec { max_message_size: self@.max_message_size })
                    .frame_outcome(message@) == Some(bytes@),
                Err(error) => error matches DatabaseError::MessageTooLarge { size, max_size }
                    && size == message@.wire_body().len() && max_size == (MessageCodec {
                    max_message_size: self@.max_message_size,
                }).frame_limit() && (MessageCodec {
                    max_message_size: self@.max_message_size,
                }).frame_outcome(message@) is None,
            },
    {
        self.codec.encode_with_length(message)
    }

    /// Reads the length that a prefix declares, and refuses one over the
    /// maximum of this connection before any of the body is read.
    pub fn frame_length(&self, prefix: &[u8; 4]) -> (length: Result<usize, DatabaseError>)
        ensures
            match length {
                Ok(declared) => declared == crate::protocol::be32_value(prefix@) && declared
                    <= self@.max_message_size,
                Err(error) => error matches DatabaseError::MessageTooLarge { size, max_size }
                    && size == crate::protocol::be32_value(prefix@) && max_size
                    == self@.max_message_size && size > self@.max_message_size,
            },
    {
        self.codec.frame_length(prefix)
    }

    /// Reads one message from the front of what the stream delivered.
    pub fn receive_message(&self, input: &[u8]) -> (message: Result<Message, DatabaseError>)
        ensures
            (MessageCodec { max_message_size: self@.max_message_size }).read_as(input@, message),
    {
        self.codec.read_message(input)
    }

    /// Makes the request that goes out at `now` for the given kind and
    /// payload, and moves the sequence number on.
    pub fn send_request(&mut self, message_type: MessageType, payload: Vec<u8>, now: Timestamp) -> (request:
        Message)
        ensures
            Self::request_of(old(self)@, message_type, payload@, now, request),
            final(self)@ == old(self)@.advanced(),
    {
        let number = self.next_sequence_number();
        Message::new(0, self.node_id, number, now, message_type, payload)
    }

    /// Decides what a request with a bounded wait returns: the reply that
    /// arrived, or a `TimeoutError` for `send_request` where none arrived
    /// within `timeout_ms`.
    pub fn send_request_with_timeout(reply: Option<Result<Message, DatabaseError>>, timeout_ms: u64) -> (result:
        Result<Message, DatabaseError>)
        ensures
            match reply {
                Some(arrived) => result == arrived,
                None => result matches Err(
                    DatabaseError::TimeoutError { operation, timeout_ms: t },
                ) && operation@ == "send_request"@ && t == timeout_ms,
            },
    {
        execute_with_timeout(reply, timeout_ms, "send_request")
    }

    /// Whether the connection and the manager are, after authenticating at
    /// `now`, what they were before with this difference: on success the
    /// manager holds the token that it issued and the same token is attached
    /// to the connection; on failure the manager is as authentication left
    /// it and the connection is untouched.
    pub open spec fn authenticated_as(
        before: ConnectionView<S>,
        after: ConnectionView<S>,
        manager_before: AuthenticationManager,
        manager_after: AuthenticationManager,
        now: Timestamp,
        result: Result<(), DatabaseError>,
    ) -> bool {
        match result {
            Ok(_) => {
                &&& manager_before.credentials().usable()
                &&& manager_after.credentials() == manager_before.credentials()
                &&& manager_after.token_ttl_ms() == manager_before.token_ttl_ms()
                &&& manager_after.token() == Some(
                    manager_before.issued(1, seq![crate::types::Role::User], now),
                )
                &&& after == (ConnectionView { auth_token: manager_after.token(), ..before })
            },
            Err(error) => {
                &&& manager_before.authenticated_as(manager_after, now, Err(error))
                &&& after == before
            },
        }
    }

    /// Authenticates with `auth_manager` at `now` and attaches the token.
    /// Where authentication fails the connection stays as it was.
    pub fn authenticate_at(&mut self, auth_manager: &mut AuthenticationManager, now: Timestamp) -> (result:
        Result<(), DatabaseError>)
        ensures
            Self::authenticated_as(
                old(self)@,
                final(self)@,
                *old(auth_manager),
                *final(auth_manager),
                now,
                result,
            ),
    {
        match auth_manager.authenticate_at(now) {
            Ok(token) => {
                self.auth_token = Some(token);
                Ok(())
            },
            Err(error) => Err(error),
        }
    }

    /// Authenticates with `auth_manager` by the clock and attaches the
    /// token.
    pub fn authenticate(&mut self, auth_manager: &mut AuthenticationManager) -> (result: Result<
        (),
        DatabaseError,
    >)
        ensures
            exists|now: Timestamp| #[trigger]
                Self::authenticated_as(
                    old(self)@,
                    final(self)@,
                    *old(auth_manager),
                    *final(auth_manager),
                    now,
                    result,
                ),
    {
        let now = now_millis();
        let result = self.authenticate_at(auth_manager, now);
        assert(Self::authenticated_as(
            old(self)@,
            self@,
            *old(auth_manager),
            *auth_manager,
            now,
            result,
        ));
        result
    }

    /// Checks at `now` that a token is attached and has not expired, then
    /// makes the request as `send_request` does. Where the check fails the
    /// connection stays as it was.
    pub fn send_authenticated_request(
        &mut self,
        message_type: MessageType,
        payload: Vec<u8>,
        now: Timestamp,
    ) -> (request: Result<Message, DatabaseError>)
        ensures
            match old(self)@.refusal_at(now) {
                None => request matches Ok(message) && Self::request_of(
                    old(self)@,
                    message_type,
                    payload@,
                    now,
                    message,
                ) && final(self)@ == old(self)@.advanced(),
                Some(AuthRefusal::NoToken) => request matches Err(
                    DatabaseError::AuthenticationFailed { reason },
                ) && reason@ == "No auth token"@ && final(self)@ == old(self)@,
                Some(AuthRefusal::Expired { expired_at }) => request matches Err(
                    DatabaseError::TokenExpired { expired_at: at },
                ) && at == expired_at && final(self)@ == old(self)@,
            },
    {
        match &self.auth_token {
            Some(token) => {
                if token.is_expired_at(now) {
                    return Err(DatabaseError::TokenExpired { expired_at: token.expiration });
                }
            },
            None => {
                return Err(
                    DatabaseError::AuthenticationFailed {
                        reason: String::from_str("No auth token"),
                    },
                );
            },
        }
        Ok(self.send_request(message_type, payload, now))
    }

    /// Sets the negotiated protocol.
    pub fn set_protocol(&mut self, protocol: ProtocolType)
        ensures
            final(self)@ == (ConnectionView { protocol, ..old(self)@ }),
    {
        self.protocol = protocol;
    }

    /// Gets the negotiated protocol.
    pub fn protocol(&self) -> (protocol: ProtocolType)
        ensures
            protocol == self@.protocol,
    {
        self.protocol
    }

    /// Gets the authentication token.
    pub fn auth_token(&self) -> (token: Option<&AuthToken>)
        ensures
            match token {
                Some(token) => self@.auth_token == Some(token@),
                None => self@.auth_token is None,
            },
    {
        self.auth_token.as_ref()
    }

    /// Adopts the features that both the client and the server support, and
    /// returns them. Compression is switched off unless it is among them.
    pub fn negotiate_features(&mut self, client_features: Vec<Feature>, server_features: &[Feature]) -> (negotiated:
        Vec<Feature>)
        ensures
            negotiated@ == shared_features(client_features@, server_features@),
            final(self)@ == old(self)@.negotiated(client_features@, server_features@),
    {
        let mut negotiated: Vec<Feature> = Vec::new();
        let mut kept: Vec<Feature> = Vec::new();
        let mut index: usize = 0;
        while index < client_features.len()
            invariant
                index <= client_features@.len(),
                negotiated@ == shared_features(client_features@.take(index as int), server_features@),
                kept@ == negotiated@,
            decreases client_features@.len() - index,
        {
            let feature = client_features[index];
            assert(client_features@.take(index + 1).drop_last() =~= client_features@.take(
                index as int,
            ));
            if has_feature_among(feature, server_features) {
                negotiated.push(feature);
                kept.push(feature);
            }
            index = index + 1;
        }
        assert(client_features@.take(index as int) =~= client_features@);
        self.negotiated_features = kept;
        if !has_feature_among(Feature::Compression, self.negotiated_features.as_slice()) {
            self.compression_enabled = false;
        }
        negotiated
    }

    /// Checks if a feature has been negotiated.
    pub fn has_feature(&self, feature: &Feature) -> (found: bool)
        ensures
            found == self@.negotiated_features.contains(*feature),
    {
        has_feature_among(*feature, self.negotiated_features.as_slice())
    }

    /// Gets the negotiated features.
    pub fn negotiated_features(&self) -> (features: &[Feature])
        ensures
            features@ == self@.negotiated_features,
    {
        self.negotiated_features.as_slice()
    }
}

/// A pooled connection as a mathematical value.
pub struct PooledConnectionView<S> {
    /// The connection.
    pub connection: ConnectionView<S>,
    /// When the connection was made.
    pub created_at: Timestamp,
    /// When the connection was last handed out.
    pub last_used: Timestamp,
}

impl<S> PooledConnectionView<S> {
    /// Whether the connection has been idle for longer than the timeout.
    pub open spec fn idle_at(self, idle_timeout_ms: u64, now: Timestamp) -> bool {
        now - self.last_used > idle_timeout_ms
    }

    /// Whether the connection has lived for longer than the maximum
    /// lifetime.
    pub open spec fn expired_at(self, max_lifetime_ms: u64, now: Timestamp) -> bool {
        now - self.created_at > max_lifetime_ms
    }

    /// Whether the pool may still hand the connection out at `now`: it
    /// has exceeded neither its lifetime nor its idle time.
    pub open spec fn reusable_at(self, config: PoolConfig, now: Timestamp) -> bool {
        !self.expired_at(config.max_lifetime_ms, now) && !self.idle_at(config.idle_timeout_ms, now)
    }

    /// The connection handed out at `now`.
    pub open spec fn touched(self, now: Timestamp) -> PooledConnectionView<S> {
        PooledConnectionView { last_used: now, ..self }
    }
}

/// A connection together with the times that the pool judges it by.
pub struct PooledConnection<S> {
    connection: Connection<S>,
    created_at: Timestamp,
    last_used: Timestamp,
}

impl<S> View for PooledConnection<S> {
    type V = PooledConnectionView<S>;

    closed spec fn view(&self) -> PooledConnectionView<S> {
        PooledConnectionView {
            connection: self.connection@,
            created_at: self.created_at,
            last_used: self.last_used,
        }
    }
}

impl<S> PooledConnection<S> {
    /// Wraps a connection made at `now`.
    pub fn new_at(connection: Connection<S>, now: Timestamp) -> (pooled: Self)
        ensures
            pooled@ == (PooledConnectionView {
                connection: connection@,
                created_at: now,
                last_used: now,
            }),
    {
        PooledConnection { connection, created_at: now, last_used: now }
    }

    /// Records that the connection is handed out at `now`.
    pub fn touch_at(&mut self, now: Timestamp)
        ensures
            final(self)@ == old(self)@.touched(now),
    {
        self.last_used = now;
    }

    /// Tells whether the connection has been idle for longer than
    /// `idle_timeout_ms` at `now`.
    pub fn is_idle_at(&self, idle_timeout_ms: u64, now: Timestamp) -> (idle: bool)
        ensures
            idle == self@.idle_at(idle_timeout_ms, now),
    {
        (now as i128) - (self.last_used as i128) > (idle_timeout_ms as i128)
    }

    /// Tells whether the connection has lived for longer than
    /// `max_lifetime_ms` at `now`.
    pub fn is_expired_at(&self, max_lifetime_ms: u64, now: Timestamp) -> (expired: bool)
        ensures
            expired == self@.expired_at(max_lifetime_ms, now),
    {
        (now as i128) - (self.created_at as i128) > (max_lifetime_ms as i128)
    }

    /// Gets a mutable reference to the underlying connection.
    pub fn connection_mut(&mut self) -> (connection: &mut Connection<S>)
        ensures
            connection@ == old(self)@.connection,
            final(self)@ == (PooledConnectionView {
                connection: final(connection)@,
                ..old(self)@
            }),
    {
        &mut self.connection
    }

    /// Gets the node ID.
    pub fn node_id(&self) -> (node_id: NodeId)
        ensures
            node_id == self@.connection.node_id,
    {
        self.connection.node_id()
    }
}

/// The views of a list of pooled connections.
pub open spec fn pooled_views<S>(connections: Seq<PooledConnection<S>>) -> Seq<
    PooledConnectionView<S>,
> {
    Seq::new(connections.len(), |i: int| connections[i]@)
}

/// Those of `connections` that may still be handed out at `now`, in their
/// order.
pub open spec fn reusable_among<S>(
    connections: Seq<PooledConnectionView<S>>,
    config: PoolConfig,
    now: Timestamp,
) -> Seq<PooledConnectionView<S>>
    decreases connections.len(),
{
    if connections.len() == 0 {
        Seq::empty()
    } else {
        let earlier = reusable_among(connections.drop_last(), config, now);
        if connections.last().reusable_at(config, now) {
            earlier.push(connections.last())
        } else {
            earlier
        }
    }
}

/// Purging never adds a connection.
pub proof fn lemma_reusable_is_no_longer<S>(
    connections: Seq<PooledConnectionView<S>>,
    config: PoolConfig,
    now: Timestamp,
)
    ensures
        reusable_among(connections, config, now).len() <= connections.len(),
    decreases connections.len(),
{
    if connections.len() > 0 {
        lemma_reusable_is_no_longer(connections.drop_last(), config, now);
    }
}

/// Every connection that survives purging may be handed out.
pub proof fn lemma_reusable_are_reusable<S>(
    connections: Seq<PooledConnectionView<S>>,
    config: PoolConfig,
    now: Timestamp,
    index: int,
)
    requires
        0 <= index < reusable_among(connections, config, now).len(),
    ensures
        reusable_among(connections, config, now)[index].reusable_at(config, now),
    decreases connections.len(),
{
    if connections.len() > 0 {
        let earlier = reusable_among(connections.drop_last(), config, now);
        if index < earlier.len() {
            lemma_reusable_are_reusable(connections.drop_last(), config, now, index);
        }
    }
}

/// A connection pool as a mathematical value.
pub struct PoolView<S> {
    /// The connections that wait for reuse, oldest first.
    pub available: Seq<PooledConnectionView<S>>,
    /// The count of connections made and not discarded.
    pub total_connections: u32,
    /// The limits of the pool.
    pub config: PoolConfig,
    /// The hosts to dial, in order.
    pub hosts: Seq<Seq<char>>,
    /// The timeout of a dial, in milliseconds.
    pub timeout_ms: u64,
}

/// What the pool answers to a request for a connection.
pub enum Checkout<S> {
    /// A connection from the pool, ready for use.
    Ready(PooledConnection<S>),
    /// No connection is available and the pool has room: dial a new one.
    MustDial,
}

/// One step of making a new connection.
pub enum DialStep<S> {
    /// Dial this host next.
    Dial(DialTarget),
    /// The connection is made.
    Connected(PooledConnection<S>),
    /// No connection could be made.
    Failed(DatabaseError),
}

/// A host to dial.
#[derive(Debug)]
pub struct DialTarget {
    /// Position of the host in the pool's list.
    pub index: usize,
    /// Address of the host.
    pub host: String,
    /// Identifier of the node: its position in the list, counted from one.
    pub node_id: NodeId,
    /// Timeout of the dial in milliseconds.
    pub timeout_ms: u64,
}

impl<S> PoolView<S> {
    /// The count never exceeds the maximum.
    pub open spec fn within_limit(self) -> bool {
        self.total_connections <= self.config.max_connections
    }

    /// Every available connection is counted.
    pub open spec fn counted(self) -> bool {
        self.available.len() <= self.total_connections
    }

    /// How many requests can still be served without a connection being
    /// returned: the available connections and the room left under the
    /// maximum.
    pub open spec fn capacity(self) -> int {
        self.available.len() + (self.config.max_connections - self.total_connections)
    }

    /// The available connections that may still be handed out at `now`.
    pub open spec fn reusable(self, now: Timestamp) -> Seq<PooledConnectionView<S>> {
        reusable_among(self.available, self.config, now)
    }

    /// How many of the available connections are stale at `now`.
    pub open spec fn stale(self, now: Timestamp) -> int {
        self.available.len() - self.reusable(now).len()
    }

    /// The pool with its stale connections purged at `now`: they are gone
    /// from the available ones, and they are counted no longer.
    pub open spec fn purged(self, now: Timestamp) -> PoolView<S> {
        PoolView {
            available: self.reusable(now),
            total_connections: if self.total_connections >= self.stale(now) {
                (self.total_connections - self.stale(now)) as u32
            } else {
                0
            },
            ..self
        }
    }

    /// The pool after a request at `now`: the stale connections are purged,
    /// and the first of the others, if there is one, is handed out.
    pub open spec fn after_checkout(self, now: Timestamp) -> PoolView<S> {
        PoolView {
            available: if self.reusable(now).len() > 0 {
                self.reusable(now).skip(1)
            } else {
                self.reusable(now)
            },
            ..self.purged(now)
        }
    }

    /// The text of the error that tells that the pool is exhausted.
    pub open spec fn exhausted_text(self) -> Seq<char> {
        "Connection pool exhausted (max: "@ + decimal_text(self.config.max_connections as nat)
            + ")"@
    }

    /// Whether `error` tells that the pool is exhausted.
    pub open spec fn is_exhausted(self, error: DatabaseError) -> bool {
        error matches DatabaseError::InternalError { component, details } && component@
            == "ConnectionPool"@ && details@ == self.exhausted_text()
    }

    /// Whether `result` is what a request at `now` returns: the first
    /// reusable connection, refreshed; else the order to dial where the pool
    /// has room once the stale connections are purged; else the error that
    /// tells that the pool is exhausted.
    pub open spec fn checked_out_as(self, now: Timestamp, result: Result<Checkout<S>, DatabaseError>) -> bool {
        if self.reusable(now).len() > 0 {
            result matches Ok(Checkout::Ready(connection)) && connection@ == self.reusable(now)[0].touched(
                now,
            )
        } else if self.purged(now).total_connections >= self.config.max_connections {
            result matches Err(error) && self.is_exhausted(error)
        } else {
            result matches Ok(Checkout::MustDial)
        }
    }

    /// The target for the host at `index`.
    pub open spec fn is_target(self, index: int, target: DialTarget) -> bool {
        &&& 0 <= index < self.hosts.len()
        &&& target.index == index
        &&& target.host@ == self.hosts[index]
        &&& target.node_id == index + 1
        &&& target.timeout_ms == self.timeout_ms
    }

    /// The pool after a connection has been returned at `now`: a stale one
    /// is discarded and no longer counted, another waits at the end of the
    /// available ones.
    pub open spec fn after_return(self, connection: PooledConnectionView<S>, now: Timestamp) -> PoolView<S> {
        if connection.reusable_at(self.config, now) {
            PoolView { available: self.available.push(connection), ..self }
        } else {
            PoolView {
                total_connections: if self.total_connections > 0 {
                    (self.total_connections - 1) as u32
                } else {
                    0
                },
                ..self
            }
        }
    }
}

/// Keeps connections for reuse, bounded by a maximum count.
pub struct ConnectionPool<S> {
    available: VecDeque<PooledConnection<S>>,
    config: PoolConfig,
    total_connections: u32,
    hosts: Vec<String>,
    timeout_ms: u64,
}

impl<S> View for ConnectionPool<S> {
    type V = PoolView<S>;

    closed spec fn view(&self) -> PoolView<S> {
        PoolView {
            available: pooled_views(self.available@),
            total_connections: self.total_connections,
            config: self.config,
            hosts: self.hosts.deep_view(),
            timeout_ms: self.timeout_ms,
        }
    }
}

impl<S> ConnectionPool<S> {
    /// Creates an empty pool. Where `max_connections` is zero the pool
    /// never holds a connection.
    pub fn new(hosts: Vec<String>, config: PoolConfig, timeout_ms: u64) -> (pool: Self)
        ensures
            pool@ == (PoolView::<S> {
                available: Seq::empty(),
                total_connections: 0,
                config,
                hosts: hosts.deep_view(),
                timeout_ms,
            }),
            pool@.within_limit(),
    {
        let pool = ConnectionPool {
            available: VecDeque::new(),
            config,
            total_connections: 0,
            hosts,
            timeout_ms,
        };
        assert(pooled_views(pool.available@) =~= Seq::empty());
        pool
    }

    /// Removes from the available connections those that have exceeded
    /// their lifetime or idle time at `now`, and counts them no longer.
    fn purge_at(&mut self, now: Timestamp)
        ensures
            final(self)@ == old(self)@.purged(now),
    {
        let ghost before = pooled_views(self.available@);
        let ghost total = self.available@.len();
        let count = self.available.len();
        assert(total == count);
        let mut kept: usize = 0;
        let mut seen: usize = 0;
        while kept < self.available.len()
            invariant
                self.config == old(self).config,
                self.hosts == old(self).hosts,
                self.timeout_ms == old(self).timeout_ms,
                before == old(self)@.available,
                total == before.len(),
                total <= usize::MAX,
                kept <= seen <= total,
                self.total_connections == if old(self).total_connections >= seen - kept {
                    old(self).total_connections - (seen - kept)
                } else {
                    0
                },
                self.available@.len() == kept + (total - seen),
                pooled_views(self.available@).take(kept as int) == reusable_among(
                    before.take(seen as int),
                    self.config,
                    now,
                ),
                pooled_views(self.available@).skip(kept as int) == before.skip(seen as int),
            decreases total - seen,
        {
            let ghost current = pooled_views(self.available@);
            assert(current[kept as int] == current.skip(kept as int)[0]);
            assert(before.skip(seen as int)[0] == before[seen as int]);
            assert(before.take(seen + 1).drop_last() =~= before.take(seen as int));
            assert(before.take(seen + 1).last() == before[seen as int]);
            let stale = self.available[kept].is_expired_at(self.config.max_lifetime_ms, now)
                || self.available[kept].is_idle_at(self.config.idle_timeout_ms, now);
            if stale {
                let _ = self.available.remove(kept);
                if self.total_connections > 0 {
                    self.total_connections = self.total_connections - 1;
                }
                assert(pooled_views(self.available@).take(kept as int) =~= current.take(
                    kept as int,
                ));
                assert(pooled_views(self.available@).skip(kept as int) =~= current.skip(
                    kept as int,
                ).skip(1));
                assert(before.skip(seen as int).skip(1) =~= before.skip(seen + 1));
            } else {
                assert(current.take(kept + 1) =~= current.take(kept as int).push(
                    current[kept as int],
                ));
                assert(current.skip(kept + 1) =~= current.skip(kept as int).skip(1));
                assert(before.skip(seen as int).skip(1) =~= before.skip(seen + 1));
                kept = kept + 1;
            }
            seen = seen + 1;
        }
        assert(before.take(seen as int) =~= before);
        assert(pooled_views(self.available@).take(kept as int) =~= pooled_views(self.available@));
    }

    /// Asks the pool for a connection at `now`. Stale connections are
    /// purged first, and counted no longer. Then the connection that has
    /// waited longest is handed out;
    /// or, where none is available, the caller is told to dial if the pool
    /// has room, and refused at once if it has none.
    pub fn get_connection_at(&mut self, now: Timestamp) -> (result: Result<Checkout<S>, DatabaseError>)
        ensures
            final(self)@ == old(self)@.after_checkout(now),
            old(self)@.checked_out_as(now, result),
            old(self)@.within_limit() ==> final(self)@.within_limit(),
    {
        self.purge_at(now);
        proof {
            lemma_reusable_is_no_longer(old(self)@.available, old(self)@.config, now);
        }
        let ghost purged = pooled_views(self.available@);
        match self.available.pop_front() {
            Some(mut connection) => {
                connection.touch_at(now);
                assert(pooled_views(self.available@) =~= purged.skip(1));
                assert(purged[0] == old(self)@.reusable(now)[0]);
                return Ok(Checkout::Ready(connection));
            },
            None => {},
        }
        assert(pooled_views(self.available@) =~= old(self)@.reusable(now));
        if self.total_connections >= self.config.max_connections {
            let mut details = String::from_str("Connection pool exhausted (max: ");
            push_decimal(&mut details, self.config.max_connections as u64);
            details.append(")");
            return Err(
                DatabaseError::InternalError {
                    component: String::from_str("ConnectionPool"),
                    details,
                },
            );
        }
        Ok(Checkout::MustDial)
    }

    fn target_at(&self, index: usize) -> (target: DialTarget)
        requires
            index < self@.hosts.len(),
        ensures
            self@.is_target(index as int, target),
    {
        assert(self.hosts.deep_view()[index as int] == self.hosts@[index as int]@);
        assert(self.hosts.deep_view().len() == self.hosts@.len());
        let count = self.hosts.len();
        assert(index < count);
        DialTarget {
            index,
            host: self.hosts[index].clone(),
            node_id: index as u64 + 1,
            timeout_ms: self.timeout_ms,
        }
    }

    /// Starts making a new connection: names the first host to dial, or
    /// fails where no host is configured.
    pub fn create_connection(&self) -> (step: DialStep<S>)
        ensures
            match step {
                DialStep::Dial(target) => self@.is_target(0, target),
                DialStep::Failed(error) => error matches DatabaseError::InternalError {
                    component,
                    details,
                } && component@ == "ConnectionPool"@ && details@ == "No hosts configured"@
                    && self@.hosts.len() == 0,
                DialStep::Connected(_) => false,
            },
    {
        if self.hosts.len() == 0 {
            return DialStep::Failed(
                DatabaseError::InternalError {
                    component: String::from_str("ConnectionPool"),
                    details: String::from_str("No hosts configured"),
                },
            );
        }
        assert(self.hosts.deep_view().len() == self.hosts@.len());
        DialStep::Dial(self.target_at(0))
    }

    /// Whether `step` is what follows the outcome of dialing `target` at
    /// `now`: where the host was reached and the pool has room, the
    /// connection, now counted; where the pool has no room left, the error
    /// that tells so; where the host was not reached, the next host in the
    /// list, or after the last one the error of this attempt.
    pub open spec fn dial_finished_as(
        before: PoolView<S>,
        after: PoolView<S>,
        target: DialTarget,
        outcome: DialOutcome<S>,
        now: Timestamp,
        step: DialStep<S>,
    ) -> bool {
        if before.total_connections >= before.config.max_connections {
            &&& after == before
            &&& step matches DialStep::Failed(error) && before.is_exhausted(error)
        } else {
            match outcome {
                DialOutcome::Connected(session) => {
                    &&& after == (PoolView {
                        total_connections: (before.total_connections + 1) as u32,
                        ..before
                    })
                    &&& step matches DialStep::Connected(connection) && connection@
                        == (PooledConnectionView {
                        connection: ConnectionView::opened(session, target.node_id, false, 0),
                        created_at: now,
                        last_used: now,
                    })
                },
                _ => {
                    &&& after == before
                    &&& if target.index + 1 < before.hosts.len() {
                        step matches DialStep::Dial(next) && before.is_target(
                            target.index + 1,
                            next,
                        )
                    } else {
                        step matches DialStep::Failed(error) && outcome.opened_as(
                            target.host@,
                            target.timeout_ms,
                            Err(error),
                        )
                    }
                },
            }
        }
    }

    /// Takes the outcome of dialing `target` at `now` and decides how the
    /// making of the connection goes on. The hosts are tried in the order
    /// of the list, the first that is reached wins, and where none is
    /// reached the error of the last attempt is returned.
    pub fn dial_finished(&mut self, target: DialTarget, outcome: DialOutcome<S>, now: Timestamp) -> (step:
        DialStep<S>)
        ensures
            Self::dial_finished_as(old(self)@, final(self)@, target, outcome, now, step),
            old(self)@.within_limit() ==> final(self)@.within_limit(),
    {
        if self.total_connections >= self.config.max_connections {
            let mut details = String::from_str("Connection pool exhausted (max: ");
            push_decimal(&mut details, self.config.max_connections as u64);
            details.append(")");
            return DialStep::Failed(
                DatabaseError::InternalError {
                    component: String::from_str("ConnectionPool"),
                    details,
                },
            );
        }
        assert(self.hosts.deep_view().len() == self.hosts@.len());
        let count = self.hosts.len();
        match Connection::connect(target.host.as_str(), target.node_id, target.timeout_ms, outcome) {
            Ok(connection) => {
                self.total_connections = self.total_connections + 1;
                DialStep::Connected(PooledConnection::new_at(connection, now))
            },
            Err(error) => {
                if target.index < usize::MAX && target.index + 1 < count {
                    DialStep::Dial(self.target_at(target.index + 1))
                } else {
                    DialStep::Failed(error)
                }
            },
        }
    }

    /// Returns a connection to the pool at `now`. One that has exceeded
    /// its lifetime or idle time is discarded and no longer counted; any
    /// other waits for reuse behind those that are already available.
    pub fn return_connection_at(&mut self, connection: PooledConnection<S>, now: Timestamp)
        ensures
            final(self)@ == old(self)@.after_return(connection@, now),
            old(self)@.within_limit() ==> final(self)@.within_limit(),
    {
        if connection.is_expired_at(self.config.max_lifetime_ms, now) || connection.is_idle_at(
            self.config.idle_timeout_ms,
            now,
        ) {
            if self.total_connections > 0 {
                self.total_connections = self.total_connections - 1;
            }
            return ;
        }
        let ghost before = pooled_views(self.available@);
        self.available.push_back(connection);
        assert(pooled_views(self.available@) =~= before.push(connection@));
    }

    /// Gets the total number of connections.
    pub fn total_connections(&self) -> (total: u32)
        ensures
            total == self@.total_connections,
    {
        self.total_connections
    }

    /// Discards every available connection and counts none.
    pub fn reset(&mut self)
        ensures
            final(self)@ == (PoolView {
                available: Seq::empty(),
                total_connections: 0,
                ..old(self)@
            }),
    {
        self.available.clear();
        self.total_connections = 0;
        assert(pooled_views(self.available@) =~= Seq::empty());
    }

    /// Asks the pool for a connection, by the clock.
    pub fn get_connection(&mut self) -> (result: Result<Checkout<S>, DatabaseError>)
        ensures
            exists|now: Timestamp|
                final(self)@ == #[trigger] old(self)@.after_checkout(now) && old(
                    self,
                )@.checked_out_as(now, result),
    {
        let now = now_millis();
        let result = self.get_connection_at(now);
        assert(self@ == old(self)@.after_checkout(now));
        result
    }

    /// Returns a connection to the pool, by the clock.
    pub fn return_connection(&mut self, connection: PooledConnection<S>)
        ensures
            exists|now: Timestamp| final(self)@ == #[trigger] old(self)@.after_return(connection@, now),
    {
        let now = now_millis();
        self.return_connection_at(connection, now);
        assert(self@ == old(self)@.after_return(connection@, now));
    }
}

/// How one request for a connection ends.
pub enum RequestOutcome {
    /// The caller has a connection: one from the pool or a new one.
    Served,
    /// The pool is exhausted.
    Exhausted,
    /// The pool has room, but no host could be reached.
    DialFailed,
}

impl<S> PoolView<S> {
    /// How a request at `now` ends, where `dial_succeeds` tells whether a
    /// host is reached in case the pool orders a dial.
    pub open spec fn request_outcome(self, now: Timestamp, dial_succeeds: bool) -> RequestOutcome {
        if self.reusable(now).len() > 0 {
            RequestOutcome::Served
        } else if self.purged(now).total_connections >= self.config.max_connections {
            RequestOutcome::Exhausted
        } else if dial_succeeds {
            RequestOutcome::Served
        } else {
            RequestOutcome::DialFailed
        }
    }

    /// The pool after a request at `now`: as after the checkout, and with
    /// one more connection counted where a new one was made.
    pub open spec fn after_request(self, now: Timestamp, dial_succeeds: bool) -> PoolView<S> {
        if self.request_outcome(now, dial_succeeds) is Served && self.reusable(now).len() == 0 {
            PoolView {
                total_connections: (self.after_checkout(now).total_connections + 1) as u32,
                ..self.after_checkout(now)
            }
        } else {
            self.after_checkout(now)
        }
    }

    /// The pool after a run of requests, none of which is followed by a
    /// return.
    pub open spec fn after_requests(self, times: Seq<Timestamp>, dials: Seq<bool>) -> PoolView<S>
        recommends
            times.len() == dials.len(),
        decreases times.len(),
    {
        if times.len() == 0 || dials.len() == 0 {
            self
        } else {
            self.after_requests(times.drop_last(), dials.drop_last()).after_request(
                times.last(),
                dials.last(),
            )
        }
    }

    /// How many requests of a run are served.
    pub open spec fn served_among(self, times: Seq<Timestamp>, dials: Seq<bool>) -> nat
        recommends
            times.len() == dials.len(),
        decreases times.len(),
    {
        if times.len() == 0 || dials.len() == 0 {
            0
        } else {
            let earlier = self.served_among(times.drop_last(), dials.drop_last());
            let before = self.after_requests(times.drop_last(), dials.drop_last());
            if before.request_outcome(times.last(), dials.last()) is Served {
                earlier + 1
            } else {
                earlier
            }
        }
    }
}

/// Every served request uses up capacity, and nothing but a return gives
/// capacity back: over a run of requests without returns, the number of
/// requests served and the capacity left never add up to more than the
/// capacity at the start. The count stays within the maximum throughout.
pub proof fn lemma_requests_use_capacity<S>(pool: PoolView<S>, times: Seq<Timestamp>, dials: Seq<bool>)
    requires
        pool.within_limit(),
        times.len() == dials.len(),
    ensures
        pool.after_requests(times, dials).within_limit(),
        pool.after_requests(times, dials).config == pool.config,
        pool.served_among(times, dials) + pool.after_requests(times, dials).capacity()
            <= pool.capacity(),
    decreases times.len(),
{
    if times.len() > 0 {
        lemma_requests_use_capacity(pool, times.drop_last(), dials.drop_last());
        let before = pool.after_requests(times.drop_last(), dials.drop_last());
        lemma_reusable_is_no_longer(before.available, before.config, times.last());
    }
}

/// Pool exhaustion: of a pool with at most `max_connections` connections
/// out, a run of requests without returns is served at most
/// `max_connections` times, and once that many have been served the next
/// request is refused as exhausted. It holds of every pool in which each
/// available connection is counted, as it is in a new pool and wherever the
/// count is live.
pub proof fn lemma_exhausted_beyond_maximum<S>(
    pool: PoolView<S>,
    times: Seq<Timestamp>,
    dials: Seq<bool>,
    now: Timestamp,
    dial_succeeds: bool,
)
    requires
        pool.within_limit(),
        pool.counted(),
        times.len() == dials.len(),
    ensures
        pool.served_among(times, dials) <= pool.config.max_connections,
        pool.served_among(times, dials) == pool.config.max_connections ==> pool.after_requests(
            times,
            dials,
        ).request_outcome(now, dial_succeeds) is Exhausted,
{
    lemma_requests_use_capacity(pool, times, dials);
    let after = pool.after_requests(times, dials);
    lemma_reusable_is_no_longer(after.available, after.config, now);
}

/// The count of connections never exceeds the maximum: no request, no dial
/// and no return takes a pool beyond its limit.
pub proof fn lemma_limit_is_kept<S>(
    pool: PoolView<S>,
    after_dial: PoolView<S>,
    returned: PooledConnectionView<S>,
    target: DialTarget,
    outcome: DialOutcome<S>,
    now: Timestamp,
    step: DialStep<S>,
)
    requires
        pool.within_limit(),
        ConnectionPool::dial_finished_as(pool, after_dial, target, outcome, now, step),
    ensures
        pool.after_checkout(now).within_limit(),
        pool.after_return(returned, now).within_limit(),
        after_dial.within_limit(),
{
    lemma_reusable_is_no_longer(pool.available, pool.config, now);
}

/// The count is live: where it is the number of available connections
/// plus the number of those checked out, it stays so. A request that is
/// served checks one more out, whether from the pool or newly dialed; a
/// request that is refused checks none out; a stale connection that is
/// purged or returned is counted no longer; a return checks one in.
pub proof fn lemma_count_is_live<S>(
    pool: PoolView<S>,
    checked_out: nat,
    returned: PooledConnectionView<S>,
    now: Timestamp,
    dial_succeeds: bool,
)
    requires
        pool.total_connections == pool.available.len() + checked_out,
    ensures
        pool.purged(now).total_connections == pool.purged(now).available.len() + checked_out,
        pool.after_request(now, dial_succeeds).total_connections == pool.after_request(
            now,
            dial_succeeds,
        ).available.len() + checked_out + if pool.request_outcome(now, dial_succeeds) is Served {
            1int
        } else {
            0int
        },
        checked_out >= 1 ==> pool.after_return(returned, now).total_connections
            == pool.after_return(returned, now).available.len() + checked_out - 1,
{
    lemma_reusable_is_no_longer(pool.available, pool.config, now);
}

/// What a health probe of one host found.
#[derive(Debug, Clone, Copy)]
pub struct HealthProbe {
    /// Whether the host was reached.
    pub connected: bool,
    /// Whether a ping could be sent to it.
    pub ping_sent: bool,
    /// When the probe was made.
    pub checked_at: Timestamp,
}

impl HealthProbe {
    /// A node is healthy if it was reached and a ping could be sent; one
    /// that was not reached counts like one that was reached and took no
    /// ping.
    pub open spec fn healthy(self) -> bool {
        self.connected && self.ping_sent
    }
}

/// The health records after one observation of a node at `now`: a healthy
/// observation resets the node's failure count, an unhealthy one adds to it;
/// a node without a record gets one first.
pub open spec fn observed(
    health: Map<NodeId, NodeHealth>,
    node_id: NodeId,
    healthy: bool,
    now: Timestamp,
) -> Map<NodeId, NodeHealth> {
    let known = if health.contains_key(node_id) {
        health[node_id]
    } else {
        NodeHealth::fresh(node_id, now)
    };
    health.insert(
        node_id,
        if healthy {
            known.healthy_at(now)
        } else {
            known.unhealthy_at(now)
        },
    )
}

/// The health records after the first `count` probes, where probe `i` is
/// of the node `i + 1`.
pub open spec fn observed_all(
    health: Map<NodeId, NodeHealth>,
    probes: Seq<HealthProbe>,
    count: nat,
) -> Map<NodeId, NodeHealth>
    recommends
        count <= probes.len(),
    decreases count,
{
    if count == 0 {
        health
    } else {
        let index = (count - 1) as int;
        observed(
            observed_all(health, probes, (count - 1) as nat),
            (index + 1) as u64,
            probes[index].healthy(),
            probes[index].checked_at,
        )
    }
}

/// Orchestrates the pool, tracks the health of each node, and holds the
/// retry policy.
pub struct ConnectionManager<S> {
    pool: ConnectionPool<S>,
    node_health: HashMap<NodeId, NodeHealth>,
    config: ConnectionConfig,
}

impl<S> ConnectionManager<S> {
    /// The pool of the manager.
    pub closed spec fn pool(self) -> PoolView<S> {
        self.pool@
    }

    /// The health record of each node that has one.
    pub closed spec fn node_health(self) -> Map<NodeId, NodeHealth> {
        self.node_health@
    }

    /// The retry policy.
    pub closed spec fn retry_config(self) -> RetryConfig {
        self.config.retry_config
    }

    /// The configured hosts.
    pub closed spec fn hosts(self) -> Seq<Seq<char>> {
        self.config.hosts.deep_view()
    }

    /// Whether `after` differs from this manager in nothing but the health
    /// records.
    pub open spec fn same_but_health(self, after: Self) -> bool {
        &&& after.pool() == self.pool()
        &&& after.retry_config() == self.retry_config()
        &&& after.hosts() == self.hosts()
    }

    /// Whether `after` differs from this manager in nothing but the pool.
    pub open spec fn same_but_pool(self, after: Self) -> bool {
        &&& after.node_health() == self.node_health()
        &&& after.retry_config() == self.retry_config()
        &&& after.hosts() == self.hosts()
    }

    /// Creates a manager with an empty pool for the hosts of `config` and
    /// without any health record.
    pub fn new(config: ConnectionConfig) -> (manager: Self)
        ensures
            manager.pool() == (PoolView::<S> {
                available: Seq::empty(),
                total_connections: 0,
                config: config.pool_config,
                hosts: config.hosts.deep_view(),
                timeout_ms: config.timeout_ms,
            }),
            manager.node_health() == Map::<NodeId, NodeHealth>::empty(),
            manager.retry_config() == config.retry_config,
            manager.hosts() == config.hosts.deep_view(),
    {
        let pool = ConnectionPool::new(
            clone_strings(&config.hosts),
            config.pool_config,
            config.timeout_ms,
        );
        ConnectionManager { pool, node_health: HashMap::new(), config }
    }

    /// Asks the pool for a connection at `now`.
    pub fn get_connection_at(&mut self, now: Timestamp) -> (result: Result<Checkout<S>, DatabaseError>)
        ensures
            old(self).same_but_pool(*final(self)),
            final(self).pool() == old(self).pool().after_checkout(now),
            old(self).pool().checked_out_as(now, result),
    {
        self.pool.get_connection_at(now)
    }

    /// Starts making a new connection.
    pub fn create_connection(&self) -> (step: DialStep<S>)
        ensures
            match step {
                DialStep::Dial(target) => self.pool().is_target(0, target),
                DialStep::Failed(error) => error matches DatabaseError::InternalError {
                    component,
                    details,
                } && component@ == "ConnectionPool"@ && details@ == "No hosts configured"@
                    && self.pool().hosts.len() == 0,
                DialStep::Connected(_) => false,
            },
    {
        self.pool.create_connection()
    }

    /// Takes the outcome of dialing `target` at `now`.
    pub fn dial_finished(&mut self, target: DialTarget, outcome: DialOutcome<S>, now: Timestamp) -> (step:
        DialStep<S>)
        ensures
            old(self).same_but_pool(*final(self)),
            ConnectionPool::dial_finished_as(
                old(self).pool(),
                final(self).pool(),
                target,
                outcome,
                now,
                step,
            ),
    {
        self.pool.dial_finished(target, outcome, now)
    }

    /// Returns a connection to the pool at `now`.
    pub fn return_connection_at(&mut self, connection: PooledConnection<S>, now: Timestamp)
        ensures
            old(self).same_but_pool(*final(self)),
            final(self).pool() == old(self).pool().after_return(connection@, now),
    {
        self.pool.return_connection_at(connection, now)
    }

    /// Asks the pool for a connection, by the clock.
    pub fn get_connection(&mut self) -> (result: Result<Checkout<S>, DatabaseError>)
        ensures
            old(self).same_but_pool(*final(self)),
            exists|now: Timestamp|
                final(self).pool() == #[trigger] old(self).pool().after_checkout(now) && old(
                    self,
                ).pool().checked_out_as(now, result),
    {
        let now = now_millis();
        let result = self.get_connection_at(now);
        assert(self.pool() == old(self).pool().after_checkout(now));
        result
    }

    /// Returns a connection to the pool, by the clock.
    pub fn return_connection(&mut self, connection: PooledConnection<S>)
        ensures
            old(self).same_but_pool(*final(self)),
            exists|now: Timestamp|
                final(self).pool() == #[trigger] old(self).pool().after_return(connection@, now),
    {
        let now = now_millis();
        self.return_connection_at(connection, now);
        assert(self.pool() == old(self).pool().after_return(connection@, now));
    }

    /// Records one observation of a node at `now`, and returns the node's
    /// record.
    pub fn record_observation(&mut self, node_id: NodeId, healthy: bool, now: Timestamp) -> (record:
        NodeHealth)
        ensures
            old(self).same_but_health(*final(self)),
            final(self).node_health() == observed(old(self).node_health(), node_id, healthy, now),
            record == final(self).node_health()[node_id],
    {
        broadcast use vstd::std_specs::hash::group_hash_axioms;

        let mut record = match self.node_health.get(&node_id) {
            Some(known) => *known,
            None => NodeHealth::new_at(node_id, now),
        };
        if healthy {
            record.mark_healthy_at(now);
        } else {
            record.mark_unhealthy_at(now);
        }
        self.node_health.insert(node_id, record);
        record
    }

    /// Records the probes of the configured hosts, in the order of the
    /// hosts, and returns the record of each probed node. Probe `i` is of
    /// host `i`, whose node is `i + 1`; hosts without a probe are left
    /// unobserved, and probes without a host are ignored.
    pub fn health_check_all_nodes(&mut self, probes: &[HealthProbe]) -> (result: Result<
        Vec<NodeHealth>,
        DatabaseError,
    >)
        ensures
            old(self).same_but_health(*final(self)),
            result matches Ok(snapshot) && {
                let count = if probes@.len() <= old(self).hosts().len() {
                    probes@.len()
                } else {
                    old(self).hosts().len()
                };
                &&& final(self).node_health() == observed_all(
                    old(self).node_health(),
                    probes@,
                    count,
                )
                &&& snapshot@.len() == count
                &&& forall|i: int|
                    0 <= i < count ==> #[trigger] snapshot@[i] == observed_all(
                        old(self).node_health(),
                        probes@,
                        (i + 1) as nat,
                    )[(i + 1) as u64]
            },
    {
        let mut snapshot: Vec<NodeHealth> = Vec::new();
        let mut index: usize = 0;
        assert(self.config.hosts.deep_view().len() == self.config.hosts@.len());
        let count = if probes.len() <= self.config.hosts.len() {
            probes.len()
        } else {
            self.config.hosts.len()
        };
        while index < count
            invariant
                index <= count,
                count <= probes@.len(),
                count <= usize::MAX,
                old(self).same_but_health(*self),
                self.node_health() == observed_all(old(self).node_health(), probes@, index as nat),
                snapshot@.len() == index,
                forall|i: int|
                    0 <= i < index ==> #[trigger] snapshot@[i] == observed_all(
                        old(self).node_health(),
                        probes@,
                        (i + 1) as nat,
                    )[(i + 1) as u64],
            decreases count - index,
        {
            let probe = probes[index];
            let record = self.record_observation(
                index as u64 + 1,
                probe.connected && probe.ping_sent,
                probe.checked_at,
            );
            snapshot.push(record);
            index = index + 1;
        }
        Ok(snapshot)
    }

    /// Marks a node as unhealthy at `now`.
    pub fn mark_node_unhealthy_at(&mut self, node_id: NodeId, now: Timestamp)
        ensures
            old(self).same_but_health(*final(self)),
            final(self).node_health() == observed(old(self).node_health(), node_id, false, now),
    {
        let _ = self.record_observation(node_id, false, now);
    }

    /// Marks a node as healthy at `now`.
    pub fn mark_node_healthy_at(&mut self, node_id: NodeId, now: Timestamp)
        ensures
            old(self).same_but_health(*final(self)),
            final(self).node_health() == observed(old(self).node_health(), node_id, true, now),
    {
        let _ = self.record_observation(node_id, true, now);
    }

    /// Marks a node as unhealthy, by the clock.
    pub fn mark_node_unhealthy(&mut self, node_id: NodeId)
        ensures
            old(self).same_but_health(*final(self)),
            exists|now: Timestamp|
                final(self).node_health() == #[trigger] observed(
                    old(self).node_health(),
                    node_id,
                    false,
                    now,
                ),
    {
        let now = now_millis();
        self.mark_node_unhealthy_at(node_id, now);
        assert(self.node_health() == observed(old(self).node_health(), node_id, false, now));
    }

    /// Marks a node as healthy, by the clock.
    pub fn mark_node_healthy(&mut self, node_id: NodeId)
        ensures
            old(self).same_but_health(*final(self)),
            exists|now: Timestamp|
                final(self).node_health() == #[trigger] observed(
                    old(self).node_health(),
                    node_id,
                    true,
                    now,
                ),
    {
        let now = now_millis();
        self.mark_node_healthy_at(node_id, now);
        assert(self.node_health() == observed(old(self).node_health(), node_id, true, now));
    }

    /// Gets the health record of every node that has one.
    pub fn get_node_health(&self) -> (health: HashMap<NodeId, NodeHealth>)
        ensures
            health@ == self.node_health(),
    {
        self.node_health.clone()
    }

    /// The state of the retry policy before the first attempt of an
    /// operation.
    pub fn start_retry(&self) -> (state: RetryState)
        ensures
            state == self.retry_config().initial_state(),
    {
        self.config.retry_config.start()
    }

    /// Decides what follows an attempt of a retried operation: a success
    /// ends it; a retryable failure within the budget orders a wait and
    /// another attempt; any other failure ends it with the error of this
    /// attempt.
    pub fn execute_with_retry<T>(&self, state: &mut RetryState, outcome: Result<T, DatabaseError>) -> (step:
        RetryStep<T>)
        ensures
            self.retry_config().stepped_as(*old(state), outcome, *final(state), step),
    {
        self.config.retry_config.after_attempt(state, outcome)
    }

    /// Hard reset: discards the available connections, counts none, and
    /// forgets every health record.
    pub fn disconnect(&mut self)
        ensures
            final(self).pool() == (PoolView {
                available: Seq::empty(),
                total_connections: 0,
                ..old(self).pool()
            }),
            final(self).node_health() == Map::<NodeId, NodeHealth>::empty(),
            final(self).retry_config() == old(self).retry_config(),
            final(self).hosts() == old(self).hosts(),
    {
        self.pool.reset();
        self.node_health.clear();
    }
}

} // verus!
