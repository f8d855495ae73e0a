//! Core data types shared by every component: identifiers, pool and retry
//! configuration, roles, node descriptions and negotiable features.

use vstd::prelude::*;

verus! {

/// Unique identifier of a database node.
pub type NodeId = u64;

/// Unique identifier of a transaction.
pub type TransactionId = u64;

/// Unique identifier of a prepared statement.
pub type StatementId = u64;

/// Unique identifier of a user.
pub type UserId = u64;

/// Unix timestamp in milliseconds.
pub type Timestamp = i64;

/// Connection pool configuration.
#[derive(Debug, Clone, Copy)]
pub struct PoolConfig {
    /// Minimum number of connections in the pool.
    pub min_connections: u32,
    /// Maximum number of connections in the pool.
    pub max_connections: u32,
    /// Connection timeout in milliseconds.
    pub connection_timeout_ms: u64,
    /// Idle timeout in milliseconds.
    pub idle_timeout_ms: u64,
    /// Maximum connection lifetime in milliseconds.
    pub max_lifetime_ms: u64,
}

impl PoolConfig {
    /// The default limits: between 5 and 20 connections, 5 seconds to
    /// connect, one minute of idle time and half an hour of lifetime.
    pub open spec fn standard() -> PoolConfig {
        PoolConfig {
            min_connections: 5,
            max_connections: 20,
            connection_timeout_ms: 5000,
            idle_timeout_ms: 60000,
            max_lifetime_ms: 1800000,
        }
    }
}

impl Default for PoolConfig {
    fn default() -> (config: Self)
        ensures
            config == PoolConfig::standard(),
    {
        PoolConfig {
            min_connections: 5,
            max_connections: 20,
            connection_timeout_ms: 5000,
            idle_timeout_ms: 60000,
            max_lifetime_ms: 1800000,
        }
    }
}

/// User role in the database.
#[derive(Debug, Clone, Copy, PartialEq, Eq, Structural)]
pub enum Role {
    /// Administrator with full privileges.
    Admin,
    /// Regular user with read/write access.
    User,
    /// Read-only user.
    ReadOnly,
}

/// User permission.
#[derive(Debug, Clone, Copy, PartialEq, Eq, Structural)]
pub enum Permission {
    /// Can read data.
    Read,
    /// Can write data.
    Write,
    /// Can delete data.
    Delete,
    /// Can create tables.
    CreateTable,
    /// Can drop tables.
    DropTable,
    /// Can manage users.
    ManageUsers,
    /// Can manage the cluster.
    ManageCluster,
}

/// Node health status.
#[derive(Debug, Clone, Copy, PartialEq, Eq, Structural)]
pub enum NodeHealthStatus {
    /// Node is healthy and accepting requests.
    Healthy,
    /// Node is degraded but still functional.
    Degraded,
    /// Node is unhealthy and not accepting requests.
    Unhealthy,
}

/// Information about a database node.
#[derive(Debug, Clone)]
pub struct NodeInfo {
    /// Unique node identifier.
    pub node_id: NodeId,
    /// Node address (host:port).
    pub address: String,
    /// Node health status.
    pub health_status: NodeHealthStatus,
    /// Last health check timestamp.
    pub last_check: Timestamp,
    /// Number of consecutive failures.
    pub consecutive_failures: u32,
}

/// Node status in the cluster.
#[derive(Debug, Clone, Copy, PartialEq, Eq, Structural)]
pub enum NodeStatus {
    /// Node is healthy and accepting requests.
    Healthy,
    /// Node is degraded but still functional.
    Degraded,
    /// Node is unhealthy and not accepting requests.
    Unhealthy,
    /// Node is offline.
    Offline,
}

/// Node role in the cluster.
#[derive(Debug, Clone, Copy, PartialEq, Eq, Structural)]
pub enum NodeRole {
    /// Primary node.
    Primary,
    /// Replica node.
    Replica,
    /// Coordinator node.
    Coordinator,
}

/// Information about a cluster node.
#[derive(Debug, Clone)]
pub struct ClusterNodeInfo {
    /// Node identifier.
    pub node_id: NodeId,
    /// Hostname.
    pub hostname: String,
    /// Port.
    pub port: u16,
    /// Node status.
    pub status: NodeStatus,
    /// Node role.
    pub role: NodeRole,
}

/// User update request.
#[derive(Debug, Clone)]
pub struct UserUpdate {
    /// New password (optional).
    pub password: Option<String>,
    /// New roles (optional).
    pub roles: Option<Vec<Role>>,
}

/// Feature that client and server may agree on for a connection.
#[derive(Debug, Clone, Copy, PartialEq, Eq, Structural)]
pub enum Feature {
    /// Message compression support.
    Compression,
    /// Heartbeat support.
    Heartbeat,
    /// Streaming support.
    Streaming,
}

/// Feature negotiation request/response.
#[derive(Debug, Clone)]
pub struct FeatureNegotiation {
    /// List of supported features.
    pub supported_features: Vec<Feature>,
}

/// Retry policy: how often a failed operation is tried again, and how the
/// delay between attempts grows. The multiplier is held in thousandths, so
/// that 1500 stands for a factor of 1.5.
#[derive(Debug, Clone, Copy)]
pub struct RetryConfig {
    /// Maximum number of retry attempts.
    pub max_retries: u32,
    /// Initial backoff delay in milliseconds.
    pub initial_backoff_ms: u64,
    /// Maximum backoff delay in milliseconds.
    pub max_backoff_ms: u64,
    /// Factor by which the delay grows after every attempt, in thousandths.
    pub backoff_multiplier_milli: u64,
}

impl Default for RetryConfig {
    fn default() -> (config: Self)
        ensures
            config == RetryConfig::standard(),
    {
        RetryConfig {
            max_retries: 3,
            initial_backoff_ms: 100,
            max_backoff_ms: 5000,
            backoff_multiplier_milli: 2000,
        }
    }
}

impl RetryConfig {
    /// The default policy: three retries, starting at 100 milliseconds,
    /// doubling, up to five seconds.
    pub open spec fn standard() -> RetryConfig {
        RetryConfig {
            max_retries: 3,
            initial_backoff_ms: 100,
            max_backoff_ms: 5000,
            backoff_multiplier_milli: 2000,
        }
    }

    /// Creates a retry configuration with the given parameters.
    pub fn new(
        max_retries: u32,
        initial_backoff_ms: u64,
        max_backoff_ms: u64,
        backoff_multiplier_milli: u64,
    ) -> (config: Self)
        ensures
            config.max_retries == max_retries,
            config.initial_backoff_ms == initial_backoff_ms,
            config.max_backoff_ms == max_backoff_ms,
            config.backoff_multiplier_milli == backoff_multiplier_milli,
    {
        RetryConfig { max_retries, initial_backoff_ms, max_backoff_ms, backoff_multiplier_milli }
    }

    /// A configuration that never retries.
    pub fn no_retry() -> (config: Self)
        ensures
            config.max_retries == 0,
            config.initial_backoff_ms == 0,
            config.max_backoff_ms == 0,
            config.backoff_multiplier_milli == 1000,
    {
        RetryConfig {
            max_retries: 0,
            initial_backoff_ms: 0,
            max_backoff_ms: 0,
            backoff_multiplier_milli: 1000,
        }
    }

    /// More retries with shorter delays.
    pub fn aggressive() -> (config: Self)
        ensures
            config.max_retries == 5,
            config.initial_backoff_ms == 50,
            config.max_backoff_ms == 2000,
            config.backoff_multiplier_milli == 1500,
    {
        RetryConfig {
            max_retries: 5,
            initial_backoff_ms: 50,
            max_backoff_ms: 2000,
            backoff_multiplier_milli: 1500,
        }
    }

    /// Fewer retries with longer delays.
    pub fn conservative() -> (config: Self)
        ensures
            config.max_retries == 2,
            config.initial_backoff_ms == 200,
            config.max_backoff_ms == 10000,
            config.backoff_multiplier_milli == 3000,
    {
        RetryConfig {
            max_retries: 2,
            initial_backoff_ms: 200,
            max_backoff_ms: 10000,
            backoff_multiplier_milli: 3000,
        }
    }
}

/// The text of a string that may be absent.
pub open spec fn text_of(text: Option<String>) -> Option<Seq<char>> {
    match text {
        Some(text) => Some(text@),
        None => None,
    }
}

/// The bytes of a byte string that may be absent.
pub open spec fn bytes_of(bytes: Option<Vec<u8>>) -> Option<Seq<u8>> {
    match bytes {
        Some(bytes) => Some(bytes@),
        None => None,
    }
}

/// Copies a list of strings.
pub fn clone_strings(strings: &Vec<String>) -> (copy: Vec<String>)
    ensures
        copy.deep_view() == strings.deep_view(),
{
    let mut copy: Vec<String> = Vec::new();
    let mut index: usize = 0;
    while index < strings.len()
        invariant
            index <= strings@.len(),
            copy@.len() == index,
            forall|i: int| 0 <= i < index ==> copy@[i]@ == strings@[i]@,
        decreases strings@.len() - index,
    {
        copy.push(strings[index].clone());
        index = index + 1;
    }
    assert(copy.deep_view() =~= strings.deep_view());
    copy
}

/// How the client connects to the cluster.
#[derive(Debug)]
pub struct ConnectionConfig {
    /// Node addresses (host:port), in the order in which they are tried.
    pub hosts: Vec<String>,
    /// Username for authentication.
    pub username: String,
    /// Password for authentication (optional if using certificate auth).
    pub password: Option<String>,
    /// Client certificate for TLS authentication.
    pub certificate: Option<Vec<u8>>,
    /// Enable TLS encryption.
    pub enable_tls: bool,
    /// Connection timeout in milliseconds.
    pub timeout_ms: u64,
    /// Connection pool configuration.
    pub pool_config: PoolConfig,
    /// Retry configuration.
    pub retry_config: RetryConfig,
    /// Enable message compression.
    pub compression_enabled: bool,
    /// Compression threshold in bytes.
    pub compression_threshold: usize,
}

/// A connection configuration as a mathematical value.
pub struct ConnectionConfigView {
    /// Node addresses.
    pub hosts: Seq<Seq<char>>,
    /// Username.
    pub username: Seq<char>,
    /// Password.
    pub password: Option<Seq<char>>,
    /// Client certificate.
    pub certificate: Option<Seq<u8>>,
    /// Whether TLS is enabled.
    pub enable_tls: bool,
    /// Connection timeout in milliseconds.
    pub timeout_ms: u64,
    /// Connection pool configuration.
    pub pool_config: PoolConfig,
    /// Retry configuration.
    pub retry_config: RetryConfig,
    /// Whether compression is enabled.
    pub compression_enabled: bool,
    /// Compression threshold in bytes.
    pub compression_threshold: usize,
}

impl View for ConnectionConfig {
    type V = ConnectionConfigView;

    open spec fn view(&self) -> ConnectionConfigView {
        ConnectionConfigView {
            hosts: self.hosts.deep_view(),
            username: self.username@,
            password: text_of(self.password),
            certificate: bytes_of(self.certificate),
            enable_tls: self.enable_tls,
            timeout_ms: self.timeout_ms,
            pool_config: self.pool_config,
            retry_config: self.retry_config,
            compression_enabled: self.compression_enabled,
            compression_threshold: self.compression_threshold,
        }
    }
}

impl Clone for ConnectionConfig {
    fn clone(&self) -> (copy: Self)
        ensures
            copy@ == self@,
    {
        ConnectionConfig {
            hosts: clone_strings(&self.hosts),
            username: self.username.clone(),
            password: match &self.password {
                Some(password) => Some(password.clone()),
                None => None,
            },
            certificate: match &self.certificate {
                Some(certificate) => Some(vstd::slice::slice_to_vec(certificate.as_slice())),
                None => None,
            },
            enable_tls: self.enable_tls,
            timeout_ms: self.timeout_ms,
            pool_config: self.pool_config,
            retry_config: self.retry_config,
            compression_enabled: self.compression_enabled,
            compression_threshold: self.compression_threshold,
        }
    }
}

impl Default for ConnectionConfig {
    fn default() -> (config: Self)
        ensures
            config.hosts.deep_view() == seq!["localhost:7000"@],
            config.is_standard_but_hosts(),
    {
        let mut hosts: Vec<String> = Vec::new();
        hosts.push(String::from_str("localhost:7000"));
        assert(hosts.deep_view() =~= seq!["localhost:7000"@]);
        ConnectionConfig {
            hosts,
            username: String::new(),
            password: None,
            certificate: None,
            enable_tls: false,
            timeout_ms: 5000,
            pool_config: PoolConfig::default(),
            retry_config: RetryConfig::default(),
            compression_enabled: false,
            compression_threshold: 1024,
        }
    }
}

impl ConnectionConfig {
    /// Whether everything but the hosts is as in the default
    /// configuration: no user, no password, no certificate, no TLS, a
    /// timeout of five seconds, the default pool and retry configurations,
    /// and no compression, with a threshold of 1024 bytes.
    pub open spec fn is_standard_but_hosts(self) -> bool {
        &&& self.username@.len() == 0
        &&& self.password is None
        &&& self.certificate is None
        &&& !self.enable_tls
        &&& self.timeout_ms == 5000
        &&& self.pool_config == PoolConfig::standard()
        &&& self.retry_config == RetryConfig::standard()
        &&& !self.compression_enabled
        &&& self.compression_threshold == 1024
    }

    /// Creates a configuration for the given hosts, with defaults for the
    /// rest.
    pub fn new(hosts: Vec<String>) -> (config: Self)
        ensures
            config.hosts == hosts,
            config.is_standard_but_hosts(),
    {
        let mut config = ConnectionConfig::default();
        config.hosts = hosts;
        config
    }

    /// Sets the hosts.
    pub fn with_hosts(self, hosts: Vec<String>) -> (config: Self)
        ensures
            config == (ConnectionConfig { hosts, ..self }),
    {
        let mut config = self;
        config.hosts = hosts;
        config
    }

    /// Sets the credentials.
    pub fn with_credentials(self, username: &str, password: &str) -> (config: Self)
        ensures
            config.username@ == username@,
            config.password matches Some(p) && p@ == password@,
            config.hosts == self.hosts,
            config.certificate == self.certificate,
            config.enable_tls == self.enable_tls,
            config.timeout_ms == self.timeout_ms,
            config.pool_config == self.pool_config,
            config.retry_config == self.retry_config,
            config.compression_enabled == self.compression_enabled,
            config.compression_threshold == self.compression_threshold,
    {
        let mut config = self;
        config.username = String::from_str(username);
        config.password = Some(String::from_str(password));
        config
    }

    /// Enables or disables TLS.
    pub fn with_tls(self, enabled: bool) -> (config: Self)
        ensures
            config == (ConnectionConfig { enable_tls: enabled, ..self }),
    {
        let mut config = self;
        config.enable_tls = enabled;
        config
    }

    /// Sets the connection timeout.
    pub fn with_timeout(self, timeout_ms: u64) -> (config: Self)
        ensures
            config == (ConnectionConfig { timeout_ms, ..self }),
    {
        let mut config = self;
        config.timeout_ms = timeout_ms;
        config
    }

    /// Sets the pool configuration.
    pub fn with_pool_config(self, pool_config: PoolConfig) -> (config: Self)
        ensures
            config == (ConnectionConfig { pool_config, ..self }),
    {
        let mut config = self;
        config.pool_config = pool_config;
        config
    }

    /// Sets the retry configuration.
    pub fn with_retry_config(self, retry_config: RetryConfig) -> (config: Self)
        ensures
            config == (ConnectionConfig { retry_config, ..self }),
    {
        let mut config = self;
        config.retry_config = retry_config;
        config
    }

    /// Sets compression and its threshold.
    pub fn with_compression(self, enabled: bool, threshold: usize) -> (config: Self)
        ensures
            config == (ConnectionConfig {
                compression_enabled: enabled,
                compression_threshold: threshold,
                ..self
            }),
    {
        let mut config = self;
        config.compression_enabled = enabled;
        config.compression_threshold = threshold;
        config
    }
}

} // verus!
