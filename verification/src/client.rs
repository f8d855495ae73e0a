//! The client: the configuration, the connection manager and the
//! authentication manager under one roof.

use crate::admin_client::AdminClient;
use crate::auth::{AuthenticationManager, Certificate, Credentials};
use crate::connection::{observed_all, ConnectionManager, HealthProbe, NodeHealth, PoolView};
use crate::data_client::{DataClient, PreparedStatement};
use crate::error::DatabaseError;
use crate::types::{ConnectionConfig, NodeId};
use vstd::prelude::*;
use vstd::slice::slice_to_vec;

verus! {

/// How many of the records tell of a healthy node.
pub open spec fn healthy_count(records: Seq<NodeHealth>) -> nat
    decreases records.len(),
{
    if records.len() == 0 {
        0
    } else {
        healthy_count(records.drop_last()) + if records.last().is_healthy {
            1nat
        } else {
            0nat
        }
    }
}

/// There are no more healthy nodes than nodes.
pub proof fn lemma_healthy_count_bounded(records: Seq<NodeHealth>)
    ensures
        healthy_count(records) <= records.len(),
    decreases records.len(),
{
    if records.len() > 0 {
        lemma_healthy_count_bounded(records.drop_last());
    }
}

/// Health of the cluster as a whole.
#[derive(Debug, Clone)]
pub struct ClusterHealth {
    /// Total number of nodes in the cluster.
    pub total_nodes: usize,
    /// Number of healthy nodes.
    pub healthy_nodes: usize,
    /// Health record of each node.
    pub node_healths: Vec<NodeHealth>,
}

impl ClusterHealth {
    /// Sums up the records of the nodes: how many there are, and how many
    /// of them are healthy.
    pub fn from_node_healths(node_healths: Vec<NodeHealth>) -> (health: Self)
        ensures
            health.node_healths == node_healths,
            health.total_nodes == node_healths@.len(),
            health.healthy_nodes == healthy_count(node_healths@),
    {
        let total_nodes = node_healths.len();
        let mut healthy_nodes: usize = 0;
        let mut index: usize = 0;
        while index < total_nodes
            invariant
                index <= total_nodes,
                total_nodes == node_healths@.len(),
                healthy_nodes == healthy_count(node_healths@.take(index as int)),
                healthy_nodes <= index,
            decreases total_nodes - index,
        {
            assert(node_healths@.take(index + 1).drop_last() =~= node_healths@.take(index as int));
            if node_healths[index].is_healthy {
                healthy_nodes = healthy_nodes + 1;
            }
            index = index + 1;
        }
        assert(node_healths@.take(index as int) =~= node_healths@);
        ClusterHealth { total_nodes, healthy_nodes, node_healths }
    }
}

/// The time to live of the tokens that a client's manager issues: 24
/// hours, in milliseconds.
pub open spec fn default_token_ttl_ms() -> u64 {
    86_400_000
}

/// The client.
pub struct Client<S> {
    config: ConnectionConfig,
    connection_manager: ConnectionManager<S>,
    auth_manager: AuthenticationManager,
    data_client: DataClient,
    admin_client: AdminClient,
}

impl<S> Client<S> {
    /// The connection manager of the client.
    pub closed spec fn connections(self) -> ConnectionManager<S> {
        self.connection_manager
    }

    /// The authentication manager of the client.
    pub closed spec fn authentication(self) -> AuthenticationManager {
        self.auth_manager
    }

    /// The data client of the client.
    pub closed spec fn data_operations(self) -> DataClient {
        self.data_client
    }

    /// The configuration that the client was set up with.
    pub closed spec fn configuration(self) -> ConnectionConfig {
        self.config
    }

    /// Whether `credentials` are what `config` gives: the username with
    /// the password where there is one, else with the certificate where
    /// there is one; and the error where there is neither.
    pub open spec fn credentials_as(config: ConnectionConfig, credentials: Result<Credentials, DatabaseError>) -> bool {
        match credentials {
            Ok(credentials) => {
                &&& credentials.username@ == config.username@
                &&& credentials.token is None
                &&& match config.password {
                    Some(password) => credentials.password matches Some(p) && p@ == password@
                        && credentials.certificate is None,
                    None => config.certificate matches Some(data) && (credentials.certificate
                        matches Some(c) && c.data@ == data@) && credentials.password is None,
                }
            },
            Err(error) => error matches DatabaseError::AuthenticationFailed { reason } && reason@
                == "No password or certificate provided"@ && config.password is None
                && config.certificate is None,
        }
    }

    /// Takes the credentials from the configuration.
    pub fn credentials_of(config: &ConnectionConfig) -> (credentials: Result<Credentials, DatabaseError>)
        ensures
            Self::credentials_as(*config, credentials),
    {
        match &config.password {
            Some(password) => Ok(Credentials::new(config.username.as_str(), password.as_str())),
            None => match &config.certificate {
                Some(data) => Ok(
                    Credentials::with_username(config.username.as_str()).with_certificate(
                        Certificate { data: slice_to_vec(data.as_slice()) },
                    ),
                ),
                None => Err(
                    DatabaseError::AuthenticationFailed {
                        reason: String::from_str("No password or certificate provided"),
                    },
                ),
            },
        }
    }

    /// Sets the client up for the cluster of `config`: a connection manager
    /// with an empty pool, and an authentication manager that holds the
    /// credentials of the configuration and no token yet. Fails where the
    /// configuration holds neither a password nor a certificate.
    pub fn connect(config: ConnectionConfig) -> (client: Result<Self, DatabaseError>)
        ensures
            match client {
                Ok(client) => {
                    &&& client.configuration() == config
                    &&& Self::credentials_as(config, Ok(client.authentication().credentials()))
                    &&& client.authentication().token() is None
                    &&& client.authentication().token_ttl_ms() == default_token_ttl_ms()
                    &&& client.connections().pool() == (PoolView::<S> {
                        available: Seq::empty(),
                        total_connections: 0,
                        config: config.pool_config,
                        hosts: config.hosts.deep_view(),
                        timeout_ms: config.timeout_ms,
                    })
                    &&& client.connections().node_health() == Map::<NodeId, NodeHealth>::empty()
                    &&& client.connections().retry_config() == config.retry_config
                    &&& client.data_operations().prepared() == Seq::<PreparedStatement>::empty()
                },
                Err(error) => Self::credentials_as(config, Err(error)),
            },
    {
        match Self::credentials_of(&config) {
            Err(error) => Err(error),
            Ok(credentials) => {
                let connection_manager = ConnectionManager::new(config.clone());
                let auth_manager = AuthenticationManager::new(credentials, 86_400_000);
                Ok(
                    Client {
                        config,
                        connection_manager,
                        auth_manager,
                        data_client: DataClient::new(),
                        admin_client: AdminClient::new(),
                    },
                )
            },
        }
    }

    /// Returns the connection configuration.
    pub fn config(&self) -> (config: &ConnectionConfig)
        ensures
            *config == self.configuration(),
    {
        &self.config
    }

    /// The connection manager, to acquire and release connections.
    pub fn connection_manager(&mut self) -> (manager: &mut ConnectionManager<S>)
        ensures
            *manager == old(self).connections(),
            final(self).connections() == *final(manager),
            final(self).authentication() == old(self).authentication(),
            final(self).data_operations() == old(self).data_operations(),
    {
        &mut self.connection_manager
    }

    /// The authentication manager, to get a valid token.
    pub fn auth_manager(&mut self) -> (manager: &mut AuthenticationManager)
        ensures
            *manager == old(self).authentication(),
            final(self).authentication() == *final(manager),
            final(self).connections() == old(self).connections(),
            final(self).data_operations() == old(self).data_operations(),
    {
        &mut self.auth_manager
    }

    /// The data client, for statements, queries and transactions.
    pub fn data(&mut self) -> (data: &mut DataClient)
        ensures
            *data == old(self).data_operations(),
            final(self).data_operations() == *final(data),
            final(self).connections() == old(self).connections(),
            final(self).authentication() == old(self).authentication(),
    {
        &mut self.data_client
    }

    /// The admin client, for the management of the cluster and its users.
    pub fn admin(&self) -> &AdminClient {
        &self.admin_client
    }

    /// Records the probes of the configured hosts and sums up the health
    /// of the cluster.
    pub fn health_check(&mut self, probes: &[HealthProbe]) -> (result: Result<
        ClusterHealth,
        DatabaseError,
    >)
        ensures
            final(self).authentication() == old(self).authentication(),
            old(self).connections().same_but_health(final(self).connections()),
            result matches Ok(health) && {
                let count = if probes@.len() <= old(self).connections().hosts().len() {
                    probes@.len()
                } else {
                    old(self).connections().hosts().len()
                };
                &&& final(self).connections().node_health() == observed_all(
                    old(self).connections().node_health(),
                    probes@,
                    count,
                )
                &&& health.total_nodes == count
                &&& health.healthy_nodes == healthy_count(health.node_healths@)
                &&& health.node_healths@.len() == count
                &&& forall|i: int|
                    0 <= i < count ==> #[trigger] health.node_healths@[i] == observed_all(
                        old(self).connections().node_health(),
                        probes@,
                        (i + 1) as nat,
                    )[(i + 1) as u64]
            },
    {
        match self.connection_manager.health_check_all_nodes(probes) {
            Ok(node_healths) => Ok(ClusterHealth::from_node_healths(node_healths)),
            Err(error) => Err(error),
        }
    }

    /// Takes the client down: logs out, then resets the connection
    /// manager. A failed logout does not stop the teardown; its error is
    /// handed back for the log.
    pub fn disconnect(&mut self) -> (warning: Option<DatabaseError>)
        ensures
            final(self).authentication().token() is None,
            final(self).connections().pool() == (PoolView {
                available: Seq::empty(),
                total_connections: 0,
                ..old(self).connections().pool()
            }),
            final(self).connections().node_health() == Map::<NodeId, NodeHealth>::empty(),
            warning is Some <==> old(self).authentication().token() is None,
    {
        let warning = match self.auth_manager.logout() {
            Ok(_) => None,
            Err(error) => Some(error),
        };
        self.connection_manager.disconnect();
        warning
    }
}

} // verus!
