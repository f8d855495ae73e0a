//! Counters of operations and of the connection pool. The library counts;
//! it keeps the latencies that it is given, of whatever type `L` they are,
//! and leaves the statistics over them to the caller.

use vstd::prelude::*;

verus! {

/// Connection pool metrics.
#[derive(Debug, Clone, Copy)]
pub struct ConnectionMetrics {
    /// Number of active connections.
    pub active_connections: u32,
    /// Number of idle connections.
    pub idle_connections: u32,
    /// Total number of connections.
    pub total_connections: u32,
    /// Number of connection errors.
    pub connection_errors: u64,
    /// Number of connection timeouts.
    pub connection_timeouts: u64,
}

impl Default for ConnectionMetrics {
    fn default() -> (metrics: Self)
        ensures
            metrics.active_connections == 0,
            metrics.idle_connections == 0,
            metrics.total_connections == 0,
            metrics.connection_errors == 0,
            metrics.connection_timeouts == 0,
    {
        ConnectionMetrics {
            active_connections: 0,
            idle_connections: 0,
            total_connections: 0,
            connection_errors: 0,
            connection_timeouts: 0,
        }
    }
}

/// The most latencies that a tracker keeps.
pub open spec fn latency_window() -> nat {
    1000
}

/// The last `latency_window()` of the latencies, or all where there are
/// fewer.
pub open spec fn windowed<L>(latencies: Seq<L>) -> Seq<L> {
    if latencies.len() > latency_window() {
        latencies.skip(latencies.len() - latency_window())
    } else {
        latencies
    }
}

/// One more, up to the largest count.
pub open spec fn counted(count: u64) -> u64 {
    if count < u64::MAX {
        (count + 1) as u64
    } else {
        u64::MAX
    }
}

fn count_one(count: u64) -> (next: u64)
    ensures
        next == counted(count),
{
    if count < u64::MAX {
        count + 1
    } else {
        u64::MAX
    }
}

/// The counts and latencies of one kind of operation.
pub struct OperationCounts<L> {
    /// Operations recorded.
    pub total_count: u64,
    /// Operations that succeeded.
    pub success_count: u64,
    /// Operations that failed.
    pub error_count: u64,
    /// The latencies of the last operations, oldest first.
    pub latencies: Seq<L>,
}

impl<L> OperationCounts<L> {
    /// The counts after one more operation.
    pub open spec fn recorded(self, success: bool, latency: L) -> OperationCounts<L> {
        OperationCounts {
            total_count: counted(self.total_count),
            success_count: if success {
                counted(self.success_count)
            } else {
                self.success_count
            },
            error_count: if success {
                self.error_count
            } else {
                counted(self.error_count)
            },
            latencies: windowed(self.latencies.push(latency)),
        }
    }
}

/// Counts the operations of one kind and keeps the latencies of the last
/// thousand.
pub struct OperationTracker<L> {
    total_count: u64,
    success_count: u64,
    error_count: u64,
    latencies: Vec<L>,
}

impl<L> View for OperationTracker<L> {
    type V = OperationCounts<L>;

    closed spec fn view(&self) -> OperationCounts<L> {
        OperationCounts {
            total_count: self.total_count,
            success_count: self.success_count,
            error_count: self.error_count,
            latencies: self.latencies@,
        }
    }
}

impl<L> OperationTracker<L> {
    /// Creates a tracker that has recorded nothing.
    pub fn new() -> (tracker: Self)
        ensures
            tracker@ == (OperationCounts::<L> {
                total_count: 0,
                success_count: 0,
                error_count: 0,
                latencies: Seq::empty(),
            }),
    {
        OperationTracker { total_count: 0, success_count: 0, error_count: 0, latencies: Vec::new() }
    }

    /// Records one operation with its outcome and latency.
    pub fn record(&mut self, success: bool, latency: L)
        ensures
            final(self)@ == old(self)@.recorded(success, latency),
    {
        self.total_count = count_one(self.total_count);
        if success {
            self.success_count = count_one(self.success_count);
        } else {
            self.error_count = count_one(self.error_count);
        }
        self.latencies.push(latency);
        let ghost pushed = self.latencies@;
        assert(pushed.skip(0) =~= pushed);
        while self.latencies.len() > 1000
            invariant
                self.total_count == counted(old(self).total_count),
                self.success_count == old(self)@.recorded(success, latency).success_count,
                self.error_count == old(self)@.recorded(success, latency).error_count,
                pushed == old(self).latencies@.push(latency),
                self.latencies@.len() <= pushed.len(),
                self.latencies@.len() == pushed.len() || self.latencies@.len() >= 1000,
                self.latencies@ == pushed.skip(pushed.len() - self.latencies@.len()),
            decreases self.latencies@.len(),
        {
            let ghost before = self.latencies@;
            let _ = self.latencies.remove(0);
            assert(self.latencies@ =~= pushed.skip(pushed.len() - (before.len() - 1)));
        }
        assert(self.latencies@ =~= windowed(pushed)) by {
            if pushed.len() <= 1000 {
                assert(pushed.skip(0) =~= pushed);
            }
        }
    }

    /// How many operations were recorded.
    pub fn total_count(&self) -> (count: u64)
        ensures
            count == self@.total_count,
    {
        self.total_count
    }

    /// How many operations succeeded.
    pub fn success_count(&self) -> (count: u64)
        ensures
            count == self@.success_count,
    {
        self.success_count
    }

    /// How many operations failed.
    pub fn error_count(&self) -> (count: u64)
        ensures
            count == self@.error_count,
    {
        self.error_count
    }

    /// The latencies of the last operations, oldest first.
    pub fn latencies(&self) -> (latencies: &[L])
        ensures
            latencies@ == self@.latencies,
    {
        self.latencies.as_slice()
    }
}

/// The kinds of operation that are counted apart.
#[derive(Debug, Clone, Copy, PartialEq, Eq, Structural)]
pub enum OperationKind {
    /// Queries.
    Query,
    /// Statements.
    Execute,
    /// Transactions.
    Transaction,
    /// Authentication attempts.
    Auth,
}

/// Collects the metrics of a client.
pub struct MetricsCollector<L> {
    query_tracker: OperationTracker<L>,
    execute_tracker: OperationTracker<L>,
    transaction_tracker: OperationTracker<L>,
    auth_tracker: OperationTracker<L>,
    connection_metrics: ConnectionMetrics,
}

impl<L> MetricsCollector<L> {
    /// The counts of one kind of operation.
    pub closed spec fn counts(self, kind: OperationKind) -> OperationCounts<L> {
        match kind {
            OperationKind::Query => self.query_tracker@,
            OperationKind::Execute => self.execute_tracker@,
            OperationKind::Transaction => self.transaction_tracker@,
            OperationKind::Auth => self.auth_tracker@,
        }
    }

    /// The counters of the connection pool.
    pub closed spec fn connections(self) -> ConnectionMetrics {
        self.connection_metrics
    }

    /// Whether `after` is this collector with one more operation of `kind`
    /// recorded, and nothing else changed.
    pub open spec fn recorded_as(self, after: Self, kind: OperationKind, success: bool, latency: L) -> bool {
        &&& after.connections() == self.connections()
        &&& forall|other: OperationKind|
            after.counts(other) == if other == kind {
                self.counts(kind).recorded(success, latency)
            } else {
                #[trigger] self.counts(other)
            }
    }

    /// Creates a collector that has recorded nothing.
    pub fn new() -> (collector: Self)
        ensures
            forall|kind: OperationKind|
                #[trigger] collector.counts(kind) == (OperationCounts::<L> {
                    total_count: 0,
                    success_count: 0,
                    error_count: 0,
                    latencies: Seq::empty(),
                }),
            collector.connections() == (ConnectionMetrics {
                active_connections: 0,
                idle_connections: 0,
                total_connections: 0,
                connection_errors: 0,
                connection_timeouts: 0,
            }),
    {
        MetricsCollector {
            query_tracker: OperationTracker::new(),
            execute_tracker: OperationTracker::new(),
            transaction_tracker: OperationTracker::new(),
            auth_tracker: OperationTracker::new(),
            connection_metrics: ConnectionMetrics::default(),
        }
    }

    /// Records a query.
    pub fn record_query(&mut self, success: bool, latency: L)
        ensures
            old(self).recorded_as(*final(self), OperationKind::Query, success, latency),
    {
        self.query_tracker.record(success, latency);
    }

    /// Records a statement.
    pub fn record_execute(&mut self, success: bool, latency: L)
        ensures
            old(self).recorded_as(*final(self), OperationKind::Execute, success, latency),
    {
        self.execute_tracker.record(success, latency);
    }

    /// Records a transaction.
    pub fn record_transaction(&mut self, success: bool, latency: L)
        ensures
            old(self).recorded_as(*final(self), OperationKind::Transaction, success, latency),
    {
        self.transaction_tracker.record(success, latency);
    }

    /// Records an authentication attempt.
    pub fn record_auth_attempt(&mut self, success: bool, latency: L)
        ensures
            old(self).recorded_as(*final(self), OperationKind::Auth, success, latency),
    {
        self.auth_tracker.record(success, latency);
    }

    /// Sets the numbers of active, idle and all connections.
    pub fn update_connection_metrics(&mut self, active: u32, idle: u32, total: u32)
        ensures
            final(self).connections() == (ConnectionMetrics {
                active_connections: active,
                idle_connections: idle,
                total_connections: total,
                ..old(self).connections()
            }),
            forall|kind: OperationKind| final(self).counts(kind) == #[trigger] old(self).counts(kind),
    {
        self.connection_metrics.active_connections = active;
        self.connection_metrics.idle_connections = idle;
        self.connection_metrics.total_connections = total;
    }

    /// Counts one more connection error.
    pub fn record_connection_error(&mut self)
        ensures
            final(self).connections() == (ConnectionMetrics {
                connection_errors: counted(old(self).connections().connection_errors),
                ..old(self).connections()
            }),
            forall|kind: OperationKind| final(self).counts(kind) == #[trigger] old(self).counts(kind),
    {
        self.connection_metrics.connection_errors = count_one(
            self.connection_metrics.connection_errors,
        );
    }

    /// Counts one more connection timeout.
    pub fn record_connection_timeout(&mut self)
        ensures
            final(self).connections() == (ConnectionMetrics {
                connection_timeouts: counted(old(self).connections().connection_timeouts),
                ..old(self).connections()
            }),
            forall|kind: OperationKind| final(self).counts(kind) == #[trigger] old(self).counts(kind),
    {
        self.connection_metrics.connection_timeouts = count_one(
            self.connection_metrics.connection_timeouts,
        );
    }

    /// The tracker of one kind of operation.
    pub fn tracker(&self, kind: OperationKind) -> (tracker: &OperationTracker<L>)
        ensures
            tracker@ == self.counts(kind),
    {
        match kind {
            OperationKind::Query => &self.query_tracker,
            OperationKind::Execute => &self.execute_tracker,
            OperationKind::Transaction => &self.transaction_tracker,
            OperationKind::Auth => &self.auth_tracker,
        }
    }

    /// The counters of the connection pool.
    pub fn connection_metrics(&self) -> (metrics: ConnectionMetrics)
        ensures
            metrics == self.connections(),
    {
        self.connection_metrics
    }
}

} // verus!
