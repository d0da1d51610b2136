use vstd::prelude::*;

verus! {

/// Connection settings of a cluster: where it is reached, which keyspace a
/// session is bound to, and the tuning knobs of the client's I/O layer.
#[derive(Clone, Debug, PartialEq, Eq)]
pub struct ClusterParams {
    pub contact_points: String,
    pub keyspace: String,
    pub num_threads_io: usize,
    pub queue_size_io: usize,
    pub queue_size_event: usize,
    pub core_connections_per_host: usize,
    pub max_connections_per_host: usize,
    pub max_concurrent_creation: usize,
    pub max_requests_per_flush: usize,
    pub write_bytes_high_water_mark: usize,
    pub pending_requests_high_water_mark: usize,
    pub load_balance_round_robin: bool,
    pub token_aware_routing: bool,
    pub use_schema: bool,
}

/// What a `ClusterParams` holds, as mathematical values.
pub struct ClusterParamsView {
    pub contact_points: Seq<char>,
    pub keyspace: Seq<char>,
    pub num_threads_io: nat,
    pub queue_size_io: nat,
    pub queue_size_event: nat,
    pub core_connections_per_host: nat,
    pub max_connections_per_host: nat,
    pub max_concurrent_creation: nat,
    pub max_requests_per_flush: nat,
    pub write_bytes_high_water_mark: nat,
    pub pending_requests_high_water_mark: nat,
    pub load_balance_round_robin: bool,
    pub token_aware_routing: bool,
    pub use_schema: bool,
}

impl View for ClusterParams {
    type V = ClusterParamsView;

    open spec fn view(&self) -> ClusterParamsView {
        ClusterParamsView {
            contact_points: self.contact_points@,
            keyspace: self.keyspace@,
            num_threads_io: self.num_threads_io as nat,
            queue_size_io: self.queue_size_io as nat,
            queue_size_event: self.queue_size_event as nat,
            core_connections_per_host: self.core_connections_per_host as nat,
            max_connections_per_host: self.max_connections_per_host as nat,
            max_concurrent_creation: self.max_concurrent_creation as nat,
            max_requests_per_flush: self.max_requests_per_flush as nat,
            write_bytes_high_water_mark: self.write_bytes_high_water_mark as nat,
            pending_requests_high_water_mark: self.pending_requests_high_water_mark as nat,
            load_balance_round_robin: self.load_balance_round_robin,
            token_aware_routing: self.token_aware_routing,
            use_schema: self.use_schema,
        }
    }
}

impl ClusterParamsView {
    /// The settings of a client that talks to a single local node.
    pub open spec fn local_node() -> ClusterParamsView {
        ClusterParamsView {
            contact_points: "127.0.0.1"@,
            keyspace: "default"@,
            num_threads_io: 2,
            queue_size_io: 16384,
            queue_size_event: 32768,
            core_connections_per_host: 2,
            max_connections_per_host: 4,
            max_concurrent_creation: 2,
            max_requests_per_flush: 256,
            write_bytes_high_water_mark: 1048576,
            pending_requests_high_water_mark: 512,
            load_balance_round_robin: true,
            token_aware_routing: false,
            use_schema: false,
        }
    }
}

impl Default for ClusterParams {
    fn default() -> (params: ClusterParams)
        ensures
            params@ == ClusterParamsView::local_node(),
    {
        ClusterParams {
            contact_points: "127.0.0.1".to_string(),
            keyspace: "default".to_string(),
            num_threads_io: 2,
            queue_size_io: 16384,
            queue_size_event: 32768,
            core_connections_per_host: 2,
            max_connections_per_host: 4,
            max_concurrent_creation: 2,
            max_requests_per_flush: 256,
            write_bytes_high_water_mark: 1024 * 1024,
            pending_requests_high_water_mark: 512,
            load_balance_round_robin: true,
            token_aware_routing: false,
            use_schema: false,
        }
    }
}

} // verus!
