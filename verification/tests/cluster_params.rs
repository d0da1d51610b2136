use ero_cassandra::ClusterParams;

#[test]
fn default_params_point_at_the_local_node() {
    let params = ClusterParams::default();
    assert_eq!(params.contact_points, "127.0.0.1");
    assert_eq!(params.keyspace, "default");
    assert_eq!(params.num_threads_io, 2);
    assert_eq!(params.queue_size_io, 16384);
    assert_eq!(params.queue_size_event, 32768);
    assert_eq!(params.core_connections_per_host, 2);
    assert_eq!(params.max_connections_per_host, 4);
    assert_eq!(params.max_concurrent_creation, 2);
    assert_eq!(params.max_requests_per_flush, 256);
    assert_eq!(params.write_bytes_high_water_mark, 1048576);
    assert_eq!(params.pending_requests_high_water_mark, 512);
    assert!(params.load_balance_round_robin);
    assert!(!params.token_aware_routing);
    assert!(!params.use_schema);
}
