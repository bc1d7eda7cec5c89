use phirepass::relay::{cache_verdict, extract_node_id, node_key_pattern, request_filter, upstream_peer, version, CacheVerdict, LookupError, MemoryDB, NodeLookup, ServerIdentifier};

#[test]
fn extract_node_id_none_when_missing_header() {
    assert!(extract_node_id(None).is_none());
}

#[test]
fn extract_node_id_none_when_empty_header() {
    assert!(extract_node_id(Some("")).is_none());
}

#[test]
fn extract_node_id_first_non_empty_token() {
    assert_eq!(extract_node_id(Some(" , node-1 , node-2")), Some("node-1".to_string()));
}

#[test]
fn extract_node_id_only_separators() {
    assert_eq!(extract_node_id(Some(" , ,\t,")), None);
    assert_eq!(extract_node_id(Some("solo")), Some("solo".to_string()));
    assert_eq!(extract_node_id(Some(",,last ")), Some("last".to_string()));
}

#[test]
fn request_filter_rejects_missing_node() {
    assert_eq!(request_filter(None), Err(400));
    assert_eq!(request_filter(Some(" ")), Err(400));
    assert_eq!(request_filter(Some("n1,n2")), Ok("n1".to_string()));
}

#[test]
fn cache_entries_expire_after_thirty_seconds() {
    assert_eq!(cache_verdict(None, 5), CacheVerdict::Missing);
    assert_eq!(cache_verdict(Some(100), 100 + 29_999_999_999), CacheVerdict::Fresh);
    assert_eq!(cache_verdict(Some(100), 100 + 30_000_000_000), CacheVerdict::Expired);
    assert_eq!(cache_verdict(Some(100), 50), CacheVerdict::Fresh);
}

#[test]
fn node_lookup_steps() {
    let db = MemoryDB::create(());
    let step = db.get_user_server_by_node_id("abc");
    assert_eq!(step, NodeLookup::ScanKeys { node_id: "abc".to_string(), pattern: "phirepass:users:*:nodes:abc".to_string() });
    let none = NodeLookup::ScanKeys { node_id: "abc".to_string(), pattern: String::new() }.on_keys(vec![]);
    assert_eq!(none, NodeLookup::Done(Err(LookupError::NoEntries)));
    let fetch = step.on_keys(vec!["k1".to_string(), "k2".to_string()]);
    assert_eq!(fetch, NodeLookup::FetchServer { node_id: "abc".to_string(), key: "k1".to_string() });
    let missing = NodeLookup::FetchServer { node_id: "abc".to_string(), key: "k1".to_string() }.on_server(None);
    assert_eq!(missing, NodeLookup::Done(Err(LookupError::ServerNotFound { node_id: "abc".to_string() })));
    assert_eq!(fetch.on_server(Some("{}".to_string())), NodeLookup::Done(Ok("{}".to_string())));
    assert_eq!(node_key_pattern("x"), "phirepass:users:*:nodes:x");
}

#[test]
fn upstream_peer_uses_private_address() {
    let server = ServerIdentifier { id: 1, private_ip: "10.0.0.2".to_string(), public_ip: "1.2.3.4".to_string(), port: 9000, fqdn: "s.example".to_string() };
    assert_eq!(upstream_peer(Ok(server)), Ok(("10.0.0.2".to_string(), 9000, "s.example".to_string())));
    assert_eq!(upstream_peer(Err(LookupError::NoEntries)), Err(400));
    assert_eq!(version(), "0.1.0");
}
