use phirepass::agent::auth::SSHAuthMethod;
use phirepass::agent::creds::{CredsError, FsError, StateRead, StoredState, TokenStore};
use phirepass::agent::login::{entered_token, existing_node_id, logout_accepted, contains_ignoring_ascii_case, login_url, logout_url, next_attempt, reconnect_backoff_secs, should_clear_credentials, usable_credentials};
use phirepass::token::TokenError;

fn store() -> TokenStore {
    TokenStore::new("api.example.io".to_string(), "/tmp/state.json".to_string())
}

#[test]
fn save_parses_the_node_uuid() {
    let s = store().save("550e8400-e29b-41d4-a716-446655440000", "pat_a.b").unwrap();
    assert_eq!(s.node_id, 0x550e8400_e29b_41d4_a716_446655440000);
    assert_eq!(s.token, "pat_a.b");
    assert_eq!(s.server_host, "api.example.io");
    match store().save("not-a-uuid", "pat_a.b") {
        Err(CredsError::InvalidNodeId { node_id, .. }) => assert_eq!(node_id, "not-a-uuid"),
        other => panic!("unexpected {other:?}"),
    }
}

#[test]
fn saved_credentials_load_back() {
    let ts = store();
    let s = ts.save("550e8400e29b41d4a716446655440000", "pat_id.secret").unwrap();
    assert_eq!(ts.load(Some(s)), Ok((0x550e8400_e29b_41d4_a716_446655440000, "pat_id.secret".to_string())));
}

#[test]
fn load_refusals() {
    let ts = store();
    assert_eq!(ts.load(None), Err(CredsError::NilNodeId));
    let other = StoredState { node_id: 1, token: "pat_a.b".to_string(), server_host: "elsewhere".to_string() };
    assert_eq!(ts.load(Some(other)), Err(CredsError::ServerMismatch { stored: "elsewhere".to_string(), requested: "api.example.io".to_string() }));
    let nil = StoredState { node_id: 0, token: "pat_a.b".to_string(), server_host: String::new() };
    assert_eq!(ts.load(Some(nil)), Err(CredsError::NilNodeId));
    let empty = StoredState { node_id: 3, token: String::new(), server_host: String::new() };
    assert_eq!(ts.load(Some(empty)), Err(CredsError::EmptyToken));
    let bad = StoredState { node_id: 3, token: "tok".to_string(), server_host: String::new() };
    assert_eq!(ts.load(Some(bad)), Err(CredsError::InvalidToken(TokenError::InvalidFormat)));
    let any_server = StoredState { node_id: 3, token: "pat_x.y".to_string(), server_host: String::new() };
    assert_eq!(ts.load(Some(any_server)), Ok((3, "pat_x.y".to_string())));
}

#[test]
fn state_file_outcomes() {
    let ts = store();
    assert_eq!(ts.delete(Ok(())), Ok(()));
    assert_eq!(ts.delete(Err(FsError::NotFound)), Ok(()));
    assert_eq!(ts.delete(Err(FsError::Other)), Err(FsError::Other));
    assert_eq!(ts.load_state_from_file(StateRead::Unparsable), Ok(None));
    assert_eq!(ts.load_state_from_file(StateRead::Failed(FsError::NotFound)), Ok(None));
    assert_eq!(ts.load_state_from_file(StateRead::Failed(FsError::Other)), Err(FsError::Other));
    let s = StoredState::empty();
    assert_eq!(ts.load_state_from_file(StateRead::Parsed(s.clone())), Ok(Some(s)));
    assert_eq!(ts.get_state_path(), "/tmp/state.json");
}

#[test]
fn login_addresses() {
    assert_eq!(login_url("api.x", 443), "https://api.x/api/nodes/login");
    assert_eq!(login_url("api.x", 8443), "https://api.x/api/nodes/login");
    assert_eq!(login_url("localhost", 8080), "http://localhost:8080/api/nodes/login");
    assert_eq!(logout_url("api.x", 443), "https://api.x:443/api/nodes/logout");
    assert_eq!(logout_url("api.x", 8443), "http://api.x:8443/api/nodes/logout");
}

#[test]
fn refusals_that_clear_credentials() {
    assert!(should_clear_credentials("Token has EXPIRED"));
    assert!(should_clear_credentials("token revoked by admin"));
    assert!(should_clear_credentials("Invalid Token"));
    assert!(!should_clear_credentials("server unavailable"));
    assert!(!should_clear_credentials(""));
    assert!(contains_ignoring_ascii_case("ABC", "bc"));
    assert!(!contains_ignoring_ascii_case("ab", "abc"));
    assert!(contains_ignoring_ascii_case("x", ""));
}

#[test]
fn reconnect_backoff() {
    let waits: Vec<u64> = (0..7).map(reconnect_backoff_secs).collect();
    assert_eq!(waits, vec![1, 2, 4, 8, 16, 16, 16]);
    assert_eq!(reconnect_backoff_secs(u32::MAX), 16);
    assert_eq!(next_attempt(3), 4);
    assert_eq!(next_attempt(u32::MAX), u32::MAX);
}

#[test]
fn credentials_from_state_or_keyring() {
    let s = StoredState { node_id: 5, token: String::new(), server_host: "h".to_string() };
    assert_eq!(usable_credentials(s.clone(), Some("kt".to_string())), Some(("h".to_string(), 5, "kt".to_string())));
    assert_eq!(usable_credentials(s.clone(), None), None);
    let t = StoredState { node_id: 5, token: "st".to_string(), server_host: "h".to_string() };
    assert_eq!(usable_credentials(t, Some("kt".to_string())), Some(("h".to_string(), 5, "st".to_string())));
    let nil = StoredState { node_id: 0, token: "st".to_string(), server_host: "h".to_string() };
    assert_eq!(usable_credentials(nil, None), None);
}

#[test]
fn agent_auth_method() {
    assert_eq!(SSHAuthMethod::parse("Password"), Ok(SSHAuthMethod::Password));
    assert_eq!(SSHAuthMethod::parse("NoNe"), Ok(SSHAuthMethod::UsernameOnly));
    assert_eq!(SSHAuthMethod::parse("x"), Err("invalid authentication method: x".to_string()));
    assert_eq!(SSHAuthMethod::Password.name(), "Password");
}

#[test]
fn agent_auth_method_from_lowercased() {
    assert_eq!(SSHAuthMethod::from_lowercased("none", "NONE"), Ok(SSHAuthMethod::UsernameOnly));
    assert_eq!(SSHAuthMethod::from_lowercased("Password", "Password"), Err("invalid authentication method: Password".to_string()));
}

#[test]
fn login_keeps_the_node_id_of_the_same_server() {
    let state = StoredState { node_id: 9, token: "pat_a.b".to_string(), server_host: "h".to_string() };
    assert_eq!(existing_node_id(Some(state.clone()), "h"), Some(9));
    assert_eq!(existing_node_id(Some(state.clone()), "other"), None);
    assert_eq!(existing_node_id(Some(StoredState { node_id: 0, ..state }), "h"), None);
    assert_eq!(existing_node_id(None, "h"), None);
    assert_eq!(entered_token("  pat_a.b\n"), "pat_a.b");
}

#[test]
fn logout_acceptance() {
    assert!(logout_accepted(true, Some(true)));
    assert!(!logout_accepted(true, Some(false)));
    assert!(!logout_accepted(true, None));
    assert!(!logout_accepted(false, Some(true)));
}
