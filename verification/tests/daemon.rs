use phirepass::daemon::env::{generate_server_endpoint, node_ws_endpoint, version, Env, SSHAuthMethod};
use phirepass::daemon::error::{message_error, DaemonError};
use phirepass::daemon::frames::{requires_password_error_frame, requires_username_error_frame, tunnel_data_frame};
use phirepass::daemon::routing::{route_node_frame, NodeAction};
use phirepass::daemon::sessions::{close_tunnels_for_cid, register_session, sftp_session, ssh_session, RouteError, SFTPCommand, SSHCommand, SessionHandle};
use phirepass::daemon::ssh::{ssh_session_step, SSHConfig, SSHConfigAuth, SSHConnection, SshEvent, SshStep};
use phirepass::daemon::ws::{check_auth_response, tunnel_outcome_frame, AuthError};
use phirepass::env::Mode;
use phirepass::protocol::common::{FrameData, FrameError};
use phirepass::protocol::node::{NodeFrameData, WebFrameId};
use phirepass::protocol::web::WebFrameData;
use phirepass::protocol::Protocol;
use phirepass::table::KeyedTable;

#[test]
fn server_endpoints() {
    assert_eq!(generate_server_endpoint(Mode::Development, "h".to_string(), 80), "ws://h");
    assert_eq!(generate_server_endpoint(Mode::Development, "h".to_string(), 8080), "ws://h:8080");
    assert_eq!(generate_server_endpoint(Mode::Production, "h".to_string(), 443), "wss://h");
    assert_eq!(generate_server_endpoint(Mode::Production, "h".to_string(), 80), "wss://h:80");
    assert_eq!(node_ws_endpoint(Mode::Production, "a.b".to_string(), 0), "wss://a.b:0/api/nodes/ws");
}

#[test]
fn auth_method_parsing() {
    assert_eq!(SSHAuthMethod::parse("PassWord"), Ok(SSHAuthMethod::Password));
    assert_eq!(SSHAuthMethod::parse("none"), Ok(SSHAuthMethod::UsernameOnly));
    assert_eq!(SSHAuthMethod::parse("key"), Err("invalid authentication method: key".to_string()));
    assert_eq!("NONE".parse::<SSHAuthMethod>(), Ok(SSHAuthMethod::UsernameOnly));
}

#[test]
fn auth_method_from_lowercased() {
    assert_eq!(SSHAuthMethod::from_lowercased("password", "PASSWORD"), Ok(SSHAuthMethod::Password));
    assert_eq!(SSHAuthMethod::from_lowercased("NONE", "NONE"), Err("invalid authentication method: NONE".to_string()));
}

#[test]
fn inactivity_setting() {
    let mut env = Env {
        mode: Mode::Production,
        host: "0.0.0.0".to_string(),
        port: 8081,
        token: String::new(),
        stats_refresh_interval: 60,
        ping_interval: 30,
        server_host: "0.0.0.0".to_string(),
        server_port: 8080,
        ssh_host: "0.0.0.0".to_string(),
        ssh_port: 22,
        ssh_auth_mode: SSHAuthMethod::Password,
        ssh_inactivity_secs: 3600,
    };
    assert_eq!(env.get_ssh_inactivity_duration(), Some(3600));
    env.ssh_inactivity_secs = 0;
    assert_eq!(env.get_ssh_inactivity_duration(), None);
    assert_eq!(version(), "0.1.0");
}

#[test]
fn message_error_is_other() {
    let r: Result<u8, DaemonError> = message_error("bad");
    assert_eq!(r, Err(DaemonError::Other("bad")));
}

#[test]
fn sessions_route_by_kind() {
    let mut sessions: KeyedTable<SessionHandle<&str, &str>> = KeyedTable::new();
    assert!(register_session(&mut sessions, 1, 10, SessionHandle::SSH("ssh-a")).is_none());
    assert!(register_session(&mut sessions, 1, 11, SessionHandle::SFTP("sftp-a")).is_none());
    assert!(register_session(&mut sessions, 2, 10, SessionHandle::SSH("ssh-b")).is_none());
    assert_eq!(ssh_session(&sessions, 1, 10), Ok(&"ssh-a"));
    assert_eq!(sftp_session(&sessions, 1, 10).err(), Some(RouteError::NoSftpTunnel(1)));
    assert_eq!(ssh_session(&sessions, 1, 11).err(), Some(RouteError::NoSshTunnel(1)));
    assert_eq!(sftp_session(&sessions, 3, 1).err(), Some(RouteError::NoSession(3)));
    match register_session(&mut sessions, 1, 10, SessionHandle::SSH("ssh-a2")) {
        Some(SessionHandle::SSH(p)) => assert_eq!(p, "ssh-a"),
        _ => panic!("previous session not returned"),
    }
    let closed = close_tunnels_for_cid(&mut sessions, 1);
    assert_eq!(closed.len(), 2);
    assert!(closed.iter().all(|(k, _)| k.0 == 1));
    assert_eq!(sessions.len(), 1);
    assert_eq!(ssh_session(&sessions, 2, 10), Ok(&"ssh-b"));
    assert_eq!(ssh_session(&sessions, 1, 10).err(), Some(RouteError::NoSession(1)));
}

#[test]
fn routing_of_node_frames() {
    let open = NodeFrameData::OpenTunnel { protocol: 1, cid: 9, username: Some("u".to_string()), password: None, msg_id: Some(4) };
    assert_eq!(route_node_frame(open, 0), NodeAction::StartSftp { cid: 9, username: Some("u".to_string()), password: None, msg_id: Some(4) });
    let open_ssh = NodeFrameData::OpenTunnel { protocol: 0, cid: 9, username: None, password: None, msg_id: None };
    assert_eq!(route_node_frame(open_ssh, 0), NodeAction::StartSsh { cid: 9, username: None, password: None, msg_id: None });
    assert_eq!(route_node_frame(NodeFrameData::Pong { sent_at: 100 }, 150), NodeAction::RoundTrip { rtt: 50, sent_at: 100 });
    assert_eq!(route_node_frame(NodeFrameData::Pong { sent_at: 200 }, 150), NodeAction::RoundTrip { rtt: 0, sent_at: 200 });
    assert_eq!(route_node_frame(NodeFrameData::ConnectionDisconnect { cid: 3 }, 0), NodeAction::CloseConnection { cid: 3 });
    assert_eq!(
        route_node_frame(NodeFrameData::TunnelData { protocol: 0, cid: 1, sid: 2, data: vec![7] }, 0),
        NodeAction::ToSsh { cid: 1, sid: 2, command: SSHCommand::Data(vec![7]) }
    );
    assert_eq!(
        route_node_frame(NodeFrameData::TunnelData { protocol: 1, cid: 1, sid: 2, data: vec![7] }, 0),
        NodeAction::UnsupportedTunnelData { protocol: 1, sid: 2 }
    );
    match route_node_frame(NodeFrameData::SFTPDownloadChunkRequest { cid: 1, sid: 2, msg_id: None, download_id: 5, chunk_index: 6 }, 0) {
        NodeAction::ToSftp { cid: 1, sid: 2, command: SFTPCommand::DownloadChunk { chunk, msg_id: None } } => {
            assert_eq!((chunk.download_id, chunk.chunk_index, chunk.chunk_size, chunk.data.len()), (5, 6, 0, 0));
        }
        other => panic!("unexpected {other:?}"),
    }
    assert_eq!(route_node_frame(NodeFrameData::Ping { sent_at: 1 }, 0), NodeAction::Ignore);
    assert_eq!(
        route_node_frame(NodeFrameData::SFTPList { cid: 1, path: "/".to_string(), sid: 2, msg_id: Some(1) }, 0),
        NodeAction::ToSftp { cid: 1, sid: 2, command: SFTPCommand::List("/".to_string(), Some(1)) }
    );
}

#[test]
fn error_frames_for_missing_credentials() {
    let f = requires_username_error_frame(42, Some(7));
    assert_eq!(
        f.data,
        FrameData::Node(NodeFrameData::WebFrame {
            frame: WebFrameData::Error { kind: FrameError::RequiresUsername, message: "Username is missing".to_string(), msg_id: Some(7) },
            id: WebFrameId::ConnectionId(42),
        })
    );
    let f = requires_password_error_frame(42, None);
    assert_eq!(
        f.data,
        FrameData::Node(NodeFrameData::WebFrame {
            frame: WebFrameData::Error { kind: FrameError::RequiresPassword, message: "Password is missing".to_string(), msg_id: None },
            id: WebFrameId::ConnectionId(42),
        })
    );
    let t = tunnel_data_frame(3, "node".to_string(), vec![1]);
    assert_eq!(
        t.data,
        FrameData::Node(NodeFrameData::WebFrame {
            frame: WebFrameData::TunnelData { target: "node".to_string(), sid: 3, data: vec![1], msg_id: None },
            id: WebFrameId::SessionId(3),
        })
    );
}

#[test]
fn auth_response_checks() {
    assert_eq!(check_auth_response(None), Err(AuthError::NoResponse));
    assert_eq!(
        check_auth_response(Some(NodeFrameData::AuthResponse { node_id: 5, success: true, version: "1".to_string() })),
        Ok((5, "1".to_string()))
    );
    assert_eq!(
        check_auth_response(Some(NodeFrameData::AuthResponse { node_id: 5, success: false, version: "1".to_string() })),
        Err(AuthError::Rejected)
    );
    assert_eq!(
        check_auth_response(Some(NodeFrameData::Ping { sent_at: 1 })),
        Err(AuthError::WrongFrame(NodeFrameData::Ping { sent_at: 1 }))
    );
}

#[test]
fn tunnel_outcomes() {
    let closed = tunnel_outcome_frame(Protocol::SFTP, 8, 2, Some(1), Ok(()));
    assert_eq!(closed.data, FrameData::Node(NodeFrameData::TunnelClosed { protocol: 1, cid: 8, sid: 2, msg_id: Some(1) }));
    let failed = tunnel_outcome_frame(Protocol::SSH, 8, 2, Some(1), Err("auth failed".to_string()));
    assert_eq!(
        failed.data,
        FrameData::Node(NodeFrameData::WebFrame {
            frame: WebFrameData::Error { kind: FrameError::Generic, message: "auth failed".to_string(), msg_id: Some(1) },
            id: WebFrameId::SessionId(2),
        })
    );
}

#[test]
fn ssh_loop_steps() {
    assert_eq!(ssh_session_step(1, 2, SshEvent::Shutdown), SshStep::Stop);
    assert_eq!(ssh_session_step(1, 2, SshEvent::ChannelExitStatus(0)), SshStep::SendEofThenStop);
    assert_eq!(ssh_session_step(1, 2, SshEvent::ChannelOther), SshStep::Continue);
    assert_eq!(
        ssh_session_step(1, 2, SshEvent::Command(SSHCommand::Resize { cols: 80, rows: 24 })),
        SshStep::ResizeChannel { cols: 80, rows: 24 }
    );
    let node: u128 = 0x0188_e2a1_7b3c_4d5e_6f70_8192_a3b4_c5d6;
    match ssh_session_step(node, 2, SshEvent::ChannelData(vec![104, 105])) {
        SshStep::Forward(frame) => match frame.data {
            FrameData::Node(NodeFrameData::WebFrame { frame: WebFrameData::TunnelData { target, sid, data, .. }, id }) => {
                assert_eq!(target, ulid::Ulid(node).to_string());
                assert_eq!(target.len(), 26);
                assert_ne!(target, node.to_string());
                assert_eq!(sid, 2);
                assert_eq!(data, vec![104, 105]);
                assert_eq!(id, WebFrameId::SessionId(2));
            }
            other => panic!("unexpected {other:?}"),
        },
        other => panic!("unexpected {other:?}"),
    }
    match ssh_session_step(1, 0, SshEvent::ChannelData(vec![])) {
        SshStep::Forward(frame) => match frame.data {
            FrameData::Node(NodeFrameData::WebFrame { frame: WebFrameData::TunnelData { target, .. }, .. }) => {
                assert_eq!(target, "00000000000000000000000001");
            }
            other => panic!("unexpected {other:?}"),
        },
        other => panic!("unexpected {other:?}"),
    }
}

#[test]
fn ssh_connection_keeps_config() {
    let config = SSHConfig { host: "h".to_string(), port: 22, credentials: SSHConfigAuth::UsernamePassword("u".to_string(), "p".to_string()) };
    let c = SSHConnection::new(config.clone());
    assert_eq!(c.get_config(), &config);
}

#[test]
fn sessions_from_one_counter_never_replace_each_other() {
    let mut counter = phirepass::ids::IdCounter::new();
    let mut sessions: KeyedTable<SessionHandle<u8, u8>> = KeyedTable::new();
    for i in 0..50u8 {
        let sid = phirepass::ids::generate_session_id(&mut counter);
        let cid = (i % 3) as u128;
        let handle = if i % 2 == 0 { SessionHandle::SSH(i) } else { SessionHandle::SFTP(i) };
        assert!(register_session(&mut sessions, cid, sid, handle).is_none());
    }
    assert_eq!(sessions.len(), 50);
}
