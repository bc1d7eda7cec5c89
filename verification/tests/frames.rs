use phirepass::console::{control_frame_for, ConsoleTerminalState};
use phirepass::channel::{classify_message, decode_frame, encode_frame, heartbeat_interval, outgoing_frame, ChannelMessage, Protocol as ChannelProtocol};
use phirepass::control::{generic_web_error, Frame as ControlFrame, FrameData as ControlFrameData, FrameEncoding as ControlEncoding, WebControlErrorType, WebControlMessage, WebFrameData as ControlWebFrameData};
use phirepass::protocol::common::{encode_raw, Frame, FrameData, FrameDecodeError, FrameEncoding, FrameError, FrameKind};
use phirepass::protocol::node::NodeFrameData;
use phirepass::protocol::web::WebFrameData;
use phirepass::protocol::Protocol;

fn heartbeat_json() -> Vec<u8> {
    serde_json::to_vec("Heartbeat").unwrap()
}

#[test]
fn test_frame_encode_heartbeat() {
    let frame = ControlFrame {
        version: 1,
        encoding: ControlEncoding::JSON,
        data: ControlFrameData::Web(ControlWebFrameData::Heartbeat),
    };
    let encoded = ControlFrame::encode(frame, &heartbeat_json());
    assert!(!encoded.is_empty());
    println!("Encoded heartbeat frame: {:?}", encoded);
    assert_eq!(encoded.len(), 19);
}

#[test]
fn test_webframe_encode_heartbeat() {
    let web_frame = ControlWebFrameData::Heartbeat;
    let encoded = web_frame.encode(&heartbeat_json());
    assert!(!encoded.is_empty());
    println!("Encoded heartbeat web frame: {:?}", encoded);
    assert_eq!(encoded.len(), 19);
}

#[test]
fn test_frame_encode_heartbeat_msgpack() {
    let frame = ControlFrame {
        version: 1,
        encoding: ControlEncoding::MsgPack,
        data: ControlWebFrameData::Heartbeat.into_frame_data(),
    };
    let payload = rmp_serde::to_vec("Heartbeat").unwrap();
    let encoded = ControlFrame::encode(frame, &payload);
    assert!(!encoded.is_empty());
    println!("Encoded heartbeat frame: {:?}", encoded);
    assert_eq!(encoded.len(), 18);
}

#[test]
fn control_frame_header_bytes() {
    let encoded = ControlWebFrameData::TunnelClosed { sid: 3, msg_id: None }.encode(&[9, 8, 7]);
    assert_eq!(encoded, vec![1, 0, 23, 0, 0, 0, 0, 3, 9, 8, 7]);
    let frame = ControlFrame { version: 9, encoding: ControlEncoding::MsgPack, data: ControlFrameData::Web(ControlWebFrameData::Heartbeat) };
    assert_eq!(ControlFrame::encode(frame, &[]), vec![1, 1, 10, 0, 0, 0, 0, 0]);
}

#[test]
fn control_error_kinds_round_trip() {
    for e in [WebControlErrorType::Generic, WebControlErrorType::RequiresPassword, WebControlErrorType::RequiresUsernamePassword] {
        assert_eq!(WebControlErrorType::from_u8(e.code()), e);
    }
    assert_eq!(WebControlErrorType::from_u8(7), WebControlErrorType::Generic);
    assert_eq!(WebControlErrorType::RequiresUsernamePassword.code(), 110);
}

#[test]
fn generic_web_error_has_generic_kind() {
    let m = generic_web_error("boom".to_string());
    assert_eq!(m, WebControlMessage::Error { kind: WebControlErrorType::Generic, message: "boom".to_string() });
}

#[test]
fn frame_encode_decode_round_trip() {
    let frame = Frame::from_web(WebFrameData::TunnelClosed { sid: 5, msg_id: Some(2) });
    let bytes = Frame::encode(&frame, b"payload");
    assert_eq!(&bytes[..8], &[1, 1, 0, 23, 0, 0, 0, 7]);
    let mut with_tail = bytes.clone();
    with_tail.extend_from_slice(b"extra");
    let raw = Frame::decode(&with_tail).unwrap();
    assert_eq!(raw.version, 1);
    assert_eq!(raw.encoding, FrameEncoding::MessagePack);
    assert_eq!(raw.kind, FrameKind::Web);
    assert_eq!(raw.code, 23);
    assert_eq!(raw.payload, b"payload".to_vec());
}

#[test]
fn node_frame_header_carries_kind_and_code() {
    let frame = Frame { version: 3, encoding: FrameEncoding::JSON, data: FrameData::Node(NodeFrameData::Ping { sent_at: 1 }) };
    let bytes = frame.to_bytes(&[]);
    assert_eq!(bytes, vec![1, 0, 1, 40, 0, 0, 0, 0]);
}

#[test]
fn frame_decode_errors() {
    assert_eq!(Frame::decode(&[1, 0, 0, 0, 0, 0, 0]), Err(FrameDecodeError::InvalidFrameSize));
    assert_eq!(Frame::decode(&[1, 2, 0, 0, 0, 0, 0, 0]), Err(FrameDecodeError::UnknownEncoding(2)));
    assert_eq!(Frame::decode(&[1, 0, 0, 0, 0, 0, 0, 2, 1]), Err(FrameDecodeError::CorruptFrameData));
    assert_eq!(Frame::decode(&[1, 0, 2, 0, 0, 0, 0, 0]), Err(FrameDecodeError::InvalidFrameType));
    let raw = Frame::decode(&[7, 1, 1, 60, 0, 0, 1, 0]);
    assert_eq!(raw, Err(FrameDecodeError::CorruptFrameData));
}

#[test]
fn frame_length_is_big_endian() {
    let payload = vec![0xAB; 0x0102];
    let bytes = encode_raw(FrameEncoding::JSON, FrameKind::Node, 1, &payload);
    assert_eq!(&bytes[4..8], &[0, 0, 1, 2]);
    assert_eq!(bytes.len(), 8 + 0x0102);
}

#[test]
fn frame_error_codes() {
    assert_eq!(FrameError::from_u8(100), FrameError::RequiresUsername);
    assert_eq!(FrameError::from_u8(110), FrameError::RequiresPassword);
    assert_eq!(FrameError::from_u8(120), FrameError::RequiresUsernamePassword);
    assert_eq!(FrameError::from_u8(5), FrameError::Generic);
    assert_eq!(FrameError::RequiresUsernamePassword.code(), 120);
    assert_eq!(FrameEncoding::try_from_u8(1), Ok(FrameEncoding::MessagePack));
    assert_eq!(FrameEncoding::try_from_u8(3), Err(FrameDecodeError::UnknownEncoding(3)));
    assert_eq!(FrameEncoding::MessagePack.name(), "MessagePack");
}

#[test]
fn web_and_node_codes() {
    assert_eq!(WebFrameData::Heartbeat.code(), 10);
    assert_eq!(WebFrameData::Error { kind: FrameError::Generic, message: String::new(), msg_id: None }.code(), 50);
    assert_eq!(NodeFrameData::ConnectionDisconnect { cid: 1 }.code(), 60);
    assert_eq!(NodeFrameData::Pong { sent_at: 1 }.code(), 41);
    assert_eq!(ControlWebFrameData::SSHWindowResize { sid: 1, cols: 2, rows: 3 }.code(), 30);
}

#[test]
fn tunnel_protocols() {
    assert_eq!(Protocol::try_from_u8(0), Protocol::SSH);
    assert_eq!(Protocol::try_from_u8(1), Protocol::SFTP);
    assert_eq!(Protocol::SFTP.code(), 1);
}

#[test]
fn channel_frame_round_trip() {
    let bytes = encode_frame(1, b"ls\n");
    assert_eq!(bytes, vec![1, 0, 0, 0, 3, b'l', b's', b'\n']);
    assert_eq!(decode_frame(&bytes), Some((1, b"ls\n".to_vec())));
    assert_eq!(decode_frame(&[0, 0, 0, 0]), None);
    assert_eq!(decode_frame(&[0, 0, 0, 0, 2, 1]), None);
    assert_eq!(classify_message(&bytes), ChannelMessage::Ssh(b"ls\n".to_vec()));
    assert_eq!(classify_message(&encode_frame(0, b"{}")), ChannelMessage::Control(b"{}".to_vec()));
    assert_eq!(classify_message(&encode_frame(2, b"rdp")), ChannelMessage::Unsupported { protocol: 2 });
    assert_eq!(classify_message(&encode_frame(7, b"{}")), ChannelMessage::Unsupported { protocol: 7 });
    assert_eq!(classify_message(&[1]), ChannelMessage::Invalid);
    assert_eq!(ChannelProtocol::from_u8(0), Some(ChannelProtocol::Control));
    assert_eq!(ChannelProtocol::from_u8(1), Some(ChannelProtocol::SSH));
    assert_eq!(ChannelProtocol::from_u8(3), None);
}

#[test]
fn channel_heartbeat_and_sending() {
    assert_eq!(heartbeat_interval(0), 15_000);
    assert_eq!(heartbeat_interval(250), 250);
    assert_eq!(outgoing_frame(false, 0, b"x"), None);
    assert_eq!(outgoing_frame(true, 0, b"x"), Some(vec![0, 0, 0, 0, 1, b'x']));
}

#[test]
fn console_sends_only_when_open() {
    assert_eq!(control_frame_for(None, b"a"), None);
    assert_eq!(control_frame_for(Some(0), b"a"), None);
    assert_eq!(control_frame_for(Some(1), b"a"), Some(vec![0, 0, 0, 0, 1, b'a']));
    let mut state = ConsoleTerminalState::new();
    state.ssh_connected = true;
    state.begin_connect("node-7".to_string());
    assert_eq!(state.selected_node, Some("node-7".to_string()));
    assert!(!state.ssh_connected);
}

#[test]
fn tunnel_protocol_code_for_channel() {
    assert_eq!(ChannelProtocol::SSH.code(), 1);
    assert_eq!(Protocol::SSH.code(), 0);
}
