use dprun::codec::DecodeError;
use dprun::inspect::{parse_cmd, parse_message, parse_network_message, Command};

fn header(sig: &[u8; 4], cmd: u16, version: u16) -> Vec<u8> {
    let mut b = sig.to_vec();
    b.extend_from_slice(&cmd.to_le_bytes());
    b.extend_from_slice(&version.to_le_bytes());
    b
}

#[test]
fn packetized_ack_scenario() {
    let bytes = header(b"DPLY", 0x31, 1);
    let m = parse_message(&bytes).unwrap();
    assert_eq!(m.signature, "DPLY");
    assert_eq!(m.cmd, 0x31);
    assert_eq!(m.version, 1);
    assert!(matches!(m.body, Command::PacketizedAck));
}

#[test]
fn ping_and_ping_reply() {
    let mut bytes = header(b"play", 0x16, 14);
    bytes.extend_from_slice(&7u32.to_le_bytes());
    bytes.extend_from_slice(&1000u32.to_le_bytes());
    let m = parse_message(&bytes).unwrap();
    assert!(matches!(m.body, Command::Ping(7, 1000)));
    assert!(matches!(parse_cmd(0x17, &bytes[8..]).unwrap(), Command::PingReply(7, 1000)));
}

#[test]
fn create_player_name() {
    let mut body = vec![0u8; 28];
    body.extend_from_slice(&99u32.to_le_bytes());
    body.extend_from_slice(&5u32.to_le_bytes());
    body.extend_from_slice(&[0u8; 32]);
    body.extend_from_slice(b"Hosts");
    match parse_cmd(0x08, &body).unwrap() {
        Command::CreatePlayer(id, name) => {
            assert_eq!(id, 99);
            assert_eq!(name, "Hosts");
        }
        other => panic!("unexpected {:?}", other),
    }
    assert_eq!(parse_cmd(0x08, &body[..body.len() - 1]).unwrap_err(), DecodeError::TooShort);
}

#[test]
fn enum_sessions_reply_name() {
    let mut body = Vec::new();
    body.extend_from_slice(&28u32.to_le_bytes());
    body.extend_from_slice(&[0u8; 4]);
    body.extend_from_slice(&[0x11u8; 16]);
    body.extend_from_slice(&[0u8; 4]);
    body.extend_from_slice(&0u32.to_le_bytes());
    body.extend_from_slice(b"Game\xFF");
    match parse_cmd(0x01, &body).unwrap() {
        Command::EnumSessionsReply(name, id) => {
            assert_eq!(name, "Game\u{FFFD}");
            assert_eq!(id.bytes, [0x11u8; 16]);
        }
        other => panic!("unexpected {:?}", other),
    }
    let mut small = body.clone();
    small[0..4].copy_from_slice(&10u32.to_le_bytes());
    assert_eq!(parse_cmd(0x01, &small).unwrap_err(), DecodeError::BadLength);
}

#[test]
fn packetized_fragment_and_whole_message() {
    let mut body = vec![0u8; 16];
    body.extend_from_slice(&2u32.to_le_bytes());
    body.extend_from_slice(&[0u8; 8]);
    body.extend_from_slice(&3u32.to_le_bytes());
    assert!(matches!(parse_cmd(0x30, &body).unwrap(), Command::PacketizedData(2, 3)));

    let mut whole = vec![0u8; 16];
    whole.extend_from_slice(&0u32.to_le_bytes());
    whole.extend_from_slice(&[0u8; 8]);
    whole.extend_from_slice(&1u32.to_le_bytes());
    whole.extend_from_slice(&[0u8; 8]);
    whole.extend_from_slice(&header(b"play", 0x0b, 2));
    whole.extend_from_slice(&0u32.to_le_bytes());
    whole.extend_from_slice(&77u32.to_le_bytes());
    match parse_cmd(0x30, &whole).unwrap() {
        Command::PacketizedMessage(inner) => {
            assert_eq!(inner.signature, "play");
            assert!(matches!(inner.body, Command::DeletePlayer(77)));
        }
        other => panic!("unexpected {:?}", other),
    }
}

#[test]
fn other_commands_keep_their_bytes() {
    let mut bytes = header(b"play", 0x99, 1);
    bytes.extend_from_slice(&[1u8, 2, 3]);
    let m = parse_message(&bytes).unwrap();
    match m.body {
        Command::Other(raw) => assert_eq!(raw, vec![1u8, 2, 3]),
        other => panic!("unexpected {:?}", other),
    }
}

#[test]
fn truncated_messages_are_errors() {
    assert_eq!(parse_message(b"DPL").unwrap_err(), DecodeError::TooShort);
    let bytes = header(b"play", 0x05, 1);
    assert_eq!(parse_message(&bytes).unwrap_err(), DecodeError::TooShort);
}

#[test]
fn network_message_has_sender_first() {
    let mut bytes = vec![0x22u8; 16];
    bytes.extend_from_slice(&header(b"DPLY", 0x29, 1));
    let (sender, m) = parse_network_message(&bytes).unwrap();
    assert_eq!(sender.bytes, [0x22u8; 16]);
    assert!(matches!(m.body, Command::SuperEnumPlayersReply));
    assert_eq!(parse_network_message(&bytes[..10]).unwrap_err(), DecodeError::TooShort);
}
