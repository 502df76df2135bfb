use dprun::codec::{
    CreatePlayerData, DecodeError, OpenData, ReplyData, SendData, CREATE_PLAYER_LEN, OPEN_LEN,
    REPLY_HEADER_LEN, SEND_HEADER_LEN,
};
use dprun::identifier::Identifier;

fn known_id() -> Identifier {
    Identifier::parse_str("5BFDB060-06A4-11D0-9C4F-00A0C905425E").unwrap()
}

#[test]
fn create_player_payload_scenario() {
    let mut bytes = vec![0u8; 4];
    bytes.extend_from_slice(&known_id().bytes);
    bytes.extend_from_slice(&2i32.to_le_bytes());
    assert_eq!(bytes.len(), 24);
    let d = CreatePlayerData::parse(&bytes).unwrap();
    assert_eq!(d.player_guid, known_id());
    assert_eq!(d.flags, 2);
}

#[test]
fn open_layout_and_round_trip() {
    let bytes = [1u8, 0, 0xAA, 0xBB, 5, 0, 0, 0, 0xFF, 0xFF, 0xFF, 0xFF];
    let d = OpenData::parse(&bytes).unwrap();
    assert_eq!(
        d,
        OpenData { create: true, return_status: false, open_flags: 5, session_flags: -1 }
    );
    let encoded = d.to_bytes();
    assert_eq!(encoded, vec![1u8, 0, 0, 0, 5, 0, 0, 0, 0xFF, 0xFF, 0xFF, 0xFF]);
    assert_eq!(OpenData::parse(&encoded).unwrap(), d);
}

#[test]
fn create_player_round_trip_drops_legacy_id() {
    let d = CreatePlayerData { player_guid: known_id(), flags: -7 };
    let encoded = d.to_bytes(1234);
    assert_eq!(&encoded[0..4], &1234u32.to_le_bytes());
    let back = CreatePlayerData::parse(&encoded).unwrap();
    assert_eq!(back.player_guid, d.player_guid);
    assert_eq!(back.flags, -7);
}

#[test]
fn reply_round_trip() {
    let d = ReplyData { reply_to: known_id(), name_server_id: 42, message: vec![9, 8, 7] };
    let encoded = d.to_bytes();
    assert_eq!(encoded.len(), REPLY_HEADER_LEN + 3);
    let back = ReplyData::parse(&encoded).unwrap();
    assert_eq!(back.reply_to, known_id());
    assert_eq!(back.name_server_id, 42);
    assert_eq!(back.message, vec![9u8, 8, 7]);
}

#[test]
fn send_round_trip() {
    let d = SendData {
        flags: 3,
        receiver_id: Some(known_id()),
        sender_id: Identifier::zero(),
        system_message: true,
        message: vec![1, 2],
    };
    let encoded = d.to_bytes();
    assert_eq!(encoded.len(), SEND_HEADER_LEN + 2);
    let back = SendData::parse(&encoded).unwrap();
    assert_eq!(back.flags, 3);
    assert_eq!(back.receiver_id, Some(known_id()));
    assert_eq!(back.sender_id, Identifier::zero());
    assert!(back.system_message);
    assert_eq!(back.message, vec![1u8, 2]);
}

#[test]
fn send_zero_receiver_is_none() {
    let d = SendData {
        flags: 0,
        receiver_id: None,
        sender_id: known_id(),
        system_message: false,
        message: vec![],
    };
    let encoded = d.to_bytes();
    assert_eq!(&encoded[4..20], &[0u8; 16]);
    let back = SendData::parse(&encoded).unwrap();
    assert_eq!(back.receiver_id, None);
    assert!(!back.system_message);
}

#[test]
fn short_buffers_are_decode_errors() {
    for len in 0..OPEN_LEN {
        assert_eq!(OpenData::parse(&vec![0u8; len]).unwrap_err(), DecodeError::TooShort);
    }
    for len in 0..CREATE_PLAYER_LEN {
        assert_eq!(
            CreatePlayerData::parse(&vec![0u8; len]).unwrap_err(),
            DecodeError::TooShort
        );
    }
    for len in 0..REPLY_HEADER_LEN {
        assert_eq!(ReplyData::parse(&vec![0u8; len]).unwrap_err(), DecodeError::TooShort);
    }
    for len in 0..SEND_HEADER_LEN {
        assert_eq!(SendData::parse(&vec![0u8; len]).unwrap_err(), DecodeError::TooShort);
    }
}

#[test]
fn declared_lengths_are_checked() {
    let mut reply = vec![0u8; 24];
    reply[20..24].copy_from_slice(&5i32.to_le_bytes());
    assert_eq!(ReplyData::parse(&reply).unwrap_err(), DecodeError::BadLength);
    reply[20..24].copy_from_slice(&(-1i32).to_le_bytes());
    assert_eq!(ReplyData::parse(&reply).unwrap_err(), DecodeError::BadLength);
    let mut send = vec![0u8; 44];
    send[40..44].copy_from_slice(&1i32.to_le_bytes());
    assert_eq!(SendData::parse(&send).unwrap_err(), DecodeError::BadLength);
    send.push(0x55);
    assert_eq!(SendData::parse(&send).unwrap().message, vec![0x55u8]);
}
