use dprun::controller::ControlMessage;
use dprun::frame::{decode_frame, server_step, FrameError, Inbound, ServerAction, ServerEvent};
use dprun::codec::DecodeError;
use dprun::identifier::Identifier;

fn frame(id: u32, reply: u32, tag: &[u8; 4], payload: &[u8]) -> Vec<u8> {
    let mut f = id.to_be_bytes().to_vec();
    f.extend_from_slice(&reply.to_be_bytes());
    f.extend_from_slice(tag);
    f.extend_from_slice(payload);
    f
}

fn create_player_payload(flags: i32) -> Vec<u8> {
    let mut p = vec![0u8; 4];
    p.extend_from_slice(&Identifier::zero().bytes);
    p.extend_from_slice(&flags.to_le_bytes());
    p
}

#[test]
fn back_to_back_create_player_frames_in_order() {
    let frames = vec![
        frame(1, 0xFFFF_FFFF, b"crpl", &create_player_payload(2)),
        frame(2, 0xFFFF_FFFF, b"crpl", &create_player_payload(8)),
    ];
    let mut calls = Vec::new();
    for f in &frames {
        match decode_frame(f).unwrap() {
            Inbound::CreatePlayer(id, d) => calls.push((id, d.flags)),
            other => panic!("unexpected {:?}", other),
        }
    }
    assert_eq!(calls, vec![(1u32, 2i32), (2u32, 8i32)]);
}

#[test]
fn each_method_tag_selects_its_call() {
    assert!(matches!(
        decode_frame(&frame(5, 0, b"enum", &[1, 2])).unwrap(),
        Inbound::EnumSessions(5, ref d) if d.message == vec![1u8, 2]
    ));
    assert!(matches!(
        decode_frame(&frame(6, 0, b"open", &[1u8; 12])).unwrap(),
        Inbound::Open(6, _)
    ));
    let mut reply = vec![0u8; 20];
    reply.extend_from_slice(&0i32.to_le_bytes());
    assert!(matches!(decode_frame(&frame(7, 0, b"repl", &reply)).unwrap(), Inbound::Reply(7, _)));
    let mut send = vec![0u8; 40];
    send.extend_from_slice(&0i32.to_le_bytes());
    assert!(matches!(decode_frame(&frame(8, 0, b"send", &send)).unwrap(), Inbound::Send(8, _)));
    assert!(matches!(
        decode_frame(&frame(9, 0, b"what", &[])).unwrap(),
        Inbound::Unknown(9, t) if &t == b"what"
    ));
}

#[test]
fn short_frames_and_payloads_are_errors() {
    assert_eq!(decode_frame(&[0u8; 11]).unwrap_err(), FrameError::TooShort);
    assert_eq!(
        decode_frame(&frame(1, 0, b"open", &[0u8; 11])).unwrap_err(),
        FrameError::Payload(DecodeError::TooShort)
    );
    let mut reply = vec![0u8; 20];
    reply.extend_from_slice(&4i32.to_le_bytes());
    assert_eq!(
        decode_frame(&frame(1, 0, b"repl", &reply)).unwrap_err(),
        FrameError::Payload(DecodeError::BadLength)
    );
}

#[test]
fn accept_loop_decisions() {
    assert_eq!(server_step(ServerEvent::Connection), ServerAction::Serve);
    assert_eq!(server_step(ServerEvent::Control(ControlMessage::Stop)), ServerAction::Stop);
    assert_eq!(server_step(ServerEvent::ListenerFailed), ServerAction::Stop);
}
