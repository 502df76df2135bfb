//! Inbound frames: the 12-byte header, the method tag and the typed payload
//! that selects the backend call.
use crate::codec::{
    create_player_decodes_to, open_decodes_to, reply_body_fits, reply_decodes_to,
    send_body_fits, send_decodes_to, CreatePlayerData, DecodeError, EnumSessionsData, OpenData,
    ReplyData, SendData,
};
use crate::controller::ControlMessage;
use crate::wire::{be_u32, copy_range, read_u32_be};
use vstd::prelude::*;

verus! {

/// Length of a frame header: message id, reply-to id and method tag.
pub const FRAME_HEADER_LEN: usize = 12;

/// Why an inbound frame was not dispatched.
#[derive(Clone, Copy, Debug, PartialEq, Eq, Structural)]
pub enum FrameError {
    /// The frame is shorter than its header.
    TooShort,
    /// The payload does not decode as its method requires.
    Payload(DecodeError),
}

/// A decoded inbound frame: the backend call it asks for, with the frame's
/// message id.
#[derive(Debug)]
pub enum Inbound {
    EnumSessions(u32, EnumSessionsData),
    Open(u32, OpenData),
    CreatePlayer(u32, CreatePlayerData),
    Reply(u32, ReplyData),
    Send(u32, SendData),
    /// A method tag that names no call; such frames are ignored.
    Unknown(u32, [u8; 4]),
}

/// The method tag `enum`.
pub open spec fn enum_tag() -> Seq<u8> {
    seq![0x65u8, 0x6e, 0x75, 0x6d]
}

/// The method tag `open`.
pub open spec fn open_tag() -> Seq<u8> {
    seq![0x6fu8, 0x70, 0x65, 0x6e]
}

/// The method tag `crpl`.
pub open spec fn create_player_tag() -> Seq<u8> {
    seq![0x63u8, 0x72, 0x70, 0x6c]
}

/// The method tag `repl`.
pub open spec fn reply_tag() -> Seq<u8> {
    seq![0x72u8, 0x65, 0x70, 0x6c]
}

/// The method tag `send`.
pub open spec fn send_tag() -> Seq<u8> {
    seq![0x73u8, 0x65, 0x6e, 0x64]
}

/// What the frame `f`, at least a header long, decodes to.
pub open spec fn frame_decodes(f: Seq<u8>, r: Result<Inbound, FrameError>) -> bool {
    let id = be_u32(f, 0);
    let tag = f.subrange(8, 12);
    let p = f.subrange(12, f.len() as int);
    let too_short = Err::<Inbound, FrameError>(FrameError::Payload(DecodeError::TooShort));
    let bad_length = Err::<Inbound, FrameError>(FrameError::Payload(DecodeError::BadLength));
    if tag == enum_tag() {
        r matches Ok(Inbound::EnumSessions(i, d)) && i == id && d.message@ == p
    } else if tag == open_tag() {
        if p.len() >= 12 {
            r matches Ok(Inbound::Open(i, d)) && i == id && open_decodes_to(p, d)
        } else {
            r == too_short
        }
    } else if tag == create_player_tag() {
        if p.len() >= 24 {
            r matches Ok(Inbound::CreatePlayer(i, d)) && i == id && create_player_decodes_to(p, d)
        } else {
            r == too_short
        }
    } else if tag == reply_tag() {
        if p.len() < 24 {
            r == too_short
        } else if !reply_body_fits(p) {
            r == bad_length
        } else {
            r matches Ok(Inbound::Reply(i, d)) && i == id && reply_decodes_to(p, d)
        }
    } else if tag == send_tag() {
        if p.len() < 44 {
            r == too_short
        } else if !send_body_fits(p) {
            r == bad_length
        } else {
            r matches Ok(Inbound::Send(i, d)) && i == id && send_decodes_to(p, d)
        }
    } else {
        r matches Ok(Inbound::Unknown(i, t)) && i == id && t@ == tag
    }
}

/// Whether the tag `t` is the four bytes `a`, `b`, `c`, `d`.
fn tag_matches(t: &[u8; 4], a: u8, b: u8, c: u8, d: u8) -> (r: bool)
    ensures
        r == (t@ == seq![a, b, c, d]),
{
    let r = t[0] == a && t[1] == b && t[2] == c && t[3] == d;
    if r {
        assert(t@ =~= seq![a, b, c, d]);
    } else {
        assert(t@ != seq![a, b, c, d]) by {
            if t@ == seq![a, b, c, d] {
                assert(t@[0] == a && t@[1] == b && t@[2] == c && t@[3] == d);
            }
        }
    }
    r
}

/// Decodes an inbound frame: big-endian message id, big-endian reply-to id (read
/// but not used for dispatch), four-byte method tag, then the payload of that
/// method.
pub fn decode_frame(frame: &[u8]) -> (r: Result<Inbound, FrameError>)
    ensures
        frame@.len() < FRAME_HEADER_LEN ==> r == Err::<Inbound, FrameError>(FrameError::TooShort),
        frame@.len() >= FRAME_HEADER_LEN ==> frame_decodes(frame@, r),
{
    let n = frame.len();
    if n < FRAME_HEADER_LEN {
        return Err(FrameError::TooShort);
    }
    let id = read_u32_be(frame, 0);
    let _reply_id = read_u32_be(frame, 4);
    let tag: [u8; 4] = [frame[8], frame[9], frame[10], frame[11]];
    assert(tag@ =~= frame@.subrange(8, 12));
    let payload = copy_range(frame, FRAME_HEADER_LEN, n - FRAME_HEADER_LEN);
    let p = payload.as_slice();
    if tag_matches(&tag, 0x65, 0x6e, 0x75, 0x6d) {
        Ok(Inbound::EnumSessions(id, EnumSessionsData { message: payload }))
    } else if tag_matches(&tag, 0x6f, 0x70, 0x65, 0x6e) {
        match OpenData::parse(p) {
            Ok(d) => Ok(Inbound::Open(id, d)),
            Err(e) => Err(FrameError::Payload(e)),
        }
    } else if tag_matches(&tag, 0x63, 0x72, 0x70, 0x6c) {
        match CreatePlayerData::parse(p) {
            Ok(d) => Ok(Inbound::CreatePlayer(id, d)),
            Err(e) => Err(FrameError::Payload(e)),
        }
    } else if tag_matches(&tag, 0x72, 0x65, 0x70, 0x6c) {
        match ReplyData::parse(p) {
            Ok(d) => Ok(Inbound::Reply(id, d)),
            Err(e) => Err(FrameError::Payload(e)),
        }
    } else if tag_matches(&tag, 0x73, 0x65, 0x6e, 0x64) {
        match SendData::parse(p) {
            Ok(d) => Ok(Inbound::Send(id, d)),
            Err(e) => Err(FrameError::Payload(e)),
        }
    } else {
        Ok(Inbound::Unknown(id, tag))
    }
}

/// An event of the host server's accept loop.
#[derive(Clone, Copy, Debug, PartialEq, Eq, Structural)]
pub enum ServerEvent {
    /// A connection was accepted.
    Connection,
    /// A message arrived on the control channel.
    Control(ControlMessage),
    /// The listener failed for good.
    ListenerFailed,
}

/// What the accept loop does next.
#[derive(Clone, Copy, Debug, PartialEq, Eq, Structural)]
pub enum ServerAction {
    /// Hand the connection to its own handler and wait for the next event.
    Serve,
    /// Leave the loop; handlers already running drain on their own.
    Stop,
}

/// The accept loop's decision on one event: serve a new connection; stop on a
/// stop request or a failed listener.
pub fn server_step(event: ServerEvent) -> (r: ServerAction)
    ensures
        r == ServerAction::Serve <==> event == ServerEvent::Connection,
{
    match event {
        ServerEvent::Connection => ServerAction::Serve,
        ServerEvent::Control(ControlMessage::Stop) => ServerAction::Stop,
        ServerEvent::ListenerFailed => ServerAction::Stop,
    }
}

} // verus!
