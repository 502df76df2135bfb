//! Decoder for the session-protocol messages nested inside `enum`, `repl` and
//! `send` payloads. It serves diagnostics only.
use crate::codec::DecodeError;
use crate::identifier::Identifier;
use crate::wire::{copy_range, le_u16, le_u32, read_u16_le, read_u32_le};
use vstd::prelude::*;

verus! {

/// Body of a session-protocol message, by command code.
#[derive(Debug)]
pub enum Command {
    /// 0x01: a session answers an enumeration, with its name and identifier.
    EnumSessionsReply(String, Identifier),
    /// 0x02: enumeration request for an application, with flags.
    EnumSessions(Identifier, u32),
    /// 0x05: request for a player id, with flags.
    RequestPlayerId(u32),
    /// 0x07: the id assigned in answer to a request.
    RequestPlayerReply(u32),
    /// 0x08: a player was created, with its id and name.
    CreatePlayer(u32, String),
    /// 0x0b: a player was deleted.
    DeletePlayer(u32),
    /// 0x13: forward request, with the receiving and the new player.
    AddForwardRequest(u32, u32),
    /// 0x16: ping, with sender and tick count.
    Ping(u32, u32),
    /// 0x17: ping reply, with sender and tick count.
    PingReply(u32, u32),
    /// 0x29: reply to a player enumeration.
    SuperEnumPlayersReply,
    /// 0x30: one fragment (index, total) of a message split in several.
    PacketizedData(u32, u32),
    /// 0x30: a packetized envelope that holds a whole message.
    PacketizedMessage(Box<ProtocolMessage>),
    /// 0x31: acknowledgement of a packetized fragment.
    PacketizedAck,
    /// Any other command: its raw body.
    Other(Vec<u8>),
}

/// A session-protocol message: signature, version, command code and body.
#[derive(Debug)]
pub struct ProtocolMessage {
    pub signature: String,
    pub version: u16,
    pub cmd: u16,
    pub body: Command,
}

/// What a [`Command`] holds, as mathematical values.
pub enum CommandView {
    EnumSessionsReply(Seq<char>, Seq<u8>),
    EnumSessions(Seq<u8>, u32),
    RequestPlayerId(u32),
    RequestPlayerReply(u32),
    CreatePlayer(u32, Seq<char>),
    DeletePlayer(u32),
    AddForwardRequest(u32, u32),
    Ping(u32, u32),
    PingReply(u32, u32),
    SuperEnumPlayersReply,
    PacketizedData(u32, u32),
    PacketizedMessage(Box<MessageView>),
    PacketizedAck,
    Other(Seq<u8>),
}

/// What a [`ProtocolMessage`] holds, as mathematical values.
pub struct MessageView {
    pub signature: Seq<char>,
    pub version: u16,
    pub cmd: u16,
    pub body: CommandView,
}

/// The text that `String::from_utf8_lossy` makes of some bytes.
pub uninterp spec fn lossy_text(b: Seq<u8>) -> Seq<char>;

/// Every byte is ASCII.
pub open spec fn ascii_bytes(b: Seq<u8>) -> bool {
    forall|i: int| 0 <= i < b.len() ==> #[trigger] b[i] < 128
}

/// The characters whose codes are the bytes of `b`.
pub open spec fn ascii_text(b: Seq<u8>) -> Seq<char> {
    Seq::new(b.len(), |i: int| b[i] as char)
}

/// The text read from `b`: the same characters where `b` is ASCII, and what
/// `String::from_utf8_lossy` makes of it otherwise.
pub open spec fn decoded_text(b: Seq<u8>) -> Seq<char> {
    if ascii_bytes(b) {
        ascii_text(b)
    } else {
        lossy_text(b)
    }
}

/// Relies on `String::from_utf8_lossy`: invalid sequences become U+FFFD, valid
/// UTF-8 (ASCII among it) comes back unchanged, and the text depends on the bytes
/// alone.
#[verifier::external_body]
fn utf8_lossy(b: &[u8]) -> (r: String)
    ensures
        r@ == lossy_text(b@),
        ascii_bytes(b@) ==> r@ == ascii_text(b@),
{
    String::from_utf8_lossy(b).into_owned()
}

/// The mathematical value of a command.
pub open spec fn command_view(c: Command) -> CommandView
    decreases c,
{
    match c {
        Command::EnumSessionsReply(name, id) => CommandView::EnumSessionsReply(name@, id.bytes@),
        Command::EnumSessions(id, flags) => CommandView::EnumSessions(id.bytes@, flags),
        Command::RequestPlayerId(flags) => CommandView::RequestPlayerId(flags),
        Command::RequestPlayerReply(id) => CommandView::RequestPlayerReply(id),
        Command::CreatePlayer(id, name) => CommandView::CreatePlayer(id, name@),
        Command::DeletePlayer(id) => CommandView::DeletePlayer(id),
        Command::AddForwardRequest(to, p) => CommandView::AddForwardRequest(to, p),
        Command::Ping(from, ticks) => CommandView::Ping(from, ticks),
        Command::PingReply(from, ticks) => CommandView::PingReply(from, ticks),
        Command::SuperEnumPlayersReply => CommandView::SuperEnumPlayersReply,
        Command::PacketizedData(index, total) => CommandView::PacketizedData(index, total),
        Command::PacketizedMessage(m) => CommandView::PacketizedMessage(
            Box::new(message_view(*m)),
        ),
        Command::PacketizedAck => CommandView::PacketizedAck,
        Command::Other(bytes) => CommandView::Other(bytes@),
    }
}

/// The mathematical value of a message.
pub open spec fn message_view(m: ProtocolMessage) -> MessageView
    decreases m,
{
    MessageView {
        signature: m.signature@,
        version: m.version,
        cmd: m.cmd,
        body: command_view(m.body),
    }
}

/// Length of the message header: signature, command code and version.
pub const MESSAGE_HEADER_LEN: usize = 8;

/// Decodes a message: a four-byte signature, then the little-endian command code
/// and version, then the command's body.
pub open spec fn decode_message(b: Seq<u8>) -> Result<MessageView, DecodeError>
    decreases b.len(), 1nat,
{
    if b.len() < 8 {
        Err(DecodeError::TooShort)
    } else {
        match decode_command(le_u16(b, 4), b.subrange(8, b.len() as int)) {
            Ok(body) => Ok(
                MessageView {
                    signature: decoded_text(b.subrange(0, 4)),
                    cmd: le_u16(b, 4),
                    version: le_u16(b, 6),
                    body,
                },
            ),
            Err(e) => Err(e),
        }
    }
}

/// Decodes the body `m` of a message with command code `cmd`.
pub open spec fn decode_command(cmd: u16, m: Seq<u8>) -> Result<CommandView, DecodeError>
    decreases m.len(), 0nat,
{
    let n = m.len();
    if cmd == 0x01 {
        // size, four skipped bytes, the identifier, padding up to `size`, the
        // name offset, then the name up to the end.
        if n < 24 {
            Err(DecodeError::TooShort)
        } else if le_u32(m, 0) < 24 {
            Err(DecodeError::BadLength)
        } else if n < le_u32(m, 0) + 4 {
            Err(DecodeError::TooShort)
        } else {
            Ok(
                CommandView::EnumSessionsReply(
                    decoded_text(m.subrange(le_u32(m, 0) + 4, n as int)),
                    m.subrange(8, 24),
                ),
            )
        }
    } else if cmd == 0x02 {
        if n < 20 {
            Err(DecodeError::TooShort)
        } else {
            Ok(CommandView::EnumSessions(m.subrange(0, 16), le_u32(m, 16)))
        }
    } else if cmd == 0x05 || cmd == 0x07 {
        if n < 4 {
            Err(DecodeError::TooShort)
        } else if cmd == 0x05 {
            Ok(CommandView::RequestPlayerId(le_u32(m, 0)))
        } else {
            Ok(CommandView::RequestPlayerReply(le_u32(m, 0)))
        }
    } else if cmd == 0x08 {
        // 28 skipped bytes, the id, the name length, 32 skipped bytes, the name.
        if n < 36 || n < 68 + le_u32(m, 32) {
            Err(DecodeError::TooShort)
        } else {
            Ok(
                CommandView::CreatePlayer(
                    le_u32(m, 28),
                    decoded_text(m.subrange(68, 68 + le_u32(m, 32))),
                ),
            )
        }
    } else if cmd == 0x0b || cmd == 0x13 || cmd == 0x16 || cmd == 0x17 {
        if n < 8 {
            Err(DecodeError::TooShort)
        } else if cmd == 0x0b {
            Ok(CommandView::DeletePlayer(le_u32(m, 4)))
        } else if cmd == 0x13 {
            Ok(CommandView::AddForwardRequest(le_u32(m, 0), le_u32(m, 4)))
        } else if cmd == 0x16 {
            Ok(CommandView::Ping(le_u32(m, 0), le_u32(m, 4)))
        } else {
            Ok(CommandView::PingReply(le_u32(m, 0), le_u32(m, 4)))
        }
    } else if cmd == 0x29 {
        Ok(CommandView::SuperEnumPlayersReply)
    } else if cmd == 0x30 {
        // 16 skipped bytes, the index, 8 skipped bytes, the total; a lone
        // fragment then holds, after 8 more bytes, a whole message.
        if n < 32 {
            Err(DecodeError::TooShort)
        } else if le_u32(m, 28) != 1 {
            Ok(CommandView::PacketizedData(le_u32(m, 16), le_u32(m, 28)))
        } else if n < 40 {
            Err(DecodeError::TooShort)
        } else {
            match decode_message(m.subrange(40, n as int)) {
                Ok(inner) => Ok(CommandView::PacketizedMessage(Box::new(inner))),
                Err(e) => Err(e),
            }
        }
    } else if cmd == 0x31 {
        Ok(CommandView::PacketizedAck)
    } else {
        Ok(CommandView::Other(m))
    }
}

/// Decodes a session-protocol message that fills `b`.
pub fn parse_message(b: &[u8]) -> (r: Result<ProtocolMessage, DecodeError>)
    ensures
        r matches Ok(m) ==> decode_message(b@) == Ok::<MessageView, DecodeError>(message_view(m)),
        r matches Err(e) ==> decode_message(b@) == Err::<MessageView, DecodeError>(e),
    decreases b@.len(), 1nat,
{
    let n = b.len();
    if n < MESSAGE_HEADER_LEN {
        return Err(DecodeError::TooShort);
    }
    let cmd = read_u16_le(b, 4);
    let version = read_u16_le(b, 6);
    let body = copy_range(b, MESSAGE_HEADER_LEN, n - MESSAGE_HEADER_LEN);
    match parse_cmd(cmd, body.as_slice()) {
        Ok(body) => {
            let signature = utf8_lossy(copy_range(b, 0, 4).as_slice());
            Ok(ProtocolMessage { signature, version, cmd, body })
        },
        Err(e) => Err(e),
    }
}

/// Decodes the body `m` of a message with command code `cmd`.
pub fn parse_cmd(cmd: u16, m: &[u8]) -> (r: Result<Command, DecodeError>)
    ensures
        r matches Ok(c) ==> decode_command(cmd, m@) == Ok::<CommandView, DecodeError>(
            command_view(c),
        ),
        r matches Err(e) ==> decode_command(cmd, m@) == Err::<CommandView, DecodeError>(e),
    decreases m@.len(), 0nat,
{
    let n = m.len();
    if cmd == 0x01 {
        if n < 24 {
            return Err(DecodeError::TooShort);
        }
        let size = read_u32_le(m, 0);
        if size < 24 {
            return Err(DecodeError::BadLength);
        }
        if (n as u64) < size as u64 + 4 {
            return Err(DecodeError::TooShort);
        }
        let start = size as usize + 4;
        let name = utf8_lossy(copy_range(m, start, n - start).as_slice());
        Ok(Command::EnumSessionsReply(name, Identifier::read(m, 8)))
    } else if cmd == 0x02 {
        if n < 20 {
            return Err(DecodeError::TooShort);
        }
        Ok(Command::EnumSessions(Identifier::read(m, 0), read_u32_le(m, 16)))
    } else if cmd == 0x05 || cmd == 0x07 {
        if n < 4 {
            return Err(DecodeError::TooShort);
        }
        let x = read_u32_le(m, 0);
        if cmd == 0x05 {
            Ok(Command::RequestPlayerId(x))
        } else {
            Ok(Command::RequestPlayerReply(x))
        }
    } else if cmd == 0x08 {
        if n < 36 {
            return Err(DecodeError::TooShort);
        }
        let name_len = read_u32_le(m, 32);
        if (n as u64) < 68 + name_len as u64 {
            return Err(DecodeError::TooShort);
        }
        let name = utf8_lossy(copy_range(m, 68, name_len as usize).as_slice());
        Ok(Command::CreatePlayer(read_u32_le(m, 28), name))
    } else if cmd == 0x0b || cmd == 0x13 || cmd == 0x16 || cmd == 0x17 {
        if n < 8 {
            return Err(DecodeError::TooShort);
        }
        let (a, b) = (read_u32_le(m, 0), read_u32_le(m, 4));
        if cmd == 0x0b {
            Ok(Command::DeletePlayer(b))
        } else if cmd == 0x13 {
            Ok(Command::AddForwardRequest(a, b))
        } else if cmd == 0x16 {
            Ok(Command::Ping(a, b))
        } else {
            Ok(Command::PingReply(a, b))
        }
    } else if cmd == 0x29 {
        Ok(Command::SuperEnumPlayersReply)
    } else if cmd == 0x30 {
        if n < 32 {
            return Err(DecodeError::TooShort);
        }
        let index = read_u32_le(m, 16);
        let total = read_u32_le(m, 28);
        if total != 1 {
            return Ok(Command::PacketizedData(index, total));
        }
        if n < 40 {
            return Err(DecodeError::TooShort);
        }
        let nested = copy_range(m, 40, n - 40);
        match parse_message(nested.as_slice()) {
            Ok(inner) => Ok(Command::PacketizedMessage(Box::new(inner))),
            Err(e) => Err(e),
        }
    } else if cmd == 0x31 {
        Ok(Command::PacketizedAck)
    } else {
        let bytes = copy_range(m, 0, n);
        assert(bytes@ =~= m@);
        Ok(Command::Other(bytes))
    }
}


/// Length of the sender identifier in front of a network message.
pub const SENDER_LEN: usize = 16;

/// Splits a network message into the identifier of its sender and the
/// session-protocol message after it.
pub fn parse_network_message(message: &[u8]) -> (r: Result<(Identifier, ProtocolMessage), DecodeError>)
    ensures
        message@.len() < SENDER_LEN ==> r == Err::<(Identifier, ProtocolMessage), DecodeError>(
            DecodeError::TooShort,
        ),
        message@.len() >= SENDER_LEN ==> match decode_message(
            message@.subrange(16, message@.len() as int),
        ) {
            Ok(v) => r matches Ok((id, m)) && id.bytes@ == message@.subrange(0, 16)
                && message_view(m) == v,
            Err(e) => r == Err::<(Identifier, ProtocolMessage), DecodeError>(e),
        },
{
    let n = message.len();
    if n < SENDER_LEN {
        return Err(DecodeError::TooShort);
    }
    let sender = Identifier::read(message, 0);
    let rest = copy_range(message, SENDER_LEN, n - SENDER_LEN);
    match parse_message(rest.as_slice()) {
        Ok(m) => Ok((sender, m)),
        Err(e) => Err(e),
    }
}

} // verus!
