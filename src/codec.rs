//! Typed payloads of the outer RPC calls, and their little-endian layouts.
use crate::identifier::{zero_bytes, Identifier};
use crate::wire::{
    copy_range, i32_le_bytes, le_i32, lemma_le_i32_at, push_all, push_i32_le, push_u16_le,
    push_u32_le, read_i32_le, u16_le_bytes, u32_le_bytes,
};
use vstd::prelude::*;

verus! {

/// Legacy 32-bit numeric player id.
pub type DPID = i32;

/// Why a payload could not be decoded.
#[derive(Clone, Copy, Debug, PartialEq, Eq, Structural)]
pub enum DecodeError {
    /// The buffer is shorter than the payload's fixed part.
    TooShort,
    /// A declared body length is negative or runs past the end of the buffer.
    BadLength,
}

/// Payload of an `open` call.
#[derive(Clone, Copy, Debug, PartialEq, Eq, Structural)]
pub struct OpenData {
    pub create: bool,
    pub return_status: bool,
    pub open_flags: i32,
    pub session_flags: i32,
}

/// Payload of a `crpl` (create player) call.
#[derive(Clone, Copy, Debug)]
pub struct CreatePlayerData {
    pub player_guid: Identifier,
    pub flags: i32,
}

/// Payload of an `enum` call: opaque session-protocol bytes.
#[derive(Clone, Debug)]
pub struct EnumSessionsData {
    pub message: Vec<u8>,
}

/// Payload of a `repl` call.
#[derive(Clone, Debug)]
pub struct ReplyData {
    pub reply_to: Identifier,
    pub name_server_id: DPID,
    pub message: Vec<u8>,
}

/// Payload of a `send` call; `receiver_id` is `None` for the reserved zero identifier.
#[derive(Clone, Debug)]
pub struct SendData {
    pub flags: i32,
    pub receiver_id: Option<Identifier>,
    pub sender_id: Identifier,
    pub system_message: bool,
    pub message: Vec<u8>,
}

/// Length of an `open` payload.
pub const OPEN_LEN: usize = 12;

/// Length of a `crpl` payload.
pub const CREATE_PLAYER_LEN: usize = 24;

/// Length of the fixed part of a `repl` payload, before its body.
pub const REPLY_HEADER_LEN: usize = 24;

/// Length of the fixed part of a `send` payload, before its body.
pub const SEND_HEADER_LEN: usize = 44;

/// A boolean written as one byte.
pub open spec fn bool_byte(x: bool) -> u8 {
    if x {
        1
    } else {
        0
    }
}

/// A boolean written as a little-endian `i32`.
pub open spec fn bool_i32(x: bool) -> i32 {
    if x {
        1
    } else {
        0
    }
}

/// `b` holds the `open` payload `d`.
pub open spec fn open_decodes_to(b: Seq<u8>, d: OpenData) -> bool {
    &&& d.create == (b[0] != 0)
    &&& d.return_status == (b[1] != 0)
    &&& d.open_flags == le_i32(b, 4)
    &&& d.session_flags == le_i32(b, 8)
}

/// The bytes written for the `open` payload `d`; the padding is zero.
pub open spec fn open_bytes(d: OpenData) -> Seq<u8> {
    seq![bool_byte(d.create), bool_byte(d.return_status)] + u16_le_bytes(0) + i32_le_bytes(
        d.open_flags,
    ) + i32_le_bytes(d.session_flags)
}

/// `b` holds the `crpl` payload `d`; its leading legacy id is not kept.
pub open spec fn create_player_decodes_to(b: Seq<u8>, d: CreatePlayerData) -> bool {
    &&& d.player_guid.bytes@ == b.subrange(4, 20)
    &&& d.flags == le_i32(b, 20)
}

/// The bytes written for the `crpl` payload `d`, with legacy id `dpid`.
pub open spec fn create_player_bytes(dpid: u32, d: CreatePlayerData) -> Seq<u8> {
    u32_le_bytes(dpid) + d.player_guid.bytes@ + i32_le_bytes(d.flags)
}

/// A `repl` payload's declared body length fits in `b`.
pub open spec fn reply_body_fits(b: Seq<u8>) -> bool {
    0 <= le_i32(b, 20) && 24 + le_i32(b, 20) <= b.len()
}

/// `b` holds the `repl` payload `d`.
pub open spec fn reply_decodes_to(b: Seq<u8>, d: ReplyData) -> bool {
    &&& d.reply_to.bytes@ == b.subrange(0, 16)
    &&& d.name_server_id == le_i32(b, 16)
    &&& d.message@ == b.subrange(24, 24 + le_i32(b, 20))
}

/// The bytes written for the `repl` payload `d`.
pub open spec fn reply_bytes(d: ReplyData) -> Seq<u8> {
    d.reply_to.bytes@ + i32_le_bytes(d.name_server_id) + i32_le_bytes(d.message@.len() as i32)
        + d.message@
}

/// A `send` payload's declared body length fits in `b`.
pub open spec fn send_body_fits(b: Seq<u8>) -> bool {
    0 <= le_i32(b, 40) && 44 + le_i32(b, 40) <= b.len()
}

/// `b` holds the `send` payload `d`; a zero receiver identifier is no receiver.
pub open spec fn send_decodes_to(b: Seq<u8>, d: SendData) -> bool {
    &&& d.flags == le_i32(b, 0)
    &&& if b.subrange(4, 20) == zero_bytes() {
        d.receiver_id is None
    } else {
        d.receiver_id matches Some(id) && id.bytes@ == b.subrange(4, 20)
    }
    &&& d.sender_id.bytes@ == b.subrange(20, 36)
    &&& d.system_message == (le_i32(b, 36) != 0)
    &&& d.message@ == b.subrange(44, 44 + le_i32(b, 40))
}

/// The receiver bytes written for `receiver`: zero where there is none.
pub open spec fn receiver_bytes(receiver: Option<Identifier>) -> Seq<u8> {
    match receiver {
        Some(id) => id.bytes@,
        None => zero_bytes(),
    }
}

/// The bytes written for the `send` payload `d`.
pub open spec fn send_bytes(d: SendData) -> Seq<u8> {
    i32_le_bytes(d.flags) + receiver_bytes(d.receiver_id) + d.sender_id.bytes@ + i32_le_bytes(
        bool_i32(d.system_message),
    ) + i32_le_bytes(d.message@.len() as i32) + d.message@
}

impl OpenData {
    /// Decodes an `open` payload; bytes past the fixed layout are ignored.
    pub fn parse(bytes: &[u8]) -> (r: Result<OpenData, DecodeError>)
        ensures
            r is Ok <==> bytes@.len() >= OPEN_LEN,
            r is Err ==> r == Err::<OpenData, DecodeError>(DecodeError::TooShort),
            r matches Ok(d) ==> open_decodes_to(bytes@, d),
    {
        if bytes.len() < OPEN_LEN {
            return Err(DecodeError::TooShort);
        }
        Ok(
            OpenData {
                create: bytes[0] != 0,
                return_status: bytes[1] != 0,
                open_flags: read_i32_le(bytes, 4),
                session_flags: read_i32_le(bytes, 8),
            },
        )
    }

    /// Encodes this payload, with zero padding.
    pub fn to_bytes(&self) -> (r: Vec<u8>)
        ensures
            r@ == open_bytes(*self),
    {
        let mut r: Vec<u8> = Vec::new();
        r.push(if self.create { 1u8 } else { 0u8 });
        r.push(if self.return_status { 1u8 } else { 0u8 });
        push_u16_le(&mut r, 0);
        push_i32_le(&mut r, self.open_flags);
        push_i32_le(&mut r, self.session_flags);
        assert(r@ =~= open_bytes(*self));
        r
    }
}

impl CreatePlayerData {
    /// Decodes a `crpl` payload; its leading legacy id is read past and dropped.
    pub fn parse(bytes: &[u8]) -> (r: Result<CreatePlayerData, DecodeError>)
        ensures
            r is Ok <==> bytes@.len() >= CREATE_PLAYER_LEN,
            r is Err ==> r matches Err(DecodeError::TooShort),
            r matches Ok(d) ==> create_player_decodes_to(bytes@, d),
    {
        if bytes.len() < CREATE_PLAYER_LEN {
            return Err(DecodeError::TooShort);
        }
        Ok(CreatePlayerData { player_guid: Identifier::read(bytes, 4), flags: read_i32_le(bytes, 20) })
    }

    /// Encodes this payload behind the legacy id `dpid`.
    pub fn to_bytes(&self, dpid: u32) -> (r: Vec<u8>)
        ensures
            r@ == create_player_bytes(dpid, *self),
    {
        let mut r: Vec<u8> = Vec::new();
        push_u32_le(&mut r, dpid);
        self.player_guid.write(&mut r);
        push_i32_le(&mut r, self.flags);
        r
    }
}

impl ReplyData {
    /// Decodes a `repl` payload: identifier, legacy name-server id, then a body
    /// behind its `i32` length.
    pub fn parse(bytes: &[u8]) -> (r: Result<ReplyData, DecodeError>)
        ensures
            r is Ok <==> bytes@.len() >= REPLY_HEADER_LEN && reply_body_fits(bytes@),
            r matches Err(e) ==> (e == DecodeError::TooShort <==> bytes@.len() < REPLY_HEADER_LEN),
            r matches Ok(d) ==> reply_decodes_to(bytes@, d),
    {
        if bytes.len() < REPLY_HEADER_LEN {
            return Err(DecodeError::TooShort);
        }
        let size = read_i32_le(bytes, 20);
        if size < 0 || size as usize > bytes.len() - REPLY_HEADER_LEN {
            return Err(DecodeError::BadLength);
        }
        Ok(
            ReplyData {
                reply_to: Identifier::read(bytes, 0),
                name_server_id: read_i32_le(bytes, 16),
                message: copy_range(bytes, REPLY_HEADER_LEN, size as usize),
            },
        )
    }

    /// Encodes this payload; the body length must fit in an `i32`.
    pub fn to_bytes(&self) -> (r: Vec<u8>)
        requires
            self.message@.len() <= i32::MAX,
        ensures
            r@ == reply_bytes(*self),
    {
        let mut r: Vec<u8> = Vec::new();
        self.reply_to.write(&mut r);
        push_i32_le(&mut r, self.name_server_id);
        push_i32_le(&mut r, self.message.len() as i32);
        push_all(&mut r, self.message.as_slice());
        r
    }
}

impl SendData {
    /// Decodes a `send` payload: flags, receiver and sender identifiers, the
    /// system-message flag, then a body behind its `i32` length.
    pub fn parse(bytes: &[u8]) -> (r: Result<SendData, DecodeError>)
        ensures
            r is Ok <==> bytes@.len() >= SEND_HEADER_LEN && send_body_fits(bytes@),
            r matches Err(e) ==> (e == DecodeError::TooShort <==> bytes@.len() < SEND_HEADER_LEN),
            r matches Ok(d) ==> send_decodes_to(bytes@, d),
    {
        if bytes.len() < SEND_HEADER_LEN {
            return Err(DecodeError::TooShort);
        }
        let size = read_i32_le(bytes, 40);
        if size < 0 || size as usize > bytes.len() - SEND_HEADER_LEN {
            return Err(DecodeError::BadLength);
        }
        let receiver = Identifier::read(bytes, 4);
        let receiver_id = if receiver.is_zero() {
            None
        } else {
            Some(receiver)
        };
        Ok(
            SendData {
                flags: read_i32_le(bytes, 0),
                receiver_id,
                sender_id: Identifier::read(bytes, 20),
                system_message: read_i32_le(bytes, 36) != 0,
                message: copy_range(bytes, SEND_HEADER_LEN, size as usize),
            },
        )
    }

    /// Encodes this payload; no receiver is written as the zero identifier. The
    /// body length must fit in an `i32`.
    pub fn to_bytes(&self) -> (r: Vec<u8>)
        requires
            self.message@.len() <= i32::MAX,
        ensures
            r@ == send_bytes(*self),
    {
        let mut r: Vec<u8> = Vec::new();
        push_i32_le(&mut r, self.flags);
        match &self.receiver_id {
            Some(id) => id.write(&mut r),
            None => Identifier::zero().write(&mut r),
        }
        self.sender_id.write(&mut r);
        push_i32_le(&mut r, if self.system_message { 1i32 } else { 0i32 });
        push_i32_le(&mut r, self.message.len() as i32);
        push_all(&mut r, self.message.as_slice());
        r
    }
}


/// Decoding the bytes written for an `open` payload gives back every field.
pub proof fn lemma_open_round_trip(d: OpenData)
    ensures
        open_bytes(d).len() >= OPEN_LEN,
        open_decodes_to(open_bytes(d), d),
{
    let b = open_bytes(d);
    assert(b.subrange(4, 8) =~= i32_le_bytes(d.open_flags));
    assert(b.subrange(8, 12) =~= i32_le_bytes(d.session_flags));
    lemma_le_i32_at(b, 4, d.open_flags);
    lemma_le_i32_at(b, 8, d.session_flags);
}

/// Decoding the bytes written for a `crpl` payload gives back the identifier and
/// the flags, whatever legacy id leads them.
pub proof fn lemma_create_player_round_trip(dpid: u32, d: CreatePlayerData)
    ensures
        create_player_bytes(dpid, d).len() >= CREATE_PLAYER_LEN,
        create_player_decodes_to(create_player_bytes(dpid, d), d),
{
    let b = create_player_bytes(dpid, d);
    assert(b.subrange(4, 20) =~= d.player_guid.bytes@);
    assert(b.subrange(20, 24) =~= i32_le_bytes(d.flags));
    lemma_le_i32_at(b, 20, d.flags);
}

/// Decoding the bytes written for a `repl` payload gives back every field.
pub proof fn lemma_reply_round_trip(d: ReplyData)
    requires
        d.message@.len() <= i32::MAX,
    ensures
        reply_bytes(d).len() >= REPLY_HEADER_LEN,
        reply_body_fits(reply_bytes(d)),
        reply_decodes_to(reply_bytes(d), d),
{
    let b = reply_bytes(d);
    let n = d.message@.len() as i32;
    assert(b.subrange(0, 16) =~= d.reply_to.bytes@);
    assert(b.subrange(16, 20) =~= i32_le_bytes(d.name_server_id));
    assert(b.subrange(20, 24) =~= i32_le_bytes(n));
    lemma_le_i32_at(b, 16, d.name_server_id);
    lemma_le_i32_at(b, 20, n);
    assert(b.subrange(24, 24 + n) =~= d.message@);
}

/// Decoding the bytes written for a `send` payload gives back every field, where
/// the receiver is absent or not the zero identifier.
pub proof fn lemma_send_round_trip(d: SendData)
    requires
        d.message@.len() <= i32::MAX,
        d.receiver_id matches Some(id) ==> !id.is_zero_spec(),
    ensures
        send_bytes(d).len() >= SEND_HEADER_LEN,
        send_body_fits(send_bytes(d)),
        send_decodes_to(send_bytes(d), d),
{
    let b = send_bytes(d);
    let n = d.message@.len() as i32;
    let s = bool_i32(d.system_message);
    assert(b.subrange(0, 4) =~= i32_le_bytes(d.flags));
    assert(b.subrange(4, 20) =~= receiver_bytes(d.receiver_id));
    assert(b.subrange(20, 36) =~= d.sender_id.bytes@);
    assert(b.subrange(36, 40) =~= i32_le_bytes(s));
    assert(b.subrange(40, 44) =~= i32_le_bytes(n));
    lemma_le_i32_at(b, 0, d.flags);
    lemma_le_i32_at(b, 36, s);
    lemma_le_i32_at(b, 40, n);
    assert(b.subrange(44, 44 + n) =~= d.message@);
}

} // verus!
