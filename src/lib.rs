//! Protocol bridge between a legacy peer-to-peer session runtime and pluggable
//! service-provider backends: wire codecs, identifiers, framing and the
//! outbound message controller; and the binary patches that install UserPatch
//! into a game executable.

pub mod wire;
pub mod identifier;
pub mod codec;
pub mod inspect;
pub mod controller;
pub mod frame;
pub mod userpatch;
