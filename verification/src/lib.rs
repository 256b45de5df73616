//! A verified core for an interactive chat-completion client.
//!
//! The library models one conversation session: an append-only transcript of
//! role-tagged messages, the JSON request body sent to the remote completion
//! endpoint on every turn, the decoding of the endpoint's reply, and the text
//! blocks appended to an optional transcript file. All I/O stays outside; the
//! session is driven as a state machine through plain values.

pub mod api_structs;
pub mod decode;
pub mod encode;
pub mod record;
pub mod session;
pub mod text;
