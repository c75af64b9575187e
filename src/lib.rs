//! A terminal chat client's core: the conversation kept across turns, the three
//! in-band commands, and the JSON exchanged with the remote model.
//!
//! `session` decides what each line of input does and what each answer changes;
//! `codec` writes requests and reads responses as `json` documents; `transport`
//! holds what the HTTP exchange needs from the library. Reading input, rendering
//! and the network are left to the caller.
use vstd::prelude::*;

pub mod codec;
pub mod error;
pub mod history;
pub mod intent;
pub mod json;
pub mod message;
pub mod session;
pub mod transport;

verus! {

} // verus!
