//! Coordination core of a terminal chat client: the UI-side state and its
//! per-tick reducer, the background worker's lifecycle and command handling,
//! and the block widget that frames every screen area.

pub mod layout;
pub mod style;
pub mod symbols;
pub mod buffer;
pub mod block;
pub mod request;
pub mod channel;
pub mod sync;
pub mod login;
pub mod chat;
pub mod app;
