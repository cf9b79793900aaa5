//! Live updates for a shared todo list.
//!
//! A write that the store has accepted is announced on a [`bus::MutationBus`];
//! every connected client owns a [`session::StreamSession`] that turns what the
//! bus delivers, the keep-alive timer and the cancellation signal into the
//! events of its server-push stream.

pub mod bus;
pub mod config;
pub mod decimal;
pub mod delivery;
pub mod error;
pub mod event;
pub mod page;
pub mod session;
pub mod todo;
pub mod trace;
pub mod write;
