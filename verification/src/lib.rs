//! A listener bridge between a native uProtocol transport and a host IPC service
//! that lives in another runtime.
//!
//! The two sides share no memory. Listeners cross the boundary as 64-bit handles
//! ([`listener_registry`]), structured values cross it as length-prefixed payloads
//! ([`parcel`], [`parcelable_stubs`]), calls cross it as numbered transactions
//! ([`iulistener`]), and [`utransport`] composes these into the registration round
//! trip and the inbound delivery path.

pub mod status;
pub mod parcel;
pub mod listener_registry;
pub mod parcelable_stubs;
pub mod iulistener;
pub mod utransport;
pub mod client;
