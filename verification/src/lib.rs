//! Event payloads of a customer-analytics ingestion API, and their two
//! encodings: the transport form that is sent to the API and the stored form
//! that is queued before transmission.
//!
//! - [`user`], [`event`] and [`message`] hold the data: who an event is
//!   about, the six kinds of event, the batch, and the two enums that say
//!   how a message is encoded.
//! - [`construct`] and [`validate`] make messages that are fit to be
//!   encoded and find what is wrong with the others.
//! - [`encode`] writes a message as JSON text in either form; [`decode`]
//!   reads one back.
//! - [`finalize`] gives the items of a batch their timestamps.
//! - [`wire`] names the kinds and the fields as they stand on the wire.
//! - [`json`] and [`timestamp`] hold what is taken on trust about the
//!   crates that this library builds on.
//! - [`laws`] states what holds across these, with [`members`] for the
//!   bookkeeping that the laws need.

pub mod construct;
pub mod decode;
pub mod encode;
pub mod event;
pub mod finalize;
pub mod json;
pub mod laws;
pub mod members;
pub mod message;
pub mod timestamp;
pub mod user;
pub mod validate;
pub mod wire;
