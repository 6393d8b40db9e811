//! Persistence layer of a drifting sensor buoy: an append-only record store
//! on a removable card, written without I/O of its own.
//!
//! The crate decides; its caller performs. Every operation is a small machine
//! that names the next thing to do on the medium and takes the outcome back,
//! so that the rules of the store (where a packet lives, when the card may be
//! touched, how identifiers advance) are stated and proved apart from the
//! driver that moves the bytes.
//!
//! - [`codec`]: from an identifier to directory, file name and offset.
//! - [`frame`]: the fixed-width frame of an encoded packet.
//! - [`scanner`]: the search for the first free collection.
//! - [`session`]: the session state, and the actions and events that pass
//!   between the crate and its driver.
//! - [`storage`]: the supervisor and its session handle.
//! - [`store`], [`fetch`], [`remove`]: the three operations.
//! - [`note`]: what the relay towards the modem decides.

pub mod codec;
pub mod error;
pub mod fetch;
pub mod frame;
pub mod note;
pub mod remove;
pub mod scanner;
pub mod session;
pub mod storage;
pub mod store;
