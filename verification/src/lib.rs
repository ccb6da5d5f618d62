//! What a module provider builds against: the media a protocol is proved on,
//! in process, and the logic of the export that makes a contract loadable.
//!
//! - [`broadcast`] is a medium on which every node hears every frame another
//!   node sends.
//! - [`contract`] holds the traits a contract implements and, in
//!   [`contract::export`], what a host may ask of a loaded contract and what
//!   it is answered.
//! - [`text`] is text as it crosses the boundary: bytes and a length.
//!
//! The library holds state and decisions. Locks, clocks, raw pointers and the
//! host's callbacks belong to the program around it.

pub mod broadcast;
pub mod contract;
pub mod text;
