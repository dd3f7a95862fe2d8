//! Builder for solo-machine IBC transactions.
//!
//! A solo machine is an IBC light client whose "consensus" is a single
//! signing key.  This crate assembles the wire-level messages needed to
//! open an IBC relationship between such a solo machine and a Tendermint
//! chain: client creation, connection open init/ack and channel open
//! init/ack, together with the signed state proofs the ack steps carry.
//!
//! The deterministic protobuf encoding of every message is implemented
//! and specified here; signing and address derivation call into outside
//! crates through a handful of trusted wrappers.

pub mod account;
pub mod builder;
pub mod chain;
pub mod crypto;
pub mod decoding;
pub mod encoding;
pub mod error;
pub mod laws;
pub mod paths;
pub mod proofs;
pub mod tendermint;
pub mod wire_ibc;
pub mod wire_solo;
pub mod wire_tx;
