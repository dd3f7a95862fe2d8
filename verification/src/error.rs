//! The error kinds a build step can surface.  Every failure aborts the
//! enclosing factory call; no partial transaction is emitted.

use vstd::prelude::*;
use vstd::string::StringExecFns;

verus! {

/// Why a build step could not proceed.
#[derive(Clone, Copy, Debug, PartialEq, Eq, Structural)]
pub enum Error {
    /// The requested chain is not registered, or a required chain field
    /// is absent.
    ConfigMissing,
    /// No client state is stored under the given client identifier.
    ClientNotFound,
    /// No consensus state is stored for the client at the given height.
    ConsensusStateNotFound,
    /// No connection end is stored under the given connection identifier.
    ConnectionNotFound,
    /// No channel end is stored under the given port and channel.
    ChannelNotFound,
    /// A gRPC or RPC call failed or the endpoint was unreachable.
    TransportFailure,
    /// The RPC node reports that it is still catching up.
    NodeCatchingUp,
    /// A protobuf value could not be decoded.
    EncodingFailure,
    /// Key derivation, address encoding or signing failed.
    CryptoFailure,
    /// A required field of an otherwise present object is missing, such
    /// as a client state without a latest height.
    PreconditionFailure,
}

impl Error {
    /// A short description, in place of a `Display` implementation.
    pub fn describe(&self) -> String {
        match self {
            Error::ConfigMissing => String::from_str("chain configuration not found"),
            Error::ClientNotFound => String::from_str("client state not found"),
            Error::ConsensusStateNotFound => String::from_str("consensus state not found"),
            Error::ConnectionNotFound => String::from_str("connection end not found"),
            Error::ChannelNotFound => String::from_str("channel end not found"),
            Error::TransportFailure => String::from_str("transport failure"),
            Error::NodeCatchingUp => String::from_str("node is catching up"),
            Error::EncodingFailure => String::from_str("protobuf decoding failed"),
            Error::CryptoFailure => String::from_str("key derivation or signing failed"),
            Error::PreconditionFailure => String::from_str("required field is missing"),
        }
    }
}

} // verus!
