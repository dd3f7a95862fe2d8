//! The four flavors of solo-machine state proof.
//!
//! Each proof signs a `SignBytes` preimage carrying the chain's
//! *current* sequence, its frozen consensus timestamp, its diversifier,
//! the data type of the attested object, and the encoded state data.
//! The caller must advance the chain sequence after each successful
//! proof; the functions here never mutate the chain themselves.

use vstd::prelude::*;

use vstd::string::StrSliceExecFns;
use vstd::utf8::encode_utf8;

use crate::chain::{diversifier_bytes, Chain};
use crate::crypto::{secp256k1_key_ok, secp256k1_sign, secp256k1_sign_of};
use crate::error::Error;
use crate::paths::{
    channel_path, client_state_path, connection_path, consensus_state_path, spec_channel_path,
    spec_client_state_path, spec_connection_path, spec_consensus_state_path,
};
use crate::wire_ibc::{Channel, ChannelV, ConnectionEnd, ConnectionEndV, Height, HeightV};
use crate::wire_solo::{
    encode_sign_bytes, encode_single_signature_data, encode_timestamped_signature_data,
    spec_encode_channel_state_data, spec_encode_client_state_data,
    spec_encode_connection_state_data, spec_encode_consensus_state_data, spec_encode_sign_bytes,
    spec_encode_single_signature_data, spec_encode_timestamped_signature_data, SignBytes,
    SignBytesV, TimestampedSignatureData, TimestampedSignatureDataV, DATA_TYPE_CHANNEL_STATE,
    DATA_TYPE_CLIENT_STATE, DATA_TYPE_CONNECTION_STATE, DATA_TYPE_CONSENSUS_STATE,
};
use crate::wire_tx::{Any, AnyV};

verus! {

/// The bytes of a finished proof: the signature over the encoded
/// `SignBytes`, wrapped in a single-mode `SignatureData` under mode
/// `SIGN_MODE_UNSPECIFIED`, wrapped in a `TimestampedSignatureData`
/// with the given timestamp.
pub open spec fn spec_proof(key: Seq<u8>, sb: SignBytesV, timestamp: u64) -> Seq<u8> {
    spec_encode_timestamped_signature_data(
        TimestampedSignatureDataV {
            signature_data: spec_encode_single_signature_data(
                0,
                secp256k1_sign_of(key, spec_encode_sign_bytes(sb)),
            ),
            timestamp,
        },
    )
}

/// The `SignBytes` a proof at the chain's current sequence carries.
pub open spec fn spec_sign_bytes_at(c: Chain, data_type: u64, data: Seq<u8>) -> SignBytesV {
    SignBytesV {
        sequence: c.sequence,
        timestamp: c.consensus_timestamp,
        diversifier: diversifier_bytes(c),
        data_type,
        data,
    }
}

/// Signs a `SignBytes` preimage and wraps the signature in the emitted
/// `TimestampedSignatureData` envelope, under the chain's frozen
/// consensus timestamp.
pub fn sign(chain: &Chain, signing_key: &[u8], sign_bytes: &SignBytes) -> (r: Result<
    Vec<u8>,
    Error,
>)
    ensures
        r is Ok <==> secp256k1_key_ok(signing_key@),
        match r {
            Ok(p) => p@ == spec_proof(signing_key@, sign_bytes@, chain.consensus_timestamp),
            Err(e) => e == Error::CryptoFailure,
        },
{
    let preimage = encode_sign_bytes(sign_bytes);
    let signature = secp256k1_sign(signing_key, preimage.as_slice())?;
    let signature_data = encode_single_signature_data(0, &signature);
    let timestamped = TimestampedSignatureData {
        signature_data,
        timestamp: chain.consensus_timestamp,
    };
    Ok(encode_timestamped_signature_data(&timestamped))
}

/// The client proof at the chain's current sequence: it attests to the
/// counterparty client state stored under the client's state path.
pub open spec fn spec_client_proof(c: Chain, key: Seq<u8>, client_id: Seq<char>, cs: AnyV) -> Seq<
    u8,
> {
    spec_proof(
        key,
        spec_sign_bytes_at(
            c,
            DATA_TYPE_CLIENT_STATE,
            spec_encode_client_state_data(spec_client_state_path(encode_utf8(client_id)), cs),
        ),
        c.consensus_timestamp,
    )
}

/// Builds the client proof, or reports that no client state is stored
/// under the identifier.
pub fn get_client_proof(
    chain: &Chain,
    signing_key: &[u8],
    client_id: &str,
    client_state: &Option<Any>,
) -> (r: Result<Vec<u8>, Error>)
    ensures
        r is Ok <==> client_state is Some && secp256k1_key_ok(signing_key@),
        match r {
            Ok(p) => client_state matches Some(cs) && p@ == spec_client_proof(
                *chain,
                signing_key@,
                client_id@,
                cs@,
            ),
            Err(e) => {
                ||| (client_state is None && e == Error::ClientNotFound)
                ||| (client_state is Some && !secp256k1_key_ok(signing_key@) && e
                    == Error::CryptoFailure)
            },
        },
{
    let cs = match client_state {
        Some(cs) => cs,
        None => {
            return Err(Error::ClientNotFound);
        },
    };
    let id_bytes = client_id.as_bytes_vec();
    let path = client_state_path(id_bytes.as_slice());
    let data = crate::wire_solo::encode_client_state_data(&path, cs);
    let sign_bytes = SignBytes {
        sequence: chain.sequence,
        timestamp: chain.consensus_timestamp,
        diversifier: chain.diversifier.as_str().as_bytes_vec(),
        data_type: DATA_TYPE_CLIENT_STATE,
        data,
    };
    sign(chain, signing_key, &sign_bytes)
}

/// The consensus proof at the chain's current sequence: it attests to
/// the counterparty consensus state stored at the client's latest
/// height.
pub open spec fn spec_consensus_proof(
    c: Chain,
    key: Seq<u8>,
    client_id: Seq<char>,
    height: HeightV,
    cons: AnyV,
) -> Seq<u8> {
    spec_proof(
        key,
        spec_sign_bytes_at(
            c,
            DATA_TYPE_CONSENSUS_STATE,
            spec_encode_consensus_state_data(
                spec_consensus_state_path(encode_utf8(client_id), height),
                cons,
            ),
        ),
        c.consensus_timestamp,
    )
}

/// Builds the consensus proof, or reports the missing piece: the client
/// state carries no latest height, or no consensus state is stored at
/// that height.
pub fn get_consensus_proof(
    chain: &Chain,
    signing_key: &[u8],
    client_id: &str,
    latest_height: &Option<Height>,
    consensus_state: &Option<Any>,
) -> (r: Result<Vec<u8>, Error>)
    ensures
        r is Ok <==> latest_height is Some && consensus_state is Some && secp256k1_key_ok(
            signing_key@,
        ),
        match r {
            Ok(p) => latest_height matches Some(h) && consensus_state matches Some(cons) && p@
                == spec_consensus_proof(*chain, signing_key@, client_id@, h@, cons@),
            Err(e) => {
                ||| (latest_height is None && e == Error::PreconditionFailure)
                ||| (latest_height is Some && consensus_state is None && e
                    == Error::ConsensusStateNotFound)
                ||| (latest_height is Some && consensus_state is Some && !secp256k1_key_ok(
                    signing_key@,
                ) && e == Error::CryptoFailure)
            },
        },
{
    let height = match latest_height {
        Some(h) => h,
        None => {
            return Err(Error::PreconditionFailure);
        },
    };
    let cons = match consensus_state {
        Some(cons) => cons,
        None => {
            return Err(Error::ConsensusStateNotFound);
        },
    };
    let id_bytes = client_id.as_bytes_vec();
    let path = consensus_state_path(id_bytes.as_slice(), height);
    let data = crate::wire_solo::encode_consensus_state_data(&path, cons);
    let sign_bytes = SignBytes {
        sequence: chain.sequence,
        timestamp: chain.consensus_timestamp,
        diversifier: chain.diversifier.as_str().as_bytes_vec(),
        data_type: DATA_TYPE_CONSENSUS_STATE,
        data,
    };
    sign(chain, signing_key, &sign_bytes)
}

/// The connection proof at the chain's current sequence: it attests to
/// the counterparty connection end stored under the connection path.
pub open spec fn spec_connection_proof(
    c: Chain,
    key: Seq<u8>,
    connection_id: Seq<char>,
    conn: ConnectionEndV,
) -> Seq<u8> {
    spec_proof(
        key,
        spec_sign_bytes_at(
            c,
            DATA_TYPE_CONNECTION_STATE,
            spec_encode_connection_state_data(
                spec_connection_path(encode_utf8(connection_id)),
                conn,
            ),
        ),
        c.consensus_timestamp,
    )
}

/// Builds the connection proof, or reports that no connection end is
/// stored under the identifier.
pub fn get_connection_proof(
    chain: &Chain,
    signing_key: &[u8],
    connection_id: &str,
    connection: &Option<ConnectionEnd>,
) -> (r: Result<Vec<u8>, Error>)
    ensures
        r is Ok <==> connection is Some && secp256k1_key_ok(signing_key@),
        match r {
            Ok(p) => connection matches Some(conn) && p@ == spec_connection_proof(
                *chain,
                signing_key@,
                connection_id@,
                conn@,
            ),
            Err(e) => {
                ||| (connection is None && e == Error::ConnectionNotFound)
                ||| (connection is Some && !secp256k1_key_ok(signing_key@) && e
                    == Error::CryptoFailure)
            },
        },
{
    let conn = match connection {
        Some(conn) => conn,
        None => {
            return Err(Error::ConnectionNotFound);
        },
    };
    let id_bytes = connection_id.as_bytes_vec();
    let path = connection_path(id_bytes.as_slice());
    let data = crate::wire_solo::encode_connection_state_data(&path, conn);
    let sign_bytes = SignBytes {
        sequence: chain.sequence,
        timestamp: chain.consensus_timestamp,
        diversifier: chain.diversifier.as_str().as_bytes_vec(),
        data_type: DATA_TYPE_CONNECTION_STATE,
        data,
    };
    sign(chain, signing_key, &sign_bytes)
}

/// The channel proof at the chain's current sequence: it attests to the
/// counterparty channel end stored under the port and channel path.
pub open spec fn spec_channel_proof(
    c: Chain,
    key: Seq<u8>,
    port_id: Seq<char>,
    channel_id: Seq<char>,
    channel: ChannelV,
) -> Seq<u8> {
    spec_proof(
        key,
        spec_sign_bytes_at(
            c,
            DATA_TYPE_CHANNEL_STATE,
            spec_encode_channel_state_data(
                spec_channel_path(encode_utf8(port_id), encode_utf8(channel_id)),
                channel,
            ),
        ),
        c.consensus_timestamp,
    )
}

/// Builds the channel proof, or reports that no channel end is stored
/// under the port and channel identifiers.
pub fn get_channel_proof(
    chain: &Chain,
    signing_key: &[u8],
    port_id: &str,
    channel_id: &str,
    channel: &Option<Channel>,
) -> (r: Result<Vec<u8>, Error>)
    ensures
        r is Ok <==> channel is Some && secp256k1_key_ok(signing_key@),
        match r {
            Ok(p) => channel matches Some(ch) && p@ == spec_channel_proof(
                *chain,
                signing_key@,
                port_id@,
                channel_id@,
                ch@,
            ),
            Err(e) => {
                ||| (channel is None && e == Error::ChannelNotFound)
                ||| (channel is Some && !secp256k1_key_ok(signing_key@) && e
                    == Error::CryptoFailure)
            },
        },
{
    let ch = match channel {
        Some(ch) => ch,
        None => {
            return Err(Error::ChannelNotFound);
        },
    };
    let port_bytes = port_id.as_bytes_vec();
    let channel_bytes = channel_id.as_bytes_vec();
    let path = channel_path(port_bytes.as_slice(), channel_bytes.as_slice());
    let data = crate::wire_solo::encode_channel_state_data(&path, ch);
    let sign_bytes = SignBytes {
        sequence: chain.sequence,
        timestamp: chain.consensus_timestamp,
        diversifier: chain.diversifier.as_str().as_bytes_vec(),
        data_type: DATA_TYPE_CHANNEL_STATE,
        data,
    };
    sign(chain, signing_key, &sign_bytes)
}

} // verus!
