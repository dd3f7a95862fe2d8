//! The laws this library states of itself, proved once and for all
//! inputs.

use vstd::prelude::*;

use crate::builder::{
    spec_auth_info, spec_built_tx, spec_channel_open_ack_msg, spec_connection_open_ack_msg,
    spec_create_client_any, spec_create_client_msg, spec_tx_body,
};
use crate::chain::{chain_id_bytes, diversifier_bytes, Chain};
use crate::crypto::secp256k1_sign_of;
use crate::decoding::{
    dec_auth_info, dec_msg_create_client, dec_sign_bytes, dec_tx_body,
    lemma_auth_info_round_trip, lemma_msg_create_client_round_trip,
    lemma_sign_bytes_round_trip, lemma_tx_body_round_trip,
};
use crate::paths::{spec_channel_path, spec_client_state_path, spec_connection_path, spec_consensus_state_path};
use crate::proofs::{spec_proof, spec_sign_bytes_at};
use crate::wire_ibc::{ChannelV, ConnectionEndV, HeightV};
use crate::wire_solo::{
    spec_encode_channel_state_data, spec_encode_client_state_data,
    spec_encode_connection_state_data, spec_encode_consensus_state_data, spec_encode_sign_bytes,
    spec_encode_single_signature_data, spec_encode_timestamped_signature_data, SignBytesV,
    TimestampedSignatureDataV, DATA_TYPE_CHANNEL_STATE, DATA_TYPE_CLIENT_STATE,
    DATA_TYPE_CONNECTION_STATE, DATA_TYPE_CONSENSUS_STATE,
};
use crate::wire_tx::{spec_encode_sign_doc, AnyV, SignDocV, TxRawV};

use vstd::utf8::encode_utf8;

verus! {

/// Every built transaction's body bytes decode to a body holding
/// exactly the payload messages and memo that went in — in particular
/// the same number of messages under the same type URLs.
pub proof fn lemma_built_tx_body_decodes(
    c: Chain,
    key: Seq<u8>,
    msgs: Seq<AnyV>,
    memo: Seq<u8>,
    account_number: u64,
    account_sequence: u64,
)
    ensures
        dec_tx_body(spec_built_tx(c, key, msgs, memo, account_number, account_sequence).body_bytes)
            == Some(spec_tx_body(msgs, memo)),
        spec_tx_body(msgs, memo).messages == msgs,
{
    lemma_tx_body_round_trip(spec_tx_body(msgs, memo));
}

/// Every built transaction's auth bytes decode to exactly the signer
/// and fee information that went in.
pub proof fn lemma_built_tx_auth_info_decodes(
    c: Chain,
    key: Seq<u8>,
    msgs: Seq<AnyV>,
    memo: Seq<u8>,
    account_number: u64,
    account_sequence: u64,
)
    ensures
        dec_auth_info(
            spec_built_tx(c, key, msgs, memo, account_number, account_sequence).auth_info_bytes,
        ) == Some(spec_auth_info(c, key, account_sequence)),
{
    lemma_auth_info_round_trip(spec_auth_info(c, key, account_sequence));
}

/// The client-creation payload round-trips exactly: decoding the bytes
/// under its type URL recovers the solo machine's client state,
/// consensus state and signer.
pub proof fn lemma_create_client_payload_decodes(c: Chain, key: Seq<u8>)
    ensures
        dec_msg_create_client(spec_create_client_any(c, key).value) == Some(
            spec_create_client_msg(c, key),
        ),
{
    lemma_msg_create_client_round_trip(spec_create_client_msg(c, key));
}

/// Every proof's embedded `SignBytes` round-trips exactly the sequence,
/// timestamp, diversifier, data type and data it was built from.
pub proof fn lemma_proof_preimage_round_trips(c: Chain, data_type: u64, data: Seq<u8>)
    ensures
        dec_sign_bytes(spec_encode_sign_bytes(spec_sign_bytes_at(c, data_type, data))) == Some(
            SignBytesV {
                sequence: c.sequence,
                timestamp: c.consensus_timestamp,
                diversifier: diversifier_bytes(c),
                data_type,
                data,
            },
        ),
{
    lemma_sign_bytes_round_trip(spec_sign_bytes_at(c, data_type, data));
}

/// Every proof is the `TimestampedSignatureData` envelope around a
/// single-mode signature whose bytes are the ECDSA signature, under the
/// solo machine's key, over exactly the encoded `SignBytes` preimage.
pub proof fn lemma_proof_signature_preimage(key: Seq<u8>, sb: SignBytesV, timestamp: u64)
    ensures
        spec_proof(key, sb, timestamp) == spec_encode_timestamped_signature_data(
            TimestampedSignatureDataV {
                signature_data: spec_encode_single_signature_data(
                    0,
                    secp256k1_sign_of(key, spec_encode_sign_bytes(sb)),
                ),
                timestamp,
            },
        ),
{
}

/// Every built transaction carries exactly one signature: the ECDSA
/// signature, under the same key, over the `SignDoc` composed of
/// exactly the `body_bytes` and `auth_info_bytes` present in the
/// `TxRaw` itself.
pub proof fn lemma_built_tx_signature_preimage(
    c: Chain,
    key: Seq<u8>,
    msgs: Seq<AnyV>,
    memo: Seq<u8>,
    account_number: u64,
    account_sequence: u64,
)
    ensures
        ({
            let tx = spec_built_tx(c, key, msgs, memo, account_number, account_sequence);
            tx.signatures == seq![
                secp256k1_sign_of(
                    key,
                    spec_encode_sign_doc(
                        SignDocV {
                            body_bytes: tx.body_bytes,
                            auth_info_bytes: tx.auth_info_bytes,
                            chain_id: chain_id_bytes(c),
                            account_number,
                        },
                    ),
                ),
            ]
        }),
{
}

/// The connection open ack embeds three proofs signing with the three
/// consecutive sequences starting at the snapshot's, in the order
/// connection, client, consensus, and its proof height is the sequence
/// after all three increments.
pub proof fn lemma_connection_open_ack_sequences(
    c: Chain,
    key: Seq<u8>,
    solo_machine_connection_id: Seq<char>,
    tendermint_client_id: Seq<char>,
    tendermint_connection_id: Seq<char>,
    client_state: AnyV,
    latest_height: HeightV,
    consensus_state: AnyV,
    connection: ConnectionEndV,
)
    requires
        c.sequence + 3 <= u64::MAX,
    ensures
        ({
            let m = spec_connection_open_ack_msg(
                c,
                key,
                solo_machine_connection_id,
                tendermint_client_id,
                tendermint_connection_id,
                client_state,
                latest_height,
                consensus_state,
                connection,
            );
            &&& m.proof_try == spec_proof(
                key,
                SignBytesV {
                    sequence: c.sequence,
                    timestamp: c.consensus_timestamp,
                    diversifier: diversifier_bytes(c),
                    data_type: DATA_TYPE_CONNECTION_STATE,
                    data: spec_encode_connection_state_data(
                        spec_connection_path(encode_utf8(tendermint_connection_id)),
                        connection,
                    ),
                },
                c.consensus_timestamp,
            )
            &&& m.proof_client == spec_proof(
                key,
                SignBytesV {
                    sequence: (c.sequence + 1) as u64,
                    timestamp: c.consensus_timestamp,
                    diversifier: diversifier_bytes(c),
                    data_type: DATA_TYPE_CLIENT_STATE,
                    data: spec_encode_client_state_data(
                        spec_client_state_path(encode_utf8(tendermint_client_id)),
                        client_state,
                    ),
                },
                c.consensus_timestamp,
            )
            &&& m.proof_consensus == spec_proof(
                key,
                SignBytesV {
                    sequence: (c.sequence + 2) as u64,
                    timestamp: c.consensus_timestamp,
                    diversifier: diversifier_bytes(c),
                    data_type: DATA_TYPE_CONSENSUS_STATE,
                    data: spec_encode_consensus_state_data(
                        spec_consensus_state_path(
                            encode_utf8(tendermint_client_id),
                            latest_height,
                        ),
                        consensus_state,
                    ),
                },
                c.consensus_timestamp,
            )
            &&& m.proof_height == Some(
                HeightV { revision_number: 0, revision_height: (c.sequence + 3) as u64 },
            )
        }),
{
}

/// The channel open ack embeds one proof signing with the snapshot's
/// sequence, and its proof height is the sequence after the one
/// increment.
pub proof fn lemma_channel_open_ack_sequences(
    c: Chain,
    key: Seq<u8>,
    solo_machine_channel_id: Seq<char>,
    tendermint_channel_id: Seq<char>,
    channel: ChannelV,
)
    requires
        c.sequence < u64::MAX,
    ensures
        ({
            let m = spec_channel_open_ack_msg(
                c,
                key,
                solo_machine_channel_id,
                tendermint_channel_id,
                channel,
            );
            &&& m.proof_try == spec_proof(
                key,
                SignBytesV {
                    sequence: c.sequence,
                    timestamp: c.consensus_timestamp,
                    diversifier: diversifier_bytes(c),
                    data_type: DATA_TYPE_CHANNEL_STATE,
                    data: spec_encode_channel_state_data(
                        spec_channel_path(
                            encode_utf8(c.port_id@),
                            encode_utf8(tendermint_channel_id),
                        ),
                        channel,
                    ),
                },
                c.consensus_timestamp,
            )
            &&& m.proof_height == Some(
                HeightV { revision_number: 0, revision_height: (c.sequence + 1) as u64 },
            )
        }),
{
}

/// Transaction building is deterministic: two builds from identical
/// chain snapshots, keys, payloads and account details are
/// byte-identical.  Which branch a build takes is itself a function of
/// the inputs — every building function's contract obliges success
/// exactly when the signing key is valid (and, where an address is
/// derived, the prefix encodes) — so two identical calls agree on
/// success as well as on the bytes.
pub proof fn lemma_build_deterministic(
    c: Chain,
    key: Seq<u8>,
    msgs: Seq<AnyV>,
    memo: Seq<u8>,
    account_number: u64,
    account_sequence: u64,
    first: TxRawV,
    second: TxRawV,
)
    requires
        first == spec_built_tx(c, key, msgs, memo, account_number, account_sequence),
        second == spec_built_tx(c, key, msgs, memo, account_number, account_sequence),
    ensures
        first == second,
{
}

} // verus!
