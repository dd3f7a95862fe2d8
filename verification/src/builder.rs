//! The transaction builder: assembles, signs and returns the `TxRaw`
//! for each IBC handshake step on the solo machine side.
//!
//! Storage and transport stay outside: callers hand the builder a
//! chain snapshot, the account details the auth module reported, and
//! the IBC objects the local store returned, all as plain values.  The
//! builder turns them into payload messages, coordinates the proof
//! signer with the sequence-increment protocol, and assembles the
//! signed transaction.

use vstd::prelude::*;

use vstd::string::StrSliceExecFns;
use vstd::utf8::encode_utf8;

use crate::chain::{chain_id_bytes, diversifier_bytes, same_chain_config, Chain};
use crate::crypto::{
    account_address, secp256k1_key_ok, secp256k1_pubkey_of, secp256k1_public_key,
    secp256k1_sign, secp256k1_sign_of, spec_account_address, spec_address_ok,
};
use crate::encoding::{dec_bytes, dec_string_bytes, put_bytes};
use crate::error::Error;
use crate::wire_ibc::{
    encode_msg_connection_open_init, spec_encode_msg_connection_open_init, ConnectionCounterparty,
    ConnectionCounterpartyV, ConnectionVersion, ConnectionVersionV, Height, HeightV, MerklePrefix,
    MerklePrefixV, MsgConnectionOpenInit, MsgConnectionOpenInitV, MsgCreateClient, MsgCreateClientV,
};
use crate::wire_ibc::{encode_msg_create_client, spec_encode_msg_create_client};
use crate::wire_ibc::{
    encode_msg_channel_open_ack, encode_msg_channel_open_init, encode_msg_connection_open_ack,
    spec_encode_msg_channel_open_ack, spec_encode_msg_channel_open_init,
    spec_encode_msg_connection_open_ack, Channel, ChannelCounterparty, ChannelCounterpartyV,
    ChannelV, ConnectionEnd, ConnectionEndV, MsgChannelOpenAck, MsgChannelOpenAckV,
    MsgChannelOpenInit, MsgChannelOpenInitV, MsgConnectionOpenAck, MsgConnectionOpenAckV,
    CHANNEL_ORDER_UNORDERED, CHANNEL_STATE_INIT,
};
use crate::proofs::{
    get_channel_proof, get_client_proof, get_connection_proof, get_consensus_proof,
    spec_channel_proof, spec_client_proof, spec_connection_proof, spec_consensus_proof,
};
use crate::wire_solo::{
    encode_solo_machine_client_state, encode_solo_machine_consensus_state,
    spec_encode_solo_machine_client_state, spec_encode_solo_machine_consensus_state,
    SoloMachineClientState, SoloMachineClientStateV, SoloMachineConsensusState,
    SoloMachineConsensusStateV,
};
use crate::wire_tx::{
    encode_auth_info, encode_pub_key, encode_sign_doc, encode_tx_body, spec_encode_auth_info,
    spec_encode_pub_key, spec_encode_sign_doc, spec_encode_tx_body, Any, AnyV, AuthInfo,
    AuthInfoV, Coin, CoinV, Fee, FeeV, ModeInfo, ModeInfoV, SignDoc, SignDocV, SignerInfo,
    SignerInfoV, TxBody, TxBodyV, TxRaw, TxRawV,
};

verus! {

/// Copies a byte slice into a fresh buffer.
pub fn copy_bytes(b: &[u8]) -> (r: Vec<u8>)
    ensures
        r@ == b@,
{
    let mut v: Vec<u8> = Vec::new();
    put_bytes(&mut v, b);
    proof {
        assert(Seq::<u8>::empty() + b@ =~= b@);
    }
    v
}

/// Builds transactions for one chain on behalf of one signing key.
pub struct TransactionBuilder {
    /// The secp256k1 private scalar, as 32 bytes.
    pub signing_key: Vec<u8>,
    /// The memo placed in every transaction body.
    pub memo: String,
}

/// The public key of the builder's signing key, wrapped as an `Any`
/// under the canonical Cosmos secp256k1 type URL.
pub open spec fn spec_pub_key_any(key: Seq<u8>) -> AnyV {
    AnyV {
        type_url: encode_utf8("/cosmos.crypto.secp256k1.PubKey"@),
        value: spec_encode_pub_key(secp256k1_pubkey_of(key)),
    }
}

/// The transaction body holding the given payloads and memo.
pub open spec fn spec_tx_body(msgs: Seq<AnyV>, memo: Seq<u8>) -> TxBodyV {
    TxBodyV {
        messages: msgs,
        memo,
        timeout_height: 0,
        extension_options: Seq::empty(),
        non_critical_extension_options: Seq::empty(),
    }
}

/// The auth info of a transaction: one direct-mode signer at the given
/// account sequence, and the fee taken verbatim from chain
/// configuration.
pub open spec fn spec_auth_info(c: Chain, key: Seq<u8>, account_sequence: u64) -> AuthInfoV {
    AuthInfoV {
        signer_infos: seq![
            SignerInfoV {
                public_key: Some(spec_pub_key_any(key)),
                mode_info: Some(ModeInfoV { mode: 1 }),
                sequence: account_sequence,
            },
        ],
        fee: Some(
            FeeV {
                amount: seq![
                    CoinV {
                        denom: encode_utf8(c.fee.denom@),
                        amount: dec_bytes(c.fee.amount as nat),
                    },
                ],
                gas_limit: c.fee.gas_limit,
                payer: Seq::empty(),
                granter: Seq::empty(),
            },
        ),
    }
}

/// The signed transaction for the given payloads: body and auth bytes
/// exactly as signed, and one signature over the `SignDoc` composed of
/// those same bytes, the chain identifier and the account number.
pub open spec fn spec_built_tx(
    c: Chain,
    key: Seq<u8>,
    msgs: Seq<AnyV>,
    memo: Seq<u8>,
    account_number: u64,
    account_sequence: u64,
) -> TxRawV {
    let body_bytes = spec_encode_tx_body(spec_tx_body(msgs, memo));
    let auth_info_bytes = spec_encode_auth_info(spec_auth_info(c, key, account_sequence));
    TxRawV {
        body_bytes,
        auth_info_bytes,
        signatures: seq![
            secp256k1_sign_of(
                key,
                spec_encode_sign_doc(
                    SignDocV {
                        body_bytes,
                        auth_info_bytes,
                        chain_id: chain_id_bytes(c),
                        account_number,
                    },
                ),
            ),
        ],
    }
}

impl TransactionBuilder {
    /// A builder for the given signing key and memo.
    pub fn new(signing_key: Vec<u8>, memo: String) -> (r: Self)
        ensures
            r.signing_key == signing_key,
            r.memo == memo,
    {
        TransactionBuilder { signing_key, memo }
    }

    /// Wraps the payload messages and the memo in a transaction body.
    pub fn build_tx_body(&self, messages: Vec<Any>) -> (r: TxBody)
        ensures
            r@ == spec_tx_body(messages.deep_view(), encode_utf8(self.memo@)),
    {
        let body = TxBody {
            messages,
            memo: self.memo.as_str().as_bytes_vec(),
            timeout_height: 0,
            extension_options: Vec::new(),
            non_critical_extension_options: Vec::new(),
        };
        proof {
            assert(body@.extension_options =~= Seq::<AnyV>::empty());
            assert(body@.non_critical_extension_options =~= Seq::<AnyV>::empty());
        }
        body
    }

    /// Builds the auth info: the signer's public key in direct mode at
    /// the given account sequence, and the configured fee.
    pub fn build_auth_info(&self, chain: &Chain, account_sequence: u64) -> (r: Result<
        AuthInfo,
        Error,
    >)
        ensures
            r is Ok <==> secp256k1_key_ok(self.signing_key@),
            match r {
                Ok(a) => a@ == spec_auth_info(*chain, self.signing_key@, account_sequence),
                Err(e) => e == Error::CryptoFailure,
            },
    {
        let pk = secp256k1_public_key(self.signing_key.as_slice())?;
        let public_key = Any {
            type_url: "/cosmos.crypto.secp256k1.PubKey".as_bytes_vec(),
            value: encode_pub_key(&pk),
        };
        let mut signer_infos: Vec<SignerInfo> = Vec::new();
        signer_infos.push(
            SignerInfo {
                public_key: Some(public_key),
                mode_info: Some(ModeInfo { mode: 1 }),
                sequence: account_sequence,
            },
        );
        let mut amount: Vec<Coin> = Vec::new();
        amount.push(
            Coin {
                denom: chain.fee.denom.as_str().as_bytes_vec(),
                amount: dec_string_bytes(chain.fee.amount),
            },
        );
        let fee = Fee { amount, gas_limit: chain.fee.gas_limit, payer: Vec::new(), granter: Vec::new() };
        let auth = AuthInfo { signer_infos, fee: Some(fee) };
        proof {
            let s = spec_auth_info(*chain, self.signing_key@, account_sequence);
            assert(auth@.signer_infos =~= s.signer_infos);
            assert(auth@.fee->0.amount =~= s.fee->0.amount);
            assert(auth@.fee->0.payer =~= s.fee->0.payer);
            assert(auth@.fee->0.granter =~= s.fee->0.granter);
            assert(auth@.fee->0 == s.fee->0);
            assert(auth@ == s);
        }
        Ok(auth)
    }

    /// Signs the `SignDoc` composed of the given body and auth bytes.
    pub fn build_signature(
        &self,
        body_bytes: Vec<u8>,
        auth_info_bytes: Vec<u8>,
        chain_id: Vec<u8>,
        account_number: u64,
    ) -> (r: Result<Vec<u8>, Error>)
        ensures
            r is Ok <==> secp256k1_key_ok(self.signing_key@),
            match r {
                Ok(s) => s@ == secp256k1_sign_of(
                    self.signing_key@,
                    spec_encode_sign_doc(
                        SignDocV {
                            body_bytes: body_bytes@,
                            auth_info_bytes: auth_info_bytes@,
                            chain_id: chain_id@,
                            account_number,
                        },
                    ),
                ),
                Err(e) => e == Error::CryptoFailure,
            },
    {
        let sign_doc = SignDoc { body_bytes, auth_info_bytes, chain_id, account_number };
        let sign_doc_bytes = encode_sign_doc(&sign_doc);
        secp256k1_sign(self.signing_key.as_slice(), sign_doc_bytes.as_slice())
    }

    /// Assembles and signs the transaction around the given payloads,
    /// using the account details the auth module reported.  The bytes
    /// placed in the result are the very bytes that were signed.
    pub fn build(
        &self,
        chain: &Chain,
        messages: Vec<Any>,
        account_number: u64,
        account_sequence: u64,
    ) -> (r: Result<TxRaw, Error>)
        ensures
            r is Ok <==> secp256k1_key_ok(self.signing_key@),
            match r {
                Ok(tx) => tx@ == spec_built_tx(
                    *chain,
                    self.signing_key@,
                    messages.deep_view(),
                    encode_utf8(self.memo@),
                    account_number,
                    account_sequence,
                ),
                Err(e) => e == Error::CryptoFailure,
            },
    {
        let ghost msgs = messages.deep_view();
        let tx_body = self.build_tx_body(messages);
        let tx_body_bytes = encode_tx_body(&tx_body);
        let auth_info = self.build_auth_info(chain, account_sequence)?;
        let auth_info_bytes = encode_auth_info(&auth_info);
        let signature = self.build_signature(
            copy_bytes(tx_body_bytes.as_slice()),
            copy_bytes(auth_info_bytes.as_slice()),
            chain.id.as_str().as_bytes_vec(),
            account_number,
        )?;
        let mut signatures: Vec<Vec<u8>> = Vec::new();
        signatures.push(signature);
        let tx = TxRaw { body_bytes: tx_body_bytes, auth_info_bytes, signatures };
        proof {
            let s = spec_built_tx(
                *chain,
                self.signing_key@,
                msgs,
                encode_utf8(self.memo@),
                account_number,
                account_sequence,
            );
            assert(tx@.signatures.len() == 1);
            assert(tx@.signatures[0] == s.signatures[0]);
            assert(tx@.signatures =~= s.signatures);
            assert(tx@ == s);
        }
        Ok(tx)
    }
}

/// Copies an `Any` into a fresh value.
pub fn clone_any(a: &Any) -> (r: Any)
    ensures
        r@ == a@,
{
    Any { type_url: copy_bytes(a.type_url.as_slice()), value: copy_bytes(a.value.as_slice()) }
}

/// The connection version this builder proposes: identifier `1` with
/// the ordered and unordered feature set.
pub open spec fn spec_connection_version() -> ConnectionVersionV {
    ConnectionVersionV {
        identifier: encode_utf8("1"@),
        features: seq![encode_utf8("ORDER_ORDERED"@), encode_utf8("ORDER_UNORDERED"@)],
    }
}

/// Builds the proposed connection version.
pub fn connection_version() -> (r: ConnectionVersion)
    ensures
        r@ == spec_connection_version(),
{
    let mut features: Vec<Vec<u8>> = Vec::new();
    features.push("ORDER_ORDERED".as_bytes_vec());
    features.push("ORDER_UNORDERED".as_bytes_vec());
    let v = ConnectionVersion { identifier: "1".as_bytes_vec(), features };
    proof {
        assert(v@.features =~~= spec_connection_version().features);
        assert(v@ == spec_connection_version());
    }
    v
}

/// The solo machine's consensus state: its public key, diversifier and
/// frozen timestamp.
pub open spec fn spec_solo_consensus_state(c: Chain, key: Seq<u8>) -> SoloMachineConsensusStateV {
    SoloMachineConsensusStateV {
        public_key: Some(spec_pub_key_any(key)),
        diversifier: diversifier_bytes(c),
        timestamp: c.consensus_timestamp,
    }
}

/// The solo machine's client state at the chain's current sequence.
pub open spec fn spec_solo_client_state(c: Chain, key: Seq<u8>) -> SoloMachineClientStateV {
    SoloMachineClientStateV {
        sequence: c.sequence,
        frozen_sequence: 0,
        consensus_state: Some(spec_solo_consensus_state(c, key)),
        allow_update_after_proposal: true,
    }
}

/// The `MsgCreateClient` payload registering the solo machine on the
/// counterparty chain.
pub open spec fn spec_create_client_msg(c: Chain, key: Seq<u8>) -> MsgCreateClientV {
    MsgCreateClientV {
        client_state: Some(
            AnyV {
                type_url: encode_utf8("/ibc.lightclients.solomachine.v1.ClientState"@),
                value: spec_encode_solo_machine_client_state(spec_solo_client_state(c, key)),
            },
        ),
        consensus_state: Some(
            AnyV {
                type_url: encode_utf8("/ibc.lightclients.solomachine.v1.ConsensusState"@),
                value: spec_encode_solo_machine_consensus_state(
                    spec_solo_consensus_state(c, key),
                ),
            },
        ),
        signer: encode_utf8(spec_account_address(key, c.account_prefix@)),
    }
}

/// The same payload wrapped under its type URL.
pub open spec fn spec_create_client_any(c: Chain, key: Seq<u8>) -> AnyV {
    AnyV {
        type_url: encode_utf8("/ibc.core.client.v1.MsgCreateClient"@),
        value: spec_encode_msg_create_client(spec_create_client_msg(c, key)),
    }
}

/// The `MsgConnectionOpenInit` payload, wrapped under its type URL.
pub open spec fn spec_connection_open_init_any(
    c: Chain,
    key: Seq<u8>,
    solo_machine_client_id: Seq<char>,
    tendermint_client_id: Seq<char>,
) -> AnyV {
    AnyV {
        type_url: encode_utf8("/ibc.core.connection.v1.MsgConnectionOpenInit"@),
        value: spec_encode_msg_connection_open_init(
            MsgConnectionOpenInitV {
                client_id: encode_utf8(solo_machine_client_id),
                counterparty: Some(
                    ConnectionCounterpartyV {
                        client_id: encode_utf8(tendermint_client_id),
                        connection_id: Seq::empty(),
                        prefix: Some(MerklePrefixV { key_prefix: encode_utf8("ibc"@) }),
                    },
                ),
                version: Some(spec_connection_version()),
                delay_period: 0,
                signer: encode_utf8(spec_account_address(key, c.account_prefix@)),
            },
        ),
    }
}

impl TransactionBuilder {
    /// Builds the transaction that creates a solo machine client on the
    /// counterparty chain.  No proof is required and the sequence does
    /// not change; the client state carries the chain's current
    /// sequence.
    pub fn msg_create_solo_machine_client(
        &self,
        chain: &Chain,
        account_number: u64,
        account_sequence: u64,
    ) -> (r: Result<TxRaw, Error>)
        ensures
            r is Ok <==> spec_address_ok(self.signing_key@, chain.account_prefix@),
            match r {
                Ok(tx) => tx@ == spec_built_tx(
                    *chain,
                    self.signing_key@,
                    seq![spec_create_client_any(*chain, self.signing_key@)],
                    encode_utf8(self.memo@),
                    account_number,
                    account_sequence,
                ),
                Err(e) => e == Error::CryptoFailure,
            },
    {
        let pk = secp256k1_public_key(self.signing_key.as_slice())?;
        let any_public_key = Any {
            type_url: "/cosmos.crypto.secp256k1.PubKey".as_bytes_vec(),
            value: encode_pub_key(&pk),
        };
        let consensus_state = SoloMachineConsensusState {
            public_key: Some(any_public_key),
            diversifier: chain.diversifier.as_str().as_bytes_vec(),
            timestamp: chain.consensus_timestamp,
        };
        let any_consensus_state = Any {
            type_url: "/ibc.lightclients.solomachine.v1.ConsensusState".as_bytes_vec(),
            value: encode_solo_machine_consensus_state(&consensus_state),
        };
        let client_state = SoloMachineClientState {
            sequence: chain.sequence,
            frozen_sequence: 0,
            consensus_state: Some(consensus_state),
            allow_update_after_proposal: true,
        };
        let any_client_state = Any {
            type_url: "/ibc.lightclients.solomachine.v1.ClientState".as_bytes_vec(),
            value: encode_solo_machine_client_state(&client_state),
        };
        let signer = account_address(self.signing_key.as_slice(), chain.account_prefix.as_str())?;
        let message = MsgCreateClient {
            client_state: Some(any_client_state),
            consensus_state: Some(any_consensus_state),
            signer: signer.as_str().as_bytes_vec(),
        };
        let any_message = Any {
            type_url: "/ibc.core.client.v1.MsgCreateClient".as_bytes_vec(),
            value: encode_msg_create_client(&message),
        };
        let mut messages: Vec<Any> = Vec::new();
        messages.push(any_message);
        proof {
            assert(messages.deep_view() =~= seq![
                spec_create_client_any(*chain, self.signing_key@),
            ]);
        }
        self.build(chain, messages, account_number, account_sequence)
    }

    /// Builds the transaction that opens a connection from the solo
    /// machine's client to the counterparty's client.  No proof is
    /// required and the sequence does not change.
    pub fn msg_connection_open_init(
        &self,
        chain: &Chain,
        solo_machine_client_id: &str,
        tendermint_client_id: &str,
        account_number: u64,
        account_sequence: u64,
    ) -> (r: Result<TxRaw, Error>)
        ensures
            r is Ok <==> spec_address_ok(self.signing_key@, chain.account_prefix@),
            match r {
                Ok(tx) => tx@ == spec_built_tx(
                    *chain,
                    self.signing_key@,
                    seq![
                        spec_connection_open_init_any(
                            *chain,
                            self.signing_key@,
                            solo_machine_client_id@,
                            tendermint_client_id@,
                        ),
                    ],
                    encode_utf8(self.memo@),
                    account_number,
                    account_sequence,
                ),
                Err(e) => e == Error::CryptoFailure,
            },
    {
        let signer = account_address(self.signing_key.as_slice(), chain.account_prefix.as_str())?;
        let message = MsgConnectionOpenInit {
            client_id: solo_machine_client_id.as_bytes_vec(),
            counterparty: Some(
                ConnectionCounterparty {
                    client_id: tendermint_client_id.as_bytes_vec(),
                    connection_id: Vec::new(),
                    prefix: Some(MerklePrefix { key_prefix: "ibc".as_bytes_vec() }),
                },
            ),
            version: Some(connection_version()),
            delay_period: 0,
            signer: signer.as_str().as_bytes_vec(),
        };
        let any_message = Any {
            type_url: "/ibc.core.connection.v1.MsgConnectionOpenInit".as_bytes_vec(),
            value: encode_msg_connection_open_init(&message),
        };
        let mut messages: Vec<Any> = Vec::new();
        messages.push(any_message);
        proof {
            assert(message@.counterparty->0.connection_id =~= Seq::<u8>::empty());
            assert(message@ == MsgConnectionOpenInitV {
                client_id: encode_utf8(solo_machine_client_id@),
                counterparty: Some(
                    ConnectionCounterpartyV {
                        client_id: encode_utf8(tendermint_client_id@),
                        connection_id: Seq::empty(),
                        prefix: Some(MerklePrefixV { key_prefix: encode_utf8("ibc"@) }),
                    },
                ),
                version: Some(spec_connection_version()),
                delay_period: 0,
                signer: encode_utf8(
                    spec_account_address(self.signing_key@, chain.account_prefix@),
                ),
            });
            assert(messages.deep_view() =~= seq![
                spec_connection_open_init_any(
                    *chain,
                    self.signing_key@,
                    solo_machine_client_id@,
                    tendermint_client_id@,
                ),
            ]);
        }
        self.build(chain, messages, account_number, account_sequence)
    }
}

/// The same chain snapshot at another sequence.
pub open spec fn chain_at(c: Chain, sequence: u64) -> Chain {
    Chain { sequence, ..c }
}

/// The `MsgConnectionOpenAck` payload, wrapped under its type URL.
/// The three proofs sign with the three consecutive sequences starting
/// at the snapshot's, and the proof height is the sequence after all
/// three increments.
pub open spec fn spec_connection_open_ack_msg(
    c: Chain,
    key: Seq<u8>,
    solo_machine_connection_id: Seq<char>,
    tendermint_client_id: Seq<char>,
    tendermint_connection_id: Seq<char>,
    client_state: AnyV,
    latest_height: HeightV,
    consensus_state: AnyV,
    connection: ConnectionEndV,
) -> MsgConnectionOpenAckV {
    MsgConnectionOpenAckV {
        connection_id: encode_utf8(solo_machine_connection_id),
        counterparty_connection_id: encode_utf8(tendermint_connection_id),
        version: Some(spec_connection_version()),
        client_state: Some(client_state),
        proof_height: Some(
            HeightV { revision_number: 0, revision_height: (c.sequence + 3) as u64 },
        ),
        proof_try: spec_connection_proof(c, key, tendermint_connection_id, connection),
        proof_client: spec_client_proof(
            chain_at(c, (c.sequence + 1) as u64),
            key,
            tendermint_client_id,
            client_state,
        ),
        proof_consensus: spec_consensus_proof(
            chain_at(c, (c.sequence + 2) as u64),
            key,
            tendermint_client_id,
            latest_height,
            consensus_state,
        ),
        consensus_height: Some(latest_height),
        signer: encode_utf8(spec_account_address(key, c.account_prefix@)),
    }
}

pub open spec fn spec_connection_open_ack_any(
    c: Chain,
    key: Seq<u8>,
    solo_machine_connection_id: Seq<char>,
    tendermint_client_id: Seq<char>,
    tendermint_connection_id: Seq<char>,
    client_state: AnyV,
    latest_height: HeightV,
    consensus_state: AnyV,
    connection: ConnectionEndV,
) -> AnyV {
    AnyV {
        type_url: encode_utf8("/ibc.core.connection.v1.MsgConnectionOpenAck"@),
        value: spec_encode_msg_connection_open_ack(
            spec_connection_open_ack_msg(
                c,
                key,
                solo_machine_connection_id,
                tendermint_client_id,
                tendermint_connection_id,
                client_state,
                latest_height,
                consensus_state,
                connection,
            ),
        ),
    }
}

/// The `MsgChannelOpenInit` payload, wrapped under its type URL.
pub open spec fn spec_channel_open_init_any(
    c: Chain,
    key: Seq<u8>,
    solo_machine_connection_id: Seq<char>,
) -> AnyV {
    AnyV {
        type_url: encode_utf8("/ibc.core.channel.v1.MsgChannelOpenInit"@),
        value: spec_encode_msg_channel_open_init(
            MsgChannelOpenInitV {
                port_id: encode_utf8(c.port_id@),
                channel: Some(
                    ChannelV {
                        state: CHANNEL_STATE_INIT,
                        ordering: CHANNEL_ORDER_UNORDERED,
                        counterparty: Some(
                            ChannelCounterpartyV {
                                port_id: encode_utf8(c.port_id@),
                                channel_id: Seq::empty(),
                            },
                        ),
                        connection_hops: seq![encode_utf8(solo_machine_connection_id)],
                        version: encode_utf8("ics20-1"@),
                    },
                ),
                signer: encode_utf8(spec_account_address(key, c.account_prefix@)),
            },
        ),
    }
}

/// The `MsgChannelOpenAck` payload, wrapped under its type URL.  The
/// proof signs with the snapshot's sequence; the proof height is the
/// sequence after the one increment.
pub open spec fn spec_channel_open_ack_msg(
    c: Chain,
    key: Seq<u8>,
    solo_machine_channel_id: Seq<char>,
    tendermint_channel_id: Seq<char>,
    channel: ChannelV,
) -> MsgChannelOpenAckV {
    MsgChannelOpenAckV {
        port_id: encode_utf8(c.port_id@),
        channel_id: encode_utf8(solo_machine_channel_id),
        counterparty_channel_id: encode_utf8(tendermint_channel_id),
        counterparty_version: encode_utf8("ics20-1"@),
        proof_try: spec_channel_proof(c, key, c.port_id@, tendermint_channel_id, channel),
        proof_height: Some(
            HeightV { revision_number: 0, revision_height: (c.sequence + 1) as u64 },
        ),
        signer: encode_utf8(spec_account_address(key, c.account_prefix@)),
    }
}

pub open spec fn spec_channel_open_ack_any(
    c: Chain,
    key: Seq<u8>,
    solo_machine_channel_id: Seq<char>,
    tendermint_channel_id: Seq<char>,
    channel: ChannelV,
) -> AnyV {
    AnyV {
        type_url: encode_utf8("/ibc.core.channel.v1.MsgChannelOpenAck"@),
        value: spec_encode_msg_channel_open_ack(
            spec_channel_open_ack_msg(
                c,
                key,
                solo_machine_channel_id,
                tendermint_channel_id,
                channel,
            ),
        ),
    }
}

impl TransactionBuilder {
    /// Builds the transaction that acknowledges the counterparty's
    /// connection open try.  Three proofs are generated in a fixed
    /// order — connection, client, consensus — each signing with the
    /// chain's current sequence and advancing it by one; the outer
    /// proof height is the final sequence.  Increments that preceded a
    /// failure are not rolled back.
    pub fn msg_connection_open_ack(
        &self,
        chain: &mut Chain,
        solo_machine_connection_id: &str,
        tendermint_client_id: &str,
        tendermint_connection_id: &str,
        tendermint_client_state: &Option<Any>,
        tendermint_client_latest_height: &Option<Height>,
        tendermint_consensus_state: &Option<Any>,
        tendermint_connection: &Option<ConnectionEnd>,
        account_number: u64,
        account_sequence: u64,
    ) -> (r: Result<TxRaw, Error>)
        requires
            old(chain).sequence <= u64::MAX - 3,
        ensures
            same_chain_config(*final(chain), *old(chain)),
            old(chain).sequence <= final(chain).sequence <= old(chain).sequence + 3,
            r is Ok <==> tendermint_client_state is Some && tendermint_connection is Some
                && tendermint_client_latest_height is Some && tendermint_consensus_state is Some
                && spec_address_ok(self.signing_key@, old(chain).account_prefix@),
            match r {
                Ok(tx) => {
                    &&& tendermint_client_state matches Some(cs)
                    &&& tendermint_client_latest_height matches Some(h)
                    &&& tendermint_consensus_state matches Some(cons)
                    &&& tendermint_connection matches Some(conn)
                    &&& final(chain).sequence == old(chain).sequence + 3
                    &&& tx@ == spec_built_tx(
                        *final(chain),
                        self.signing_key@,
                        seq![
                            spec_connection_open_ack_any(
                                *old(chain),
                                self.signing_key@,
                                solo_machine_connection_id@,
                                tendermint_client_id@,
                                tendermint_connection_id@,
                                tendermint_client_state->0@,
                                tendermint_client_latest_height->0@,
                                tendermint_consensus_state->0@,
                                tendermint_connection->0@,
                            ),
                        ],
                        encode_utf8(self.memo@),
                        account_number,
                        account_sequence,
                    )
                },
                Err(e) => {
                    ||| (tendermint_client_state is None && e == Error::ClientNotFound
                        && *final(chain) == *old(chain))
                    ||| (tendermint_client_state is Some && tendermint_connection is None && e
                        == Error::ConnectionNotFound && *final(chain) == *old(chain))
                    ||| (tendermint_client_state is Some && tendermint_connection is Some
                        && !secp256k1_key_ok(self.signing_key@) && e == Error::CryptoFailure
                        && *final(chain) == *old(chain))
                    ||| (tendermint_client_state is Some && tendermint_connection is Some
                        && secp256k1_key_ok(self.signing_key@)
                        && tendermint_client_latest_height is None && e
                        == Error::PreconditionFailure && final(chain).sequence == old(
                        chain,
                    ).sequence + 2)
                    ||| (tendermint_client_state is Some && tendermint_connection is Some
                        && secp256k1_key_ok(self.signing_key@)
                        && tendermint_client_latest_height is Some && tendermint_consensus_state
                        is None && e == Error::ConsensusStateNotFound && final(chain).sequence
                        == old(chain).sequence + 2)
                    ||| (tendermint_client_state is Some && tendermint_connection is Some
                        && tendermint_client_latest_height is Some && tendermint_consensus_state
                        is Some && secp256k1_key_ok(self.signing_key@) && !spec_address_ok(
                        self.signing_key@,
                        old(chain).account_prefix@,
                    ) && e == Error::CryptoFailure && final(chain).sequence == old(
                        chain,
                    ).sequence + 3)
                },
            },
    {
        if tendermint_client_state.is_none() {
            return Err(Error::ClientNotFound);
        }
        let ghost c0 = *chain;
        let proof_try = get_connection_proof(
            chain,
            self.signing_key.as_slice(),
            tendermint_connection_id,
            tendermint_connection,
        )?;
        chain.increment_sequence();
        let ghost c1 = *chain;
        let proof_client = get_client_proof(
            chain,
            self.signing_key.as_slice(),
            tendermint_client_id,
            tendermint_client_state,
        )?;
        chain.increment_sequence();
        let ghost c2 = *chain;
        let proof_consensus = get_consensus_proof(
            chain,
            self.signing_key.as_slice(),
            tendermint_client_id,
            tendermint_client_latest_height,
            tendermint_consensus_state,
        )?;
        chain.increment_sequence();
        let height = match tendermint_client_latest_height {
            Some(h) => *h,
            None => {
                return Err(Error::PreconditionFailure);
            },
        };
        let client_state_any = match tendermint_client_state {
            Some(cs) => clone_any(cs),
            None => {
                return Err(Error::ClientNotFound);
            },
        };
        let signer = account_address(self.signing_key.as_slice(), chain.account_prefix.as_str())?;
        let message = MsgConnectionOpenAck {
            connection_id: solo_machine_connection_id.as_bytes_vec(),
            counterparty_connection_id: tendermint_connection_id.as_bytes_vec(),
            version: Some(connection_version()),
            client_state: Some(client_state_any),
            proof_height: Some(Height { revision_number: 0, revision_height: chain.sequence }),
            proof_try,
            proof_client,
            proof_consensus,
            consensus_height: Some(height),
            signer: signer.as_str().as_bytes_vec(),
        };
        let any_message = Any {
            type_url: "/ibc.core.connection.v1.MsgConnectionOpenAck".as_bytes_vec(),
            value: encode_msg_connection_open_ack(&message),
        };
        let mut messages: Vec<Any> = Vec::new();
        messages.push(any_message);
        proof {
            assert(c1 == chain_at(c0, (c0.sequence + 1) as u64));
            assert(c2 == chain_at(c0, (c0.sequence + 2) as u64));
            assert(message@ == spec_connection_open_ack_msg(
                c0,
                self.signing_key@,
                solo_machine_connection_id@,
                tendermint_client_id@,
                tendermint_connection_id@,
                tendermint_client_state->0@,
                tendermint_client_latest_height->0@,
                tendermint_consensus_state->0@,
                tendermint_connection->0@,
            ));
            assert(messages.deep_view() =~= seq![
                spec_connection_open_ack_any(
                    c0,
                    self.signing_key@,
                    solo_machine_connection_id@,
                    tendermint_client_id@,
                    tendermint_connection_id@,
                    tendermint_client_state->0@,
                    tendermint_client_latest_height->0@,
                    tendermint_consensus_state->0@,
                    tendermint_connection->0@,
                ),
            ]);
        }
        self.build(chain, messages, account_number, account_sequence)
    }

    /// Builds the transaction that opens an unordered `ics20-1` channel
    /// over the solo machine's connection.  No proof is required and
    /// the sequence does not change.
    pub fn msg_channel_open_init(
        &self,
        chain: &Chain,
        solo_machine_connection_id: &str,
        account_number: u64,
        account_sequence: u64,
    ) -> (r: Result<TxRaw, Error>)
        ensures
            r is Ok <==> spec_address_ok(self.signing_key@, chain.account_prefix@),
            match r {
                Ok(tx) => tx@ == spec_built_tx(
                    *chain,
                    self.signing_key@,
                    seq![
                        spec_channel_open_init_any(
                            *chain,
                            self.signing_key@,
                            solo_machine_connection_id@,
                        ),
                    ],
                    encode_utf8(self.memo@),
                    account_number,
                    account_sequence,
                ),
                Err(e) => e == Error::CryptoFailure,
            },
    {
        let signer = account_address(self.signing_key.as_slice(), chain.account_prefix.as_str())?;
        let mut connection_hops: Vec<Vec<u8>> = Vec::new();
        connection_hops.push(solo_machine_connection_id.as_bytes_vec());
        let channel = Channel {
            state: CHANNEL_STATE_INIT,
            ordering: CHANNEL_ORDER_UNORDERED,
            counterparty: Some(
                ChannelCounterparty {
                    port_id: chain.port_id.as_str().as_bytes_vec(),
                    channel_id: Vec::new(),
                },
            ),
            connection_hops,
            version: "ics20-1".as_bytes_vec(),
        };
        let message = MsgChannelOpenInit {
            port_id: chain.port_id.as_str().as_bytes_vec(),
            channel: Some(channel),
            signer: signer.as_str().as_bytes_vec(),
        };
        let any_message = Any {
            type_url: "/ibc.core.channel.v1.MsgChannelOpenInit".as_bytes_vec(),
            value: encode_msg_channel_open_init(&message),
        };
        let mut messages: Vec<Any> = Vec::new();
        messages.push(any_message);
        proof {
            let s = spec_channel_open_init_any(
                *chain,
                self.signing_key@,
                solo_machine_connection_id@,
            );
            assert(message@.channel->0.connection_hops =~~= seq![
                encode_utf8(solo_machine_connection_id@),
            ]);
            assert(message@.channel->0.counterparty->0.channel_id =~= Seq::<u8>::empty());
            assert(message@.channel->0 == ChannelV {
                state: CHANNEL_STATE_INIT,
                ordering: CHANNEL_ORDER_UNORDERED,
                counterparty: Some(
                    ChannelCounterpartyV {
                        port_id: encode_utf8(chain.port_id@),
                        channel_id: Seq::empty(),
                    },
                ),
                connection_hops: seq![encode_utf8(solo_machine_connection_id@)],
                version: encode_utf8("ics20-1"@),
            });
            assert(messages.deep_view() =~= seq![s]);
        }
        self.build(chain, messages, account_number, account_sequence)
    }

    /// Builds the transaction that acknowledges the counterparty's
    /// channel open try.  One proof is generated at the chain's current
    /// sequence, which is then advanced by one; the outer proof height
    /// is the post-increment sequence.  An increment that preceded a
    /// failure is not rolled back.
    pub fn msg_channel_open_ack(
        &self,
        chain: &mut Chain,
        solo_machine_channel_id: &str,
        tendermint_channel_id: &str,
        channel: &Option<Channel>,
        account_number: u64,
        account_sequence: u64,
    ) -> (r: Result<TxRaw, Error>)
        requires
            old(chain).sequence < u64::MAX,
        ensures
            same_chain_config(*final(chain), *old(chain)),
            old(chain).sequence <= final(chain).sequence <= old(chain).sequence + 1,
            r is Ok <==> channel is Some && spec_address_ok(
                self.signing_key@,
                old(chain).account_prefix@,
            ),
            match r {
                Ok(tx) => {
                    &&& channel matches Some(ch)
                    &&& final(chain).sequence == old(chain).sequence + 1
                    &&& tx@ == spec_built_tx(
                        *final(chain),
                        self.signing_key@,
                        seq![
                            spec_channel_open_ack_any(
                                *old(chain),
                                self.signing_key@,
                                solo_machine_channel_id@,
                                tendermint_channel_id@,
                                channel->0@,
                            ),
                        ],
                        encode_utf8(self.memo@),
                        account_number,
                        account_sequence,
                    )
                },
                Err(e) => {
                    ||| (channel is None && e == Error::ChannelNotFound && *final(chain) == *old(
                        chain,
                    ))
                    ||| (channel is Some && !secp256k1_key_ok(self.signing_key@) && e
                        == Error::CryptoFailure && *final(chain) == *old(chain))
                    ||| (channel is Some && secp256k1_key_ok(self.signing_key@)
                        && !spec_address_ok(self.signing_key@, old(chain).account_prefix@) && e
                        == Error::CryptoFailure && final(chain).sequence == old(
                        chain,
                    ).sequence + 1)
                },
            },
    {
        let ghost c0 = *chain;
        let proof_try = get_channel_proof(
            chain,
            self.signing_key.as_slice(),
            chain.port_id.as_str(),
            tendermint_channel_id,
            channel,
        )?;
        chain.increment_sequence();
        let signer = account_address(self.signing_key.as_slice(), chain.account_prefix.as_str())?;
        let message = MsgChannelOpenAck {
            port_id: chain.port_id.as_str().as_bytes_vec(),
            channel_id: solo_machine_channel_id.as_bytes_vec(),
            counterparty_channel_id: tendermint_channel_id.as_bytes_vec(),
            counterparty_version: "ics20-1".as_bytes_vec(),
            proof_try,
            proof_height: Some(Height { revision_number: 0, revision_height: chain.sequence }),
            signer: signer.as_str().as_bytes_vec(),
        };
        let any_message = Any {
            type_url: "/ibc.core.channel.v1.MsgChannelOpenAck".as_bytes_vec(),
            value: encode_msg_channel_open_ack(&message),
        };
        let mut messages: Vec<Any> = Vec::new();
        messages.push(any_message);
        proof {
            assert(message@ == MsgChannelOpenAckV {
                port_id: encode_utf8(c0.port_id@),
                channel_id: encode_utf8(solo_machine_channel_id@),
                counterparty_channel_id: encode_utf8(tendermint_channel_id@),
                counterparty_version: encode_utf8("ics20-1"@),
                proof_try: spec_channel_proof(
                    c0,
                    self.signing_key@,
                    c0.port_id@,
                    tendermint_channel_id@,
                    channel->0@,
                ),
                proof_height: Some(
                    HeightV {
                        revision_number: 0,
                        revision_height: (c0.sequence + 1) as u64,
                    },
                ),
                signer: encode_utf8(
                    spec_account_address(self.signing_key@, c0.account_prefix@),
                ),
            });
            assert(messages.deep_view() =~= seq![
                spec_channel_open_ack_any(
                    c0,
                    self.signing_key@,
                    solo_machine_channel_id@,
                    tendermint_channel_id@,
                    channel->0@,
                ),
            ]);
        }
        self.build(chain, messages, account_number, account_sequence)
    }
}

/// The latest height of the counterparty chain, from its RPC status:
/// the revision number parsed from the network identifier's suffix and
/// the reported latest block height.  A node that is still catching up
/// is rejected, and nothing is mutated.
pub fn get_latest_height(catching_up: bool, network: &str, latest_block_height: u64) -> (r:
    Result<Height, Error>)
    ensures
        match r {
            Ok(h) => !catching_up && h@ == HeightV {
                revision_number: crate::chain::spec_chain_id_version(encode_utf8(network@)),
                revision_height: latest_block_height,
            },
            Err(e) => catching_up && e == Error::NodeCatchingUp,
        },
{
    if catching_up {
        return Err(Error::NodeCatchingUp);
    }
    let network_bytes = network.as_bytes_vec();
    let revision_number = crate::chain::chain_id_version(network_bytes.as_slice());
    Ok(Height { revision_number, revision_height: latest_block_height })
}

} // verus!
