//! End-to-end factory scenarios: client creation, the connection and
//! channel handshake steps, signature verification against the real
//! secp256k1 implementation, and failure behavior.

use cosmos_sdk_proto::prost::Message;
use k256::ecdsa::signature::Verifier;
use ripemd::Digest as _;

use solo_machine::builder::{get_latest_height, TransactionBuilder};
use solo_machine::tendermint::{
    msg_create_tendermint_client, TendermintConsensusState,
};
use solo_machine::chain::{Chain, FeeConfig, SignedDuration};
use solo_machine::error::Error;
use solo_machine::paths::{
    channel_path, client_state_path, connection_path, consensus_state_path,
};
use solo_machine::wire_ibc::{
    Channel, ChannelCounterparty, ConnectionCounterparty, ConnectionEnd, ConnectionVersion,
    Height, MerklePrefix,
};
use solo_machine::wire_solo::{
    encode_channel_state_data, encode_client_state_data, encode_connection_state_data,
    encode_consensus_state_data, encode_sign_bytes, SignBytes,
};
use solo_machine::wire_tx::Any;

fn signing_key() -> Vec<u8> {
    vec![0xAA; 32]
}

fn test_chain(sequence: u64) -> Chain {
    Chain {
        id: "test-1".to_string(),
        grpc_addr: "http://localhost:9090".to_string(),
        rpc_addr: "http://localhost:26657".to_string(),
        account_prefix: "cosmos".to_string(),
        fee: FeeConfig {
            denom: "stake".to_string(),
            amount: 1000,
            gas_limit: 300000,
        },
        trust_level_numerator: 1,
        trust_level_denominator: 3,
        trusting_period: SignedDuration { seconds: 336 * 3600, nanos: 0 },
        max_clock_drift: SignedDuration { seconds: 3, nanos: 0 },
        port_id: "transfer".to_string(),
        diversifier: "solo".to_string(),
        consensus_timestamp: 1000,
        sequence,
    }
}

fn builder() -> TransactionBuilder {
    TransactionBuilder::new(signing_key(), String::new())
}

fn verify_signature(message: &[u8], signature: &[u8]) {
    let key = k256::ecdsa::SigningKey::from_slice(&signing_key()).unwrap();
    let sig = k256::ecdsa::Signature::from_slice(signature).unwrap();
    key.verifying_key().verify(message, &sig).unwrap();
}

fn decode_body(tx: &solo_machine::wire_tx::TxRaw) -> cosmos_sdk_proto::cosmos::tx::v1beta1::TxBody {
    cosmos_sdk_proto::cosmos::tx::v1beta1::TxBody::decode(tx.body_bytes.as_slice()).unwrap()
}

/// Extracts the raw signature from an encoded `TimestampedSignatureData`.
fn proof_signature(proof: &[u8]) -> Vec<u8> {
    let timestamped =
        ibc_proto::ibc::lightclients::solomachine::v3::TimestampedSignatureData::decode(proof)
            .unwrap();
    assert_eq!(timestamped.timestamp, 1000);
    let data = cosmos_sdk_proto::cosmos::tx::signing::v1beta1::signature_descriptor::Data::decode(
        timestamped.signature_data.as_slice(),
    )
    .unwrap();
    match data.sum.unwrap() {
        cosmos_sdk_proto::cosmos::tx::signing::v1beta1::signature_descriptor::data::Sum::Single(
            singl,
        ) => {
            assert_eq!(singl.mode, 0);
            assert_eq!(singl.signature.len(), 64);
            singl.signature
        }
        _ => panic!("expected single signature data"),
    }
}

fn verify_tx_signature(tx: &solo_machine::wire_tx::TxRaw, account_number: u64) {
    assert_eq!(tx.signatures.len(), 1);
    let sign_doc = cosmos_sdk_proto::cosmos::tx::v1beta1::SignDoc {
        body_bytes: tx.body_bytes.clone(),
        auth_info_bytes: tx.auth_info_bytes.clone(),
        chain_id: "test-1".to_string(),
        account_number,
    };
    verify_signature(&sign_doc.encode_to_vec(), &tx.signatures[0]);
}

#[test]
fn create_solo_machine_client_scenario() {
    let chain = test_chain(1);
    let tx = builder()
        .msg_create_solo_machine_client(&chain, 5, 7)
        .unwrap();
    assert_eq!(chain.sequence, 1);

    let body = decode_body(&tx);
    assert_eq!(body.messages.len(), 1);
    assert_eq!(body.messages[0].type_url, "/ibc.core.client.v1.MsgCreateClient");
    let msg = ibc_proto::ibc::core::client::v1::MsgCreateClient::decode(
        body.messages[0].value.as_slice(),
    )
    .unwrap();

    let client_any = msg.client_state.unwrap();
    assert_eq!(
        client_any.type_url,
        "/ibc.lightclients.solomachine.v1.ClientState"
    );
    let client_state = ibc_proto::ibc::lightclients::solomachine::v3::ClientState::decode(
        client_any.value.as_slice(),
    )
    .unwrap();
    assert_eq!(client_state.sequence, 1);
    assert!(!client_state.is_frozen);
    // `allow_update_after_proposal` is field 4, a bool set to true: the
    // trailing two bytes of the encoded client state.
    assert!(client_any.value.ends_with(&[0x20, 0x01]));
    let consensus = client_state.consensus_state.unwrap();
    assert_eq!(consensus.diversifier, "solo");
    assert_eq!(consensus.timestamp, 1000);
    let pk_any = consensus.public_key.unwrap();
    assert_eq!(pk_any.type_url, "/cosmos.crypto.secp256k1.PubKey");
    let pk = cosmos_sdk_proto::cosmos::crypto::secp256k1::PubKey::decode(pk_any.value.as_slice())
        .unwrap();
    assert_eq!(pk.key.len(), 33);
    assert!(pk.key[0] == 2 || pk.key[0] == 3);

    let consensus_any = msg.consensus_state.unwrap();
    assert_eq!(
        consensus_any.type_url,
        "/ibc.lightclients.solomachine.v1.ConsensusState"
    );
    assert!(msg.signer.starts_with("cosmos1"));

    let auth =
        cosmos_sdk_proto::cosmos::tx::v1beta1::AuthInfo::decode(tx.auth_info_bytes.as_slice())
            .unwrap();
    assert_eq!(auth.signer_infos.len(), 1);
    assert_eq!(auth.signer_infos[0].sequence, 7);
    let fee = auth.fee.unwrap();
    assert_eq!(fee.amount[0].denom, "stake");
    assert_eq!(fee.amount[0].amount, "1000");
    assert_eq!(fee.gas_limit, 300000);

    verify_tx_signature(&tx, 5);
}

#[test]
fn deterministic_replay_scenario() {
    let first = builder()
        .msg_create_solo_machine_client(&test_chain(1), 5, 7)
        .unwrap();
    let second = builder()
        .msg_create_solo_machine_client(&test_chain(1), 5, 7)
        .unwrap();
    assert_eq!(first.body_bytes, second.body_bytes);
    assert_eq!(first.auth_info_bytes, second.auth_info_bytes);
    assert_eq!(first.signatures, second.signatures);
}

#[test]
fn connection_open_init_scenario() {
    let chain = test_chain(1);
    let tx = builder()
        .msg_connection_open_init(&chain, "06-solomachine-0", "07-tendermint-0", 5, 7)
        .unwrap();
    let body = decode_body(&tx);
    assert_eq!(
        body.messages[0].type_url,
        "/ibc.core.connection.v1.MsgConnectionOpenInit"
    );
    let msg = ibc_proto::ibc::core::connection::v1::MsgConnectionOpenInit::decode(
        body.messages[0].value.as_slice(),
    )
    .unwrap();
    assert_eq!(msg.client_id, "06-solomachine-0");
    let counterparty = msg.counterparty.unwrap();
    assert_eq!(counterparty.client_id, "07-tendermint-0");
    assert_eq!(counterparty.connection_id, "");
    assert_eq!(counterparty.prefix.unwrap().key_prefix, b"ibc".to_vec());
    let version = msg.version.unwrap();
    assert_eq!(version.identifier, "1");
    assert_eq!(version.features, vec!["ORDER_ORDERED", "ORDER_UNORDERED"]);
    assert_eq!(msg.delay_period, 0);
    verify_tx_signature(&tx, 5);
}

fn tendermint_client_state_any() -> Any {
    Any {
        type_url: b"/ibc.lightclients.tendermint.v1.ClientState".to_vec(),
        value: vec![1, 2, 3],
    }
}

fn tendermint_consensus_state_any() -> Any {
    Any {
        type_url: b"/ibc.lightclients.tendermint.v1.ConsensusState".to_vec(),
        value: vec![4, 5],
    }
}

fn tendermint_connection() -> ConnectionEnd {
    ConnectionEnd {
        client_id: b"06-solomachine-0".to_vec(),
        versions: vec![ConnectionVersion {
            identifier: b"1".to_vec(),
            features: vec![b"ORDER_ORDERED".to_vec(), b"ORDER_UNORDERED".to_vec()],
        }],
        state: 2,
        counterparty: Some(ConnectionCounterparty {
            client_id: b"07-tendermint-0".to_vec(),
            connection_id: b"connection-0".to_vec(),
            prefix: Some(MerklePrefix {
                key_prefix: b"ibc".to_vec(),
            }),
        }),
        delay_period: 0,
    }
}

fn expected_sign_bytes(sequence: u64, data_type: u64, data: Vec<u8>) -> Vec<u8> {
    encode_sign_bytes(&SignBytes {
        sequence,
        timestamp: 1000,
        diversifier: b"solo".to_vec(),
        data_type,
        data,
    })
}

#[test]
fn connection_open_ack_scenario() {
    let mut chain = test_chain(10);
    let tx = builder()
        .msg_connection_open_ack(
            &mut chain,
            "connection-0",
            "07-tendermint-0",
            "connection-1",
            &Some(tendermint_client_state_any()),
            &Some(Height {
                revision_number: 1,
                revision_height: 100,
            }),
            &Some(tendermint_consensus_state_any()),
            &Some(tendermint_connection()),
            5,
            7,
        )
        .unwrap();
    assert_eq!(chain.sequence, 13);

    let body = decode_body(&tx);
    assert_eq!(
        body.messages[0].type_url,
        "/ibc.core.connection.v1.MsgConnectionOpenAck"
    );
    let msg = ibc_proto::ibc::core::connection::v1::MsgConnectionOpenAck::decode(
        body.messages[0].value.as_slice(),
    )
    .unwrap();
    assert_eq!(msg.connection_id, "connection-0");
    assert_eq!(msg.counterparty_connection_id, "connection-1");
    let proof_height = msg.proof_height.unwrap();
    assert_eq!(proof_height.revision_number, 0);
    assert_eq!(proof_height.revision_height, 13);
    let consensus_height = msg.consensus_height.unwrap();
    assert_eq!(consensus_height.revision_number, 1);
    assert_eq!(consensus_height.revision_height, 100);

    // The three proofs sign with sequences 10, 11 and 12, in the order
    // connection, client, consensus.
    let conn_data = encode_connection_state_data(
        &connection_path(b"connection-1"),
        &tendermint_connection(),
    );
    verify_signature(
        &expected_sign_bytes(10, 3, conn_data),
        &proof_signature(&msg.proof_try),
    );

    let client_data = encode_client_state_data(
        &client_state_path(b"07-tendermint-0"),
        &tendermint_client_state_any(),
    );
    verify_signature(
        &expected_sign_bytes(11, 1, client_data),
        &proof_signature(&msg.proof_client),
    );

    let consensus_data = encode_consensus_state_data(
        &consensus_state_path(
            b"07-tendermint-0",
            &Height {
                revision_number: 1,
                revision_height: 100,
            },
        ),
        &tendermint_consensus_state_any(),
    );
    verify_signature(
        &expected_sign_bytes(12, 2, consensus_data),
        &proof_signature(&msg.proof_consensus),
    );

    verify_tx_signature(&tx, 5);
}

#[test]
fn connection_open_ack_missing_pieces() {
    let mut chain = test_chain(10);
    let err = builder()
        .msg_connection_open_ack(
            &mut chain,
            "connection-0",
            "07-tendermint-0",
            "connection-1",
            &None,
            &Some(Height {
                revision_number: 1,
                revision_height: 100,
            }),
            &Some(tendermint_consensus_state_any()),
            &Some(tendermint_connection()),
            5,
            7,
        )
        .unwrap_err();
    assert_eq!(err, Error::ClientNotFound);
    assert_eq!(chain.sequence, 10);

    let err = builder()
        .msg_connection_open_ack(
            &mut chain,
            "connection-0",
            "07-tendermint-0",
            "connection-1",
            &Some(tendermint_client_state_any()),
            &Some(Height {
                revision_number: 1,
                revision_height: 100,
            }),
            &Some(tendermint_consensus_state_any()),
            &None,
            5,
            7,
        )
        .unwrap_err();
    assert_eq!(err, Error::ConnectionNotFound);
    assert_eq!(chain.sequence, 10);

    // A consensus state missing at the latest height is only noticed
    // after two proofs have burnt their sequences.
    let err = builder()
        .msg_connection_open_ack(
            &mut chain,
            "connection-0",
            "07-tendermint-0",
            "connection-1",
            &Some(tendermint_client_state_any()),
            &Some(Height {
                revision_number: 1,
                revision_height: 100,
            }),
            &None,
            &Some(tendermint_connection()),
            5,
            7,
        )
        .unwrap_err();
    assert_eq!(err, Error::ConsensusStateNotFound);
    assert_eq!(chain.sequence, 12);

    // A client state without a latest height is a precondition failure.
    let mut chain = test_chain(10);
    let err = builder()
        .msg_connection_open_ack(
            &mut chain,
            "connection-0",
            "07-tendermint-0",
            "connection-1",
            &Some(tendermint_client_state_any()),
            &None,
            &Some(tendermint_consensus_state_any()),
            &Some(tendermint_connection()),
            5,
            7,
        )
        .unwrap_err();
    assert_eq!(err, Error::PreconditionFailure);
    assert_eq!(chain.sequence, 12);
}

#[test]
fn channel_open_init_scenario() {
    let chain = test_chain(1);
    let tx = builder()
        .msg_channel_open_init(&chain, "connection-0", 5, 7)
        .unwrap();
    let body = decode_body(&tx);
    assert_eq!(
        body.messages[0].type_url,
        "/ibc.core.channel.v1.MsgChannelOpenInit"
    );
    let msg = ibc_proto::ibc::core::channel::v1::MsgChannelOpenInit::decode(
        body.messages[0].value.as_slice(),
    )
    .unwrap();
    assert_eq!(msg.port_id, "transfer");
    let channel = msg.channel.unwrap();
    assert_eq!(channel.state, 1);
    assert_eq!(channel.ordering, 2);
    assert_eq!(channel.connection_hops, vec!["connection-0"]);
    assert_eq!(channel.version, "ics20-1");
    let counterparty = channel.counterparty.unwrap();
    assert_eq!(counterparty.port_id, "transfer");
    assert_eq!(counterparty.channel_id, "");
    verify_tx_signature(&tx, 5);
}

fn tendermint_channel() -> Channel {
    Channel {
        state: 2,
        ordering: 2,
        counterparty: Some(ChannelCounterparty {
            port_id: b"transfer".to_vec(),
            channel_id: b"channel-0".to_vec(),
        }),
        connection_hops: vec![b"connection-1".to_vec()],
        version: b"ics20-1".to_vec(),
    }
}

#[test]
fn channel_open_ack_scenario() {
    let mut chain = test_chain(20);
    let tx = builder()
        .msg_channel_open_ack(&mut chain, "channel-0", "channel-1", &Some(tendermint_channel()), 5, 7)
        .unwrap();
    assert_eq!(chain.sequence, 21);

    let body = decode_body(&tx);
    assert_eq!(
        body.messages[0].type_url,
        "/ibc.core.channel.v1.MsgChannelOpenAck"
    );
    let msg = ibc_proto::ibc::core::channel::v1::MsgChannelOpenAck::decode(
        body.messages[0].value.as_slice(),
    )
    .unwrap();
    assert_eq!(msg.port_id, "transfer");
    assert_eq!(msg.channel_id, "channel-0");
    assert_eq!(msg.counterparty_channel_id, "channel-1");
    assert_eq!(msg.counterparty_version, "ics20-1");
    let proof_height = msg.proof_height.unwrap();
    assert_eq!(proof_height.revision_number, 0);
    assert_eq!(proof_height.revision_height, 21);

    // The proof signs with sequence 20 over channel state data.
    let channel_data = encode_channel_state_data(
        &channel_path(b"transfer", b"channel-1"),
        &tendermint_channel(),
    );
    verify_signature(
        &expected_sign_bytes(20, 4, channel_data),
        &proof_signature(&msg.proof_try),
    );
    verify_tx_signature(&tx, 5);
}

#[test]
fn channel_open_ack_missing_channel() {
    let mut chain = test_chain(20);
    let err = builder()
        .msg_channel_open_ack(&mut chain, "channel-0", "channel-1", &None, 5, 7)
        .unwrap_err();
    assert_eq!(err, Error::ChannelNotFound);
    assert_eq!(chain.sequence, 20);
}

#[test]
fn latest_height_rejects_catching_up_node() {
    let err = get_latest_height(true, "test-1", 50).unwrap_err();
    assert_eq!(err, Error::NodeCatchingUp);
}

#[test]
fn latest_height_parses_revision_from_network_id() {
    let height = get_latest_height(false, "test-7", 88).unwrap();
    assert_eq!(height.revision_number, 7);
    assert_eq!(height.revision_height, 88);

    let height = get_latest_height(false, "nodash", 1).unwrap();
    assert_eq!(height.revision_number, 0);

    let height = get_latest_height(false, "multi-9-12", 5).unwrap();
    assert_eq!(height.revision_number, 12);

    let height = get_latest_height(false, "trailing-", 5).unwrap();
    assert_eq!(height.revision_number, 0);

    let height = get_latest_height(false, "x-99999999999999999999999999", 5).unwrap();
    assert_eq!(height.revision_number, 0);

    let height = get_latest_height(false, "x-12ab", 5).unwrap();
    assert_eq!(height.revision_number, 0);
}

#[test]
fn account_address_is_hash_of_public_key() {
    let address =
        solo_machine::crypto::account_address(&signing_key(), "cosmos").unwrap();
    assert!(address.starts_with("cosmos1"));

    let (hrp, data) = bech32::decode(&address).unwrap();
    assert_eq!(hrp.as_str(), "cosmos");

    // Recompute the hash independently of the library's wrappers.
    let key = k256::ecdsa::SigningKey::from_slice(&signing_key()).unwrap();
    let compressed = key.verifying_key().to_sec1_point(true);
    let sha = sha2::Sha256::digest(compressed.as_bytes());
    let hash = ripemd::Ripemd160::digest(sha);
    assert_eq!(data, hash.to_vec());
}

#[test]
fn invalid_signing_key_is_a_crypto_failure() {
    // The zero scalar is not a valid secp256k1 key.
    let bad = TransactionBuilder::new(vec![0; 32], String::new());
    let err = bad
        .msg_create_solo_machine_client(&test_chain(1), 5, 7)
        .unwrap_err();
    assert_eq!(err, Error::CryptoFailure);
}

fn header_consensus_state() -> TendermintConsensusState {
    TendermintConsensusState {
        timestamp_seconds: 170,
        timestamp_nanos: 5,
        root_hash: vec![1; 32],
        next_validators_hash: vec![2; 32],
    }
}

#[test]
fn create_tendermint_client_scenario() {
    let chain = test_chain(1);
    let unbonding = SignedDuration {
        seconds: 1814400,
        nanos: 0,
    };
    let (client, consensus) = msg_create_tendermint_client(
        &chain,
        unbonding,
        false,
        "test-1",
        128,
        header_consensus_state(),
    )
    .unwrap();
    assert_eq!(client.chain_id, "test-1");
    assert_eq!(client.trust_level_numerator, 1);
    assert_eq!(client.trust_level_denominator, 3);
    assert_eq!(client.trusting_period.seconds, 336 * 3600);
    assert_eq!(client.unbonding_period.seconds, 1814400);
    assert_eq!(client.frozen_height.revision_number, 0);
    assert_eq!(client.frozen_height.revision_height, 0);
    assert_eq!(client.latest_height.revision_number, 1);
    assert_eq!(client.latest_height.revision_height, 128);
    assert_eq!(
        client.upgrade_path,
        vec!["upgrade".to_string(), "upgradedIBCState".to_string()]
    );
    assert!(!client.allow_update_after_expiry);
    assert!(!client.allow_update_after_misbehaviour);
    assert_eq!(consensus.root_hash, vec![1; 32]);
    assert_eq!(consensus.next_validators_hash, vec![2; 32]);

    // The canonical ICS-23 proof specifications: IAVL store first,
    // Tendermint store second.
    assert_eq!(client.proof_specs.len(), 2);
    let iavl = &client.proof_specs[0];
    let iavl_leaf = iavl.leaf_spec.as_ref().unwrap();
    assert_eq!(iavl_leaf.hash, 1);
    assert_eq!(iavl_leaf.prehash_key, 0);
    assert_eq!(iavl_leaf.prehash_value, 1);
    assert_eq!(iavl_leaf.length, 1);
    assert_eq!(iavl_leaf.prefix, vec![0]);
    let iavl_inner = iavl.inner_spec.as_ref().unwrap();
    assert_eq!(iavl_inner.child_order, vec![0, 1]);
    assert_eq!(iavl_inner.child_size, 33);
    assert_eq!(iavl_inner.min_prefix_length, 4);
    assert_eq!(iavl_inner.max_prefix_length, 12);
    assert!(iavl_inner.empty_child.is_empty());
    assert_eq!(iavl_inner.hash, 1);
    let tm = &client.proof_specs[1];
    let tm_inner = tm.inner_spec.as_ref().unwrap();
    assert_eq!(tm_inner.child_size, 32);
    assert_eq!(tm_inner.min_prefix_length, 1);
    assert_eq!(tm_inner.max_prefix_length, 1);

    let err = msg_create_tendermint_client(
        &chain,
        unbonding,
        true,
        "test-1",
        128,
        header_consensus_state(),
    )
    .unwrap_err();
    assert_eq!(err, Error::NodeCatchingUp);
}

#[test]
fn invalid_key_burns_no_sequence() {
    // The zero scalar is rejected before any proof is signed, so the
    // chain sequence is untouched by either ack factory.
    let bad = TransactionBuilder::new(vec![0; 32], String::new());

    let mut chain = test_chain(10);
    let err = bad
        .msg_connection_open_ack(
            &mut chain,
            "connection-0",
            "07-tendermint-0",
            "connection-1",
            &Some(tendermint_client_state_any()),
            &Some(Height {
                revision_number: 1,
                revision_height: 100,
            }),
            &Some(tendermint_consensus_state_any()),
            &Some(tendermint_connection()),
            5,
            7,
        )
        .unwrap_err();
    assert_eq!(err, Error::CryptoFailure);
    assert_eq!(chain.sequence, 10);

    let mut chain = test_chain(20);
    let err = bad
        .msg_channel_open_ack(
            &mut chain,
            "channel-0",
            "channel-1",
            &Some(tendermint_channel()),
            5,
            7,
        )
        .unwrap_err();
    assert_eq!(err, Error::CryptoFailure);
    assert_eq!(chain.sequence, 20);
}
