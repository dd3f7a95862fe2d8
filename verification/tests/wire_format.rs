//! The byte output of every encoder, checked against an independent
//! protobuf implementation, and the encode-after-decode round trip.

use cosmos_sdk_proto::prost::Message;

use solo_machine::account::get_account_details;
use solo_machine::encoding::dec_string_bytes;
use solo_machine::wire_ibc::{
    encode_channel, encode_connection_end, encode_height, encode_msg_channel_open_ack,
    encode_msg_channel_open_init, encode_msg_connection_open_ack, encode_msg_connection_open_init,
    encode_msg_create_client, Channel, ChannelCounterparty, ConnectionCounterparty, ConnectionEnd,
    ConnectionVersion, Height, MerklePrefix, MsgChannelOpenAck, MsgChannelOpenInit,
    MsgConnectionOpenAck, MsgConnectionOpenInit, MsgCreateClient,
};
use solo_machine::wire_solo::{
    encode_sign_bytes, encode_single_signature_data, encode_solo_machine_client_state,
    encode_solo_machine_consensus_state, encode_timestamped_signature_data, SignBytes,
    SoloMachineClientState, SoloMachineConsensusState, TimestampedSignatureData,
};
use solo_machine::wire_tx::{
    encode_auth_info, encode_coin, encode_sign_doc, encode_tx_body, encode_tx_raw, Any, AuthInfo,
    Coin, Fee, ModeInfo, SignDoc, SignerInfo, TxBody, TxRaw,
};

fn proto_any(type_url: &str, value: Vec<u8>) -> cosmos_sdk_proto::Any {
    cosmos_sdk_proto::Any {
        type_url: type_url.to_string(),
        value,
    }
}

#[test]
fn tx_body_encoding_matches_prost() {
    let ours = TxBody {
        messages: vec![Any {
            type_url: b"/example.Msg".to_vec(),
            value: vec![1, 2, 3],
        }],
        memo: b"hello".to_vec(),
        timeout_height: 0,
        extension_options: Vec::new(),
        non_critical_extension_options: Vec::new(),
    };
    let theirs = cosmos_sdk_proto::cosmos::tx::v1beta1::TxBody {
        messages: vec![proto_any("/example.Msg", vec![1, 2, 3])],
        memo: "hello".to_string(),
        timeout_height: 0,
        extension_options: Vec::new(),
        non_critical_extension_options: Vec::new(),
    };
    assert_eq!(encode_tx_body(&ours), theirs.encode_to_vec());
}

#[test]
fn empty_tx_body_encoding_is_valid() {
    let ours = TxBody {
        messages: Vec::new(),
        memo: Vec::new(),
        timeout_height: 0,
        extension_options: Vec::new(),
        non_critical_extension_options: Vec::new(),
    };
    let bytes = encode_tx_body(&ours);
    assert!(bytes.is_empty());
    let decoded = cosmos_sdk_proto::cosmos::tx::v1beta1::TxBody::decode(bytes.as_slice()).unwrap();
    assert!(decoded.messages.is_empty());
    assert!(decoded.memo.is_empty());
}

#[test]
fn auth_info_encoding_matches_prost() {
    let ours = AuthInfo {
        signer_infos: vec![SignerInfo {
            public_key: Some(Any {
                type_url: b"/cosmos.crypto.secp256k1.PubKey".to_vec(),
                value: vec![10, 3, 9, 9, 9],
            }),
            mode_info: Some(ModeInfo { mode: 1 }),
            sequence: 42,
        }],
        fee: Some(Fee {
            amount: vec![Coin {
                denom: b"stake".to_vec(),
                amount: b"1000".to_vec(),
            }],
            gas_limit: 300000,
            payer: Vec::new(),
            granter: Vec::new(),
        }),
    };
    let theirs = cosmos_sdk_proto::cosmos::tx::v1beta1::AuthInfo {
        signer_infos: vec![cosmos_sdk_proto::cosmos::tx::v1beta1::SignerInfo {
            public_key: Some(proto_any("/cosmos.crypto.secp256k1.PubKey", vec![10, 3, 9, 9, 9])),
            mode_info: Some(cosmos_sdk_proto::cosmos::tx::v1beta1::ModeInfo {
                sum: Some(cosmos_sdk_proto::cosmos::tx::v1beta1::mode_info::Sum::Single(
                    cosmos_sdk_proto::cosmos::tx::v1beta1::mode_info::Single { mode: 1 },
                )),
            }),
            sequence: 42,
        }],
        fee: Some(cosmos_sdk_proto::cosmos::tx::v1beta1::Fee {
            amount: vec![cosmos_sdk_proto::cosmos::base::v1beta1::Coin {
                denom: "stake".to_string(),
                amount: "1000".to_string(),
            }],
            gas_limit: 300000,
            payer: String::new(),
            granter: String::new(),
        }),
        tip: None,
    };
    assert_eq!(encode_auth_info(&ours), theirs.encode_to_vec());
}

#[test]
fn sign_doc_encoding_matches_prost() {
    let ours = SignDoc {
        body_bytes: vec![1, 2],
        auth_info_bytes: vec![3],
        chain_id: b"test-1".to_vec(),
        account_number: 9,
    };
    let theirs = cosmos_sdk_proto::cosmos::tx::v1beta1::SignDoc {
        body_bytes: vec![1, 2],
        auth_info_bytes: vec![3],
        chain_id: "test-1".to_string(),
        account_number: 9,
    };
    assert_eq!(encode_sign_doc(&ours), theirs.encode_to_vec());
}

#[test]
fn tx_raw_encoding_matches_prost() {
    let ours = TxRaw {
        body_bytes: vec![1, 2],
        auth_info_bytes: vec![3],
        signatures: vec![vec![7; 64], vec![8; 64]],
    };
    let theirs = cosmos_sdk_proto::cosmos::tx::v1beta1::TxRaw {
        body_bytes: vec![1, 2],
        auth_info_bytes: vec![3],
        signatures: vec![vec![7; 64], vec![8; 64]],
    };
    assert_eq!(encode_tx_raw(&ours), theirs.encode_to_vec());
}

#[test]
fn coin_encoding_matches_prost() {
    let ours = Coin {
        denom: b"stake".to_vec(),
        amount: dec_string_bytes(1000),
    };
    let theirs = cosmos_sdk_proto::cosmos::base::v1beta1::Coin {
        denom: "stake".to_string(),
        amount: "1000".to_string(),
    };
    assert_eq!(encode_coin(&ours), theirs.encode_to_vec());
}

#[test]
fn decimal_rendering_is_exact() {
    assert_eq!(dec_string_bytes(0), b"0".to_vec());
    assert_eq!(dec_string_bytes(7), b"7".to_vec());
    assert_eq!(dec_string_bytes(1000), b"1000".to_vec());
    assert_eq!(
        dec_string_bytes(u64::MAX),
        b"18446744073709551615".to_vec()
    );
}

#[test]
fn sign_bytes_encoding_is_exact() {
    // Hand-computed canonical proto3 bytes:
    // 08 0a | 10 e8 07 | 1a 04 "solo" | 20 03 | 2a 03 01 02 03
    let ours = SignBytes {
        sequence: 10,
        timestamp: 1000,
        diversifier: b"solo".to_vec(),
        data_type: 3,
        data: vec![1, 2, 3],
    };
    let expected: Vec<u8> = vec![
        0x08, 0x0a, 0x10, 0xe8, 0x07, 0x1a, 0x04, b's', b'o', b'l', b'o', 0x20, 0x03, 0x2a,
        0x03, 0x01, 0x02, 0x03,
    ];
    assert_eq!(encode_sign_bytes(&ours), expected);
}

#[test]
fn sign_bytes_varint_boundaries_are_exact() {
    // Only the sequence field is set; every other field takes its
    // default and is omitted.
    let cases: Vec<(u64, Vec<u8>)> = vec![
        (0, vec![]),
        (1, vec![0x08, 0x01]),
        (127, vec![0x08, 0x7f]),
        (128, vec![0x08, 0x80, 0x01]),
        (300, vec![0x08, 0xac, 0x02]),
        (
            u64::MAX,
            vec![0x08, 0xff, 0xff, 0xff, 0xff, 0xff, 0xff, 0xff, 0xff, 0xff, 0x01],
        ),
    ];
    for (sequence, expected) in cases {
        let ours = SignBytes {
            sequence,
            timestamp: 0,
            diversifier: Vec::new(),
            data_type: 0,
            data: Vec::new(),
        };
        assert_eq!(encode_sign_bytes(&ours), expected);
    }
}

#[test]
fn timestamped_signature_data_matches_prost() {
    let signature_data = encode_single_signature_data(0, &vec![9; 64]);
    let expected_inner =
        cosmos_sdk_proto::cosmos::tx::signing::v1beta1::signature_descriptor::Data {
            sum: Some(
                cosmos_sdk_proto::cosmos::tx::signing::v1beta1::signature_descriptor::data::Sum::Single(
                    cosmos_sdk_proto::cosmos::tx::signing::v1beta1::signature_descriptor::data::Single {
                        mode: 0,
                        signature: vec![9; 64],
                    },
                ),
            ),
        };
    assert_eq!(signature_data, expected_inner.encode_to_vec());
    let ours = TimestampedSignatureData {
        signature_data: signature_data.clone(),
        timestamp: 1000,
    };
    let theirs = ibc_proto::ibc::lightclients::solomachine::v3::TimestampedSignatureData {
        signature_data,
        timestamp: 1000,
    };
    assert_eq!(
        encode_timestamped_signature_data(&ours),
        theirs.encode_to_vec()
    );
}

#[test]
fn solo_machine_states_match_prost() {
    let pk = proto_any("/cosmos.crypto.secp256k1.PubKey", vec![10, 2, 5, 6]);
    let ours_consensus = SoloMachineConsensusState {
        public_key: Some(Any {
            type_url: b"/cosmos.crypto.secp256k1.PubKey".to_vec(),
            value: vec![10, 2, 5, 6],
        }),
        diversifier: b"solo".to_vec(),
        timestamp: 1000,
    };
    let theirs_consensus = ibc_proto::ibc::lightclients::solomachine::v3::ConsensusState {
        public_key: Some(pk),
        diversifier: "solo".to_string(),
        timestamp: 1000,
    };
    assert_eq!(
        encode_solo_machine_consensus_state(&ours_consensus),
        theirs_consensus.encode_to_vec()
    );

    let ours_client = SoloMachineClientState {
        sequence: 1,
        frozen_sequence: 0,
        consensus_state: Some(ours_consensus),
        allow_update_after_proposal: true,
    };
    // The independent implementation carries the first three fields;
    // `allow_update_after_proposal` is field 4, a bool, encoded as the
    // trailing two bytes `20 01`.
    let theirs_client = ibc_proto::ibc::lightclients::solomachine::v3::ClientState {
        sequence: 1,
        is_frozen: false,
        consensus_state: Some(theirs_consensus),
    };
    let mut expected = theirs_client.encode_to_vec();
    expected.extend_from_slice(&[0x20, 0x01]);
    assert_eq!(encode_solo_machine_client_state(&ours_client), expected);
}

fn ours_connection_end() -> ConnectionEnd {
    ConnectionEnd {
        client_id: b"07-tendermint-0".to_vec(),
        versions: vec![ConnectionVersion {
            identifier: b"1".to_vec(),
            features: vec![b"ORDER_ORDERED".to_vec(), b"ORDER_UNORDERED".to_vec()],
        }],
        state: 2,
        counterparty: Some(ConnectionCounterparty {
            client_id: b"06-solomachine-0".to_vec(),
            connection_id: b"connection-0".to_vec(),
            prefix: Some(MerklePrefix {
                key_prefix: b"ibc".to_vec(),
            }),
        }),
        delay_period: 0,
    }
}

fn theirs_connection_end() -> ibc_proto::ibc::core::connection::v1::ConnectionEnd {
    ibc_proto::ibc::core::connection::v1::ConnectionEnd {
        client_id: "07-tendermint-0".to_string(),
        versions: vec![ibc_proto::ibc::core::connection::v1::Version {
            identifier: "1".to_string(),
            features: vec!["ORDER_ORDERED".to_string(), "ORDER_UNORDERED".to_string()],
        }],
        state: 2,
        counterparty: Some(ibc_proto::ibc::core::connection::v1::Counterparty {
            client_id: "06-solomachine-0".to_string(),
            connection_id: "connection-0".to_string(),
            prefix: Some(ibc_proto::ibc::core::commitment::v1::MerklePrefix {
                key_prefix: b"ibc".to_vec(),
            }),
        }),
        delay_period: 0,
    }
}

#[test]
fn connection_end_encoding_matches_prost() {
    assert_eq!(
        encode_connection_end(&ours_connection_end()),
        theirs_connection_end().encode_to_vec()
    );
}

#[test]
fn channel_encoding_matches_prost() {
    let ours = Channel {
        state: 1,
        ordering: 2,
        counterparty: Some(ChannelCounterparty {
            port_id: b"transfer".to_vec(),
            channel_id: String::new().into_bytes(),
        }),
        connection_hops: vec![b"connection-0".to_vec()],
        version: b"ics20-1".to_vec(),
    };
    let theirs = ibc_proto::ibc::core::channel::v1::Channel {
        state: 1,
        ordering: 2,
        counterparty: Some(ibc_proto::ibc::core::channel::v1::Counterparty {
            port_id: "transfer".to_string(),
            channel_id: String::new(),
        }),
        connection_hops: vec!["connection-0".to_string()],
        version: "ics20-1".to_string(),
        upgrade_sequence: 0,
    };
    assert_eq!(encode_channel(&ours), theirs.encode_to_vec());
}

#[test]
fn height_encoding_matches_prost() {
    for (rn, rh) in [(0u64, 13u64), (1, 100), (0, 0)] {
        let ours = Height {
            revision_number: rn,
            revision_height: rh,
        };
        let theirs = ibc_proto::ibc::core::client::v1::Height {
            revision_number: rn,
            revision_height: rh,
        };
        assert_eq!(encode_height(&ours), theirs.encode_to_vec());
    }
}

#[test]
fn handshake_messages_match_prost() {
    let ours_init = MsgConnectionOpenInit {
        client_id: b"06-solomachine-0".to_vec(),
        counterparty: Some(ConnectionCounterparty {
            client_id: b"07-tendermint-0".to_vec(),
            connection_id: Vec::new(),
            prefix: Some(MerklePrefix {
                key_prefix: b"ibc".to_vec(),
            }),
        }),
        version: Some(ConnectionVersion {
            identifier: b"1".to_vec(),
            features: vec![b"ORDER_ORDERED".to_vec(), b"ORDER_UNORDERED".to_vec()],
        }),
        delay_period: 0,
        signer: b"cosmos1abc".to_vec(),
    };
    let theirs_init = ibc_proto::ibc::core::connection::v1::MsgConnectionOpenInit {
        client_id: "06-solomachine-0".to_string(),
        counterparty: Some(ibc_proto::ibc::core::connection::v1::Counterparty {
            client_id: "07-tendermint-0".to_string(),
            connection_id: String::new(),
            prefix: Some(ibc_proto::ibc::core::commitment::v1::MerklePrefix {
                key_prefix: b"ibc".to_vec(),
            }),
        }),
        version: Some(ibc_proto::ibc::core::connection::v1::Version {
            identifier: "1".to_string(),
            features: vec!["ORDER_ORDERED".to_string(), "ORDER_UNORDERED".to_string()],
        }),
        delay_period: 0,
        signer: "cosmos1abc".to_string(),
    };
    assert_eq!(
        encode_msg_connection_open_init(&ours_init),
        theirs_init.encode_to_vec()
    );

    let ours_ack = MsgConnectionOpenAck {
        connection_id: b"connection-0".to_vec(),
        counterparty_connection_id: b"connection-1".to_vec(),
        version: Some(ConnectionVersion {
            identifier: b"1".to_vec(),
            features: vec![b"ORDER_ORDERED".to_vec(), b"ORDER_UNORDERED".to_vec()],
        }),
        client_state: Some(Any {
            type_url: b"/x.Cs".to_vec(),
            value: vec![1],
        }),
        proof_height: Some(Height {
            revision_number: 0,
            revision_height: 13,
        }),
        proof_try: vec![1, 2],
        proof_client: vec![3],
        proof_consensus: vec![4, 5, 6],
        consensus_height: Some(Height {
            revision_number: 1,
            revision_height: 100,
        }),
        signer: b"cosmos1abc".to_vec(),
    };
    let theirs_ack = ibc_proto::ibc::core::connection::v1::MsgConnectionOpenAck {
        connection_id: "connection-0".to_string(),
        counterparty_connection_id: "connection-1".to_string(),
        version: Some(ibc_proto::ibc::core::connection::v1::Version {
            identifier: "1".to_string(),
            features: vec!["ORDER_ORDERED".to_string(), "ORDER_UNORDERED".to_string()],
        }),
        client_state: Some(proto_any("/x.Cs", vec![1])),
        proof_height: Some(ibc_proto::ibc::core::client::v1::Height {
            revision_number: 0,
            revision_height: 13,
        }),
        proof_try: vec![1, 2],
        proof_client: vec![3],
        proof_consensus: vec![4, 5, 6],
        consensus_height: Some(ibc_proto::ibc::core::client::v1::Height {
            revision_number: 1,
            revision_height: 100,
        }),
        signer: "cosmos1abc".to_string(),
        host_consensus_state_proof: Vec::new(),
    };
    assert_eq!(
        encode_msg_connection_open_ack(&ours_ack),
        theirs_ack.encode_to_vec()
    );

    let ours_chan_init = MsgChannelOpenInit {
        port_id: b"transfer".to_vec(),
        channel: Some(Channel {
            state: 1,
            ordering: 2,
            counterparty: Some(ChannelCounterparty {
                port_id: b"transfer".to_vec(),
                channel_id: Vec::new(),
            }),
            connection_hops: vec![b"connection-0".to_vec()],
            version: b"ics20-1".to_vec(),
        }),
        signer: b"cosmos1abc".to_vec(),
    };
    let theirs_chan_init = ibc_proto::ibc::core::channel::v1::MsgChannelOpenInit {
        port_id: "transfer".to_string(),
        channel: Some(ibc_proto::ibc::core::channel::v1::Channel {
            state: 1,
            ordering: 2,
            counterparty: Some(ibc_proto::ibc::core::channel::v1::Counterparty {
                port_id: "transfer".to_string(),
                channel_id: String::new(),
            }),
            connection_hops: vec!["connection-0".to_string()],
            version: "ics20-1".to_string(),
            upgrade_sequence: 0,
        }),
        signer: "cosmos1abc".to_string(),
    };
    assert_eq!(
        encode_msg_channel_open_init(&ours_chan_init),
        theirs_chan_init.encode_to_vec()
    );

    let ours_chan_ack = MsgChannelOpenAck {
        port_id: b"transfer".to_vec(),
        channel_id: b"channel-0".to_vec(),
        counterparty_channel_id: b"channel-1".to_vec(),
        counterparty_version: b"ics20-1".to_vec(),
        proof_try: vec![9, 9],
        proof_height: Some(Height {
            revision_number: 0,
            revision_height: 21,
        }),
        signer: b"cosmos1abc".to_vec(),
    };
    let theirs_chan_ack = ibc_proto::ibc::core::channel::v1::MsgChannelOpenAck {
        port_id: "transfer".to_string(),
        channel_id: "channel-0".to_string(),
        counterparty_channel_id: "channel-1".to_string(),
        counterparty_version: "ics20-1".to_string(),
        proof_try: vec![9, 9],
        proof_height: Some(ibc_proto::ibc::core::client::v1::Height {
            revision_number: 0,
            revision_height: 21,
        }),
        signer: "cosmos1abc".to_string(),
    };
    assert_eq!(
        encode_msg_channel_open_ack(&ours_chan_ack),
        theirs_chan_ack.encode_to_vec()
    );

    let ours_create = MsgCreateClient {
        client_state: Some(Any {
            type_url: b"/x.Cs".to_vec(),
            value: vec![1],
        }),
        consensus_state: Some(Any {
            type_url: b"/x.Cons".to_vec(),
            value: vec![2],
        }),
        signer: b"cosmos1abc".to_vec(),
    };
    let theirs_create = ibc_proto::ibc::core::client::v1::MsgCreateClient {
        client_state: Some(proto_any("/x.Cs", vec![1])),
        consensus_state: Some(proto_any("/x.Cons", vec![2])),
        signer: "cosmos1abc".to_string(),
    };
    assert_eq!(
        encode_msg_create_client(&ours_create),
        theirs_create.encode_to_vec()
    );
}

#[test]
fn encode_after_decode_is_identity() {
    let body = encode_tx_body(&TxBody {
        messages: vec![Any {
            type_url: b"/example.Msg".to_vec(),
            value: vec![1, 2, 3],
        }],
        memo: b"m".to_vec(),
        timeout_height: 0,
        extension_options: Vec::new(),
        non_critical_extension_options: Vec::new(),
    });
    let decoded = cosmos_sdk_proto::cosmos::tx::v1beta1::TxBody::decode(body.as_slice()).unwrap();
    assert_eq!(decoded.encode_to_vec(), body);

    let raw = encode_tx_raw(&TxRaw {
        body_bytes: vec![1],
        auth_info_bytes: vec![2, 2],
        signatures: vec![vec![3; 64]],
    });
    let decoded = cosmos_sdk_proto::cosmos::tx::v1beta1::TxRaw::decode(raw.as_slice()).unwrap();
    assert_eq!(decoded.encode_to_vec(), raw);

    let end = encode_connection_end(&ours_connection_end());
    let decoded =
        ibc_proto::ibc::core::connection::v1::ConnectionEnd::decode(end.as_slice()).unwrap();
    assert_eq!(decoded.encode_to_vec(), end);
}

#[test]
fn account_details_decode() {
    let account = cosmos_sdk_proto::cosmos::auth::v1beta1::BaseAccount {
        address: "cosmos1abcdef".to_string(),
        pub_key: Some(proto_any("/cosmos.crypto.secp256k1.PubKey", vec![10, 2, 1, 2])),
        account_number: 17,
        sequence: 42,
    };
    assert_eq!(
        get_account_details(&account.encode_to_vec()).unwrap(),
        (17, 42)
    );

    let bare = cosmos_sdk_proto::cosmos::auth::v1beta1::BaseAccount {
        address: String::new(),
        pub_key: None,
        account_number: 300,
        sequence: 0,
    };
    assert_eq!(
        get_account_details(&bare.encode_to_vec()).unwrap(),
        (300, 0)
    );

    // All fields at their defaults encode to nothing at all.
    assert_eq!(get_account_details(&[]).unwrap(), (0, 0));

    // A truncated length prefix is rejected.
    assert!(get_account_details(&[0x0a, 0x05, 0x01]).is_err());
}
