//! Solo-machine light-client messages: client and consensus state, the
//! `SignBytes` proof preimage, the state-data envelopes a proof attests
//! to, and the emitted `TimestampedSignatureData`.

use vstd::prelude::*;

use crate::encoding::{
    field_bool, field_bytes, field_opt, field_u64, len_prefixed, put_bool_field, put_bytes_field,
    put_len_prefixed, put_u64_field,
};
use crate::wire_ibc::{encode_channel, encode_connection_end, Channel, ChannelV, ConnectionEnd, ConnectionEndV};
use crate::wire_tx::{encode_any, spec_encode_any, Any, AnyV};

verus! {

/// `DataType` tag of a client-state proof.
pub const DATA_TYPE_CLIENT_STATE: u64 = 1;

/// `DataType` tag of a consensus-state proof.
pub const DATA_TYPE_CONSENSUS_STATE: u64 = 2;

/// `DataType` tag of a connection-state proof.
pub const DATA_TYPE_CONNECTION_STATE: u64 = 3;

/// `DataType` tag of a channel-state proof.
pub const DATA_TYPE_CHANNEL_STATE: u64 = 4;

/// The consensus "state" of a solo machine: its public key, the
/// diversifier and the frozen consensus timestamp.
#[derive(Clone, Debug)]
pub struct SoloMachineConsensusState {
    pub public_key: Option<Any>,
    pub diversifier: Vec<u8>,
    pub timestamp: u64,
}

pub ghost struct SoloMachineConsensusStateV {
    pub public_key: Option<AnyV>,
    pub diversifier: Seq<u8>,
    pub timestamp: u64,
}

impl View for SoloMachineConsensusState {
    type V = SoloMachineConsensusStateV;

    open spec fn view(&self) -> SoloMachineConsensusStateV {
        SoloMachineConsensusStateV {
            public_key: self.public_key.deep_view(),
            diversifier: self.diversifier@,
            timestamp: self.timestamp,
        }
    }
}

impl DeepView for SoloMachineConsensusState {
    type V = SoloMachineConsensusStateV;

    open spec fn deep_view(&self) -> SoloMachineConsensusStateV {
        self@
    }
}

pub open spec fn spec_encode_solo_machine_consensus_state(
    m: SoloMachineConsensusStateV,
) -> Seq<u8> {
    field_opt(
        1,
        match m.public_key {
            Some(a) => Some(spec_encode_any(a)),
            None => None,
        },
    ) + field_bytes(2, m.diversifier) + field_u64(3, m.timestamp)
}

pub fn encode_solo_machine_consensus_state(m: &SoloMachineConsensusState) -> (r: Vec<u8>)
    ensures
        r@ == spec_encode_solo_machine_consensus_state(m@),
{
    let mut v: Vec<u8> = Vec::new();
    match &m.public_key {
        Some(a) => {
            let e = encode_any(a);
            put_len_prefixed(&mut v, 1, e.as_slice());
        },
        None => {},
    }
    put_bytes_field(&mut v, 2, m.diversifier.as_slice());
    put_u64_field(&mut v, 3, m.timestamp);
    proof {
        assert(v@ =~= spec_encode_solo_machine_consensus_state(m@));
    }
    v
}

/// The client state of a solo machine: its signing sequence and the
/// consensus state the counterparty verifies against.
#[derive(Clone, Debug)]
pub struct SoloMachineClientState {
    pub sequence: u64,
    pub frozen_sequence: u64,
    pub consensus_state: Option<SoloMachineConsensusState>,
    pub allow_update_after_proposal: bool,
}

pub ghost struct SoloMachineClientStateV {
    pub sequence: u64,
    pub frozen_sequence: u64,
    pub consensus_state: Option<SoloMachineConsensusStateV>,
    pub allow_update_after_proposal: bool,
}

impl View for SoloMachineClientState {
    type V = SoloMachineClientStateV;

    open spec fn view(&self) -> SoloMachineClientStateV {
        SoloMachineClientStateV {
            sequence: self.sequence,
            frozen_sequence: self.frozen_sequence,
            consensus_state: self.consensus_state.deep_view(),
            allow_update_after_proposal: self.allow_update_after_proposal,
        }
    }
}

impl DeepView for SoloMachineClientState {
    type V = SoloMachineClientStateV;

    open spec fn deep_view(&self) -> SoloMachineClientStateV {
        self@
    }
}

pub open spec fn spec_encode_solo_machine_client_state(m: SoloMachineClientStateV) -> Seq<u8> {
    field_u64(1, m.sequence) + field_u64(2, m.frozen_sequence) + field_opt(
        3,
        match m.consensus_state {
            Some(c) => Some(spec_encode_solo_machine_consensus_state(c)),
            None => None,
        },
    ) + field_bool(4, m.allow_update_after_proposal)
}

pub fn encode_solo_machine_client_state(m: &SoloMachineClientState) -> (r: Vec<u8>)
    ensures
        r@ == spec_encode_solo_machine_client_state(m@),
{
    let mut v: Vec<u8> = Vec::new();
    put_u64_field(&mut v, 1, m.sequence);
    put_u64_field(&mut v, 2, m.frozen_sequence);
    match &m.consensus_state {
        Some(c) => {
            let e = encode_solo_machine_consensus_state(c);
            put_len_prefixed(&mut v, 3, e.as_slice());
        },
        None => {},
    }
    put_bool_field(&mut v, 4, m.allow_update_after_proposal);
    proof {
        assert(v@ =~= spec_encode_solo_machine_client_state(m@));
    }
    v
}

/// The preimage of every solo-machine proof signature: the signing
/// sequence, the frozen timestamp, the diversifier, the kind of state
/// attested to, and the encoded state data.
#[derive(Clone, Debug)]
pub struct SignBytes {
    pub sequence: u64,
    pub timestamp: u64,
    pub diversifier: Vec<u8>,
    pub data_type: u64,
    pub data: Vec<u8>,
}

pub ghost struct SignBytesV {
    pub sequence: u64,
    pub timestamp: u64,
    pub diversifier: Seq<u8>,
    pub data_type: u64,
    pub data: Seq<u8>,
}

impl View for SignBytes {
    type V = SignBytesV;

    open spec fn view(&self) -> SignBytesV {
        SignBytesV {
            sequence: self.sequence,
            timestamp: self.timestamp,
            diversifier: self.diversifier@,
            data_type: self.data_type,
            data: self.data@,
        }
    }
}

impl DeepView for SignBytes {
    type V = SignBytesV;

    open spec fn deep_view(&self) -> SignBytesV {
        self@
    }
}

pub open spec fn spec_encode_sign_bytes(m: SignBytesV) -> Seq<u8> {
    field_u64(1, m.sequence) + field_u64(2, m.timestamp) + field_bytes(3, m.diversifier)
        + field_u64(4, m.data_type) + field_bytes(5, m.data)
}

pub fn encode_sign_bytes(m: &SignBytes) -> (r: Vec<u8>)
    ensures
        r@ == spec_encode_sign_bytes(m@),
{
    let mut v: Vec<u8> = Vec::new();
    put_u64_field(&mut v, 1, m.sequence);
    put_u64_field(&mut v, 2, m.timestamp);
    put_bytes_field(&mut v, 3, m.diversifier.as_slice());
    put_u64_field(&mut v, 4, m.data_type);
    put_bytes_field(&mut v, 5, m.data.as_slice());
    proof {
        assert(v@ =~= spec_encode_sign_bytes(m@));
    }
    v
}

/// `SignatureData` restricted to the single-signature arm this builder
/// emits: a raw signature under one signing mode.
pub open spec fn spec_encode_single_signature_data(mode: u64, signature: Seq<u8>) -> Seq<u8> {
    len_prefixed(1, field_u64(1, mode) + field_bytes(2, signature))
}

pub fn encode_single_signature_data(mode: u64, signature: &Vec<u8>) -> (r: Vec<u8>)
    ensures
        r@ == spec_encode_single_signature_data(mode, signature@),
{
    let mut inner: Vec<u8> = Vec::new();
    put_u64_field(&mut inner, 1, mode);
    put_bytes_field(&mut inner, 2, signature.as_slice());
    let mut v: Vec<u8> = Vec::new();
    put_len_prefixed(&mut v, 1, inner.as_slice());
    proof {
        assert(inner@ =~= field_u64(1, mode) + field_bytes(2, signature@));
        assert(v@ =~= spec_encode_single_signature_data(mode, signature@));
    }
    v
}

/// The envelope a proof is returned in: encoded signature data and the
/// solo machine's frozen timestamp.
#[derive(Clone, Debug)]
pub struct TimestampedSignatureData {
    pub signature_data: Vec<u8>,
    pub timestamp: u64,
}

pub ghost struct TimestampedSignatureDataV {
    pub signature_data: Seq<u8>,
    pub timestamp: u64,
}

impl View for TimestampedSignatureData {
    type V = TimestampedSignatureDataV;

    open spec fn view(&self) -> TimestampedSignatureDataV {
        TimestampedSignatureDataV {
            signature_data: self.signature_data@,
            timestamp: self.timestamp,
        }
    }
}

impl DeepView for TimestampedSignatureData {
    type V = TimestampedSignatureDataV;

    open spec fn deep_view(&self) -> TimestampedSignatureDataV {
        self@
    }
}

pub open spec fn spec_encode_timestamped_signature_data(m: TimestampedSignatureDataV) -> Seq<u8> {
    field_bytes(1, m.signature_data) + field_u64(2, m.timestamp)
}

pub fn encode_timestamped_signature_data(m: &TimestampedSignatureData) -> (r: Vec<u8>)
    ensures
        r@ == spec_encode_timestamped_signature_data(m@),
{
    let mut v: Vec<u8> = Vec::new();
    put_bytes_field(&mut v, 1, m.signature_data.as_slice());
    put_u64_field(&mut v, 2, m.timestamp);
    proof {
        assert(v@ =~= spec_encode_timestamped_signature_data(m@));
    }
    v
}

/// State data of a client proof: the full store path and the client
/// state it claims, as an `Any`.
pub open spec fn spec_encode_client_state_data(path: Seq<u8>, client_state: AnyV) -> Seq<u8> {
    field_bytes(1, path) + len_prefixed(2, spec_encode_any(client_state))
}

pub fn encode_client_state_data(path: &Vec<u8>, client_state: &Any) -> (r: Vec<u8>)
    ensures
        r@ == spec_encode_client_state_data(path@, client_state@),
{
    let mut v: Vec<u8> = Vec::new();
    put_bytes_field(&mut v, 1, path.as_slice());
    let e = encode_any(client_state);
    put_len_prefixed(&mut v, 2, e.as_slice());
    proof {
        assert(v@ =~= spec_encode_client_state_data(path@, client_state@));
    }
    v
}

/// State data of a consensus proof: store path and consensus state.
pub open spec fn spec_encode_consensus_state_data(path: Seq<u8>, consensus_state: AnyV) -> Seq<
    u8,
> {
    field_bytes(1, path) + len_prefixed(2, spec_encode_any(consensus_state))
}

pub fn encode_consensus_state_data(path: &Vec<u8>, consensus_state: &Any) -> (r: Vec<u8>)
    ensures
        r@ == spec_encode_consensus_state_data(path@, consensus_state@),
{
    let mut v: Vec<u8> = Vec::new();
    put_bytes_field(&mut v, 1, path.as_slice());
    let e = encode_any(consensus_state);
    put_len_prefixed(&mut v, 2, e.as_slice());
    proof {
        assert(v@ =~= spec_encode_consensus_state_data(path@, consensus_state@));
    }
    v
}

/// State data of a connection proof: store path and connection end.
pub open spec fn spec_encode_connection_state_data(path: Seq<u8>, connection: ConnectionEndV) -> Seq<
    u8,
> {
    field_bytes(1, path) + len_prefixed(2, crate::wire_ibc::spec_encode_connection_end(connection))
}

pub fn encode_connection_state_data(path: &Vec<u8>, connection: &ConnectionEnd) -> (r: Vec<u8>)
    ensures
        r@ == spec_encode_connection_state_data(path@, connection@),
{
    let mut v: Vec<u8> = Vec::new();
    put_bytes_field(&mut v, 1, path.as_slice());
    let e = encode_connection_end(connection);
    put_len_prefixed(&mut v, 2, e.as_slice());
    proof {
        assert(v@ =~= spec_encode_connection_state_data(path@, connection@));
    }
    v
}

/// State data of a channel proof: store path and channel end.
pub open spec fn spec_encode_channel_state_data(path: Seq<u8>, channel: ChannelV) -> Seq<u8> {
    field_bytes(1, path) + len_prefixed(2, crate::wire_ibc::spec_encode_channel(channel))
}

pub fn encode_channel_state_data(path: &Vec<u8>, channel: &Channel) -> (r: Vec<u8>)
    ensures
        r@ == spec_encode_channel_state_data(path@, channel@),
{
    let mut v: Vec<u8> = Vec::new();
    put_bytes_field(&mut v, 1, path.as_slice());
    let e = encode_channel(channel);
    put_len_prefixed(&mut v, 2, e.as_slice());
    proof {
        assert(v@ =~= spec_encode_channel_state_data(path@, channel@));
    }
    v
}

} // verus!
