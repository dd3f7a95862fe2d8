//! IBC core messages: heights, connection and channel handshake
//! payloads, and client creation, with their deterministic encodings.

use vstd::prelude::*;

use crate::encoding::{
    enc_list, field_bytes, field_opt, field_u64, len_prefixed, put_bytes_field, put_len_prefixed,
    put_u64_field,
};
use crate::wire_tx::{bytes_encoder, encode_any, put_bytes_list, spec_encode_any, Any, AnyV};

verus! {

/// `Channel.State` tag of a channel in the init step.
pub const CHANNEL_STATE_INIT: u64 = 1;

/// `Channel.Order` tag of an unordered channel.
pub const CHANNEL_ORDER_UNORDERED: u64 = 2;

/// An IBC height: revision number and height within the revision.  For
/// a solo machine the revision number is zero and the height is the
/// signing sequence.
#[derive(Clone, Copy, Debug)]
pub struct Height {
    pub revision_number: u64,
    pub revision_height: u64,
}

pub ghost struct HeightV {
    pub revision_number: u64,
    pub revision_height: u64,
}

impl View for Height {
    type V = HeightV;

    open spec fn view(&self) -> HeightV {
        HeightV {
            revision_number: self.revision_number,
            revision_height: self.revision_height,
        }
    }
}

impl DeepView for Height {
    type V = HeightV;

    open spec fn deep_view(&self) -> HeightV {
        self@
    }
}

pub open spec fn spec_encode_height(m: HeightV) -> Seq<u8> {
    field_u64(1, m.revision_number) + field_u64(2, m.revision_height)
}

pub fn encode_height(m: &Height) -> (r: Vec<u8>)
    ensures
        r@ == spec_encode_height(m@),
{
    let mut v: Vec<u8> = Vec::new();
    put_u64_field(&mut v, 1, m.revision_number);
    put_u64_field(&mut v, 2, m.revision_height);
    proof {
        assert(v@ =~= spec_encode_height(m@));
    }
    v
}

/// The commitment prefix of the counterparty's IBC store.
#[derive(Clone, Debug)]
pub struct MerklePrefix {
    pub key_prefix: Vec<u8>,
}

pub ghost struct MerklePrefixV {
    pub key_prefix: Seq<u8>,
}

impl View for MerklePrefix {
    type V = MerklePrefixV;

    open spec fn view(&self) -> MerklePrefixV {
        MerklePrefixV { key_prefix: self.key_prefix@ }
    }
}

impl DeepView for MerklePrefix {
    type V = MerklePrefixV;

    open spec fn deep_view(&self) -> MerklePrefixV {
        self@
    }
}

pub open spec fn spec_encode_merkle_prefix(m: MerklePrefixV) -> Seq<u8> {
    field_bytes(1, m.key_prefix)
}

pub fn encode_merkle_prefix(m: &MerklePrefix) -> (r: Vec<u8>)
    ensures
        r@ == spec_encode_merkle_prefix(m@),
{
    let mut v: Vec<u8> = Vec::new();
    put_bytes_field(&mut v, 1, m.key_prefix.as_slice());
    proof {
        assert(v@ =~= spec_encode_merkle_prefix(m@));
    }
    v
}

/// A connection version: identifier and feature set.
#[derive(Clone, Debug)]
pub struct ConnectionVersion {
    pub identifier: Vec<u8>,
    pub features: Vec<Vec<u8>>,
}

pub ghost struct ConnectionVersionV {
    pub identifier: Seq<u8>,
    pub features: Seq<Seq<u8>>,
}

impl View for ConnectionVersion {
    type V = ConnectionVersionV;

    open spec fn view(&self) -> ConnectionVersionV {
        ConnectionVersionV { identifier: self.identifier@, features: self.features.deep_view() }
    }
}

impl DeepView for ConnectionVersion {
    type V = ConnectionVersionV;

    open spec fn deep_view(&self) -> ConnectionVersionV {
        self@
    }
}

pub open spec fn spec_encode_connection_version(m: ConnectionVersionV) -> Seq<u8> {
    field_bytes(1, m.identifier) + enc_list(2, m.features, bytes_encoder())
}

pub open spec fn connection_version_encoder() -> spec_fn(ConnectionVersionV) -> Seq<u8> {
    |c: ConnectionVersionV| spec_encode_connection_version(c)
}

pub fn encode_connection_version(m: &ConnectionVersion) -> (r: Vec<u8>)
    ensures
        r@ == spec_encode_connection_version(m@),
{
    let mut v: Vec<u8> = Vec::new();
    put_bytes_field(&mut v, 1, m.identifier.as_slice());
    put_bytes_list(&mut v, 2, &m.features);
    proof {
        assert(v@ =~= spec_encode_connection_version(m@));
    }
    v
}

/// The counterparty of a connection end.
#[derive(Clone, Debug)]
pub struct ConnectionCounterparty {
    pub client_id: Vec<u8>,
    pub connection_id: Vec<u8>,
    pub prefix: Option<MerklePrefix>,
}

pub ghost struct ConnectionCounterpartyV {
    pub client_id: Seq<u8>,
    pub connection_id: Seq<u8>,
    pub prefix: Option<MerklePrefixV>,
}

impl View for ConnectionCounterparty {
    type V = ConnectionCounterpartyV;

    open spec fn view(&self) -> ConnectionCounterpartyV {
        ConnectionCounterpartyV {
            client_id: self.client_id@,
            connection_id: self.connection_id@,
            prefix: self.prefix.deep_view(),
        }
    }
}

impl DeepView for ConnectionCounterparty {
    type V = ConnectionCounterpartyV;

    open spec fn deep_view(&self) -> ConnectionCounterpartyV {
        self@
    }
}

pub open spec fn spec_encode_connection_counterparty(m: ConnectionCounterpartyV) -> Seq<u8> {
    field_bytes(1, m.client_id) + field_bytes(2, m.connection_id) + field_opt(
        3,
        match m.prefix {
            Some(p) => Some(spec_encode_merkle_prefix(p)),
            None => None,
        },
    )
}

pub fn encode_connection_counterparty(m: &ConnectionCounterparty) -> (r: Vec<u8>)
    ensures
        r@ == spec_encode_connection_counterparty(m@),
{
    let mut v: Vec<u8> = Vec::new();
    put_bytes_field(&mut v, 1, m.client_id.as_slice());
    put_bytes_field(&mut v, 2, m.connection_id.as_slice());
    match &m.prefix {
        Some(p) => {
            let e = encode_merkle_prefix(p);
            put_len_prefixed(&mut v, 3, e.as_slice());
        },
        None => {},
    }
    proof {
        assert(v@ =~= spec_encode_connection_counterparty(m@));
    }
    v
}

/// A connection end, as the counterparty chain stores it.
#[derive(Clone, Debug)]
pub struct ConnectionEnd {
    pub client_id: Vec<u8>,
    pub versions: Vec<ConnectionVersion>,
    pub state: u64,
    pub counterparty: Option<ConnectionCounterparty>,
    pub delay_period: u64,
}

pub ghost struct ConnectionEndV {
    pub client_id: Seq<u8>,
    pub versions: Seq<ConnectionVersionV>,
    pub state: u64,
    pub counterparty: Option<ConnectionCounterpartyV>,
    pub delay_period: u64,
}

impl View for ConnectionEnd {
    type V = ConnectionEndV;

    open spec fn view(&self) -> ConnectionEndV {
        ConnectionEndV {
            client_id: self.client_id@,
            versions: self.versions.deep_view(),
            state: self.state,
            counterparty: self.counterparty.deep_view(),
            delay_period: self.delay_period,
        }
    }
}

impl DeepView for ConnectionEnd {
    type V = ConnectionEndV;

    open spec fn deep_view(&self) -> ConnectionEndV {
        self@
    }
}

pub open spec fn spec_encode_connection_end(m: ConnectionEndV) -> Seq<u8> {
    field_bytes(1, m.client_id) + enc_list(2, m.versions, connection_version_encoder())
        + field_u64(3, m.state) + field_opt(
        4,
        match m.counterparty {
            Some(c) => Some(spec_encode_connection_counterparty(c)),
            None => None,
        },
    ) + field_u64(5, m.delay_period)
}

pub fn encode_connection_end(m: &ConnectionEnd) -> (r: Vec<u8>)
    ensures
        r@ == spec_encode_connection_end(m@),
{
    let mut v: Vec<u8> = Vec::new();
    put_bytes_field(&mut v, 1, m.client_id.as_slice());
    let mut i: usize = 0;
    while i < m.versions.len()
        invariant
            i <= m.versions.len(),
            v@ == field_bytes(1, m.client_id@) + enc_list(
                2,
                m.versions.deep_view().take(i as int),
                connection_version_encoder(),
            ),
        decreases m.versions.len() - i,
    {
        let e = encode_connection_version(&m.versions[i]);
        put_len_prefixed(&mut v, 2, e.as_slice());
        proof {
            let dv = m.versions.deep_view();
            assert(dv.take(i + 1 as int).drop_last() =~= dv.take(i as int));
            assert(dv.take(i + 1 as int).last() == dv[i as int]);
            crate::encoding::enc_list_snoc(2, dv.take(i + 1 as int), connection_version_encoder());
            assert(v@ =~= field_bytes(1, m.client_id@) + enc_list(
                2,
                dv.take(i + 1 as int),
                connection_version_encoder(),
            ));
        }
        i = i + 1;
    }
    proof {
        assert(m.versions.deep_view().take(m.versions.deep_view().len() as int)
            =~= m.versions.deep_view());
    }
    put_u64_field(&mut v, 3, m.state);
    match &m.counterparty {
        Some(c) => {
            let e = encode_connection_counterparty(c);
            put_len_prefixed(&mut v, 4, e.as_slice());
        },
        None => {},
    }
    put_u64_field(&mut v, 5, m.delay_period);
    proof {
        assert(v@ =~= spec_encode_connection_end(m@));
    }
    v
}

/// Payload of the connection open init step on the solo machine side.
#[derive(Clone, Debug)]
pub struct MsgConnectionOpenInit {
    pub client_id: Vec<u8>,
    pub counterparty: Option<ConnectionCounterparty>,
    pub version: Option<ConnectionVersion>,
    pub delay_period: u64,
    pub signer: Vec<u8>,
}

pub ghost struct MsgConnectionOpenInitV {
    pub client_id: Seq<u8>,
    pub counterparty: Option<ConnectionCounterpartyV>,
    pub version: Option<ConnectionVersionV>,
    pub delay_period: u64,
    pub signer: Seq<u8>,
}

impl View for MsgConnectionOpenInit {
    type V = MsgConnectionOpenInitV;

    open spec fn view(&self) -> MsgConnectionOpenInitV {
        MsgConnectionOpenInitV {
            client_id: self.client_id@,
            counterparty: self.counterparty.deep_view(),
            version: self.version.deep_view(),
            delay_period: self.delay_period,
            signer: self.signer@,
        }
    }
}

impl DeepView for MsgConnectionOpenInit {
    type V = MsgConnectionOpenInitV;

    open spec fn deep_view(&self) -> MsgConnectionOpenInitV {
        self@
    }
}

pub open spec fn spec_encode_msg_connection_open_init(m: MsgConnectionOpenInitV) -> Seq<u8> {
    field_bytes(1, m.client_id) + field_opt(
        2,
        match m.counterparty {
            Some(c) => Some(spec_encode_connection_counterparty(c)),
            None => None,
        },
    ) + field_opt(
        3,
        match m.version {
            Some(c) => Some(spec_encode_connection_version(c)),
            None => None,
        },
    ) + field_u64(4, m.delay_period) + field_bytes(5, m.signer)
}

pub fn encode_msg_connection_open_init(m: &MsgConnectionOpenInit) -> (r: Vec<u8>)
    ensures
        r@ == spec_encode_msg_connection_open_init(m@),
{
    let mut v: Vec<u8> = Vec::new();
    put_bytes_field(&mut v, 1, m.client_id.as_slice());
    match &m.counterparty {
        Some(c) => {
            let e = encode_connection_counterparty(c);
            put_len_prefixed(&mut v, 2, e.as_slice());
        },
        None => {},
    }
    match &m.version {
        Some(c) => {
            let e = encode_connection_version(c);
            put_len_prefixed(&mut v, 3, e.as_slice());
        },
        None => {},
    }
    put_u64_field(&mut v, 4, m.delay_period);
    put_bytes_field(&mut v, 5, m.signer.as_slice());
    proof {
        assert(v@ =~= spec_encode_msg_connection_open_init(m@));
    }
    v
}

/// Payload of the connection open ack step on the solo machine side.
#[derive(Clone, Debug)]
pub struct MsgConnectionOpenAck {
    pub connection_id: Vec<u8>,
    pub counterparty_connection_id: Vec<u8>,
    pub version: Option<ConnectionVersion>,
    pub client_state: Option<Any>,
    pub proof_height: Option<Height>,
    pub proof_try: Vec<u8>,
    pub proof_client: Vec<u8>,
    pub proof_consensus: Vec<u8>,
    pub consensus_height: Option<Height>,
    pub signer: Vec<u8>,
}

pub ghost struct MsgConnectionOpenAckV {
    pub connection_id: Seq<u8>,
    pub counterparty_connection_id: Seq<u8>,
    pub version: Option<ConnectionVersionV>,
    pub client_state: Option<AnyV>,
    pub proof_height: Option<HeightV>,
    pub proof_try: Seq<u8>,
    pub proof_client: Seq<u8>,
    pub proof_consensus: Seq<u8>,
    pub consensus_height: Option<HeightV>,
    pub signer: Seq<u8>,
}

impl View for MsgConnectionOpenAck {
    type V = MsgConnectionOpenAckV;

    open spec fn view(&self) -> MsgConnectionOpenAckV {
        MsgConnectionOpenAckV {
            connection_id: self.connection_id@,
            counterparty_connection_id: self.counterparty_connection_id@,
            version: self.version.deep_view(),
            client_state: self.client_state.deep_view(),
            proof_height: self.proof_height.deep_view(),
            proof_try: self.proof_try@,
            proof_client: self.proof_client@,
            proof_consensus: self.proof_consensus@,
            consensus_height: self.consensus_height.deep_view(),
            signer: self.signer@,
        }
    }
}

impl DeepView for MsgConnectionOpenAck {
    type V = MsgConnectionOpenAckV;

    open spec fn deep_view(&self) -> MsgConnectionOpenAckV {
        self@
    }
}

pub open spec fn spec_encode_msg_connection_open_ack(m: MsgConnectionOpenAckV) -> Seq<u8> {
    field_bytes(1, m.connection_id) + field_bytes(2, m.counterparty_connection_id) + field_opt(
        3,
        match m.version {
            Some(c) => Some(spec_encode_connection_version(c)),
            None => None,
        },
    ) + field_opt(
        4,
        match m.client_state {
            Some(a) => Some(spec_encode_any(a)),
            None => None,
        },
    ) + field_opt(
        5,
        match m.proof_height {
            Some(h) => Some(spec_encode_height(h)),
            None => None,
        },
    ) + field_bytes(6, m.proof_try) + field_bytes(7, m.proof_client) + field_bytes(
        8,
        m.proof_consensus,
    ) + field_opt(
        9,
        match m.consensus_height {
            Some(h) => Some(spec_encode_height(h)),
            None => None,
        },
    ) + field_bytes(10, m.signer)
}

pub fn encode_msg_connection_open_ack(m: &MsgConnectionOpenAck) -> (r: Vec<u8>)
    ensures
        r@ == spec_encode_msg_connection_open_ack(m@),
{
    let mut v: Vec<u8> = Vec::new();
    put_bytes_field(&mut v, 1, m.connection_id.as_slice());
    put_bytes_field(&mut v, 2, m.counterparty_connection_id.as_slice());
    match &m.version {
        Some(c) => {
            let e = encode_connection_version(c);
            put_len_prefixed(&mut v, 3, e.as_slice());
        },
        None => {},
    }
    match &m.client_state {
        Some(a) => {
            let e = encode_any(a);
            put_len_prefixed(&mut v, 4, e.as_slice());
        },
        None => {},
    }
    match &m.proof_height {
        Some(h) => {
            let e = encode_height(h);
            put_len_prefixed(&mut v, 5, e.as_slice());
        },
        None => {},
    }
    put_bytes_field(&mut v, 6, m.proof_try.as_slice());
    put_bytes_field(&mut v, 7, m.proof_client.as_slice());
    put_bytes_field(&mut v, 8, m.proof_consensus.as_slice());
    match &m.consensus_height {
        Some(h) => {
            let e = encode_height(h);
            put_len_prefixed(&mut v, 9, e.as_slice());
        },
        None => {},
    }
    put_bytes_field(&mut v, 10, m.signer.as_slice());
    proof {
        assert(v@ =~= spec_encode_msg_connection_open_ack(m@));
    }
    v
}

/// The counterparty of a channel end.
#[derive(Clone, Debug)]
pub struct ChannelCounterparty {
    pub port_id: Vec<u8>,
    pub channel_id: Vec<u8>,
}

pub ghost struct ChannelCounterpartyV {
    pub port_id: Seq<u8>,
    pub channel_id: Seq<u8>,
}

impl View for ChannelCounterparty {
    type V = ChannelCounterpartyV;

    open spec fn view(&self) -> ChannelCounterpartyV {
        ChannelCounterpartyV { port_id: self.port_id@, channel_id: self.channel_id@ }
    }
}

impl DeepView for ChannelCounterparty {
    type V = ChannelCounterpartyV;

    open spec fn deep_view(&self) -> ChannelCounterpartyV {
        self@
    }
}

pub open spec fn spec_encode_channel_counterparty(m: ChannelCounterpartyV) -> Seq<u8> {
    field_bytes(1, m.port_id) + field_bytes(2, m.channel_id)
}

pub fn encode_channel_counterparty(m: &ChannelCounterparty) -> (r: Vec<u8>)
    ensures
        r@ == spec_encode_channel_counterparty(m@),
{
    let mut v: Vec<u8> = Vec::new();
    put_bytes_field(&mut v, 1, m.port_id.as_slice());
    put_bytes_field(&mut v, 2, m.channel_id.as_slice());
    proof {
        assert(v@ =~= spec_encode_channel_counterparty(m@));
    }
    v
}

/// A channel end: state, ordering, counterparty, hops and version.
#[derive(Clone, Debug)]
pub struct Channel {
    pub state: u64,
    pub ordering: u64,
    pub counterparty: Option<ChannelCounterparty>,
    pub connection_hops: Vec<Vec<u8>>,
    pub version: Vec<u8>,
}

pub ghost struct ChannelV {
    pub state: u64,
    pub ordering: u64,
    pub counterparty: Option<ChannelCounterpartyV>,
    pub connection_hops: Seq<Seq<u8>>,
    pub version: Seq<u8>,
}

impl View for Channel {
    type V = ChannelV;

    open spec fn view(&self) -> ChannelV {
        ChannelV {
            state: self.state,
            ordering: self.ordering,
            counterparty: self.counterparty.deep_view(),
            connection_hops: self.connection_hops.deep_view(),
            version: self.version@,
        }
    }
}

impl DeepView for Channel {
    type V = ChannelV;

    open spec fn deep_view(&self) -> ChannelV {
        self@
    }
}

pub open spec fn spec_encode_channel(m: ChannelV) -> Seq<u8> {
    field_u64(1, m.state) + field_u64(2, m.ordering) + field_opt(
        3,
        match m.counterparty {
            Some(c) => Some(spec_encode_channel_counterparty(c)),
            None => None,
        },
    ) + enc_list(4, m.connection_hops, bytes_encoder()) + field_bytes(5, m.version)
}

pub fn encode_channel(m: &Channel) -> (r: Vec<u8>)
    ensures
        r@ == spec_encode_channel(m@),
{
    let mut v: Vec<u8> = Vec::new();
    put_u64_field(&mut v, 1, m.state);
    put_u64_field(&mut v, 2, m.ordering);
    match &m.counterparty {
        Some(c) => {
            let e = encode_channel_counterparty(c);
            put_len_prefixed(&mut v, 3, e.as_slice());
        },
        None => {},
    }
    put_bytes_list(&mut v, 4, &m.connection_hops);
    put_bytes_field(&mut v, 5, m.version.as_slice());
    proof {
        assert(v@ =~= spec_encode_channel(m@));
    }
    v
}

/// Payload of the channel open init step on the solo machine side.
#[derive(Clone, Debug)]
pub struct MsgChannelOpenInit {
    pub port_id: Vec<u8>,
    pub channel: Option<Channel>,
    pub signer: Vec<u8>,
}

pub ghost struct MsgChannelOpenInitV {
    pub port_id: Seq<u8>,
    pub channel: Option<ChannelV>,
    pub signer: Seq<u8>,
}

impl View for MsgChannelOpenInit {
    type V = MsgChannelOpenInitV;

    open spec fn view(&self) -> MsgChannelOpenInitV {
        MsgChannelOpenInitV {
            port_id: self.port_id@,
            channel: self.channel.deep_view(),
            signer: self.signer@,
        }
    }
}

impl DeepView for MsgChannelOpenInit {
    type V = MsgChannelOpenInitV;

    open spec fn deep_view(&self) -> MsgChannelOpenInitV {
        self@
    }
}

pub open spec fn spec_encode_msg_channel_open_init(m: MsgChannelOpenInitV) -> Seq<u8> {
    field_bytes(1, m.port_id) + field_opt(
        2,
        match m.channel {
            Some(c) => Some(spec_encode_channel(c)),
            None => None,
        },
    ) + field_bytes(3, m.signer)
}

pub fn encode_msg_channel_open_init(m: &MsgChannelOpenInit) -> (r: Vec<u8>)
    ensures
        r@ == spec_encode_msg_channel_open_init(m@),
{
    let mut v: Vec<u8> = Vec::new();
    put_bytes_field(&mut v, 1, m.port_id.as_slice());
    match &m.channel {
        Some(c) => {
            let e = encode_channel(c);
            put_len_prefixed(&mut v, 2, e.as_slice());
        },
        None => {},
    }
    put_bytes_field(&mut v, 3, m.signer.as_slice());
    proof {
        assert(v@ =~= spec_encode_msg_channel_open_init(m@));
    }
    v
}

/// Payload of the channel open ack step on the solo machine side.
#[derive(Clone, Debug)]
pub struct MsgChannelOpenAck {
    pub port_id: Vec<u8>,
    pub channel_id: Vec<u8>,
    pub counterparty_channel_id: Vec<u8>,
    pub counterparty_version: Vec<u8>,
    pub proof_try: Vec<u8>,
    pub proof_height: Option<Height>,
    pub signer: Vec<u8>,
}

pub ghost struct MsgChannelOpenAckV {
    pub port_id: Seq<u8>,
    pub channel_id: Seq<u8>,
    pub counterparty_channel_id: Seq<u8>,
    pub counterparty_version: Seq<u8>,
    pub proof_try: Seq<u8>,
    pub proof_height: Option<HeightV>,
    pub signer: Seq<u8>,
}

impl View for MsgChannelOpenAck {
    type V = MsgChannelOpenAckV;

    open spec fn view(&self) -> MsgChannelOpenAckV {
        MsgChannelOpenAckV {
            port_id: self.port_id@,
            channel_id: self.channel_id@,
            counterparty_channel_id: self.counterparty_channel_id@,
            counterparty_version: self.counterparty_version@,
            proof_try: self.proof_try@,
            proof_height: self.proof_height.deep_view(),
            signer: self.signer@,
        }
    }
}

impl DeepView for MsgChannelOpenAck {
    type V = MsgChannelOpenAckV;

    open spec fn deep_view(&self) -> MsgChannelOpenAckV {
        self@
    }
}

pub open spec fn spec_encode_msg_channel_open_ack(m: MsgChannelOpenAckV) -> Seq<u8> {
    field_bytes(1, m.port_id) + field_bytes(2, m.channel_id) + field_bytes(
        3,
        m.counterparty_channel_id,
    ) + field_bytes(4, m.counterparty_version) + field_bytes(5, m.proof_try) + field_opt(
        6,
        match m.proof_height {
            Some(h) => Some(spec_encode_height(h)),
            None => None,
        },
    ) + field_bytes(7, m.signer)
}

pub fn encode_msg_channel_open_ack(m: &MsgChannelOpenAck) -> (r: Vec<u8>)
    ensures
        r@ == spec_encode_msg_channel_open_ack(m@),
{
    let mut v: Vec<u8> = Vec::new();
    put_bytes_field(&mut v, 1, m.port_id.as_slice());
    put_bytes_field(&mut v, 2, m.channel_id.as_slice());
    put_bytes_field(&mut v, 3, m.counterparty_channel_id.as_slice());
    put_bytes_field(&mut v, 4, m.counterparty_version.as_slice());
    put_bytes_field(&mut v, 5, m.proof_try.as_slice());
    match &m.proof_height {
        Some(h) => {
            let e = encode_height(h);
            put_len_prefixed(&mut v, 6, e.as_slice());
        },
        None => {},
    }
    put_bytes_field(&mut v, 7, m.signer.as_slice());
    proof {
        assert(v@ =~= spec_encode_msg_channel_open_ack(m@));
    }
    v
}

/// Payload that registers a new client on the counterparty chain.
#[derive(Clone, Debug)]
pub struct MsgCreateClient {
    pub client_state: Option<Any>,
    pub consensus_state: Option<Any>,
    pub signer: Vec<u8>,
}

pub ghost struct MsgCreateClientV {
    pub client_state: Option<AnyV>,
    pub consensus_state: Option<AnyV>,
    pub signer: Seq<u8>,
}

impl View for MsgCreateClient {
    type V = MsgCreateClientV;

    open spec fn view(&self) -> MsgCreateClientV {
        MsgCreateClientV {
            client_state: self.client_state.deep_view(),
            consensus_state: self.consensus_state.deep_view(),
            signer: self.signer@,
        }
    }
}

impl DeepView for MsgCreateClient {
    type V = MsgCreateClientV;

    open spec fn deep_view(&self) -> MsgCreateClientV {
        self@
    }
}

pub open spec fn spec_encode_msg_create_client(m: MsgCreateClientV) -> Seq<u8> {
    field_opt(
        1,
        match m.client_state {
            Some(a) => Some(spec_encode_any(a)),
            None => None,
        },
    ) + field_opt(
        2,
        match m.consensus_state {
            Some(a) => Some(spec_encode_any(a)),
            None => None,
        },
    ) + field_bytes(3, m.signer)
}

pub fn encode_msg_create_client(m: &MsgCreateClient) -> (r: Vec<u8>)
    ensures
        r@ == spec_encode_msg_create_client(m@),
{
    let mut v: Vec<u8> = Vec::new();
    match &m.client_state {
        Some(a) => {
            let e = encode_any(a);
            put_len_prefixed(&mut v, 1, e.as_slice());
        },
        None => {},
    }
    match &m.consensus_state {
        Some(a) => {
            let e = encode_any(a);
            put_len_prefixed(&mut v, 2, e.as_slice());
        },
        None => {},
    }
    put_bytes_field(&mut v, 3, m.signer.as_slice());
    proof {
        assert(v@ =~= spec_encode_msg_create_client(m@));
    }
    v
}

} // verus!
