//! ICS-24 store paths, already prefixed with the commitment prefix
//! `ibc` that the counterparty keeps its IBC state under.

use vstd::prelude::*;

use vstd::string::StrSliceExecFns;
use vstd::string::StringSliceAdditionalSpecFns;
use vstd::utf8::encode_utf8;

use crate::encoding::{dec_bytes, put_bytes, put_dec};
use crate::wire_ibc::HeightV;

verus! {

/// `ibc/clients/<client_id>/clientState`
pub open spec fn spec_client_state_path(client_id: Seq<u8>) -> Seq<u8> {
    encode_utf8("ibc/clients/"@) + client_id + encode_utf8("/clientState"@)
}

/// `ibc/clients/<client_id>/consensusStates/<revision>-<height>`
pub open spec fn spec_consensus_state_path(client_id: Seq<u8>, height: HeightV) -> Seq<u8> {
    encode_utf8("ibc/clients/"@) + client_id + encode_utf8("/consensusStates/"@) + dec_bytes(
        height.revision_number as nat,
    ) + encode_utf8("-"@) + dec_bytes(height.revision_height as nat)
}

/// `ibc/connections/<connection_id>`
pub open spec fn spec_connection_path(connection_id: Seq<u8>) -> Seq<u8> {
    encode_utf8("ibc/connections/"@) + connection_id
}

/// `ibc/channelEnds/ports/<port_id>/channels/<channel_id>`
pub open spec fn spec_channel_path(port_id: Seq<u8>, channel_id: Seq<u8>) -> Seq<u8> {
    encode_utf8("ibc/channelEnds/ports/"@) + port_id + encode_utf8("/channels/"@) + channel_id
}

pub fn client_state_path(client_id: &[u8]) -> (r: Vec<u8>)
    ensures
        r@ == spec_client_state_path(client_id@),
{
    let mut v = "ibc/clients/".as_bytes_vec();
    put_bytes(&mut v, client_id);
    let suffix = "/clientState".as_bytes_vec();
    put_bytes(&mut v, suffix.as_slice());
    proof {
        assert(v@ =~= spec_client_state_path(client_id@));
    }
    v
}

pub fn consensus_state_path(client_id: &[u8], height: &crate::wire_ibc::Height) -> (r: Vec<u8>)
    ensures
        r@ == spec_consensus_state_path(client_id@, height@),
{
    let mut v = "ibc/clients/".as_bytes_vec();
    put_bytes(&mut v, client_id);
    let mid = "/consensusStates/".as_bytes_vec();
    put_bytes(&mut v, mid.as_slice());
    put_dec(&mut v, height.revision_number);
    let dash = "-".as_bytes_vec();
    put_bytes(&mut v, dash.as_slice());
    put_dec(&mut v, height.revision_height);
    proof {
        assert(v@ =~= spec_consensus_state_path(client_id@, height@));
    }
    v
}

pub fn connection_path(connection_id: &[u8]) -> (r: Vec<u8>)
    ensures
        r@ == spec_connection_path(connection_id@),
{
    let mut v = "ibc/connections/".as_bytes_vec();
    put_bytes(&mut v, connection_id);
    proof {
        assert(v@ =~= spec_connection_path(connection_id@));
    }
    v
}

pub fn channel_path(port_id: &[u8], channel_id: &[u8]) -> (r: Vec<u8>)
    ensures
        r@ == spec_channel_path(port_id@, channel_id@),
{
    let mut v = "ibc/channelEnds/ports/".as_bytes_vec();
    put_bytes(&mut v, port_id);
    let mid = "/channels/".as_bytes_vec();
    put_bytes(&mut v, mid.as_slice());
    put_bytes(&mut v, channel_id);
    proof {
        assert(v@ =~= spec_channel_path(port_id@, channel_id@));
    }
    v
}

} // verus!
