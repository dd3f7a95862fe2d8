//! Creation of the Tendermint light client kept on the solo machine's
//! side of the relationship.
//!
//! This step emits no transaction: it returns the client and consensus
//! state pair that the caller stores.  The RPC `status` and `block`
//! calls, the staking params query, and the extraction of plain values
//! from the fetched block header happen at the caller's boundary; the
//! checks and the assembly of the state pair are here, including the
//! canonical ICS-23 proof specifications — the fixed constants under
//! which the counterparty's IAVL and Tendermint store proofs verify.

use vstd::prelude::*;

use vstd::string::StringExecFns;

use crate::builder::get_latest_height;
use crate::chain::{Chain, SignedDuration};
use crate::error::Error;
use crate::wire_ibc::Height;

verus! {

/// How a leaf of a commitment tree is hashed: hash algorithms, length
/// prefixing, and the literal prefix bytes.  Hash and length operation
/// tags carry their wire values (`1` is SHA-256 and varint-proto
/// respectively; `0` is no-op).
#[derive(Debug)]
pub struct LeafOp {
    pub hash: i32,
    pub prehash_key: i32,
    pub prehash_value: i32,
    pub length: i32,
    pub prefix: Vec<u8>,
}

/// How inner nodes of a commitment tree are laid out and hashed.
#[derive(Debug)]
pub struct InnerSpec {
    pub child_order: Vec<i32>,
    pub child_size: i32,
    pub min_prefix_length: i32,
    pub max_prefix_length: i32,
    pub empty_child: Vec<u8>,
    pub hash: i32,
}

/// One commitment-proof specification of the counterparty's store.
#[derive(Debug)]
pub struct ProofSpec {
    pub leaf_spec: Option<LeafOp>,
    pub inner_spec: Option<InnerSpec>,
    pub max_depth: i32,
    pub min_depth: i32,
    pub prehash_key_before_comparison: bool,
}

/// The canonical IAVL store specification: SHA-256 leaves under a
/// varint-proto length with prefix `0`, inner nodes of 33-byte children
/// behind 4- to 12-byte prefixes.
pub open spec fn is_canonical_iavl_spec(p: ProofSpec) -> bool {
    &&& p.leaf_spec matches Some(l) && l.hash == 1 && l.prehash_key == 0 && l.prehash_value == 1
        && l.length == 1 && l.prefix@ =~= seq![0u8]
    &&& p.inner_spec matches Some(i) && i.child_order@ =~= seq![0i32, 1i32] && i.child_size == 33
        && i.min_prefix_length == 4 && i.max_prefix_length == 12 && i.empty_child@.len() == 0
        && i.hash == 1
    &&& p.max_depth == 0
    &&& p.min_depth == 0
    &&& !p.prehash_key_before_comparison
}

/// The canonical Tendermint store specification: as the IAVL one, but
/// with 32-byte children behind a fixed one-byte prefix.
pub open spec fn is_canonical_tendermint_spec(p: ProofSpec) -> bool {
    &&& p.leaf_spec matches Some(l) && l.hash == 1 && l.prehash_key == 0 && l.prehash_value == 1
        && l.length == 1 && l.prefix@ =~= seq![0u8]
    &&& p.inner_spec matches Some(i) && i.child_order@ =~= seq![0i32, 1i32] && i.child_size == 32
        && i.min_prefix_length == 1 && i.max_prefix_length == 1 && i.empty_child@.len() == 0
        && i.hash == 1
    &&& p.max_depth == 0
    &&& p.min_depth == 0
    &&& !p.prehash_key_before_comparison
}

/// The canonical proof-specification pair of a Cosmos SDK chain: the
/// IAVL store spec, then the Tendermint store spec.
pub fn canonical_proof_specs() -> (r: Vec<ProofSpec>)
    ensures
        r@.len() == 2,
        is_canonical_iavl_spec(r@[0]),
        is_canonical_tendermint_spec(r@[1]),
{
    let mut iavl_prefix: Vec<u8> = Vec::new();
    iavl_prefix.push(0);
    let mut iavl_order: Vec<i32> = Vec::new();
    iavl_order.push(0);
    iavl_order.push(1);
    let iavl = ProofSpec {
        leaf_spec: Some(
            LeafOp { hash: 1, prehash_key: 0, prehash_value: 1, length: 1, prefix: iavl_prefix },
        ),
        inner_spec: Some(
            InnerSpec {
                child_order: iavl_order,
                child_size: 33,
                min_prefix_length: 4,
                max_prefix_length: 12,
                empty_child: Vec::new(),
                hash: 1,
            },
        ),
        max_depth: 0,
        min_depth: 0,
        prehash_key_before_comparison: false,
    };
    let mut tm_prefix: Vec<u8> = Vec::new();
    tm_prefix.push(0);
    let mut tm_order: Vec<i32> = Vec::new();
    tm_order.push(0);
    tm_order.push(1);
    let tendermint = ProofSpec {
        leaf_spec: Some(
            LeafOp { hash: 1, prehash_key: 0, prehash_value: 1, length: 1, prefix: tm_prefix },
        ),
        inner_spec: Some(
            InnerSpec {
                child_order: tm_order,
                child_size: 32,
                min_prefix_length: 1,
                max_prefix_length: 1,
                empty_child: Vec::new(),
                hash: 1,
            },
        ),
        max_depth: 0,
        min_depth: 0,
        prehash_key_before_comparison: false,
    };
    let mut specs: Vec<ProofSpec> = Vec::new();
    specs.push(iavl);
    specs.push(tendermint);
    specs
}

/// The client state of the Tendermint light client, as plain values.
#[derive(Debug)]
pub struct TendermintClientState {
    pub chain_id: String,
    pub trust_level_numerator: u64,
    pub trust_level_denominator: u64,
    pub trusting_period: SignedDuration,
    pub unbonding_period: SignedDuration,
    pub max_clock_drift: SignedDuration,
    pub frozen_height: Height,
    pub latest_height: Height,
    pub proof_specs: Vec<ProofSpec>,
    pub upgrade_path: Vec<String>,
    pub allow_update_after_expiry: bool,
    pub allow_update_after_misbehaviour: bool,
}

/// The consensus state taken from a fetched block header: its time and
/// the application and next-validators hashes.
#[derive(Debug)]
pub struct TendermintConsensusState {
    pub timestamp_seconds: i64,
    pub timestamp_nanos: i32,
    pub root_hash: Vec<u8>,
    pub next_validators_hash: Vec<u8>,
}

/// Builds the Tendermint client and consensus state pair from the
/// chain's configuration and the values the remote chain reported: the
/// unbonding period from its staking params, its RPC status, and the
/// consensus state extracted from the block header at the latest
/// height.  A node that is still catching up is rejected.
pub fn msg_create_tendermint_client(
    chain: &Chain,
    unbonding_period: SignedDuration,
    catching_up: bool,
    network: &str,
    latest_block_height: u64,
    consensus_state: TendermintConsensusState,
) -> (r: Result<(TendermintClientState, TendermintConsensusState), Error>)
    ensures
        match r {
            Ok((client, consensus)) => {
                &&& !catching_up
                &&& client.chain_id@ == chain.id@
                &&& client.trust_level_numerator == chain.trust_level_numerator
                &&& client.trust_level_denominator == chain.trust_level_denominator
                &&& client.trusting_period == chain.trusting_period
                &&& client.unbonding_period == unbonding_period
                &&& client.max_clock_drift == chain.max_clock_drift
                &&& client.frozen_height@ == crate::wire_ibc::HeightV {
                    revision_number: 0,
                    revision_height: 0,
                }
                &&& client.latest_height@ == crate::wire_ibc::HeightV {
                    revision_number: crate::chain::spec_chain_id_version(
                        vstd::utf8::encode_utf8(network@),
                    ),
                    revision_height: latest_block_height,
                }
                &&& client.proof_specs@.len() == 2
                &&& is_canonical_iavl_spec(client.proof_specs@[0])
                &&& is_canonical_tendermint_spec(client.proof_specs@[1])
                &&& client.upgrade_path.deep_view() =~~= seq![
                    "upgrade"@,
                    "upgradedIBCState"@,
                ]
                &&& !client.allow_update_after_expiry
                &&& !client.allow_update_after_misbehaviour
                &&& consensus == consensus_state
            },
            Err(e) => catching_up && e == Error::NodeCatchingUp,
        },
{
    let latest_height = get_latest_height(catching_up, network, latest_block_height)?;
    let mut upgrade_path: Vec<String> = Vec::new();
    upgrade_path.push(String::from_str("upgrade"));
    upgrade_path.push(String::from_str("upgradedIBCState"));
    let client = TendermintClientState {
        chain_id: String::from_str(chain.id.as_str()),
        trust_level_numerator: chain.trust_level_numerator,
        trust_level_denominator: chain.trust_level_denominator,
        trusting_period: chain.trusting_period,
        unbonding_period,
        max_clock_drift: chain.max_clock_drift,
        frozen_height: Height { revision_number: 0, revision_height: 0 },
        latest_height,
        proof_specs: canonical_proof_specs(),
        upgrade_path,
        allow_update_after_expiry: false,
        allow_update_after_misbehaviour: false,
    };
    proof {
        assert(client.upgrade_path.deep_view() =~~= seq!["upgrade"@, "upgradedIBCState"@]);
    }
    Ok((client, consensus_state))
}

} // verus!
