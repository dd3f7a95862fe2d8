//! The per-counterparty chain snapshot the builder works from, and the
//! sequence-increment primitive.
//!
//! The `sequence` counter is the only mutable state in the whole
//! builder: it advances by exactly one per generated proof and is never
//! rolled back.  Everything else in a `Chain` is fixed when the chain
//! is registered.

use vstd::prelude::*;

use vstd::utf8::encode_utf8;

verus! {

/// A signed duration, as protobuf carries it: seconds and nanoseconds.
#[derive(Clone, Copy, Debug, PartialEq, Eq, Structural)]
pub struct SignedDuration {
    pub seconds: i64,
    pub nanos: i32,
}

/// The fee taken verbatim from chain configuration.
pub struct FeeConfig {
    /// Denomination of the fee coin.
    pub denom: String,
    /// Amount of the fee coin; rendered in decimal on the wire.
    pub amount: u64,
    /// Gas limit of the transaction.
    pub gas_limit: u64,
}

/// A snapshot of one counterparty chain's configuration and signing
/// state.
pub struct Chain {
    /// Chain identifier, with a numeric revision suffix.
    pub id: String,
    /// gRPC endpoint of the counterparty chain.
    pub grpc_addr: String,
    /// Tendermint RPC endpoint of the counterparty chain.
    pub rpc_addr: String,
    /// Bech32 human-readable part of account addresses.
    pub account_prefix: String,
    /// Fee configuration.
    pub fee: FeeConfig,
    /// Numerator of the light-client trust level.
    pub trust_level_numerator: u64,
    /// Denominator of the light-client trust level.
    pub trust_level_denominator: u64,
    /// Trusting period of the light client.
    pub trusting_period: SignedDuration,
    /// Maximum clock drift the light client tolerates.
    pub max_clock_drift: SignedDuration,
    /// IBC application port.
    pub port_id: String,
    /// Opaque string binding solo-machine signatures to this chain.
    pub diversifier: String,
    /// Unix timestamp frozen at client creation and embedded in every
    /// proof.
    pub consensus_timestamp: u64,
    /// Monotonically increasing signing sequence.
    pub sequence: u64,
}

/// The fields of a chain that never change after registration.
pub open spec fn same_chain_config(a: Chain, b: Chain) -> bool {
    &&& a.id == b.id
    &&& a.grpc_addr == b.grpc_addr
    &&& a.rpc_addr == b.rpc_addr
    &&& a.account_prefix == b.account_prefix
    &&& a.trust_level_numerator == b.trust_level_numerator
    &&& a.trust_level_denominator == b.trust_level_denominator
    &&& a.trusting_period == b.trusting_period
    &&& a.max_clock_drift == b.max_clock_drift
    &&& a.fee.denom == b.fee.denom
    &&& a.fee.amount == b.fee.amount
    &&& a.fee.gas_limit == b.fee.gas_limit
    &&& a.port_id == b.port_id
    &&& a.diversifier == b.diversifier
    &&& a.consensus_timestamp == b.consensus_timestamp
}

impl Chain {
    /// Advances the signing sequence by exactly one.  A proof signed at
    /// the current sequence burns it, whether or not the enclosing
    /// transaction is ever broadcast.
    pub fn increment_sequence(&mut self)
        requires
            old(self).sequence < u64::MAX,
        ensures
            final(self).sequence == old(self).sequence + 1,
            same_chain_config(*final(self), *old(self)),
    {
        self.sequence = self.sequence + 1;
    }
}

/// The UTF-8 bytes of a chain's identifier.
pub open spec fn chain_id_bytes(c: Chain) -> Seq<u8> {
    encode_utf8(c.id@)
}

/// The UTF-8 bytes of a chain's diversifier.
pub open spec fn diversifier_bytes(c: Chain) -> Seq<u8> {
    encode_utf8(c.diversifier@)
}

/// Whether every byte is an ASCII decimal digit (and there is at least
/// one).
pub open spec fn is_digits(s: Seq<u8>) -> bool {
    s.len() > 0 && forall|i: int| 0 <= i < s.len() ==> 48 <= #[trigger] s[i] <= 57
}

/// The number the decimal digits `s` denote.
pub open spec fn dec_value(s: Seq<u8>) -> int
    decreases s.len(),
{
    if s.len() == 0 {
        0
    } else {
        dec_value(s.drop_last()) * 10 + (s.last() - 48)
    }
}

/// The index of the last `-` in `s`, or `-1` when there is none.
pub open spec fn find_last_dash(s: Seq<u8>) -> int
    decreases s.len(),
{
    if s.len() == 0 {
        -1
    } else if s.last() == 45 {
        s.len() - 1
    } else {
        find_last_dash(s.drop_last())
    }
}

/// The revision number carried by a chain identifier: the value of the
/// decimal suffix after the last `-`, or zero when there is no dash, no
/// digits, or the value does not fit in 64 bits.
pub open spec fn spec_chain_id_version(s: Seq<u8>) -> u64 {
    let d = find_last_dash(s);
    if d >= 0 && is_digits(s.skip(d + 1)) && dec_value(s.skip(d + 1)) <= u64::MAX {
        dec_value(s.skip(d + 1)) as u64
    } else {
        0
    }
}

proof fn lemma_find_last_dash_bounds(s: Seq<u8>)
    ensures
        -1 <= find_last_dash(s) < s.len(),
        find_last_dash(s) >= 0 ==> s[find_last_dash(s)] == 45,
        forall|j: int| find_last_dash(s) < j < s.len() ==> #[trigger] s[j] != 45,
    decreases s.len(),
{
    if s.len() == 0 {
    } else if s.last() == 45 {
    } else {
        lemma_find_last_dash_bounds(s.drop_last());
        assert(forall|j: int| 0 <= j < s.len() - 1 ==> #[trigger] s[j] == s.drop_last()[j]);
    }
}

proof fn lemma_dec_value_nonneg(s: Seq<u8>)
    requires
        forall|i: int| 0 <= i < s.len() ==> 48 <= #[trigger] s[i] <= 57,
    ensures
        dec_value(s) >= 0,
    decreases s.len(),
{
    if s.len() > 0 {
        assert(forall|i: int|
            0 <= i < s.len() - 1 ==> 48 <= #[trigger] s.drop_last()[i] <= 57);
        lemma_dec_value_nonneg(s.drop_last());
    }
}

/// On an all-digit string, the value of a prefix never exceeds the
/// value of the whole.
proof fn lemma_dec_value_extends(s: Seq<u8>, n: int)
    requires
        1 <= n <= s.len(),
        is_digits(s),
    ensures
        dec_value(s.take(n)) <= dec_value(s),
    decreases s.len() - n,
{
    if n == s.len() {
        assert(s.take(n) =~= s);
    } else {
        lemma_dec_value_extends(s, n + 1);
        assert(s.take(n + 1).drop_last() =~= s.take(n));
        assert(s.take(n + 1).last() == s[n]);
        assert(forall|i: int|
            0 <= i < n ==> 48 <= #[trigger] s.take(n)[i] <= 57);
        lemma_dec_value_nonneg(s.take(n));
        assert(dec_value(s.take(n)) * 10 >= dec_value(s.take(n)));
    }
}

/// The revision number of a chain identifier, as its UTF-8 bytes carry
/// it.
pub fn chain_id_version(id: &[u8]) -> (r: u64)
    ensures
        r == spec_chain_id_version(id@),
{
    proof {
        lemma_find_last_dash_bounds(id@);
    }
    let mut found: bool = false;
    let mut d: usize = 0;
    let mut k: usize = id.len();
    while k > 0
        invariant
            k <= id@.len(),
            found ==> k <= d < id@.len() && d == find_last_dash(id@),
            !found ==> find_last_dash(id@) < k,
        decreases k,
    {
        k = k - 1;
        proof {
            lemma_find_last_dash_bounds(id@);
        }
        if !found && id[k] == 45 {
            d = k;
            found = true;
        }
    }
    if !found {
        return 0;
    }
    if d + 1 >= id.len() {
        proof {
            assert(!is_digits(id@.skip(d + 1)));
        }
        return 0;
    }
    let ghost suffix = id@.skip(d + 1);
    let mut value: u64 = 0;
    let mut i: usize = d + 1;
    while i < id.len()
        invariant
            d + 1 <= i <= id@.len(),
            d < id@.len(),
            d == find_last_dash(id@),
            suffix == id@.skip(d + 1),
            suffix.len() == id@.len() - d - 1,
            forall|j: int| 0 <= j < i - d - 1 ==> 48 <= #[trigger] suffix[j] <= 57,
            value == dec_value(suffix.take(i - d - 1)),
        decreases id@.len() - i,
    {
        let b = id[i];
        proof {
            assert(suffix[i - d - 1] == id@[i as int]);
        }
        if b < 48 || b > 57 {
            proof {
                assert(!is_digits(suffix));
            }
            return 0;
        }
        let digit: u64 = (b - 48) as u64;
        proof {
            assert(suffix.take(i - d) .drop_last() =~= suffix.take(i - d - 1));
            assert(suffix.take(i - d).last() == suffix[i - d - 1]);
            assert(dec_value(suffix.take(i - d)) == dec_value(suffix.take(i - d - 1)) * 10 + (
            b - 48));
        }
        if value > (u64::MAX - digit) / 10 {
            proof {
                assert(value * 10 + digit > u64::MAX) by (nonlinear_arith)
                    requires
                        value > (u64::MAX - digit) / 10,
                        digit <= 9,
                ;
                if is_digits(suffix) {
                    lemma_dec_value_extends(suffix, i - d);
                    assert(dec_value(suffix) > u64::MAX);
                }
            }
            return 0;
        }
        proof {
            assert(value * 10 + digit <= u64::MAX) by (nonlinear_arith)
                requires
                    value <= (u64::MAX - digit) / 10,
                    digit <= 9,
            ;
        }
        value = value * 10 + digit;
        i = i + 1;
    }
    proof {
        assert(suffix.take(id@.len() - d - 1) =~= suffix);
        assert(is_digits(suffix));
    }
    value
}

} // verus!
