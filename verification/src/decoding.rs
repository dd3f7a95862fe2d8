//! Spec-level decoders for the wire format, and the round-trip lemmas
//! showing that decoding an encoding recovers the message that went in.
//!
//! The decoders walk the canonical field order the encoders emit.  A
//! scalar field whose key is absent decodes to its default, exactly as
//! proto3 prescribes.

use vstd::prelude::*;

use crate::encoding::{enc_list, field_bytes, field_u64, len_prefixed, tag_of, varint};
use crate::wire_solo::{
    spec_encode_sign_bytes, spec_encode_timestamped_signature_data, SignBytesV,
    TimestampedSignatureDataV,
};
use crate::wire_tx::{
    any_encoder, bytes_encoder, coin_encoder, signer_info_encoder, spec_encode_any,
    spec_encode_auth_info, spec_encode_coin, spec_encode_fee, spec_encode_mode_info,
    spec_encode_sign_doc, spec_encode_signer_info, spec_encode_tx_body, spec_encode_tx_raw,
    AnyV, AuthInfoV, CoinV, FeeV, ModeInfoV, SignDocV, SignerInfoV, TxBodyV, TxRawV,
};

verus! {

/// Decodes one varint from the front of `b`.
pub open spec fn dec_varint(b: Seq<u8>) -> Option<(nat, Seq<u8>)>
    decreases b.len(),
{
    if b.len() == 0 {
        None
    } else if b[0] < 128 {
        Some((b[0] as nat, b.drop_first()))
    } else {
        match dec_varint(b.drop_first()) {
            None => None,
            Some((m, rest)) => Some((((b[0] - 128) + 128 * m) as nat, rest)),
        }
    }
}

/// A decoded varint always consumes at least one byte.
pub proof fn lemma_dec_varint_shrinks(b: Seq<u8>)
    ensures
        match dec_varint(b) {
            Some((n, rest)) => rest.len() < b.len(),
            None => true,
        },
    decreases b.len(),
{
    if b.len() > 0 && b[0] >= 128 {
        lemma_dec_varint_shrinks(b.drop_first());
    }
}

/// Decoding undoes encoding, whatever follows the varint.
pub proof fn lemma_varint_round_trip(n: nat, rest: Seq<u8>)
    ensures
        dec_varint(varint(n) + rest) == Some((n, rest)),
    decreases n,
{
    let b = varint(n) + rest;
    if n < 128 {
        assert(b[0] == n);
        assert(b.drop_first() =~= rest);
    } else {
        assert(b[0] == (n % 128) + 128);
        assert(b.drop_first() =~= varint(n / 128) + rest);
        lemma_varint_round_trip(n / 128, rest);
        assert((b[0] - 128) + 128 * (n / 128) == n) by {
            assert(n % 128 + 128 * (n / 128) == n) by (nonlinear_arith);
        }
    }
}

/// Parses an optional scalar field with the given single-byte key: an
/// absent key yields the default value zero.
pub open spec fn parse_u64_field(tag: u8, b: Seq<u8>) -> Option<(nat, Seq<u8>)> {
    if b.len() == 0 || b[0] != tag {
        Some((0, b))
    } else {
        dec_varint(b.drop_first())
    }
}

/// Parses an optional length-delimited field with the given single-byte
/// key: an absent key yields the empty payload.
pub open spec fn parse_bytes_field(tag: u8, b: Seq<u8>) -> Option<(Seq<u8>, Seq<u8>)> {
    if b.len() == 0 || b[0] != tag {
        Some((Seq::empty(), b))
    } else {
        match dec_varint(b.drop_first()) {
            None => None,
            Some((len, rest)) => if rest.len() >= len {
                Some((rest.take(len as int), rest.skip(len as int)))
            } else {
                None
            },
        }
    }
}

/// A scalar field is empty or starts with its key byte.
pub proof fn lemma_field_u64_first_byte(f: u64, n: u64)
    requires
        1 <= f <= 15,
    ensures
        field_u64(f, n).len() == 0 || field_u64(f, n)[0] == (f * 8) as u8,
{
    if n != 0 {
        assert(tag_of(f, 0) == varint((f * 8) as nat));
        assert(varint((f * 8) as nat) == seq![(f * 8) as u8]);
        assert(field_u64(f, n)[0] == (f * 8) as u8);
    }
}

/// A bytes field is empty or starts with its key byte.
pub proof fn lemma_field_bytes_first_byte(f: u64, data: Seq<u8>)
    requires
        1 <= f <= 15,
    ensures
        field_bytes(f, data).len() == 0 || field_bytes(f, data)[0] == (f * 8 + 2) as u8,
{
    if data.len() != 0 {
        assert(tag_of(f, 2) == varint((f * 8 + 2) as nat));
        assert(varint((f * 8 + 2) as nat) == seq![(f * 8 + 2) as u8]);
        assert(field_bytes(f, data)[0] == (f * 8 + 2) as u8);
    }
}

/// An always-emitted length-delimited field starts with its key byte.
pub proof fn lemma_len_prefixed_first_byte(f: u64, data: Seq<u8>)
    requires
        1 <= f <= 15,
    ensures
        len_prefixed(f, data).len() > 0,
        len_prefixed(f, data)[0] == (f * 8 + 2) as u8,
{
    assert(tag_of(f, 2) == varint((f * 8 + 2) as nat));
    assert(varint((f * 8 + 2) as nat) == seq![(f * 8 + 2) as u8]);
}

/// Parsing undoes a scalar field encoding when what follows does not
/// begin with the field's key.
pub proof fn lemma_parse_u64_field(f: u64, n: u64, rest: Seq<u8>)
    requires
        1 <= f <= 15,
        rest.len() == 0 || rest[0] != (f * 8) as u8,
    ensures
        parse_u64_field((f * 8) as u8, field_u64(f, n) + rest) == Some((n as nat, rest)),
{
    let tag = (f * 8) as u8;
    let b = field_u64(f, n) + rest;
    if n == 0 {
        assert(b =~= rest);
    } else {
        assert(tag_of(f, 0) == varint((f * 8) as nat));
        assert(varint((f * 8) as nat) == seq![tag]);
        assert(b[0] == tag);
        assert(tag >= 8);
        assert(b.drop_first() =~= varint(n as nat) + rest);
        lemma_varint_round_trip(n as nat, rest);
    }
}

/// Parsing undoes a bytes field encoding when what follows does not
/// begin with the field's key.
pub proof fn lemma_parse_bytes_field(f: u64, data: Seq<u8>, rest: Seq<u8>)
    requires
        1 <= f <= 15,
        rest.len() == 0 || rest[0] != (f * 8 + 2) as u8,
    ensures
        parse_bytes_field((f * 8 + 2) as u8, field_bytes(f, data) + rest) == Some((data, rest)),
{
    let tag = (f * 8 + 2) as u8;
    let b = field_bytes(f, data) + rest;
    if data.len() == 0 {
        assert(b =~= rest);
        assert(parse_bytes_field(tag, b) == Some((Seq::<u8>::empty(), rest)));
        assert(data =~= Seq::<u8>::empty());
    } else {
        assert(tag_of(f, 2) == varint((f * 8 + 2) as nat));
        assert(varint((f * 8 + 2) as nat) == seq![tag]);
        assert(b[0] == tag);
        assert(tag >= 10);
        assert(b.drop_first() =~= varint(data.len()) + (data + rest));
        lemma_varint_round_trip(data.len(), data + rest);
        assert((data + rest).take(data.len() as int) =~= data);
        assert((data + rest).skip(data.len() as int) =~= rest);
    }
}

/// Decodes a whole `Any`, requiring the input to be consumed exactly.
pub open spec fn dec_any(b: Seq<u8>) -> Option<AnyV> {
    match parse_bytes_field(10, b) {
        None => None,
        Some((type_url, b1)) => match parse_bytes_field(18, b1) {
            None => None,
            Some((value, b2)) => if b2.len() == 0 {
                Some(AnyV { type_url, value })
            } else {
                None
            },
        },
    }
}

/// Decoding undoes the `Any` encoding.
pub proof fn lemma_any_round_trip(a: AnyV)
    ensures
        dec_any(spec_encode_any(a)) == Some(a),
{
    let b = spec_encode_any(a);
    lemma_field_bytes_first_byte(2, a.value);
    assert(field_bytes(2, a.value) + Seq::<u8>::empty() =~= field_bytes(2, a.value));
    lemma_parse_bytes_field(1, a.type_url, field_bytes(2, a.value));
    lemma_parse_bytes_field(2, a.value, Seq::empty());
}

/// Parses a repeated `Any` field: every leading element under key `10`.
pub open spec fn parse_anys(b: Seq<u8>) -> Option<(Seq<AnyV>, Seq<u8>)>
    decreases b.len(),
    when true
    via parse_anys_decreases
{
    if b.len() == 0 || b[0] != 10 {
        Some((Seq::empty(), b))
    } else {
        match dec_varint(b.drop_first()) {
            None => None,
            Some((len, rest)) => if rest.len() >= len {
                match dec_any(rest.take(len as int)) {
                    None => None,
                    Some(a) => match parse_anys(rest.skip(len as int)) {
                        None => None,
                        Some((list, rest2)) => Some((seq![a] + list, rest2)),
                    },
                }
            } else {
                None
            },
        }
    }
}

#[via_fn]
proof fn parse_anys_decreases(b: Seq<u8>) {
    if !(b.len() == 0 || b[0] != 10) {
        match dec_varint(b.drop_first()) {
            None => {},
            Some((len, rest)) => {
                lemma_dec_varint_shrinks(b.drop_first());
            },
        }
    }
}

/// Parsing undoes a repeated `Any` encoding when what follows does not
/// begin with the repeated field's key.
#[verifier::rlimit(50)]
pub proof fn lemma_parse_anys_round_trip(s: Seq<AnyV>, rest: Seq<u8>)
    requires
        rest.len() == 0 || rest[0] != 10,
    ensures
        parse_anys(enc_list(1, s, any_encoder()) + rest) == Some((s, rest)),
    decreases s.len(),
{
    let b = enc_list(1, s, any_encoder()) + rest;
    if s.len() == 0 {
        assert(b =~= rest);
        assert(parse_anys(b) == Some((Seq::<AnyV>::empty(), rest)));
        assert(s =~= Seq::<AnyV>::empty());
    } else {
        let a0 = s[0];
        let payload = spec_encode_any(a0);
        let tail = enc_list(1, s.drop_first(), any_encoder()) + rest;
        lemma_len_prefixed_first_byte(1, payload);
        assert(tag_of(1, 2) == varint(10));
        assert(varint(10) == seq![10u8]);
        assert(b =~= len_prefixed(1, payload) + tail);
        assert(b[0] == 10);
        assert(b.drop_first() =~= varint(payload.len()) + (payload + tail));
        lemma_varint_round_trip(payload.len(), payload + tail);
        assert((payload + tail).take(payload.len() as int) =~= payload);
        assert((payload + tail).skip(payload.len() as int) =~= tail);
        lemma_any_round_trip(a0);
        lemma_parse_anys_round_trip(s.drop_first(), rest);
        assert(seq![a0] + s.drop_first() =~= s);
    }
}

/// Decodes a whole transaction body with empty extension slots.
pub open spec fn dec_tx_body(b: Seq<u8>) -> Option<TxBodyV> {
    match parse_anys(b) {
        None => None,
        Some((messages, b1)) => match parse_bytes_field(18, b1) {
            None => None,
            Some((memo, b2)) => match parse_u64_field(24, b2) {
                None => None,
                Some((timeout, b3)) => if b3.len() == 0 && timeout <= u64::MAX {
                    Some(
                        TxBodyV {
                            messages,
                            memo,
                            timeout_height: timeout as u64,
                            extension_options: Seq::empty(),
                            non_critical_extension_options: Seq::empty(),
                        },
                    )
                } else {
                    None
                },
            },
        },
    }
}

/// Decoding undoes the transaction body encoding, for bodies whose
/// extension slots are empty — the only bodies this builder emits.
pub proof fn lemma_tx_body_round_trip(m: TxBodyV)
    requires
        m.extension_options.len() == 0,
        m.non_critical_extension_options.len() == 0,
    ensures
        dec_tx_body(spec_encode_tx_body(m)) == Some(m),
{
    let b = spec_encode_tx_body(m);
    let f1 = enc_list(1, m.messages, any_encoder());
    let f2 = field_bytes(2, m.memo);
    let f3 = field_u64(3, m.timeout_height);
    assert(enc_list(1023, m.extension_options, any_encoder()) == Seq::<u8>::empty());
    assert(enc_list(2047, m.non_critical_extension_options, any_encoder())
        == Seq::<u8>::empty());
    assert(b =~= f1 + (f2 + (f3 + Seq::<u8>::empty())));
    assert(f3 + Seq::<u8>::empty() =~= f3);
    assert(b =~= f1 + (f2 + f3));
    lemma_field_bytes_first_byte(2, m.memo);
    lemma_field_u64_first_byte(3, m.timeout_height);
    if f2.len() > 0 {
        assert((f2 + f3)[0] == 18);
    } else if f3.len() > 0 {
        assert(f2 + f3 =~= f3);
        assert((f2 + f3)[0] == 24);
    } else {
        assert((f2 + f3).len() == 0);
    }
    lemma_parse_anys_round_trip(m.messages, f2 + f3);
    lemma_field_u64_first_byte(3, m.timeout_height);
    lemma_parse_bytes_field(2, m.memo, f3);
    lemma_parse_u64_field(3, m.timeout_height, Seq::empty());
    assert(f3 + Seq::<u8>::empty() =~= f3);
    assert(m.extension_options =~= Seq::<AnyV>::empty());
    assert(m.non_critical_extension_options =~= Seq::<AnyV>::empty());
}

/// Decodes a whole `SignBytes`.
pub open spec fn dec_sign_bytes(b: Seq<u8>) -> Option<SignBytesV> {
    match parse_u64_field(8, b) {
        None => None,
        Some((sequence, b1)) => match parse_u64_field(16, b1) {
            None => None,
            Some((timestamp, b2)) => match parse_bytes_field(26, b2) {
                None => None,
                Some((diversifier, b3)) => match parse_u64_field(32, b3) {
                    None => None,
                    Some((data_type, b4)) => match parse_bytes_field(42, b4) {
                        None => None,
                        Some((data, b5)) => if b5.len() == 0 && sequence <= u64::MAX && timestamp
                            <= u64::MAX && data_type <= u64::MAX {
                            Some(
                                SignBytesV {
                                    sequence: sequence as u64,
                                    timestamp: timestamp as u64,
                                    diversifier,
                                    data_type: data_type as u64,
                                    data,
                                },
                            )
                        } else {
                            None
                        },
                    },
                },
            },
        },
    }
}

/// Decoding undoes the `SignBytes` encoding: a proof's preimage
/// round-trips exactly its sequence, timestamp, diversifier, data type
/// and data.
pub proof fn lemma_sign_bytes_round_trip(m: SignBytesV)
    ensures
        dec_sign_bytes(spec_encode_sign_bytes(m)) == Some(m),
{
    let f1 = field_u64(1, m.sequence);
    let f2 = field_u64(2, m.timestamp);
    let f3 = field_bytes(3, m.diversifier);
    let f4 = field_u64(4, m.data_type);
    let f5 = field_bytes(5, m.data);
    let b = spec_encode_sign_bytes(m);
    lemma_field_u64_first_byte(2, m.timestamp);
    lemma_field_bytes_first_byte(3, m.diversifier);
    lemma_field_u64_first_byte(4, m.data_type);
    lemma_field_bytes_first_byte(5, m.data);
    let r1 = f2 + (f3 + (f4 + f5));
    let r2 = f3 + (f4 + f5);
    let r3 = f4 + f5;
    let r4 = f5;
    assert(b =~= f1 + r1);
    assert(r1.len() == 0 || r1[0] != 8) by {
        if f2.len() > 0 {
            assert(r1[0] == 16);
        } else if f3.len() > 0 {
            assert(r1 =~= r2);
            assert(r1[0] == 26);
        } else if f4.len() > 0 {
            assert(r1 =~= r3);
            assert(r1[0] == 32);
        } else if f5.len() > 0 {
            assert(r1 =~= r4);
            assert(r1[0] == 42);
        } else {
            assert(r1.len() == 0);
        }
    }
    lemma_parse_u64_field(1, m.sequence, r1);
    assert(r2.len() == 0 || r2[0] != 16) by {
        if f3.len() > 0 {
            assert(r2[0] == 26);
        } else if f4.len() > 0 {
            assert(r2 =~= r3);
            assert(r2[0] == 32);
        } else if f5.len() > 0 {
            assert(r2 =~= r4);
            assert(r2[0] == 42);
        } else {
            assert(r2.len() == 0);
        }
    }
    lemma_parse_u64_field(2, m.timestamp, r2);
    assert(r3.len() == 0 || r3[0] != 26) by {
        if f4.len() > 0 {
            assert(r3[0] == 32);
        } else if f5.len() > 0 {
            assert(r3 =~= r4);
            assert(r3[0] == 42);
        } else {
            assert(r3.len() == 0);
        }
    }
    lemma_parse_bytes_field(3, m.diversifier, r3);
    assert(r4.len() == 0 || r4[0] != 32) by {
        if f5.len() > 0 {
            assert(r4[0] == 42);
        }
    }
    lemma_parse_u64_field(4, m.data_type, r4);
    assert(f5 + Seq::<u8>::empty() =~= f5);
    lemma_parse_bytes_field(5, m.data, Seq::empty());
}

/// Decodes a whole `TxRaw`.
pub open spec fn dec_tx_raw(b: Seq<u8>) -> Option<TxRawV> {
    match parse_bytes_field(10, b) {
        None => None,
        Some((body_bytes, b1)) => match parse_bytes_field(18, b1) {
            None => None,
            Some((auth_info_bytes, b2)) => match parse_bytes_list(26, b2) {
                None => None,
                Some((signatures, b3)) => if b3.len() == 0 {
                    Some(TxRawV { body_bytes, auth_info_bytes, signatures })
                } else {
                    None
                },
            },
        },
    }
}

/// Parses a repeated `bytes` field under the given single-byte key.
pub open spec fn parse_bytes_list(tag: u8, b: Seq<u8>) -> Option<(Seq<Seq<u8>>, Seq<u8>)>
    decreases b.len(),
    when true
    via parse_bytes_list_decreases
{
    if b.len() == 0 || b[0] != tag {
        Some((Seq::empty(), b))
    } else {
        match dec_varint(b.drop_first()) {
            None => None,
            Some((len, rest)) => if rest.len() >= len {
                match parse_bytes_list(tag, rest.skip(len as int)) {
                    None => None,
                    Some((list, rest2)) => Some(
                        (seq![rest.take(len as int)] + list, rest2),
                    ),
                }
            } else {
                None
            },
        }
    }
}

#[via_fn]
proof fn parse_bytes_list_decreases(tag: u8, b: Seq<u8>) {
    if !(b.len() == 0 || b[0] != tag) {
        match dec_varint(b.drop_first()) {
            None => {},
            Some((len, rest)) => {
                lemma_dec_varint_shrinks(b.drop_first());
            },
        }
    }
}

/// Parsing undoes a repeated `bytes` encoding when what follows does
/// not begin with the repeated field's key.
#[verifier::rlimit(50)]
pub proof fn lemma_parse_bytes_list_round_trip(f: u64, s: Seq<Seq<u8>>, rest: Seq<u8>)
    requires
        1 <= f <= 15,
        rest.len() == 0 || rest[0] != (f * 8 + 2) as u8,
    ensures
        parse_bytes_list((f * 8 + 2) as u8, enc_list(f, s, bytes_encoder()) + rest) == Some(
            (s, rest),
        ),
    decreases s.len(),
{
    let tag = (f * 8 + 2) as u8;
    let b = enc_list(f, s, bytes_encoder()) + rest;
    if s.len() == 0 {
        assert(b =~= rest);
        assert(parse_bytes_list(tag, b) == Some((Seq::<Seq<u8>>::empty(), rest)));
        assert(s =~= Seq::<Seq<u8>>::empty());
    } else {
        let e0 = s[0];
        let tail = enc_list(f, s.drop_first(), bytes_encoder()) + rest;
        lemma_len_prefixed_first_byte(f, e0);
        assert(tag_of(f, 2) == varint((f * 8 + 2) as nat));
        assert(varint((f * 8 + 2) as nat) == seq![tag]);
        assert(b =~= len_prefixed(f, e0) + tail);
        assert(b[0] == tag);
        assert(tag >= 10);
        assert(b.drop_first() =~= varint(e0.len()) + (e0 + tail));
        lemma_varint_round_trip(e0.len(), e0 + tail);
        assert((e0 + tail).take(e0.len() as int) =~= e0);
        assert((e0 + tail).skip(e0.len() as int) =~= tail);
        lemma_parse_bytes_list_round_trip(f, s.drop_first(), rest);
        assert(seq![e0] + s.drop_first() =~= s);
    }
}

/// Decoding undoes the `TxRaw` encoding.
pub proof fn lemma_tx_raw_round_trip(m: TxRawV)
    ensures
        dec_tx_raw(spec_encode_tx_raw(m)) == Some(m),
{
    let f1 = field_bytes(1, m.body_bytes);
    let f2 = field_bytes(2, m.auth_info_bytes);
    let f3 = enc_list(3, m.signatures, bytes_encoder());
    let b = spec_encode_tx_raw(m);
    lemma_field_bytes_first_byte(2, m.auth_info_bytes);
    assert(b =~= f1 + (f2 + f3));
    assert((f2 + f3).len() == 0 || (f2 + f3)[0] != 10) by {
        if f2.len() > 0 {
            assert((f2 + f3)[0] == 18);
        } else if f3.len() > 0 {
            assert(f2 + f3 =~= f3);
            lemma_enc_list_first_byte(3, m.signatures);
            assert((f2 + f3)[0] == 26);
        } else {
            assert((f2 + f3).len() == 0);
        }
    }
    lemma_parse_bytes_field(1, m.body_bytes, f2 + f3);
    assert(f3.len() == 0 || f3[0] != 18) by {
        if f3.len() > 0 {
            lemma_enc_list_first_byte(3, m.signatures);
        }
    }
    lemma_parse_bytes_field(2, m.auth_info_bytes, f3);
    assert(f3 + Seq::<u8>::empty() =~= f3);
    lemma_parse_bytes_list_round_trip(3, m.signatures, Seq::empty());
}

/// Decodes a whole `SignDoc`.
pub open spec fn dec_sign_doc(b: Seq<u8>) -> Option<SignDocV> {
    match parse_bytes_field(10, b) {
        None => None,
        Some((body_bytes, b1)) => match parse_bytes_field(18, b1) {
            None => None,
            Some((auth_info_bytes, b2)) => match parse_bytes_field(26, b2) {
                None => None,
                Some((chain_id, b3)) => match parse_u64_field(32, b3) {
                    None => None,
                    Some((account_number, b4)) => if b4.len() == 0 && account_number
                        <= u64::MAX {
                        Some(
                            SignDocV {
                                body_bytes,
                                auth_info_bytes,
                                chain_id,
                                account_number: account_number as u64,
                            },
                        )
                    } else {
                        None
                    },
                },
            },
        },
    }
}

/// Decoding undoes the `SignDoc` encoding: a transaction signature's
/// preimage round-trips exactly the body bytes, auth bytes, chain
/// identifier and account number it was composed from.
pub proof fn lemma_sign_doc_round_trip(m: SignDocV)
    ensures
        dec_sign_doc(spec_encode_sign_doc(m)) == Some(m),
{
    let f1 = field_bytes(1, m.body_bytes);
    let f2 = field_bytes(2, m.auth_info_bytes);
    let f3 = field_bytes(3, m.chain_id);
    let f4 = field_u64(4, m.account_number);
    let b = spec_encode_sign_doc(m);
    lemma_field_bytes_first_byte(2, m.auth_info_bytes);
    lemma_field_bytes_first_byte(3, m.chain_id);
    lemma_field_u64_first_byte(4, m.account_number);
    let r1 = f2 + (f3 + f4);
    let r2 = f3 + f4;
    assert(b =~= f1 + r1);
    assert(r1.len() == 0 || r1[0] != 10) by {
        if f2.len() > 0 {
            assert(r1[0] == 18);
        } else if f3.len() > 0 {
            assert(r1 =~= r2);
            assert(r1[0] == 26);
        } else if f4.len() > 0 {
            assert(r1 =~= f4);
            assert(r1[0] == 32);
        } else {
            assert(r1.len() == 0);
        }
    }
    lemma_parse_bytes_field(1, m.body_bytes, r1);
    assert(r2.len() == 0 || r2[0] != 18) by {
        if f3.len() > 0 {
            assert(r2[0] == 26);
        } else if f4.len() > 0 {
            assert(r2 =~= f4);
            assert(r2[0] == 32);
        } else {
            assert(r2.len() == 0);
        }
    }
    lemma_parse_bytes_field(2, m.auth_info_bytes, r2);
    assert(f4.len() == 0 || f4[0] != 26) by {
        if f4.len() > 0 {
            assert(f4[0] == 32);
        }
    }
    lemma_parse_bytes_field(3, m.chain_id, f4);
    assert(f4 + Seq::<u8>::empty() =~= f4);
    lemma_parse_u64_field(4, m.account_number, Seq::empty());
}

/// Decodes a whole `TimestampedSignatureData`.
pub open spec fn dec_timestamped_signature_data(b: Seq<u8>) -> Option<
    TimestampedSignatureDataV,
> {
    match parse_bytes_field(10, b) {
        None => None,
        Some((signature_data, b1)) => match parse_u64_field(16, b1) {
            None => None,
            Some((timestamp, b2)) => if b2.len() == 0 && timestamp <= u64::MAX {
                Some(TimestampedSignatureDataV { signature_data, timestamp: timestamp as u64 })
            } else {
                None
            },
        },
    }
}

/// Decoding undoes the `TimestampedSignatureData` encoding: a proof
/// envelope round-trips exactly its signature data and timestamp.
pub proof fn lemma_timestamped_signature_data_round_trip(m: TimestampedSignatureDataV)
    ensures
        dec_timestamped_signature_data(spec_encode_timestamped_signature_data(m)) == Some(m),
{
    let f1 = field_bytes(1, m.signature_data);
    let f2 = field_u64(2, m.timestamp);
    lemma_field_u64_first_byte(2, m.timestamp);
    assert(spec_encode_timestamped_signature_data(m) =~= f1 + f2);
    lemma_parse_bytes_field(1, m.signature_data, f2);
    assert(f2 + Seq::<u8>::empty() =~= f2);
    lemma_parse_u64_field(2, m.timestamp, Seq::empty());
}

/// Decodes a whole `Height`.
pub open spec fn dec_height(b: Seq<u8>) -> Option<crate::wire_ibc::HeightV> {
    match parse_u64_field(8, b) {
        None => None,
        Some((revision_number, b1)) => match parse_u64_field(16, b1) {
            None => None,
            Some((revision_height, b2)) => if b2.len() == 0 && revision_number <= u64::MAX
                && revision_height <= u64::MAX {
                Some(
                    crate::wire_ibc::HeightV {
                        revision_number: revision_number as u64,
                        revision_height: revision_height as u64,
                    },
                )
            } else {
                None
            },
        },
    }
}

/// Decoding undoes the `Height` encoding.
pub proof fn lemma_height_round_trip(m: crate::wire_ibc::HeightV)
    ensures
        dec_height(crate::wire_ibc::spec_encode_height(m)) == Some(m),
{
    let f1 = field_u64(1, m.revision_number);
    let f2 = field_u64(2, m.revision_height);
    lemma_field_u64_first_byte(2, m.revision_height);
    assert(crate::wire_ibc::spec_encode_height(m) =~= f1 + f2);
    lemma_parse_u64_field(1, m.revision_number, f2);
    assert(f2 + Seq::<u8>::empty() =~= f2);
    lemma_parse_u64_field(2, m.revision_height, Seq::empty());
}

/// Parses an optional embedded-message field with the given single-byte
/// key: the payload when the key is present, `None` when it is absent.
pub open spec fn parse_embedded_field(tag: u8, b: Seq<u8>) -> Option<(Option<Seq<u8>>, Seq<u8>)> {
    if b.len() == 0 || b[0] != tag {
        Some((None, b))
    } else {
        match dec_varint(b.drop_first()) {
            None => None,
            Some((len, rest)) => if rest.len() >= len {
                Some((Some(rest.take(len as int)), rest.skip(len as int)))
            } else {
                None
            },
        }
    }
}

/// Parsing finds an embedded field that is present.
pub proof fn lemma_parse_embedded_field(f: u64, payload: Seq<u8>, rest: Seq<u8>)
    requires
        1 <= f <= 15,
    ensures
        parse_embedded_field((f * 8 + 2) as u8, len_prefixed(f, payload) + rest) == Some(
            (Some(payload), rest),
        ),
{
    let tag = (f * 8 + 2) as u8;
    let b = len_prefixed(f, payload) + rest;
    assert(tag_of(f, 2) == varint((f * 8 + 2) as nat));
    assert(varint((f * 8 + 2) as nat) == seq![tag]);
    assert(b[0] == tag);
    assert(tag >= 10);
    assert(b.drop_first() =~= varint(payload.len()) + (payload + rest));
    lemma_varint_round_trip(payload.len(), payload + rest);
    assert((payload + rest).take(payload.len() as int) =~= payload);
    assert((payload + rest).skip(payload.len() as int) =~= rest);
}

/// Decodes a whole `ModeInfo` holding a single-signer arm.
pub open spec fn dec_mode_info(b: Seq<u8>) -> Option<ModeInfoV> {
    match parse_embedded_field(10, b) {
        Some((Some(single), b1)) => if b1.len() == 0 {
            match parse_u64_field(8, single) {
                Some((mode, s1)) => if s1.len() == 0 && mode <= u64::MAX {
                    Some(ModeInfoV { mode: mode as u64 })
                } else {
                    None
                },
                None => None,
            }
        } else {
            None
        },
        _ => None,
    }
}

/// Decoding undoes the `ModeInfo` encoding.
pub proof fn lemma_mode_info_round_trip(m: ModeInfoV)
    ensures
        dec_mode_info(spec_encode_mode_info(m)) == Some(m),
{
    let inner = field_u64(1, m.mode);
    assert(spec_encode_mode_info(m) =~= len_prefixed(1, inner) + Seq::<u8>::empty());
    lemma_parse_embedded_field(1, inner, Seq::empty());
    assert(inner + Seq::<u8>::empty() =~= inner);
    lemma_parse_u64_field(1, m.mode, Seq::empty());
}

/// Decodes a whole `SignerInfo`.
pub open spec fn dec_signer_info(b: Seq<u8>) -> Option<SignerInfoV> {
    match parse_embedded_field(10, b) {
        None => None,
        Some((pk_payload, b1)) => {
            let public_key = match pk_payload {
                None => Some(None),
                Some(p) => match dec_any(p) {
                    None => None,
                    Some(a) => Some(Some(a)),
                },
            };
            match public_key {
                None => None,
                Some(public_key) => match parse_embedded_field(18, b1) {
                    None => None,
                    Some((mi_payload, b2)) => {
                        let mode_info = match mi_payload {
                            None => Some(None),
                            Some(p) => match dec_mode_info(p) {
                                None => None,
                                Some(mi) => Some(Some(mi)),
                            },
                        };
                        match mode_info {
                            None => None,
                            Some(mode_info) => match parse_u64_field(24, b2) {
                                None => None,
                                Some((sequence, b3)) => if b3.len() == 0 && sequence
                                    <= u64::MAX {
                                    Some(
                                        SignerInfoV {
                                            public_key,
                                            mode_info,
                                            sequence: sequence as u64,
                                        },
                                    )
                                } else {
                                    None
                                },
                            },
                        }
                    },
                },
            }
        },
    }
}

/// Decoding undoes the `SignerInfo` encoding.
pub proof fn lemma_signer_info_round_trip(m: SignerInfoV)
    ensures
        dec_signer_info(spec_encode_signer_info(m)) == Some(m),
{
    let f1 = crate::encoding::field_opt(
        1,
        match m.public_key {
            Some(a) => Some(spec_encode_any(a)),
            None => None,
        },
    );
    let f2 = crate::encoding::field_opt(
        2,
        match m.mode_info {
            Some(mi) => Some(spec_encode_mode_info(mi)),
            None => None,
        },
    );
    let f3 = field_u64(3, m.sequence);
    let b = spec_encode_signer_info(m);
    let r1 = f2 + f3;
    assert(b =~= f1 + r1);
    lemma_field_u64_first_byte(3, m.sequence);
    assert(r1.len() == 0 || r1[0] != 10) by {
        if f2.len() > 0 {
            match m.mode_info {
                Some(mi) => {
                    lemma_len_prefixed_first_byte(2, spec_encode_mode_info(mi));
                    assert(r1[0] == 18);
                },
                None => {
                    assert(false);
                },
            }
        } else if f3.len() > 0 {
            assert(r1 =~= f3);
            assert(r1[0] == 24);
        } else {
            assert(r1.len() == 0);
        }
    }
    match m.public_key {
        Some(a) => {
            lemma_parse_embedded_field(1, spec_encode_any(a), r1);
            lemma_any_round_trip(a);
        },
        None => {
            assert(f1 + r1 =~= r1);
        },
    }
    assert(f3.len() == 0 || f3[0] != 18) by {
        if f3.len() > 0 {
            assert(f3[0] == 24);
        }
    }
    match m.mode_info {
        Some(mi) => {
            lemma_parse_embedded_field(2, spec_encode_mode_info(mi), f3);
            lemma_mode_info_round_trip(mi);
        },
        None => {
            assert(f2 + f3 =~= f3);
        },
    }
    assert(f3 + Seq::<u8>::empty() =~= f3);
    lemma_parse_u64_field(3, m.sequence, Seq::empty());
}

/// Decodes a whole `Coin`.
pub open spec fn dec_coin(b: Seq<u8>) -> Option<CoinV> {
    match parse_bytes_field(10, b) {
        None => None,
        Some((denom, b1)) => match parse_bytes_field(18, b1) {
            None => None,
            Some((amount, b2)) => if b2.len() == 0 {
                Some(CoinV { denom, amount })
            } else {
                None
            },
        },
    }
}

/// Decoding undoes the `Coin` encoding.
pub proof fn lemma_coin_round_trip(m: CoinV)
    ensures
        dec_coin(spec_encode_coin(m)) == Some(m),
{
    lemma_field_bytes_first_byte(2, m.amount);
    assert(spec_encode_coin(m) =~= field_bytes(1, m.denom) + field_bytes(2, m.amount));
    lemma_parse_bytes_field(1, m.denom, field_bytes(2, m.amount));
    assert(field_bytes(2, m.amount) + Seq::<u8>::empty() =~= field_bytes(2, m.amount));
    lemma_parse_bytes_field(2, m.amount, Seq::empty());
}

/// Parses a repeated `Coin` field under key `10`.
pub open spec fn parse_coins(b: Seq<u8>) -> Option<(Seq<CoinV>, Seq<u8>)>
    decreases b.len(),
    when true
    via parse_coins_decreases
{
    if b.len() == 0 || b[0] != 10 {
        Some((Seq::empty(), b))
    } else {
        match dec_varint(b.drop_first()) {
            None => None,
            Some((len, rest)) => if rest.len() >= len {
                match dec_coin(rest.take(len as int)) {
                    None => None,
                    Some(c) => match parse_coins(rest.skip(len as int)) {
                        None => None,
                        Some((list, rest2)) => Some((seq![c] + list, rest2)),
                    },
                }
            } else {
                None
            },
        }
    }
}

#[via_fn]
proof fn parse_coins_decreases(b: Seq<u8>) {
    if !(b.len() == 0 || b[0] != 10) {
        match dec_varint(b.drop_first()) {
            None => {},
            Some((len, rest)) => {
                lemma_dec_varint_shrinks(b.drop_first());
            },
        }
    }
}

/// Parsing undoes a repeated `Coin` encoding when what follows does not
/// begin with the repeated field's key.
#[verifier::rlimit(50)]
pub proof fn lemma_parse_coins_round_trip(s: Seq<CoinV>, rest: Seq<u8>)
    requires
        rest.len() == 0 || rest[0] != 10,
    ensures
        parse_coins(enc_list(1, s, coin_encoder()) + rest) == Some((s, rest)),
    decreases s.len(),
{
    let b = enc_list(1, s, coin_encoder()) + rest;
    if s.len() == 0 {
        assert(b =~= rest);
        assert(parse_coins(b) == Some((Seq::<CoinV>::empty(), rest)));
        assert(s =~= Seq::<CoinV>::empty());
    } else {
        let c0 = s[0];
        let payload = spec_encode_coin(c0);
        let tail = enc_list(1, s.drop_first(), coin_encoder()) + rest;
        lemma_len_prefixed_first_byte(1, payload);
        assert(tag_of(1, 2) == varint(10));
        assert(varint(10) == seq![10u8]);
        assert(b =~= len_prefixed(1, payload) + tail);
        assert(b[0] == 10);
        assert(b.drop_first() =~= varint(payload.len()) + (payload + tail));
        lemma_varint_round_trip(payload.len(), payload + tail);
        assert((payload + tail).take(payload.len() as int) =~= payload);
        assert((payload + tail).skip(payload.len() as int) =~= tail);
        lemma_coin_round_trip(c0);
        lemma_parse_coins_round_trip(s.drop_first(), rest);
        assert(seq![c0] + s.drop_first() =~= s);
    }
}

/// Decodes a whole `Fee`.
pub open spec fn dec_fee(b: Seq<u8>) -> Option<FeeV> {
    match parse_coins(b) {
        None => None,
        Some((amount, b1)) => match parse_u64_field(16, b1) {
            None => None,
            Some((gas_limit, b2)) => match parse_bytes_field(26, b2) {
                None => None,
                Some((payer, b3)) => match parse_bytes_field(34, b3) {
                    None => None,
                    Some((granter, b4)) => if b4.len() == 0 && gas_limit <= u64::MAX {
                        Some(FeeV { amount, gas_limit: gas_limit as u64, payer, granter })
                    } else {
                        None
                    },
                },
            },
        },
    }
}

/// Decoding undoes the `Fee` encoding.
pub proof fn lemma_fee_round_trip(m: FeeV)
    ensures
        dec_fee(spec_encode_fee(m)) == Some(m),
{
    let f1 = enc_list(1, m.amount, coin_encoder());
    let f2 = field_u64(2, m.gas_limit);
    let f3 = field_bytes(3, m.payer);
    let f4 = field_bytes(4, m.granter);
    let b = spec_encode_fee(m);
    let r1 = f2 + (f3 + f4);
    let r2 = f3 + f4;
    assert(b =~= f1 + r1);
    lemma_field_u64_first_byte(2, m.gas_limit);
    lemma_field_bytes_first_byte(3, m.payer);
    lemma_field_bytes_first_byte(4, m.granter);
    assert(r1.len() == 0 || r1[0] != 10) by {
        if f2.len() > 0 {
            assert(r1[0] == 16);
        } else if f3.len() > 0 {
            assert(r1 =~= r2);
            assert(r1[0] == 26);
        } else if f4.len() > 0 {
            assert(r1 =~= f4);
            assert(r1[0] == 34);
        } else {
            assert(r1.len() == 0);
        }
    }
    lemma_parse_coins_round_trip(m.amount, r1);
    assert(r2.len() == 0 || r2[0] != 16) by {
        if f3.len() > 0 {
            assert(r2[0] == 26);
        } else if f4.len() > 0 {
            assert(r2 =~= f4);
            assert(r2[0] == 34);
        } else {
            assert(r2.len() == 0);
        }
    }
    lemma_parse_u64_field(2, m.gas_limit, r2);
    assert(f4.len() == 0 || f4[0] != 26) by {
        if f4.len() > 0 {
            assert(f4[0] == 34);
        }
    }
    lemma_parse_bytes_field(3, m.payer, f4);
    assert(f4 + Seq::<u8>::empty() =~= f4);
    lemma_parse_bytes_field(4, m.granter, Seq::empty());
}

/// Parses a repeated `SignerInfo` field under key `10`.
pub open spec fn parse_signer_infos(b: Seq<u8>) -> Option<(Seq<SignerInfoV>, Seq<u8>)>
    decreases b.len(),
    when true
    via parse_signer_infos_decreases
{
    if b.len() == 0 || b[0] != 10 {
        Some((Seq::empty(), b))
    } else {
        match dec_varint(b.drop_first()) {
            None => None,
            Some((len, rest)) => if rest.len() >= len {
                match dec_signer_info(rest.take(len as int)) {
                    None => None,
                    Some(si) => match parse_signer_infos(rest.skip(len as int)) {
                        None => None,
                        Some((list, rest2)) => Some((seq![si] + list, rest2)),
                    },
                }
            } else {
                None
            },
        }
    }
}

#[via_fn]
proof fn parse_signer_infos_decreases(b: Seq<u8>) {
    if !(b.len() == 0 || b[0] != 10) {
        match dec_varint(b.drop_first()) {
            None => {},
            Some((len, rest)) => {
                lemma_dec_varint_shrinks(b.drop_first());
            },
        }
    }
}

/// Parsing undoes a repeated `SignerInfo` encoding when what follows
/// does not begin with the repeated field's key.
#[verifier::rlimit(50)]
pub proof fn lemma_parse_signer_infos_round_trip(s: Seq<SignerInfoV>, rest: Seq<u8>)
    requires
        rest.len() == 0 || rest[0] != 10,
    ensures
        parse_signer_infos(enc_list(1, s, signer_info_encoder()) + rest) == Some((s, rest)),
    decreases s.len(),
{
    let b = enc_list(1, s, signer_info_encoder()) + rest;
    if s.len() == 0 {
        assert(b =~= rest);
        assert(parse_signer_infos(b) == Some((Seq::<SignerInfoV>::empty(), rest)));
        assert(s =~= Seq::<SignerInfoV>::empty());
    } else {
        let s0 = s[0];
        let payload = spec_encode_signer_info(s0);
        let tail = enc_list(1, s.drop_first(), signer_info_encoder()) + rest;
        lemma_len_prefixed_first_byte(1, payload);
        assert(tag_of(1, 2) == varint(10));
        assert(varint(10) == seq![10u8]);
        assert(b =~= len_prefixed(1, payload) + tail);
        assert(b[0] == 10);
        assert(b.drop_first() =~= varint(payload.len()) + (payload + tail));
        lemma_varint_round_trip(payload.len(), payload + tail);
        assert((payload + tail).take(payload.len() as int) =~= payload);
        assert((payload + tail).skip(payload.len() as int) =~= tail);
        lemma_signer_info_round_trip(s0);
        lemma_parse_signer_infos_round_trip(s.drop_first(), rest);
        assert(seq![s0] + s.drop_first() =~= s);
    }
}

/// Decodes a whole `AuthInfo`.
pub open spec fn dec_auth_info(b: Seq<u8>) -> Option<AuthInfoV> {
    match parse_signer_infos(b) {
        None => None,
        Some((signer_infos, b1)) => match parse_embedded_field(18, b1) {
            None => None,
            Some((fee_payload, b2)) => {
                let fee = match fee_payload {
                    None => Some(None),
                    Some(p) => match dec_fee(p) {
                        None => None,
                        Some(f) => Some(Some(f)),
                    },
                };
                match fee {
                    None => None,
                    Some(fee) => if b2.len() == 0 {
                        Some(AuthInfoV { signer_infos, fee })
                    } else {
                        None
                    },
                }
            },
        },
    }
}

/// Decoding undoes the `AuthInfo` encoding: a transaction's auth bytes
/// round-trip exactly the signers and fee they were built from.
pub proof fn lemma_auth_info_round_trip(m: AuthInfoV)
    ensures
        dec_auth_info(spec_encode_auth_info(m)) == Some(m),
{
    let f1 = enc_list(1, m.signer_infos, signer_info_encoder());
    let f2 = crate::encoding::field_opt(
        2,
        match m.fee {
            Some(f) => Some(spec_encode_fee(f)),
            None => None,
        },
    );
    let b = spec_encode_auth_info(m);
    assert(b =~= f1 + f2);
    assert(f2.len() == 0 || f2[0] != 10) by {
        match m.fee {
            Some(f) => {
                lemma_len_prefixed_first_byte(2, spec_encode_fee(f));
                assert(f2[0] == 18);
            },
            None => {
                assert(f2.len() == 0);
            },
        }
    }
    lemma_parse_signer_infos_round_trip(m.signer_infos, f2);
    match m.fee {
        Some(f) => {
            assert(f2 =~= len_prefixed(2, spec_encode_fee(f)) + Seq::<u8>::empty());
            lemma_parse_embedded_field(2, spec_encode_fee(f), Seq::empty());
            lemma_fee_round_trip(f);
        },
        None => {
            assert(f2.len() == 0);
        },
    }
}

/// Decodes a whole `MsgCreateClient`.
pub open spec fn dec_msg_create_client(b: Seq<u8>) -> Option<crate::wire_ibc::MsgCreateClientV> {
    match parse_embedded_field(10, b) {
        None => None,
        Some((cs_payload, b1)) => {
            let client_state = match cs_payload {
                None => Some(None),
                Some(p) => match dec_any(p) {
                    None => None,
                    Some(a) => Some(Some(a)),
                },
            };
            match client_state {
                None => None,
                Some(client_state) => match parse_embedded_field(18, b1) {
                    None => None,
                    Some((cons_payload, b2)) => {
                        let consensus_state = match cons_payload {
                            None => Some(None),
                            Some(p) => match dec_any(p) {
                                None => None,
                                Some(a) => Some(Some(a)),
                            },
                        };
                        match consensus_state {
                            None => None,
                            Some(consensus_state) => match parse_bytes_field(26, b2) {
                                None => None,
                                Some((signer, b3)) => if b3.len() == 0 {
                                    Some(
                                        crate::wire_ibc::MsgCreateClientV {
                                            client_state,
                                            consensus_state,
                                            signer,
                                        },
                                    )
                                } else {
                                    None
                                },
                            },
                        }
                    },
                },
            }
        },
    }
}

/// Decoding undoes the `MsgCreateClient` encoding.
pub proof fn lemma_msg_create_client_round_trip(m: crate::wire_ibc::MsgCreateClientV)
    ensures
        dec_msg_create_client(crate::wire_ibc::spec_encode_msg_create_client(m)) == Some(m),
{
    let f1 = crate::encoding::field_opt(
        1,
        match m.client_state {
            Some(a) => Some(spec_encode_any(a)),
            None => None,
        },
    );
    let f2 = crate::encoding::field_opt(
        2,
        match m.consensus_state {
            Some(a) => Some(spec_encode_any(a)),
            None => None,
        },
    );
    let f3 = field_bytes(3, m.signer);
    let b = crate::wire_ibc::spec_encode_msg_create_client(m);
    let r1 = f2 + f3;
    assert(b =~= f1 + r1);
    lemma_field_bytes_first_byte(3, m.signer);
    assert(r1.len() == 0 || r1[0] != 10) by {
        if f2.len() > 0 {
            match m.consensus_state {
                Some(a) => {
                    lemma_len_prefixed_first_byte(2, spec_encode_any(a));
                    assert(r1[0] == 18);
                },
                None => {
                    assert(false);
                },
            }
        } else if f3.len() > 0 {
            assert(r1 =~= f3);
            assert(r1[0] == 26);
        } else {
            assert(r1.len() == 0);
        }
    }
    match m.client_state {
        Some(a) => {
            lemma_parse_embedded_field(1, spec_encode_any(a), r1);
            lemma_any_round_trip(a);
        },
        None => {
            assert(f1 + r1 =~= r1);
        },
    }
    assert(f3.len() == 0 || f3[0] != 18) by {
        if f3.len() > 0 {
            assert(f3[0] == 26);
        }
    }
    match m.consensus_state {
        Some(a) => {
            lemma_parse_embedded_field(2, spec_encode_any(a), f3);
            lemma_any_round_trip(a);
        },
        None => {
            assert(f2 + f3 =~= f3);
        },
    }
    assert(f3 + Seq::<u8>::empty() =~= f3);
    lemma_parse_bytes_field(3, m.signer, Seq::empty());
}

/// A non-empty repeated `bytes` encoding starts with the field's key.
proof fn lemma_enc_list_first_byte(f: u64, s: Seq<Seq<u8>>)
    requires
        1 <= f <= 15,
        s.len() > 0,
    ensures
        enc_list(f, s, bytes_encoder()).len() > 0,
        enc_list(f, s, bytes_encoder())[0] == (f * 8 + 2) as u8,
{
    lemma_len_prefixed_first_byte(f, s[0]);
}

} // verus!
