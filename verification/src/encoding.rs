//! Protobuf wire-format primitives.
//!
//! Every message this crate emits is encoded with the deterministic
//! proto3 rules: fields appear in ascending field-number order, scalar
//! fields equal to their default are omitted, and embedded messages are
//! length-prefixed.  The spec functions here define those bytes exactly;
//! the exec functions append them to a buffer and are proved against the
//! spec functions.

use vstd::prelude::*;

verus! {

/// Little-endian base-128 varint encoding of `n`.
pub open spec fn varint(n: nat) -> Seq<u8>
    decreases n,
{
    if n < 128 {
        seq![n as u8]
    } else {
        seq![((n % 128) + 128) as u8] + varint(n / 128)
    }
}

/// The key that precedes a field's payload: field number and wire type.
pub open spec fn tag_of(field: u64, wire: u64) -> Seq<u8> {
    varint((field * 8 + wire) as nat)
}

/// A `u64` field: omitted when zero, otherwise key then varint value.
pub open spec fn field_u64(field: u64, n: u64) -> Seq<u8> {
    if n == 0 {
        Seq::empty()
    } else {
        tag_of(field, 0) + varint(n as nat)
    }
}

/// A `bool` field: omitted when false, otherwise key then `1`.
pub open spec fn field_bool(field: u64, b: bool) -> Seq<u8> {
    if b {
        tag_of(field, 0) + varint(1)
    } else {
        Seq::empty()
    }
}

/// A length-delimited field that is always emitted (embedded messages,
/// elements of a repeated field).
pub open spec fn len_prefixed(field: u64, b: Seq<u8>) -> Seq<u8> {
    tag_of(field, 2) + varint(b.len()) + b
}

/// A `bytes` or `string` field: omitted when empty.
pub open spec fn field_bytes(field: u64, b: Seq<u8>) -> Seq<u8> {
    if b.len() == 0 {
        Seq::empty()
    } else {
        len_prefixed(field, b)
    }
}

/// A field that is present exactly when the message holds the value.
pub open spec fn field_opt(field: u64, o: Option<Seq<u8>>) -> Seq<u8> {
    match o {
        Some(b) => len_prefixed(field, b),
        None => Seq::empty(),
    }
}

/// A repeated field: every element is emitted, in order, each under the
/// same key.  `f` encodes one element.
pub open spec fn enc_list<T>(field: u64, s: Seq<T>, f: spec_fn(T) -> Seq<u8>) -> Seq<u8>
    decreases s.len(),
{
    if s.len() == 0 {
        Seq::empty()
    } else {
        len_prefixed(field, f(s[0])) + enc_list(field, s.drop_first(), f)
    }
}

/// Peeling the last element off a repeated field.
pub proof fn enc_list_snoc<T>(field: u64, s: Seq<T>, f: spec_fn(T) -> Seq<u8>)
    requires
        s.len() > 0,
    ensures
        enc_list(field, s, f) == enc_list(field, s.drop_last(), f) + len_prefixed(
            field,
            f(s.last()),
        ),
    decreases s.len(),
{
    if s.len() == 1 {
        assert(enc_list(field, s.drop_first(), f) == Seq::<u8>::empty());
        assert(enc_list(field, s.drop_last(), f) == Seq::<u8>::empty());
        assert(s[0] == s.last());
        assert(len_prefixed(field, f(s[0])) + Seq::<u8>::empty() =~= Seq::<u8>::empty()
            + len_prefixed(field, f(s.last())));
    } else {
        enc_list_snoc(field, s.drop_first(), f);
        assert(s.drop_first().drop_last() =~= s.drop_last().drop_first());
        assert(s.drop_first().last() == s.last());
        assert(s.drop_last()[0] == s[0]);
        assert((len_prefixed(field, f(s[0])) + enc_list(field, s.drop_last().drop_first(), f))
            + len_prefixed(field, f(s.last())) =~= len_prefixed(field, f(s[0])) + (enc_list(
            field,
            s.drop_last().drop_first(),
            f,
        ) + len_prefixed(field, f(s.last()))));
    }
}

/// The decimal digits of `n`, as ASCII bytes.
pub open spec fn dec_bytes(n: nat) -> Seq<u8>
    decreases n,
{
    if n < 10 {
        seq![(n + 48) as u8]
    } else {
        dec_bytes(n / 10) + seq![((n % 10) + 48) as u8]
    }
}

/// Appends a slice to the buffer.
pub fn put_bytes(v: &mut Vec<u8>, b: &[u8])
    ensures
        final(v)@ == old(v)@ + b@,
{
    let mut i: usize = 0;
    while i < b.len()
        invariant
            i <= b@.len(),
            v@ == old(v)@ + b@.take(i as int),
        decreases b@.len() - i,
    {
        proof {
            assert(b@.take(i + 1 as int) =~= b@.take(i as int).push(b@[i as int]));
            assert(old(v)@ + b@.take(i as int).push(b@[i as int]) =~= (old(v)@ + b@.take(
                i as int,
            )).push(b@[i as int]));
        }
        v.push(b[i]);
        i = i + 1;
    }
    proof {
        assert(b@.take(b@.len() as int) =~= b@);
    }
}

/// Appends the varint encoding of `n` to the buffer.
pub fn put_varint(v: &mut Vec<u8>, n: u64)
    ensures
        final(v)@ == old(v)@ + varint(n as nat),
{
    let mut x: u64 = n;
    while x >= 128
        invariant
            old(v)@ + varint(n as nat) == v@ + varint(x as nat),
        decreases x,
    {
        let b: u8 = ((x % 128) as u8) + 128;
        proof {
            assert(varint(x as nat) == seq![b] + varint((x as nat) / 128));
            assert(v@ + (seq![b] + varint((x as nat) / 128)) =~= v@.push(b) + varint(
                (x as nat) / 128,
            ));
        }
        v.push(b);
        x = x / 128;
    }
    proof {
        assert(varint(x as nat) == seq![x as u8]);
        assert(v@ + seq![x as u8] =~= v@.push(x as u8));
    }
    v.push(x as u8);
}

/// Appends a field key.
pub fn put_tag(v: &mut Vec<u8>, field: u64, wire: u64)
    requires
        field <= 2047,
        wire <= 5,
    ensures
        final(v)@ == old(v)@ + tag_of(field, wire),
{
    put_varint(v, field * 8 + wire);
}

/// Appends a `u64` field (omitted when zero).
pub fn put_u64_field(v: &mut Vec<u8>, field: u64, n: u64)
    requires
        field <= 2047,
    ensures
        final(v)@ == old(v)@ + field_u64(field, n),
{
    if n != 0 {
        put_tag(v, field, 0);
        put_varint(v, n);
        proof {
            assert(v@ =~= old(v)@ + field_u64(field, n));
        }
    } else {
        proof {
            assert(v@ =~= old(v)@ + field_u64(field, n));
        }
    }
}

/// Appends a `bool` field (omitted when false).
pub fn put_bool_field(v: &mut Vec<u8>, field: u64, b: bool)
    requires
        field <= 2047,
    ensures
        final(v)@ == old(v)@ + field_bool(field, b),
{
    if b {
        put_tag(v, field, 0);
        put_varint(v, 1);
        proof {
            assert(v@ =~= old(v)@ + field_bool(field, b));
        }
    } else {
        proof {
            assert(v@ =~= old(v)@ + field_bool(field, b));
        }
    }
}

/// Appends a length-delimited field unconditionally.
pub fn put_len_prefixed(v: &mut Vec<u8>, field: u64, b: &[u8])
    requires
        field <= 2047,
    ensures
        final(v)@ == old(v)@ + len_prefixed(field, b@),
{
    put_tag(v, field, 2);
    put_varint(v, b.len() as u64);
    put_bytes(v, b);
    proof {
        assert(v@ =~= old(v)@ + len_prefixed(field, b@));
    }
}

/// Appends a `bytes` or `string` field (omitted when empty).
pub fn put_bytes_field(v: &mut Vec<u8>, field: u64, b: &[u8])
    requires
        field <= 2047,
    ensures
        final(v)@ == old(v)@ + field_bytes(field, b@),
{
    if b.len() > 0 {
        put_len_prefixed(v, field, b);
    } else {
        proof {
            assert(v@ =~= old(v)@ + field_bytes(field, b@));
        }
    }
}

/// Appends the decimal digits of `n` as ASCII bytes.
pub fn put_dec(v: &mut Vec<u8>, n: u64)
    ensures
        final(v)@ == old(v)@ + dec_bytes(n as nat),
    decreases n,
{
    if n < 10 {
        v.push((n as u8) + 48);
        proof {
            assert(dec_bytes(n as nat) == seq![((n + 48) as u8)]);
            assert(v@ =~= old(v)@ + dec_bytes(n as nat));
        }
    } else {
        put_dec(v, n / 10);
        let d: u8 = ((n % 10) as u8) + 48;
        v.push(d);
        proof {
            assert(dec_bytes(n as nat) == dec_bytes((n as nat) / 10) + seq![d]);
            assert(v@ =~= old(v)@ + dec_bytes(n as nat));
        }
    }
}

/// The decimal digits of `n`, as a fresh buffer.
pub fn dec_string_bytes(n: u64) -> (r: Vec<u8>)
    ensures
        r@ == dec_bytes(n as nat),
{
    let mut v: Vec<u8> = Vec::new();
    put_dec(&mut v, n);
    proof {
        assert(Seq::<u8>::empty() + dec_bytes(n as nat) =~= dec_bytes(n as nat));
    }
    v
}

} // verus!
