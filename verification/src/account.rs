//! Decoding of the auth module's account record.
//!
//! The `Account` gRPC query happens at the caller's boundary and hands
//! back the response's `value` bytes; this module decodes them as a
//! `BaseAccount` and extracts the account number and account sequence
//! the transaction assembler needs.

use vstd::prelude::*;

use crate::decoding::{dec_varint, parse_bytes_field, parse_u64_field};
use crate::error::Error;

verus! {

/// Decodes a whole `BaseAccount` — address, optional public key,
/// account number, account sequence — and keeps the two numbers.
pub open spec fn dec_base_account(b: Seq<u8>) -> Option<(nat, nat)> {
    match parse_bytes_field(10, b) {
        None => None,
        Some((address, b1)) => match parse_bytes_field(18, b1) {
            None => None,
            Some((pub_key, b2)) => match parse_u64_field(24, b2) {
                None => None,
                Some((account_number, b3)) => match parse_u64_field(32, b3) {
                    None => None,
                    Some((sequence, b4)) => if b4.len() == 0 {
                        Some((account_number, sequence))
                    } else {
                        None
                    },
                },
            },
        },
    }
}

/// Reads one varint at `pos`, rejecting values that do not fit in 64
/// bits.
fn read_varint(b: &[u8], pos: usize) -> (r: Option<(u64, usize)>)
    requires
        pos <= b@.len(),
    ensures
        match r {
            Some((n, end)) => pos < end <= b@.len() && dec_varint(b@.skip(pos as int)) == Some(
                (n as nat, b@.skip(end as int)),
            ),
            None => match dec_varint(b@.skip(pos as int)) {
                None => true,
                Some((n, rest)) => n > u64::MAX,
            },
        },
    decreases b@.len() - pos,
{
    if pos >= b.len() {
        proof {
            assert(b@.skip(pos as int).len() == 0);
        }
        return None;
    }
    let byte = b[pos];
    proof {
        assert(b@.skip(pos as int)[0] == b@[pos as int]);
        assert(b@.skip(pos as int).drop_first() =~= b@.skip(pos + 1 as int));
    }
    if byte < 128 {
        Some((byte as u64, pos + 1))
    } else {
        match read_varint(b, pos + 1) {
            None => None,
            Some((m, end)) => {
                let low: u64 = (byte - 128) as u64;
                if m <= (u64::MAX - low) / 128 {
                    proof {
                        assert(low + 128 * m <= u64::MAX) by (nonlinear_arith)
                            requires
                                m <= (u64::MAX - low) / 128,
                                low <= 127,
                        ;
                    }
                    Some((low + 128 * m, end))
                } else {
                    proof {
                        assert(low + 128 * m > u64::MAX) by (nonlinear_arith)
                            requires
                                m > (u64::MAX - low) / 128,
                                low <= 127,
                        ;
                    }
                    None
                }
            },
        }
    }
}

/// Reads an optional length-delimited field at `pos` and returns the
/// position after it, without keeping its payload.
fn skip_bytes_field(b: &[u8], pos: usize, tag: u8) -> (r: Option<usize>)
    requires
        pos <= b@.len(),
    ensures
        match r {
            Some(end) => pos <= end <= b@.len() && (exists|payload: Seq<u8>|
                parse_bytes_field(tag, b@.skip(pos as int)) == Some(
                    (payload, b@.skip(end as int)),
                )),
            None => parse_bytes_field(tag, b@.skip(pos as int)) is None,
        },
{
    if pos >= b.len() || b[pos] != tag {
        proof {
            if pos < b@.len() {
                assert(b@.skip(pos as int)[0] == b@[pos as int]);
            } else {
                assert(b@.skip(pos as int).len() == 0);
            }
            assert(parse_bytes_field(tag, b@.skip(pos as int)) == Some(
                (Seq::<u8>::empty(), b@.skip(pos as int)),
            ));
        }
        return Some(pos);
    }
    proof {
        assert(b@.skip(pos as int)[0] == b@[pos as int]);
        assert(b@.skip(pos as int).drop_first() =~= b@.skip(pos + 1 as int));
    }
    let total: usize = b.len();
    match read_varint(b, pos + 1) {
        None => {
            proof {
                crate::decoding::lemma_dec_varint_shrinks(b@.skip(pos + 1 as int));
                if dec_varint(b@.skip(pos + 1 as int)) is Some {
                    let (n, rest) = dec_varint(b@.skip(pos + 1 as int))->0;
                    assert(rest.len() < b@.skip(pos + 1 as int).len());
                    assert(b@.len() == total);
                    assert(n > u64::MAX);
                    assert(rest.len() < n);
                }
            }
            None
        },
        Some((len, p2)) => {
            if len <= (b.len() - p2) as u64 {
                let end = p2 + (len as usize);
                proof {
                    assert(b@.skip(p2 as int).len() >= len);
                    assert(b@.skip(p2 as int).skip(len as int) =~= b@.skip(end as int));
                }
                Some(end)
            } else {
                proof {
                    assert(b@.skip(p2 as int).len() < len);
                }
                None
            }
        },
    }
}

/// Reads an optional varint field at `pos`: an absent key yields zero.
fn read_u64_field(b: &[u8], pos: usize, tag: u8) -> (r: Option<(u64, usize)>)
    requires
        pos <= b@.len(),
    ensures
        match r {
            Some((n, end)) => pos <= end <= b@.len() && parse_u64_field(
                tag,
                b@.skip(pos as int),
            ) == Some((n as nat, b@.skip(end as int))),
            None => match parse_u64_field(tag, b@.skip(pos as int)) {
                None => true,
                Some((n, rest)) => n > u64::MAX,
            },
        },
{
    if pos >= b.len() || b[pos] != tag {
        proof {
            if pos < b@.len() {
                assert(b@.skip(pos as int)[0] == b@[pos as int]);
            } else {
                assert(b@.skip(pos as int).len() == 0);
            }
        }
        return Some((0, pos));
    }
    proof {
        assert(b@.skip(pos as int)[0] == b@[pos as int]);
        assert(b@.skip(pos as int).drop_first() =~= b@.skip(pos + 1 as int));
    }
    read_varint(b, pos + 1)
}

/// Extracts `(account_number, sequence)` from the encoded
/// `BaseAccount` the auth module's `Account` query returned.
pub fn get_account_details(response_value: &[u8]) -> (r: Result<(u64, u64), Error>)
    ensures
        match r {
            Ok((account_number, sequence)) => dec_base_account(response_value@) == Some(
                (account_number as nat, sequence as nat),
            ),
            Err(e) => {
                &&& e == Error::EncodingFailure
                &&& match dec_base_account(response_value@) {
                    None => true,
                    Some((account_number, sequence)) => account_number > u64::MAX || sequence
                        > u64::MAX,
                }
            },
        },
{
    let b = response_value;
    proof {
        assert(b@.skip(0) =~= b@);
    }
    let p1 = match skip_bytes_field(b, 0, 10) {
        Some(p) => p,
        None => {
            return Err(Error::EncodingFailure);
        },
    };
    let p2 = match skip_bytes_field(b, p1, 18) {
        Some(p) => p,
        None => {
            return Err(Error::EncodingFailure);
        },
    };
    let (account_number, p3) = match read_u64_field(b, p2, 24) {
        Some(v) => v,
        None => {
            return Err(Error::EncodingFailure);
        },
    };
    let (sequence, p4) = match read_u64_field(b, p3, 32) {
        Some(v) => v,
        None => {
            return Err(Error::EncodingFailure);
        },
    };
    if p4 != b.len() {
        proof {
            assert(b@.skip(p4 as int).len() > 0);
        }
        return Err(Error::EncodingFailure);
    }
    proof {
        assert(b@.skip(p4 as int).len() == 0);
    }
    Ok((account_number, sequence))
}

} // verus!
