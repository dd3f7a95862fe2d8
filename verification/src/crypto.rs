//! Keys, addresses and signatures.
//!
//! Everything here that computes a digest, a bech32 string or an ECDSA
//! signature calls an outside crate through a trusted wrapper; the
//! result of each call is named by an uninterpreted spec function,
//! since all of them are functions of their arguments alone (ECDSA
//! signing is deterministic per RFC 6979).

use vstd::prelude::*;

use k256::ecdsa::signature::Signer;
use ripemd::Digest as RipemdDigest;
use sha2::Digest as Sha2Digest;

use crate::error::Error;

verus! {

/// The SHA-256 digest of `data`.
pub uninterp spec fn sha256_of(data: Seq<u8>) -> Seq<u8>;

/// The RIPEMD-160 digest of `data`.
pub uninterp spec fn ripemd160_of(data: Seq<u8>) -> Seq<u8>;

/// The bech32 string for human-readable part `hrp` and payload `data`.
pub uninterp spec fn bech32_of(hrp: Seq<char>, data: Seq<u8>) -> Seq<char>;

/// The compressed SEC1 point of the secp256k1 key with scalar `key`.
pub uninterp spec fn secp256k1_pubkey_of(key: Seq<u8>) -> Seq<u8>;

/// The raw `r || s` ECDSA signature of `msg` under the secp256k1 key
/// with scalar `key`.
pub uninterp spec fn secp256k1_sign_of(key: Seq<u8>, msg: Seq<u8>) -> Seq<u8>;

/// Whether `key` is a valid secp256k1 signing key: the exact domain on
/// which `SigningKey::from_slice` succeeds (32 bytes holding a non-zero
/// scalar below the curve order).
pub uninterp spec fn secp256k1_key_ok(key: Seq<u8>) -> bool;

/// Whether bech32 encoding succeeds for this prefix and payload: the
/// exact domain on which `bech32::encode` returns a string (a valid
/// human-readable part and a code within the length limit).
pub uninterp spec fn bech32_ok(hrp: Seq<char>, data: Seq<u8>) -> bool;

/// Relies on sha2's `Sha256::digest`: a 32-byte digest that depends on
/// the input bytes alone.
#[verifier::external_body]
pub fn sha256(data: &[u8]) -> (r: Vec<u8>)
    ensures
        r@ == sha256_of(data@),
        r@.len() == 32,
{
    sha2::Sha256::digest(data).to_vec()
}

/// Relies on ripemd's `Ripemd160::digest`: a 20-byte digest that
/// depends on the input bytes alone.
#[verifier::external_body]
pub fn ripemd160(data: &[u8]) -> (r: Vec<u8>)
    ensures
        r@ == ripemd160_of(data@),
        r@.len() == 20,
{
    ripemd::Ripemd160::digest(data).to_vec()
}

/// Relies on bech32's `encode` with the classic `Bech32` checksum (and
/// `Hrp::parse` to convert the prefix): the encoding depends on the
/// prefix and payload alone, and succeeds exactly when the prefix is a
/// valid human-readable part and the code is within the length limit,
/// which `bech32_ok` names.
#[verifier::external_body]
pub fn bech32_encode(hrp: &str, data: &[u8]) -> (r: Result<String, Error>)
    ensures
        r is Ok <==> bech32_ok(hrp@, data@),
        match r {
            Ok(s) => s@ == bech32_of(hrp@, data@),
            Err(e) => e == Error::CryptoFailure,
        },
{
    let parsed = bech32::Hrp::parse(hrp).map_err(|_| Error::CryptoFailure)?;
    bech32::encode::<bech32::Bech32>(parsed, data).map_err(|_| Error::CryptoFailure)
}

/// Relies on k256's `SigningKey::from_slice` (to convert the scalar
/// bytes) and `VerifyingKey::to_sec1_point` with compression: the
/// compressed public point depends on the key alone and is 33 bytes,
/// and the call succeeds exactly when the bytes are a valid key, which
/// `secp256k1_key_ok` names.
#[verifier::external_body]
pub fn secp256k1_public_key(key: &[u8]) -> (r: Result<Vec<u8>, Error>)
    ensures
        r is Ok <==> secp256k1_key_ok(key@),
        match r {
            Ok(p) => p@ == secp256k1_pubkey_of(key@) && p@.len() == 33,
            Err(e) => e == Error::CryptoFailure,
        },
{
    let signing_key = k256::ecdsa::SigningKey::from_slice(key).map_err(
        |_| Error::CryptoFailure,
    )?;
    Ok(signing_key.verifying_key().to_sec1_point(true).as_bytes().to_vec())
}

/// Relies on k256's `Signer::try_sign` (with `SigningKey::from_slice`
/// to convert the scalar bytes): per RFC 6979 the 64-byte `r || s`
/// signature depends on the key and message alone.  Signing itself
/// never fails — the RFC 6979 generator retries until it yields a
/// signature — so the call succeeds exactly when the key bytes are
/// valid, which `secp256k1_key_ok` names.
#[verifier::external_body]
pub fn secp256k1_sign(key: &[u8], msg: &[u8]) -> (r: Result<Vec<u8>, Error>)
    ensures
        r is Ok <==> secp256k1_key_ok(key@),
        match r {
            Ok(s) => s@ == secp256k1_sign_of(key@, msg@) && s@.len() == 64,
            Err(e) => e == Error::CryptoFailure,
        },
{
    let signing_key = k256::ecdsa::SigningKey::from_slice(key).map_err(
        |_| Error::CryptoFailure,
    )?;
    let signature: k256::ecdsa::Signature = signing_key.try_sign(msg).map_err(
        |_| Error::CryptoFailure,
    )?;
    Ok(signature.to_vec())
}

/// The bech32 account address derived from a signing key: the RIPEMD-160
/// of the SHA-256 of the compressed public key, under the given prefix.
pub open spec fn spec_account_address(key: Seq<u8>, hrp: Seq<char>) -> Seq<char> {
    bech32_of(hrp, ripemd160_of(sha256_of(secp256k1_pubkey_of(key))))
}

/// Whether address derivation succeeds for this key and prefix: a
/// valid signing key, and a prefix the bech32 encoder accepts for the
/// derived 20-byte hash.
pub open spec fn spec_address_ok(key: Seq<u8>, hrp: Seq<char>) -> bool {
    secp256k1_key_ok(key) && bech32_ok(hrp, ripemd160_of(sha256_of(secp256k1_pubkey_of(key))))
}

/// Derives the signer's bech32 account address from the signing key and
/// the chain's account prefix.
pub fn account_address(signing_key: &[u8], hrp: &str) -> (r: Result<String, Error>)
    ensures
        r is Ok <==> spec_address_ok(signing_key@, hrp@),
        match r {
            Ok(a) => a@ == spec_account_address(signing_key@, hrp@),
            Err(e) => e == Error::CryptoFailure,
        },
{
    let public_key = secp256k1_public_key(signing_key)?;
    let sha = sha256(public_key.as_slice());
    let hash = ripemd160(sha.as_slice());
    bech32_encode(hrp, hash.as_slice())
}

} // verus!
