//! Signatures and their encoding.
//!
//! Decoding, encoding and the mathematics of signatures are left to the
//! crates `base64` and `ring`. The functions that call them are trusted:
//! Verus takes their contracts as given. Each contract gives the outcome a
//! name and claims nothing else about it.

use base64::engine::general_purpose::STANDARD;
use base64::Engine;
use ring::rand::SystemRandom;
use ring::signature::{Ed25519KeyPair, KeyPair, UnparsedPublicKey, ED25519};
use vstd::prelude::*;

verus! {

/// The octets that `text` stands for in standard base64 with padding, or
/// `None` where `text` is no such encoding.
pub uninterp spec fn base64_decoded(text: Seq<char>) -> Option<Seq<u8>>;

/// The standard base64 encoding, with padding, of `octets`.
pub uninterp spec fn base64_encoded(octets: Seq<u8>) -> Seq<char>;

/// Whether `signature` is a valid Ed25519 signature of `message` under the
/// public key `public_key`.
pub uninterp spec fn ed25519_valid(public_key: Seq<u8>, message: Seq<u8>, signature: Seq<u8>) -> bool;

/// The public key of the Ed25519 key pair in the PKCS#8 document `pkcs8`, or
/// `None` where the document holds no such key pair.
pub uninterp spec fn ed25519_public_key(pkcs8: Seq<u8>) -> Option<Seq<u8>>;

/// The longest input that can be encoded: the encoding is a third longer
/// than its input and has to fit into memory.
pub open spec fn encodable(octets: Seq<u8>) -> bool {
    octets.len() <= usize::MAX / 2
}

/// Decodes standard base64.
///
/// Trusted: calls `Engine::decode` on `base64::engine::general_purpose::STANDARD`.
#[verifier::external_body]
pub(crate) fn decode_base64(text: &str) -> (octets: Option<Vec<u8>>)
    ensures
        match octets {
            Some(decoded) => base64_decoded(text@) == Some(decoded@),
            None => base64_decoded(text@) is None,
        },
{
    match STANDARD.decode(text) {
        Ok(decoded) => Some(decoded),
        Err(_) => None,
    }
}

/// Encodes in standard base64.
///
/// Trusted: calls `Engine::encode` on `base64::engine::general_purpose::STANDARD`,
/// which fails only where the length of the encoding overflows.
#[verifier::external_body]
pub(crate) fn encode_base64(octets: &[u8]) -> (text: String)
    requires
        encodable(octets@),
    ensures
        text@ == base64_encoded(octets@),
{
    STANDARD.encode(octets)
}

/// Checks an Ed25519 signature.
///
/// Trusted: calls `ring::signature::UnparsedPublicKey::verify` with the
/// algorithm `ED25519`.
#[verifier::external_body]
pub(crate) fn verify_ed25519(public_key: &[u8], message: &[u8], signature: &[u8]) -> (valid: bool)
    ensures
        valid == ed25519_valid(public_key@, message@, signature@),
{
    UnparsedPublicKey::new(&ED25519, public_key).verify(message, signature).is_ok()
}

/// Reads the public key out of a PKCS#8 document.
///
/// Trusted: calls `ring::signature::Ed25519KeyPair::from_pkcs8` and reads
/// the public key of the pair.
#[verifier::external_body]
pub(crate) fn public_key_of(pkcs8: &[u8]) -> (public_key: Option<Vec<u8>>)
    ensures
        match public_key {
            Some(key) => ed25519_public_key(pkcs8@) == Some(key@),
            None => ed25519_public_key(pkcs8@) is None,
        },
{
    match Ed25519KeyPair::from_pkcs8(pkcs8) {
        Ok(pair) => Some(pair.public_key().as_ref().to_vec()),
        Err(_) => None,
    }
}

/// Makes a new Ed25519 key pair from the randomness of the system and hands
/// it out as a PKCS#8 document, or `None` where the system has none to give.
///
/// Trusted: calls `ring::signature::Ed25519KeyPair::generate_pkcs8` with
/// `ring::rand::SystemRandom`. The outcome is a matter of chance: nothing is
/// claimed of it.
#[verifier::external_body]
pub(crate) fn generate_pkcs8() -> (pkcs8: Option<Vec<u8>>) {
    match Ed25519KeyPair::generate_pkcs8(&SystemRandom::new()) {
        Ok(document) => Some(document.as_ref().to_vec()),
        Err(_) => None,
    }
}

} // verus!
