//! Key pairs and their addresses: the address of a public key is the last
//! 20 bytes of the Keccak-256 digest of its two coordinates.

use crate::hex::hex_lower;
use crate::hex::is_lower_hex_text;
use crate::hex::lemma_hex_lower_is_lower_hex;
use crate::hex::to_hex_lower;
use rand::rngs::ThreadRng;
use secp256k1::All;
use secp256k1::Secp256k1;
use vstd::prelude::*;
use vstd::slice::slice_subrange;

verus! {

/// The thread-local random number generator of `rand`, carried through as
/// an opaque value.
#[verifier::external_type_specification]
#[verifier::external_body]
pub struct ExThreadRng(ThreadRng);

/// An elliptic-curve context of `secp256k1` with all capabilities. The
/// outside type is bounded by a trait of its crate, which keeps it from
/// being declared as it is, so it is held here in a field that is not read.
#[verifier::external_body]
pub struct CurveContext {
    context: Secp256k1<All>,
}

/// `rand::thread_rng`: a handle to the generator of the calling thread.
/// Nothing is claimed of it.
pub assume_specification[ rand::thread_rng ]() -> ThreadRng;

/// `Secp256k1::new`: a fresh context with all capabilities. Nothing is
/// claimed of it.
#[verifier::external_body]
fn new_context() -> CurveContext {
    CurveContext { context: Secp256k1::new() }
}

/// The uncompressed serialization of the public key that belongs to a
/// secret key of the curve secp256k1: one format byte, then the 32 bytes of
/// each of the two coordinates.
pub uninterp spec fn uncompressed_public_key(secret_key: Seq<u8>) -> Seq<u8>;

/// `Secp256k1::generate_keypair`, followed by `SecretKey::secret_bytes` and
/// `PublicKey::serialize_uncompressed` to turn the two keys into bytes. The
/// secret key is random, so nothing is claimed of it beyond its 32 bytes.
/// The public key is the one that `PublicKey::from_secret_key` computes for
/// that secret key, which is a function of the secret key alone.
#[verifier::external_body]
fn random_keypair_bytes(context: &CurveContext, rng: &mut ThreadRng) -> (pair: (
    [u8; 32],
    [u8; 65],
))
    ensures
        pair.1@ == uncompressed_public_key(pair.0@),
{
    let (secret_key, public_key) = context.context.generate_keypair(rng);
    (secret_key.secret_bytes(), public_key.serialize_uncompressed())
}

/// The Keccak-256 digest of a byte sequence.
pub uninterp spec fn keccak256_digest(data: Seq<u8>) -> Seq<u8>;

/// `tiny_keccak::keccak256`: the 32 bytes returned are the Keccak-256 digest
/// of the input, a function of the input bytes alone.
#[verifier::external_body]
fn keccak256(data: &[u8]) -> (digest: [u8; 32])
    ensures
        digest@ == keccak256_digest(data@),
{
    tiny_keccak::keccak256(data)
}

/// A private key and the address derived from its public key, both as
/// lowercase hexadecimal text without a prefix.
#[derive(Debug, PartialEq, Eq)]
pub struct Keypair {
    pub private_key: String,
    pub address: String,
}

/// The address of a Keccak-256 digest: its last 20 bytes in hexadecimal.
pub open spec fn address_of_digest(digest: Seq<u8>) -> Seq<char> {
    hex_lower(digest.skip(12))
}

/// The address of an uncompressed public key: the format byte in front is
/// dropped, the 64 bytes of the two coordinates are hashed, and the digest
/// gives the address.
pub open spec fn address_of_public_key(public_key: Seq<u8>) -> Seq<char> {
    address_of_digest(keccak256_digest(public_key.skip(1)))
}

impl Keypair {
    /// The private key is 64 lowercase hexadecimal digits and the address 40.
    pub open spec fn well_formed(&self) -> bool {
        &&& self.private_key@.len() == 64
        &&& is_lower_hex_text(self.private_key@)
        &&& self.address@.len() == 40
        &&& is_lower_hex_text(self.address@)
    }

    /// The pair renders this secret key, and the address of this public key.
    pub open spec fn renders(&self, secret_key: Seq<u8>, public_key: Seq<u8>) -> bool {
        &&& self.private_key@ == hex_lower(secret_key)
        &&& self.address@ == address_of_public_key(public_key)
    }

    /// The pair renders this secret key, and the address of the public key
    /// that belongs to it.
    pub open spec fn belongs_to(&self, secret_key: Seq<u8>) -> bool {
        self.renders(secret_key, uncompressed_public_key(secret_key))
    }

    /// The pair is that of some secret key of 32 bytes.
    pub open spec fn genuine(&self) -> bool {
        exists|secret_key: Seq<u8>| secret_key.len() == 32 && #[trigger] self.belongs_to(secret_key)
    }
}

/// The address of any 32-byte digest is 40 lowercase hexadecimal digits.
pub proof fn lemma_address_of_digest_shape(digest: Seq<u8>)
    requires
        digest.len() == 32,
    ensures
        address_of_digest(digest).len() == 40,
        is_lower_hex_text(address_of_digest(digest)),
{
    lemma_hex_lower_is_lower_hex(digest.skip(12));
}

/// Renders the last 20 bytes of a digest as an address.
pub fn address_from_digest(digest: &[u8; 32]) -> (address: String)
    ensures
        address@ == address_of_digest(digest@),
        address@.len() == 40,
        is_lower_hex_text(address@),
{
    proof {
        lemma_address_of_digest_shape(digest@);
    }
    let low = slice_subrange(digest.as_slice(), 12, 32);
    assert(low@ == digest@.skip(12));
    to_hex_lower(low)
}

/// Derives the address of an uncompressed public key.
pub fn address_from_public_key(public_key: &[u8; 65]) -> (address: String)
    ensures
        address@ == address_of_public_key(public_key@),
        address@.len() == 40,
        is_lower_hex_text(address@),
{
    let coordinates = slice_subrange(public_key.as_slice(), 1, 65);
    assert(coordinates@ == public_key@.skip(1));
    let digest = keccak256(coordinates);
    address_from_digest(&digest)
}

/// Renders a secret key and derives the address of the public key that
/// comes with it. Whether the two belong together is the caller's matter.
pub fn keypair_from_bytes(secret_key: &[u8; 32], public_key: &[u8; 65]) -> (pair: Keypair)
    ensures
        pair.renders(secret_key@, public_key@),
        pair.well_formed(),
{
    proof {
        lemma_hex_lower_is_lower_hex(secret_key@);
    }
    let private_key = to_hex_lower(secret_key.as_slice());
    let address = address_from_public_key(public_key);
    Keypair { private_key, address }
}

impl CurveContext {
    /// A fresh context, for the worker that makes it.
    pub fn new() -> CurveContext {
        new_context()
    }
}

/// Generates one random key pair and derives its address. Which key comes
/// is the generator's choice; whichever it is, the result holds that key
/// and the address that belongs to it.
pub fn generate_key_address(rng: &mut ThreadRng, context: &CurveContext) -> (pair: Keypair)
    ensures
        pair.well_formed(),
        pair.genuine(),
{
    let (secret_key, public_key) = random_keypair_bytes(context, rng);
    let pair = keypair_from_bytes(&secret_key, &public_key);
    assert(pair.belongs_to(secret_key@));
    pair
}

} // verus!
