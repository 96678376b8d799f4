//! Asymmetric keys and signatures over secp256k1. Keys and signatures are
//! held in their canonical byte forms; the curve arithmetic itself is done
//! by the `ecdsa` and `k256` crates behind trusted wrappers.

use vstd::prelude::*;
use ecdsa::signature::{Signer, Verifier};
use ecdsa::{Signature as EcdsaSignature, SigningKey, VerifyingKey};
use k256::Secp256k1;
use rand_core::OsRng;

verus! {

/// Whether 32 secret-key bytes parse into a valid secp256k1 signing key,
/// as `SigningKey::from_slice` decides it.
pub uninterp spec fn sk_ok(sk: Seq<u8>) -> bool;

/// The SEC1 compressed encoding of the public key that matches the given
/// secret-key bytes, as `VerifyingKey::to_sec1_bytes` returns it.
pub uninterp spec fn derived_pubkey(sk: Seq<u8>) -> Seq<u8>;

/// The RFC 6979 deterministic ECDSA signature of a message under the given
/// secret-key bytes, as `Signer::sign` returns it.
pub uninterp spec fn signature_of(sk: Seq<u8>, msg: Seq<u8>) -> Seq<u8>;

/// Whether signature bytes verify for a message under SEC1 public-key
/// bytes, as ecdsa's `Verifier::verify` decides it; false whenever the
/// signature or the key bytes are malformed.
pub uninterp spec fn verify_ok(sig: Seq<u8>, msg: Seq<u8>, pk: Seq<u8>) -> bool;

/// Relies on k256's `SigningKey::random` and `to_bytes`: a freshly drawn
/// secret scalar serialized as 32 bytes, which parse back into a key.
#[verifier::external_body]
fn generate_key_bytes() -> (r: Vec<u8>)
    ensures
        r@.len() == 32,
        sk_ok(r@),
{
    SigningKey::<Secp256k1>::random(&mut OsRng).to_bytes().to_vec()
}

/// Relies on `SigningKey::from_slice`: whether the bytes form a key.
#[verifier::external_body]
fn parse_key_bytes(b: &Vec<u8>) -> (r: bool)
    ensures
        r == sk_ok(b@),
{
    SigningKey::<Secp256k1>::from_slice(b).is_ok()
}

/// Relies on `SigningKey::from_slice`, `verifying_key` and
/// `VerifyingKey::to_sec1_bytes`: the compressed SEC1 form (33 bytes) of
/// the matching public key, a function of the secret bytes alone.
#[verifier::external_body]
fn derive_pubkey_bytes(sk: &Vec<u8>) -> (r: Vec<u8>)
    requires
        sk_ok(sk@),
    ensures
        r@ == derived_pubkey(sk@),
        r@.len() == 33,
{
    let key = SigningKey::<Secp256k1>::from_slice(sk).unwrap();
    key.verifying_key().to_sec1_bytes().to_vec()
}

/// Relies on ecdsa's RFC 6979 `Signer::sign` and `Signature::to_bytes`:
/// the 64 signature bytes are a function of the key and message alone, and
/// they verify for that message under the derived public key.
#[verifier::external_body]
fn sign_bytes(sk: &Vec<u8>, msg: &Vec<u8>) -> (r: Vec<u8>)
    requires
        sk_ok(sk@),
    ensures
        r@ == signature_of(sk@, msg@),
        r@.len() == 64,
        verify_ok(r@, msg@, derived_pubkey(sk@)),
{
    let key = SigningKey::<Secp256k1>::from_slice(sk).unwrap();
    let sig: EcdsaSignature<Secp256k1> = key.sign(msg);
    sig.to_bytes().to_vec()
}

/// Relies on `VerifyingKey::from_sec1_bytes`, `Signature::from_slice` and
/// ecdsa's `Verifier::verify`: a pure, deterministic predicate that is
/// false on any malformed key or signature bytes.
#[verifier::external_body]
fn verify_sig_bytes(sig: &Vec<u8>, msg: &Vec<u8>, pk: &Vec<u8>) -> (r: bool)
    ensures
        r == verify_ok(sig@, msg@, pk@),
{
    let key = match VerifyingKey::<Secp256k1>::from_sec1_bytes(pk) {
        Ok(k) => k,
        Err(_) => {
            return false;
        },
    };
    let sig = match EcdsaSignature::<Secp256k1>::from_slice(sig) {
        Ok(s) => s,
        Err(_) => {
            return false;
        },
    };
    key.verify(msg, &sig).is_ok()
}

/// Copies a byte string.
pub fn copy_bytes(v: &Vec<u8>) -> (r: Vec<u8>)
    ensures
        r@ == v@,
{
    let mut r: Vec<u8> = Vec::new();
    let mut i: usize = 0;
    while i < v.len()
        invariant
            i <= v@.len(),
            r@ == v@.take(i as int),
        decreases v@.len() - i,
    {
        r.push(v[i]);
        proof {
            assert(v@.take(i + 1) =~= v@.take(i as int).push(v@[i as int]));
        }
        i = i + 1;
    }
    proof {
        assert(v@.take(v@.len() as int) =~= v@);
    }
    r
}

/// A signature value binding a private key to a specific hash: the 64-byte
/// serialized ECDSA signature.
#[derive(Debug, PartialEq, Eq)]
pub struct Signature(pub Vec<u8>);

impl View for Signature {
    type V = Seq<u8>;

    open spec fn view(&self) -> Seq<u8> {
        self.0@
    }
}

impl Clone for Signature {
    fn clone(&self) -> (r: Self)
        ensures
            r@ == self@,
    {
        Signature(copy_bytes(&self.0))
    }
}

/// A freely shareable public key, held as its canonical SEC1 compressed
/// point encoding, so that equality of keys is equality of encodings.
#[derive(Debug, PartialEq, Eq)]
pub struct PublicKey(pub Vec<u8>);

impl View for PublicKey {
    type V = Seq<u8>;

    open spec fn view(&self) -> Seq<u8> {
        self.0@
    }
}

impl Clone for PublicKey {
    fn clone(&self) -> (r: Self)
        ensures
            r@ == self@,
    {
        PublicKey(copy_bytes(&self.0))
    }
}

/// A private signing key, held as its 32 exported bytes. Every value of
/// this type holds bytes that parse into a valid key.
#[derive(Debug)]
pub struct PrivateKey {
    bytes: Vec<u8>,
}

impl View for PrivateKey {
    type V = Seq<u8>;

    closed spec fn view(&self) -> Seq<u8> {
        self.bytes@
    }
}

impl PrivateKey {
    /// Every reachable private key parses back into a signing key.
    #[verifier::type_invariant]
    spec fn inv(self) -> bool {
        sk_ok(self.bytes@)
    }

    /// Draws a fresh key from the system's secure randomness source.
    pub fn new_key() -> (r: PrivateKey)
        ensures
            r@.len() == 32,
    {
        PrivateKey { bytes: generate_key_bytes() }
    }

    /// The public key matching this private key, by its SEC1 encoding.
    pub fn public_key(&self) -> (r: PublicKey)
        ensures
            r@ == derived_pubkey(self@),
            r@.len() == 33,
    {
        proof {
            use_type_invariant(self);
        }
        PublicKey(derive_pubkey_bytes(&self.bytes))
    }
}

impl Signature {
    /// Signs the hash of an output with the private key. The signature is
    /// deterministic in the key and the hash, and verifies for that hash
    /// under the key's public counterpart.
    pub fn sign_output(output_hash: &crate::hash::Hash, private_key: &PrivateKey) -> (r: Signature)
        ensures
            r@ == signature_of(private_key@, crate::encode::spec_enc_u256(output_hash.0)),
            verify_ok(
                r@,
                crate::encode::spec_enc_u256(output_hash.0),
                derived_pubkey(private_key@),
            ),
    {
        proof {
            use_type_invariant(private_key);
        }
        let msg = output_hash.as_bytes();
        Signature(sign_bytes(&private_key.bytes, &msg))
    }

    /// Pure verification predicate: true iff this signature binds exactly
    /// the given hash to the private key behind `public_key`. Malformed
    /// signatures or keys verify to false; nothing panics.
    pub fn verify(&self, output_hash: &crate::hash::Hash, public_key: &PublicKey) -> (r: bool)
        ensures
            r == verify_ok(self@, crate::encode::spec_enc_u256(output_hash.0), public_key@),
    {
        let msg = output_hash.as_bytes();
        verify_sig_bytes(&self.0, &msg, &public_key.0)
    }
}

/// Exports a private key, byte for byte.
pub fn serialize(key: &PrivateKey) -> (r: Vec<u8>)
    ensures
        r@ == key@,
{
    copy_bytes(&key.bytes)
}

/// Imports a private key previously exported with `serialize`. Returns
/// `None` exactly when the bytes do not form a key, so that an exported
/// key always round-trips byte for byte.
pub fn deserialize(bytes: &Vec<u8>) -> (r: Option<PrivateKey>)
    ensures
        r is Some <==> sk_ok(bytes@),
        r matches Some(k) ==> k@ == bytes@,
{
    if parse_key_bytes(bytes) {
        Some(PrivateKey { bytes: copy_bytes(bytes) })
    } else {
        None
    }
}

} // verus!
