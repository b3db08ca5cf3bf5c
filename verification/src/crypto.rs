//! Signature keypair and digest primitives.
//!
//! Keys are held as their raw 32-byte encodings; signatures are 64 bytes and
//! digests 32.  The Ed25519 scheme and the SHA-256 digest come from outside
//! crates; what they return is named by uninterpreted functions, and the rest
//! of the library is verified against those names.

use vstd::prelude::*;
use ed25519_dalek::{Keypair, PublicKey, SecretKey, Signature, Signer, Verifier};
use rand::rngs::OsRng;
use sha2::{Digest, Sha256};

verus! {

/// The SHA-256 digest of a byte string: 32 bytes, a function of the input
/// alone.
pub uninterp spec fn sha256_of(data: Seq<u8>) -> Seq<u8>;

/// The Ed25519 public key derived from a 32-byte secret seed: 32 bytes, a
/// function of the seed alone.
pub uninterp spec fn pk_of(seed: Seq<u8>) -> Seq<u8>;

/// The Ed25519 signature of a message under a 32-byte secret seed: 64 bytes,
/// deterministic per RFC 8032.
pub uninterp spec fn sign_of(seed: Seq<u8>, msg: Seq<u8>) -> Seq<u8>;

/// True iff the 32 key bytes and 64 signature bytes both decode and the
/// signature authenticates the message under the key.
pub uninterp spec fn ed25519_verifies(pk: Seq<u8>, msg: Seq<u8>, sig: Seq<u8>) -> bool;

/// Why a key or signature primitive refused its input.
#[derive(Debug, Clone, PartialEq, Eq, Structural)]
pub enum CryptoError {
    /// A public or secret key was not exactly 32 bytes.
    InvalidKeyLength,
    /// A signature was not exactly 64 bytes.
    InvalidSignatureLength,
    /// Key or signature bytes of the right length did not decode to a valid
    /// point or signature.
    DecodeFailed,
}

/// Relies on rand's OsRng and ed25519_dalek::Keypair::generate: the secret
/// seed is drawn from the system's secure random source and the public half is
/// derived from it, so whatever seed comes back, the pair is consistent.
#[verifier::external_body]
fn ed_generate() -> (r: (Vec<u8>, Vec<u8>))
    ensures
        r.0@.len() == 32,
        r.1@.len() == 32,
        r.1@ == pk_of(r.0@),
{
    let mut csprng = OsRng;
    let keypair = Keypair::generate(&mut csprng);
    (keypair.secret.to_bytes().to_vec(), keypair.public.to_bytes().to_vec())
}

/// Relies on ed25519_dalek::PublicKey::from(&SecretKey): the public key is a
/// function of the 32-byte seed alone, and SecretKey::from_bytes accepts every
/// 32-byte input.
#[verifier::external_body]
fn ed_public_of(seed: &[u8]) -> (r: Vec<u8>)
    requires
        seed@.len() == 32,
    ensures
        r@.len() == 32,
        r@ == pk_of(seed@),
{
    let secret = SecretKey::from_bytes(seed).unwrap();
    PublicKey::from(&secret).to_bytes().to_vec()
}

/// Relies on ed25519_dalek::Keypair::sign: Ed25519 signing per RFC 8032,
/// deterministic in the seed and the message, always a 64-byte signature; and
/// on the scheme's documented correctness, that a fresh signature
/// authenticates the message under the public key derived from the seed.
#[verifier::external_body]
fn ed_sign(seed: &[u8], message: &[u8]) -> (r: Vec<u8>)
    requires
        seed@.len() == 32,
    ensures
        r@.len() == 64,
        r@ == sign_of(seed@, message@),
        ed25519_verifies(pk_of(seed@), message@, r@),
{
    let secret = SecretKey::from_bytes(seed).unwrap();
    let public = PublicKey::from(&secret);
    let keypair = Keypair { secret, public };
    keypair.sign(message).to_bytes().to_vec()
}

/// Relies on ed25519_dalek::PublicKey::verify together with the byte decoders
/// PublicKey::from_bytes and Signature::from_bytes, all deterministic in the
/// bytes alone: Ok(true) exactly when key and signature decode and the
/// signature authenticates the message, Err when one of them does not decode.
#[verifier::external_body]
fn ed_verify(pk: &[u8], message: &[u8], sig: &[u8]) -> (r: Result<bool, ()>)
    requires
        pk@.len() == 32,
        sig@.len() == 64,
    ensures
        r matches Ok(b) ==> b == ed25519_verifies(pk@, message@, sig@),
        r is Err ==> !ed25519_verifies(pk@, message@, sig@),
{
    let public = match PublicKey::from_bytes(pk) {
        Ok(p) => p,
        Err(_) => return Err(()),
    };
    let signature = match Signature::from_bytes(sig) {
        Ok(s) => s,
        Err(_) => return Err(()),
    };
    Ok(public.verify(message, &signature).is_ok())
}

/// Relies on sha2::Sha256 (through Digest::digest): a deterministic 32-byte
/// digest of the input bytes.
#[verifier::external_body]
pub fn hash_credential(credential_data: &[u8]) -> (r: Vec<u8>)
    ensures
        r@.len() == 32,
        r@ == sha256_of(credential_data@),
{
    Sha256::digest(credential_data).to_vec()
}

/// An Ed25519 keypair held as raw bytes: a 32-byte secret seed and the 32-byte
/// public key derived from it.
pub struct CryptoKeyPair {
    secret: Vec<u8>,
    public: Vec<u8>,
}

impl CryptoKeyPair {
    /// Both halves are 32 bytes and the public half is derived from the seed.
    #[verifier::type_invariant]
    spec fn consistent(self) -> bool {
        self.secret@.len() == 32 && self.public@.len() == 32 && self.public@ == pk_of(self.secret@)
    }

    /// The secret seed bytes.
    pub closed spec fn seed(self) -> Seq<u8> {
        self.secret@
    }

    /// A fresh keypair from the system's secure random source.
    pub fn generate() -> (r: Self)
        ensures
            r.seed().len() == 32,
    {
        let (secret, public) = ed_generate();
        Self { secret, public }
    }

    /// Rebuilds a keypair from a secret-key encoding: accepted iff the input
    /// is exactly 32 bytes, and the public half is re-derived from it.
    pub fn from_secret_key(secret_key: &[u8]) -> (r: Result<Self, CryptoError>)
        ensures
            r is Ok <==> secret_key@.len() == 32,
            r matches Ok(kp) ==> kp.seed() == secret_key@,
            !(r is Ok) ==> r == Err::<Self, CryptoError>(CryptoError::InvalidKeyLength),
    {
        if secret_key.len() != 32 {
            return Err(CryptoError::InvalidKeyLength);
        }
        let public = ed_public_of(secret_key);
        Ok(Self { secret: copy_slice(secret_key), public })
    }

    /// The raw 32-byte public key, always the one derived from the seed.
    pub fn public_key(&self) -> (r: Vec<u8>)
        ensures
            r@ == pk_of(self.seed()),
            r@.len() == 32,
    {
        proof {
            use_type_invariant(self);
        }
        copy_bytes(&self.public)
    }

    /// The raw 32-byte secret seed.
    pub fn secret_key(&self) -> (r: Vec<u8>)
        ensures
            r@ == self.seed(),
            r@.len() == 32,
    {
        proof {
            use_type_invariant(self);
        }
        copy_bytes(&self.secret)
    }

    /// Signs an arbitrary message: the deterministic Ed25519 signature of the
    /// message under this keypair's seed.  The fresh signature authenticates
    /// the message under the public key derived from the seed.
    pub fn sign(&self, message: &[u8]) -> (r: Vec<u8>)
        ensures
            r@ == sign_of(self.seed(), message@),
            r@.len() == 64,
            ed25519_verifies(pk_of(self.seed()), message@, r@),
    {
        proof {
            use_type_invariant(self);
        }
        ed_sign(self.secret.as_slice(), message)
    }
}

/// A byte-for-byte copy of `b`.
pub(crate) fn copy_bytes(b: &Vec<u8>) -> (r: Vec<u8>)
    ensures
        r@ == b@,
{
    copy_slice(b.as_slice())
}

/// A byte-for-byte copy of `b`.
fn copy_slice(b: &[u8]) -> (r: Vec<u8>)
    ensures
        r@ == b@,
{
    let mut out: Vec<u8> = Vec::new();
    let n = b.len();
    let mut i: usize = 0;
    while i < n
        invariant
            n == b@.len(),
            0 <= i <= n,
            out@ == b@.take(i as int),
        decreases n - i,
    {
        out.push(b[i]);
        assert(b@.take(i + 1) =~= b@.take(i as int).push(b@[i as int]));
        i += 1;
    }
    assert(b@.take(n as int) =~= b@);
    out
}

/// Checks an Ed25519 signature independently of any keypair instance.
///
/// The key must be exactly 32 bytes and the signature exactly 64, each refused
/// with its own length error; bytes of the right length that do not decode are
/// refused as `DecodeFailed`.  Otherwise the result is `Ok(true)` exactly when
/// the signature authenticates the message under the key — a well-formed but
/// non-matching signature is `Ok(false)`, not an error.
pub fn verify_signature(public_key: &[u8], message: &[u8], signature: &[u8]) -> (r: Result<
    bool,
    CryptoError,
>)
    ensures
        public_key@.len() != 32 ==> r == Err::<bool, CryptoError>(CryptoError::InvalidKeyLength),
        public_key@.len() == 32 && signature@.len() != 64 ==> r == Err::<bool, CryptoError>(
            CryptoError::InvalidSignatureLength,
        ),
        public_key@.len() == 32 && signature@.len() == 64 ==> ((r == Ok::<bool, CryptoError>(true))
            <==> ed25519_verifies(public_key@, message@, signature@)),
{
    if public_key.len() != 32 {
        return Err(CryptoError::InvalidKeyLength);
    }
    if signature.len() != 64 {
        return Err(CryptoError::InvalidSignatureLength);
    }
    match ed_verify(public_key, message, signature) {
        Ok(b) => Ok(b),
        Err(_) => Err(CryptoError::DecodeFailed),
    }
}

} // verus!
