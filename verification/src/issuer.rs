//! The issuing service: an issuer identity together with the keypair that
//! signs on its behalf.

use vstd::prelude::*;
use crate::{fresh_id, Evidence, Issuer, Microcredential, Skill, Subject};
use crate::canonical::{canon_credential, canonical_bytes};
use crate::crypto::{
    ed25519_verifies, hash_credential, pk_of, sha256_of, sign_of, CryptoError, CryptoKeyPair,
};

verus! {

/// Issues signed credentials under one issuer identity.
///
/// `new` guarantees that the identity's recorded public key is the one derived
/// from the service's seed; `from_existing` takes the pairing on the caller's
/// word and does not check it.
pub struct CredentialIssuer {
    issuer_info: Issuer,
    keypair: CryptoKeyPair,
}

impl CredentialIssuer {
    /// The issuer identity this service signs for.
    pub closed spec fn issuer(self) -> Issuer {
        self.issuer_info
    }

    /// The secret seed of the service's keypair.
    pub closed spec fn seed(self) -> Seq<u8> {
        self.keypair.seed()
    }

    /// A fresh issuing service: a new keypair, a fresh random identity id, and
    /// the derived public key recorded in the identity.
    pub fn new(name: String, url: String) -> (r: Self)
        ensures
            r.issuer().name == name,
            r.issuer().url == url,
            r.issuer().public_key@ == pk_of(r.seed()),
            r.seed().len() == 32,
    {
        let keypair = CryptoKeyPair::generate();
        let public_key = keypair.public_key();
        let issuer_info = Issuer { id: fresh_id(), name, url, public_key };
        Self { issuer_info, keypair }
    }

    /// Rebuilds a service from a known identity and a 32-byte secret key.
    /// The identity is taken as given: whether its recorded public key matches
    /// the seed is the caller's responsibility.
    pub fn from_existing(issuer_info: Issuer, secret_key: &[u8]) -> (r: Result<Self, CryptoError>)
        ensures
            r is Ok <==> secret_key@.len() == 32,
            r matches Ok(s) ==> s.issuer() == issuer_info && s.seed() == secret_key@,
            !(r is Ok) ==> r == Err::<Self, CryptoError>(CryptoError::InvalidKeyLength),
    {
        match CryptoKeyPair::from_secret_key(secret_key) {
            Ok(keypair) => Ok(Self { issuer_info, keypair }),
            Err(e) => Err(e),
        }
    }

    /// Builds a credential embedding a copy of this service's identity, then
    /// signs the SHA-256 digest of its canonical encoding and attaches the
    /// signature.  Never fails; the `Result` is kept for the callers' sake.
    #[verifier::rlimit(80)]
    pub fn issue_credential(
        &self,
        subject: Subject,
        skill: Skill,
        evidence: Vec<Evidence>,
        expires_at: Option<i64>,
    ) -> (r: Result<Microcredential, CryptoError>)
        ensures
            r is Ok,
            r matches Ok(c) ==> {
                &&& crate::issuer_matches(c.issuer, self.issuer())
                &&& c.subject == subject
                &&& c.skill == skill
                &&& c.evidence == evidence
                &&& c.expires_at == expires_at
                &&& c.metadata@ == Seq::<(String, String)>::empty()
                &&& c.signature matches Some(sig) && sig@ == sign_of(
                    self.seed(),
                    sha256_of(canon_credential(c)),
                ) && sig@.len() == 64 && ed25519_verifies(
                    pk_of(self.seed()),
                    sha256_of(canon_credential(c)),
                    sig@,
                )
            },
    {
        let issuer_copy = Issuer {
            id: self.issuer_info.id,
            name: self.issuer_info.name.clone(),
            url: self.issuer_info.url.clone(),
            public_key: crate::crypto::copy_bytes(&self.issuer_info.public_key),
        };
        let mut credential = Microcredential::new(issuer_copy, subject, skill, evidence, expires_at);
        let encoded = canonical_bytes(&credential);
        let digest = hash_credential(encoded.as_slice());
        let signature = self.keypair.sign(digest.as_slice());
        let ghost before = credential;
        credential.signature = Some(signature);
        proof {
            crate::canonical::lemma_canon_ignores_signature(credential, before);
        }
        Ok(credential)
    }

    /// The issuer identity handed to verifiers for their trust stores.
    pub fn get_issuer_info(&self) -> (r: &Issuer)
        ensures
            *r == self.issuer(),
    {
        &self.issuer_info
    }

    /// The raw public key of the service's keypair.
    pub fn get_public_key(&self) -> (r: Vec<u8>)
        ensures
            r@ == pk_of(self.seed()),
            r@.len() == 32,
    {
        self.keypair.public_key()
    }

    /// The raw secret seed of the service's keypair.
    pub fn get_secret_key(&self) -> (r: Vec<u8>)
        ensures
            r@ == self.seed(),
            r@.len() == 32,
    {
        self.keypair.secret_key()
    }
}

} // verus!
