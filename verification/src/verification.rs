//! The verifying service: a trust store of issuer identities and the ordered
//! checks that accept or refuse a credential.

use vstd::prelude::*;
use vstd::string::StringExecFns;
use crate::{Issuer, Microcredential};
use crate::canonical::{canon_credential, canonical_bytes};
use crate::crypto::{
    ed25519_verifies, hash_credential, pk_of, sha256_of, sign_of, verify_signature,
};

verus! {

/// Why a credential was not accepted.  All variants are terminal: they
/// describe why the document is not trustworthy, not transient conditions.
#[derive(Debug, Clone, PartialEq, Eq)]
pub enum VerificationError {
    /// Encoding the credential for hashing failed.  The canonical encoding
    /// used here is total, so this variant is kept for the callers' sake and
    /// never produced.
    SerializationError(String),
    /// The signature does not authenticate the credential under the trusted
    /// key, or the key or signature bytes are malformed.
    InvalidSignature,
    /// The credential's expiry lies strictly before the clock reading.
    ExpiredCredential,
    /// The credential carries no signature at all.
    MissingSignature,
    /// No trust-store entry has the id the credential's embedded issuer
    /// claims.
    TrustedIssuerNotFound,
}

impl VerificationError {
    /// A human-readable description of the failure, exact to the character.
    pub fn message(&self) -> (r: String)
        ensures
            *self matches VerificationError::SerializationError(msg) ==> r@ == "Serialization error: "@
                + msg@,
            *self is InvalidSignature ==> r@ == "Invalid signature"@,
            *self is ExpiredCredential ==> r@ == "Credential has expired"@,
            *self is MissingSignature ==> r@ == "Credential is not signed"@,
            *self is TrustedIssuerNotFound ==> r@ == "Issuer is not in the trusted list"@,
    {
        match self {
            VerificationError::SerializationError(msg) => String::from_str(
                "Serialization error: ",
            ).concat(msg.as_str()),
            VerificationError::InvalidSignature => String::from_str("Invalid signature"),
            VerificationError::ExpiredCredential => String::from_str("Credential has expired"),
            VerificationError::MissingSignature => String::from_str("Credential is not signed"),
            VerificationError::TrustedIssuerNotFound => String::from_str(
                "Issuer is not in the trusted list",
            ),
        }
    }
}

/// The first entry of `s` whose id is `id`, if any.
pub open spec fn spec_find_issuer(s: Seq<Issuer>, id: u128) -> Option<Issuer>
    decreases s.len(),
{
    if s.len() == 0 {
        None
    } else if s[0].id == id {
        Some(s[0])
    } else {
        spec_find_issuer(s.drop_first(), id)
    }
}

/// `s` without every entry whose id is `id`, order otherwise kept.
pub open spec fn spec_remove_issuer(s: Seq<Issuer>, id: u128) -> Seq<Issuer>
    decreases s.len(),
{
    if s.len() == 0 {
        Seq::<Issuer>::empty()
    } else if s[0].id == id {
        spec_remove_issuer(s.drop_first(), id)
    } else {
        seq![s[0]] + spec_remove_issuer(s.drop_first(), id)
    }
}

/// Validates signed credentials against its own trust store of issuer
/// identities.
pub struct CredentialVerifier {
    trusted_issuers: Vec<Issuer>,
}

impl CredentialVerifier {
    /// The trust store, in insertion order.
    pub closed spec fn trusted(self) -> Seq<Issuer> {
        self.trusted_issuers@
    }

    /// The outcome of verifying `c` at clock reading `now`: the checks run in
    /// order and the first failure wins — expiry, then signature presence,
    /// then trust-store lookup by the embedded issuer's id, then the
    /// cryptographic check of the signature over the digest of the canonical
    /// encoding, against the trust store's recorded key.  Success is `Ok(true)`
    /// and never `Ok(false)`: a mismatch is the `InvalidSignature` error.
    pub open spec fn spec_verify(self, c: Microcredential, now: i64) -> Result<
        bool,
        VerificationError,
    > {
        if c.spec_expired_at(now) {
            Err(VerificationError::ExpiredCredential)
        } else if !(c.signature is Some) {
            Err(VerificationError::MissingSignature)
        } else if !(spec_find_issuer(self.trusted(), c.issuer.id) is Some) {
            Err(VerificationError::TrustedIssuerNotFound)
        } else {
            let pk = spec_find_issuer(self.trusted(), c.issuer.id)->0.public_key@;
            let sig = c.signature->0@;
            if pk.len() == 32 && sig.len() == 64 && ed25519_verifies(
                pk,
                sha256_of(canon_credential(c)),
                sig,
            ) {
                Ok(true)
            } else {
                Err(VerificationError::InvalidSignature)
            }
        }
    }

    /// An empty trust store: nobody is trusted yet.
    pub fn new() -> (r: Self)
        ensures
            r.trusted() == Seq::<Issuer>::empty(),
    {
        Self { trusted_issuers: Vec::new() }
    }

    /// Appends an identity to the trust store.
    pub fn add_trusted_issuer(&mut self, issuer: Issuer)
        ensures
            final(self).trusted() == old(self).trusted().push(issuer),
    {
        self.trusted_issuers.push(issuer);
    }

    /// Drops every trust-store entry with the given id, keeping the order of
    /// the rest.
    pub fn remove_trusted_issuer(&mut self, issuer_id: u128)
        ensures
            final(self).trusted() == spec_remove_issuer(old(self).trusted(), issuer_id),
    {
        let ghost orig = self.trusted_issuers@;
        proof {
            assert(orig.skip(0) =~= orig);
            assert(orig.take(0) + spec_remove_issuer(orig, issuer_id) =~= spec_remove_issuer(
                orig,
                issuer_id,
            ));
        }
        let mut i: usize = 0;
        while i < self.trusted_issuers.len()
            invariant
                0 <= i <= self.trusted_issuers@.len(),
                forall|k: int| 0 <= k < i ==> self.trusted_issuers@[k].id != issuer_id,
                spec_remove_issuer(orig, issuer_id) == self.trusted_issuers@.take(i as int)
                    + spec_remove_issuer(self.trusted_issuers@.skip(i as int), issuer_id),
            decreases self.trusted_issuers@.len() - i,
        {
            let ghost cur = self.trusted_issuers@;
            if self.trusted_issuers[i].id == issuer_id {
                self.trusted_issuers.remove(i);
                proof {
                    assert(cur.skip(i as int).drop_first() =~= self.trusted_issuers@.skip(i as int));
                    assert(self.trusted_issuers@.take(i as int) =~= cur.take(i as int));
                }
            } else {
                proof {
                    assert(cur.skip(i as int).drop_first() =~= cur.skip(i as int + 1));
                    assert(cur.take(i as int) + seq![cur[i as int]] =~= cur.take(i as int + 1));
                    assert(cur.take(i as int) + (seq![cur[i as int]] + spec_remove_issuer(
                        cur.skip(i as int + 1),
                        issuer_id,
                    )) =~= cur.take(i as int + 1) + spec_remove_issuer(
                        cur.skip(i as int + 1),
                        issuer_id,
                    ));
                }
                i += 1;
            }
        }
        proof {
            assert(self.trusted_issuers@.skip(i as int) =~= Seq::<Issuer>::empty());
            assert(self.trusted_issuers@.take(i as int) =~= self.trusted_issuers@);
            assert(final(self).trusted() =~= spec_remove_issuer(orig, issuer_id));
        }
    }

    /// The trust store's entries, in order.
    pub fn get_trusted_issuers(&self) -> (r: &[Issuer])
        ensures
            r@ == self.trusted(),
    {
        self.trusted_issuers.as_slice()
    }

    /// The index of the first trust-store entry with the given id.
    fn find_trusted(&self, id: u128) -> (r: Option<usize>)
        ensures
            r matches Some(j) ==> 0 <= j < self.trusted().len() && spec_find_issuer(
                self.trusted(),
                id,
            ) == Some(self.trusted()[j as int]) && self.trusted()[j as int].id == id,
            r is None ==> spec_find_issuer(self.trusted(), id) is None,
    {
        let n = self.trusted_issuers.len();
        proof {
            assert(self.trusted().skip(0) =~= self.trusted());
        }
        let mut i: usize = 0;
        while i < n
            invariant
                n == self.trusted().len(),
                0 <= i <= n,
                spec_find_issuer(self.trusted(), id) == spec_find_issuer(
                    self.trusted().skip(i as int),
                    id,
                ),
            decreases n - i,
        {
            if self.trusted_issuers[i].id == id {
                proof {
                    assert(self.trusted().skip(i as int)[0] == self.trusted()[i as int]);
                }
                return Some(i);
            }
            proof {
                assert(self.trusted().skip(i as int).drop_first() =~= self.trusted().skip(
                    i as int + 1,
                ));
            }
            i += 1;
        }
        proof {
            assert(self.trusted().skip(i as int) =~= Seq::<Issuer>::empty());
        }
        None
    }

    /// Verifies `credential` against an explicit clock reading: exactly
    /// `spec_verify`, check for check.
    pub fn verify_credential_at(&self, credential: &Microcredential, now: i64) -> (r: Result<
        bool,
        VerificationError,
    >)
        ensures
            r == self.spec_verify(*credential, now),
    {
        if credential.is_expired_at(now) {
            return Err(VerificationError::ExpiredCredential);
        }
        let signature = match &credential.signature {
            Some(s) => s,
            None => {
                return Err(VerificationError::MissingSignature);
            },
        };
        let j = match self.find_trusted(credential.issuer.id) {
            Some(j) => j,
            None => {
                return Err(VerificationError::TrustedIssuerNotFound);
            },
        };
        let encoded = canonical_bytes(credential);
        let digest = hash_credential(encoded.as_slice());
        let trusted_pk = &self.trusted_issuers[j].public_key;
        match verify_signature(trusted_pk.as_slice(), digest.as_slice(), signature.as_slice()) {
            Ok(true) => Ok(true),
            _ => Err(VerificationError::InvalidSignature),
        }
    }

    /// Verifies `credential` against the current wall clock, read once.  For a
    /// credential without an expiry the outcome is the same at every clock
    /// reading.
    pub fn verify_credential(&self, credential: &Microcredential) -> (r: Result<
        bool,
        VerificationError,
    >)
        ensures
            exists|now: i64| r == self.spec_verify(*credential, now),
            credential.expires_at is None ==> forall|now: i64|
                r == self.spec_verify(*credential, now),
    {
        let now = crate::now_millis();
        let r = self.verify_credential_at(credential, now);
        proof {
            assert(r == self.spec_verify(*credential, now));
            if credential.expires_at is None {
                assert forall|t: i64| r == self.spec_verify(*credential, t) by {
                    assert(!credential.spec_expired_at(t));
                }
            }
        }
        r
    }

    /// What `verify_credential_chain_at` may return for `s` at `now`: all
    /// credentials verified, in order and stopping at the first failure, whose
    /// error is propagated alone.
    pub open spec fn spec_chain_outcome(
        self,
        s: Seq<Microcredential>,
        now: i64,
        r: Result<Vec<bool>, VerificationError>,
    ) -> bool {
        &&& (r is Ok <==> (forall|k: int|
            0 <= k < s.len() ==> self.spec_verify(s[k], now) == Ok::<bool, VerificationError>(
                true,
            )))
        &&& (r matches Ok(v) ==> v@ == Seq::new(s.len(), |k: int| true))
        &&& (r matches Err(e) ==> exists|j: int|
            0 <= j < s.len() && (forall|k: int|
                0 <= k < j ==> self.spec_verify(s[k], now) == Ok::<bool, VerificationError>(true))
                && self.spec_verify(s[j], now) == Err::<bool, VerificationError>(e))
    }

    /// Verifies each credential in order against one clock reading, stopping
    /// at the first failure and propagating that single error.
    pub fn verify_credential_chain_at(&self, credentials: &[Microcredential], now: i64) -> (r:
        Result<Vec<bool>, VerificationError>)
        ensures
            self.spec_chain_outcome(credentials@, now, r),
    {
        let n = credentials.len();
        let mut out: Vec<bool> = Vec::new();
        let mut i: usize = 0;
        while i < n
            invariant
                n == credentials@.len(),
                0 <= i <= n,
                out@ == Seq::new(i as nat, |k: int| true),
                forall|k: int|
                    0 <= k < i ==> self.spec_verify(credentials@[k], now) == Ok::<
                        bool,
                        VerificationError,
                    >(true),
            decreases n - i,
        {
            match self.verify_credential_at(&credentials[i], now) {
                Ok(_) => {
                    out.push(true);
                    proof {
                        assert(out@ =~= Seq::new(i as nat + 1, |k: int| true));
                    }
                },
                Err(e) => {
                    return Err(e);
                },
            }
            i += 1;
        }
        Ok(out)
    }

    /// Verifies each credential in order against the current wall clock, read
    /// once for the whole chain.
    pub fn verify_credential_chain(&self, credentials: &[Microcredential]) -> (r: Result<
        Vec<bool>,
        VerificationError,
    >)
        ensures
            exists|now: i64| self.spec_chain_outcome(credentials@, now, r),
    {
        let now = crate::now_millis();
        let r = self.verify_credential_chain_at(credentials, now);
        proof {
            assert(self.spec_chain_outcome(credentials@, now, r));
        }
        r
    }
}

impl Default for CredentialVerifier {
    /// An empty trust store, as `new` builds.
    fn default() -> (r: Self)
        ensures
            r.trusted() == Seq::<Issuer>::empty(),
    {
        CredentialVerifier::new()
    }
}

/// Round trip: a credential signed by an issuing service — its signature is
/// the service's signature over the digest of the credential's canonical
/// encoding — and checked, unexpired, by a verifier whose trust store resolves
/// the credential's issuer id to the signing key's public half, verifies
/// successfully.
pub proof fn lemma_round_trip(
    v: CredentialVerifier,
    c: Microcredential,
    now: i64,
    seed: Seq<u8>,
)
    requires
        !c.spec_expired_at(now),
        c.signature matches Some(sig) && sig@ == sign_of(seed, sha256_of(canon_credential(c)))
            && sig@.len() == 64,
        ed25519_verifies(pk_of(seed), sha256_of(canon_credential(c)), c.signature->0@),
        spec_find_issuer(v.trusted(), c.issuer.id) matches Some(ti) && ti.public_key@ == pk_of(
            seed,
        ) && ti.public_key@.len() == 32,
    ensures
        v.spec_verify(c, now) == Ok::<bool, VerificationError>(true),
{
}

/// Expiry: at a clock reading strictly after its expiry a credential is
/// expired, not structurally valid, and refused as `ExpiredCredential` before
/// any other check, however good its signature.
pub proof fn lemma_expired_credential_rejected(
    v: CredentialVerifier,
    c: Microcredential,
    now: i64,
)
    requires
        c.expires_at matches Some(t) && now > t,
    ensures
        c.spec_expired_at(now),
        !c.spec_valid_at(now),
        v.spec_verify(c, now) == Err::<bool, VerificationError>(
            VerificationError::ExpiredCredential,
        ),
{
}

/// Missing signature: an unexpired credential without a signature is refused
/// as `MissingSignature`.
pub proof fn lemma_missing_signature_rejected(
    v: CredentialVerifier,
    c: Microcredential,
    now: i64,
)
    requires
        !c.spec_expired_at(now),
        c.signature is None,
    ensures
        v.spec_verify(c, now) == Err::<bool, VerificationError>(
            VerificationError::MissingSignature,
        ),
{
}

/// Untrusted issuer: an unexpired, signed credential whose issuer id resolves
/// to nothing in the trust store is refused as `TrustedIssuerNotFound`, even
/// if its signature is otherwise correct.
pub proof fn lemma_untrusted_issuer_rejected(
    v: CredentialVerifier,
    c: Microcredential,
    now: i64,
)
    requires
        !c.spec_expired_at(now),
        c.signature is Some,
        spec_find_issuer(v.trusted(), c.issuer.id) is None,
    ensures
        v.spec_verify(c, now) == Err::<bool, VerificationError>(
            VerificationError::TrustedIssuerNotFound,
        ),
{
}

} // verus!
