//! Issuance and verification of tamper-evident microcredentials.
//!
//! A credential binds a subject, a skill claim and supporting evidence to an
//! issuing authority.  The issuer canonically encodes the credential, digests
//! the encoding and signs the digest; a verifier re-derives the digest and
//! checks the signature against a trust store of known issuer identities.

use vstd::prelude::*;

pub mod canonical;
pub mod crypto;
pub mod issuer;
pub mod verification;

verus! {

/// Identity of an issuing authority.  Identity equality is by `id`; the
/// `public_key` recorded here is a snapshot and trust decisions go through a
/// verifier's own trust store, never through this embedded copy alone.
#[derive(Debug, Clone)]
pub struct Issuer {
    pub id: u128,
    pub name: String,
    pub url: String,
    pub public_key: Vec<u8>,
}

/// Field-by-field agreement of two issuer identities, compared on the values
/// the canonical encoding reads.
pub open spec fn issuer_matches(a: Issuer, b: Issuer) -> bool {
    &&& a.id == b.id
    &&& a.name@ == b.name@
    &&& a.url@ == b.url@
    &&& a.public_key@ == b.public_key@
}

/// The person a credential is about.  Opaque to the protocol beyond being part
/// of the signed payload.
#[derive(Debug, Clone)]
pub struct Subject {
    pub id: u128,
    pub name: String,
    pub email: String,
}

/// A skill claim carried by a credential.
#[derive(Debug, Clone)]
pub struct Skill {
    pub id: String,
    pub name: String,
    pub description: String,
    pub level: SkillLevel,
}

#[derive(Debug, Clone, PartialEq, Eq, Structural)]
pub enum SkillLevel {
    Beginner,
    Intermediate,
    Advanced,
    Expert,
}

/// One item of supporting evidence.
#[derive(Debug, Clone)]
pub struct Evidence {
    pub id: u128,
    pub name: String,
    pub description: String,
    pub url: String,
    pub evidence_type: EvidenceType,
}

#[derive(Debug, Clone)]
pub enum EvidenceType {
    Project,
    Assessment,
    Portfolio,
    Certification,
    Other(String),
}

/// A signed attestation that `subject` holds `skill`, backed by `evidence` and
/// issued by `issuer`.  Timestamps are Unix milliseconds; `metadata` is an
/// association list with unique keys kept in insertion order.  The signature,
/// when present, covers the canonical encoding of every field but itself.
#[derive(Debug, Clone)]
pub struct Microcredential {
    pub id: u128,
    pub issuer: Issuer,
    pub subject: Subject,
    pub skill: Skill,
    pub evidence: Vec<Evidence>,
    pub issued_at: i64,
    pub expires_at: Option<i64>,
    pub metadata: Vec<(String, String)>,
    pub signature: Option<Vec<u8>>,
}

/// Inserting into an association list: the first entry with the given key is
/// replaced, and a missing key is appended at the end.
pub open spec fn meta_insert(m: Seq<(String, String)>, key: String, value: String) -> Seq<
    (String, String),
>
    decreases m.len(),
{
    if m.len() == 0 {
        seq![(key, value)]
    } else if m[0].0@ == key@ {
        seq![(key, value)] + m.drop_first()
    } else {
        seq![m[0]] + meta_insert(m.drop_first(), key, value)
    }
}

proof fn lemma_meta_insert_found(m: Seq<(String, String)>, key: String, value: String, j: int)
    requires
        0 <= j < m.len(),
        m[j].0@ == key@,
        forall|k: int| 0 <= k < j ==> m[k].0@ != key@,
    ensures
        meta_insert(m, key, value) =~= m.update(j, (key, value)),
    decreases j,
{
    if j == 0 {
        assert(meta_insert(m, key, value) =~= m.update(0, (key, value)));
    } else {
        lemma_meta_insert_found(m.drop_first(), key, value, j - 1);
        assert(m.drop_first().update(j - 1, (key, value)) =~= m.update(j, (key, value)).drop_first());
        assert(meta_insert(m, key, value) =~= m.update(j, (key, value)));
    }
}

proof fn lemma_meta_insert_missing(m: Seq<(String, String)>, key: String, value: String)
    requires
        forall|k: int| 0 <= k < m.len() ==> m[k].0@ != key@,
    ensures
        meta_insert(m, key, value) =~= m.push((key, value)),
    decreases m.len(),
{
    if m.len() > 0 {
        lemma_meta_insert_missing(m.drop_first(), key, value);
        assert(meta_insert(m, key, value) =~= m.push((key, value)));
    }
}

impl Microcredential {
    /// The credential is expired at `now` iff it has an expiry and `now` lies
    /// strictly after it; a credential without an expiry never expires.
    pub open spec fn spec_expired_at(self, now: i64) -> bool {
        match self.expires_at {
            Some(t) => now > t,
            None => false,
        }
    }

    /// Structural validity: signed and not expired.  A local self-check,
    /// distinct from cryptographic verification against a trust store.
    pub open spec fn spec_valid_at(self, now: i64) -> bool {
        !self.spec_expired_at(now) && self.signature is Some
    }

    /// Builds an unsigned credential: a fresh random id, the current time as
    /// `issued_at`, empty metadata and no signature.
    pub fn new(
        issuer: Issuer,
        subject: Subject,
        skill: Skill,
        evidence: Vec<Evidence>,
        expires_at: Option<i64>,
    ) -> (r: Self)
        ensures
            r.issuer == issuer,
            r.subject == subject,
            r.skill == skill,
            r.evidence == evidence,
            r.expires_at == expires_at,
            r.metadata@ == Seq::<(String, String)>::empty(),
            r.signature is None,
    {
        Self {
            id: fresh_id(),
            issuer,
            subject,
            skill,
            evidence,
            issued_at: now_millis(),
            expires_at,
            metadata: Vec::new(),
            signature: None,
        }
    }

    /// Expiry against an explicit clock reading.
    pub fn is_expired_at(&self, now: i64) -> (r: bool)
        ensures
            r == self.spec_expired_at(now),
    {
        match self.expires_at {
            Some(t) => now > t,
            None => false,
        }
    }

    /// Expiry against the current wall clock.  The clock is read once; a
    /// credential without an expiry is never reported expired.
    pub fn is_expired(&self) -> (r: bool)
        ensures
            exists|now: i64| r == self.spec_expired_at(now),
            self.expires_at is None ==> !r,
    {
        let now = now_millis();
        self.is_expired_at(now)
    }

    /// Structural validity against an explicit clock reading.
    pub fn is_valid_at(&self, now: i64) -> (r: bool)
        ensures
            r == self.spec_valid_at(now),
    {
        !self.is_expired_at(now) && self.signature.is_some()
    }

    /// Structural validity against the current wall clock.
    pub fn is_valid(&self) -> (r: bool)
        ensures
            exists|now: i64| r == self.spec_valid_at(now),
            self.expires_at is None ==> r == (self.signature is Some),
    {
        let now = now_millis();
        self.is_valid_at(now)
    }

    /// Replaces the value under `key`, or appends the pair if the key is new.
    /// Changing data after signing leaves the old signature in place and so
    /// invalidates it; the other fields are untouched.
    pub fn add_metadata(&mut self, key: String, value: String)
        ensures
            final(self).metadata@ == meta_insert(old(self).metadata@, key, value),
            final(self).id == old(self).id,
            final(self).issuer == old(self).issuer,
            final(self).subject == old(self).subject,
            final(self).skill == old(self).skill,
            final(self).evidence == old(self).evidence,
            final(self).issued_at == old(self).issued_at,
            final(self).expires_at == old(self).expires_at,
            final(self).signature == old(self).signature,
    {
        let ghost m = self.metadata@;
        let n = self.metadata.len();
        let mut i: usize = 0;
        while i < n
            invariant
                *self == *old(self),
                m == self.metadata@,
                n == self.metadata.len(),
                0 <= i <= n,
                forall|k: int| 0 <= k < i ==> m[k].0@ != key@,
            decreases n - i,
        {
            if self.metadata[i].0 == key {
                proof {
                    lemma_meta_insert_found(m, key, value, i as int);
                }
                self.metadata.remove(i);
                self.metadata.insert(i, (key, value));
                assert(self.metadata@ =~= m.update(i as int, (key, value)));
                return ;
            }
            i += 1;
        }
        proof {
            lemma_meta_insert_missing(m, key, value);
        }
        self.metadata.push((key, value));
    }
}

/// Relies on uuid::Uuid::new_v4 for a randomly drawn version-4 identifier;
/// nothing is promised of the value.
#[verifier::external_body]
pub(crate) fn fresh_id() -> u128 {
    uuid::Uuid::new_v4().as_u128()
}

/// Relies on chrono::Utc::now for the current wall-clock time in Unix
/// milliseconds; nothing is promised of the value.
#[verifier::external_body]
pub(crate) fn now_millis() -> i64 {
    chrono::Utc::now().timestamp_millis()
}

} // verus!
