//! Canonical encoding of a credential.
//!
//! The signature scheme signs a digest of this encoding, so two logically
//! equal credentials must encode to the same bytes.  The form chosen here is
//! an explicit, self-contained binary layout: fixed-width big-endian integers,
//! length-prefixed UTF-8 strings, tagged enums and tagged options, fields in
//! declaration order — and the signature field left out entirely, so that the
//! signature never covers itself.

use vstd::prelude::*;
use vstd::utf8::encode_utf8;
use crate::{Evidence, EvidenceType, Issuer, Microcredential, Skill, SkillLevel, Subject};

verus! {

/// A `u64` as 8 big-endian bytes.
pub open spec fn be_u64(n: u64) -> Seq<u8> {
    seq![
        ((n >> 56) & 0xff) as u8,
        ((n >> 48) & 0xff) as u8,
        ((n >> 40) & 0xff) as u8,
        ((n >> 32) & 0xff) as u8,
        ((n >> 24) & 0xff) as u8,
        ((n >> 16) & 0xff) as u8,
        ((n >> 8) & 0xff) as u8,
        (n & 0xff) as u8,
    ]
}

/// A `u128` as 16 big-endian bytes.
pub open spec fn be_u128(n: u128) -> Seq<u8> {
    be_u64(((n >> 64) & 0xffff_ffff_ffff_ffff) as u64) + be_u64((n & 0xffff_ffff_ffff_ffff) as u64)
}

/// An `i64` as a sign byte followed by 8 big-endian magnitude bytes: `0` and
/// the value itself when non-negative, `1` and `-(n + 1)` when negative.
pub open spec fn enc_i64(n: i64) -> Seq<u8> {
    if n >= 0 {
        seq![0u8] + be_u64(n as u64)
    } else {
        seq![1u8] + be_u64((-(n + 1)) as u64)
    }
}

/// A byte string, prefixed with its length.
pub open spec fn enc_bytes(b: Seq<u8>) -> Seq<u8> {
    be_u64(b.len() as u64) + b
}

/// A string: its UTF-8 bytes, prefixed with their count.
pub open spec fn enc_str(s: Seq<char>) -> Seq<u8> {
    enc_bytes(encode_utf8(s))
}

/// An optional timestamp: `0` for absent, `1` and the value for present.
pub open spec fn enc_opt_i64(o: Option<i64>) -> Seq<u8> {
    match o {
        None => seq![0u8],
        Some(t) => seq![1u8] + enc_i64(t),
    }
}

/// A skill level, as a one-byte tag.
pub open spec fn enc_level(l: SkillLevel) -> Seq<u8> {
    match l {
        SkillLevel::Beginner => seq![0u8],
        SkillLevel::Intermediate => seq![1u8],
        SkillLevel::Advanced => seq![2u8],
        SkillLevel::Expert => seq![3u8],
    }
}

/// An evidence kind, as a one-byte tag; the free-text kind carries its text.
pub open spec fn enc_evidence_type(t: EvidenceType) -> Seq<u8> {
    match t {
        EvidenceType::Project => seq![0u8],
        EvidenceType::Assessment => seq![1u8],
        EvidenceType::Portfolio => seq![2u8],
        EvidenceType::Certification => seq![3u8],
        EvidenceType::Other(s) => seq![4u8] + enc_str(s@),
    }
}

pub open spec fn enc_issuer(i: Issuer) -> Seq<u8> {
    be_u128(i.id) + enc_str(i.name@) + enc_str(i.url@) + enc_bytes(i.public_key@)
}

pub open spec fn enc_subject(s: Subject) -> Seq<u8> {
    be_u128(s.id) + enc_str(s.name@) + enc_str(s.email@)
}

pub open spec fn enc_skill(s: Skill) -> Seq<u8> {
    enc_str(s.id@) + enc_str(s.name@) + enc_str(s.description@) + enc_level(s.level)
}

pub open spec fn enc_evidence(e: Evidence) -> Seq<u8> {
    be_u128(e.id) + enc_str(e.name@) + enc_str(e.description@) + enc_str(e.url@)
        + enc_evidence_type(e.evidence_type)
}

/// The evidence items, one after the other.
pub open spec fn enc_evidence_list(es: Seq<Evidence>) -> Seq<u8>
    decreases es.len(),
{
    if es.len() == 0 {
        Seq::<u8>::empty()
    } else {
        enc_evidence(es[0]) + enc_evidence_list(es.drop_first())
    }
}

/// The metadata entries, one after the other, in their stored order.
pub open spec fn enc_metadata_list(m: Seq<(String, String)>) -> Seq<u8>
    decreases m.len(),
{
    if m.len() == 0 {
        Seq::<u8>::empty()
    } else {
        enc_str(m[0].0@) + enc_str(m[0].1@) + enc_metadata_list(m.drop_first())
    }
}

/// The canonical encoding of a credential: every field in declaration order,
/// each collection prefixed with its element count — and no signature, however
/// the `signature` field is populated.  Two credentials that agree on all
/// other fields therefore have equal canonical encodings.
pub open spec fn canon_credential(c: Microcredential) -> Seq<u8> {
    be_u128(c.id) + enc_issuer(c.issuer) + enc_subject(c.subject) + enc_skill(c.skill) + be_u64(
        c.evidence@.len() as u64,
    ) + enc_evidence_list(c.evidence@) + enc_i64(c.issued_at) + enc_opt_i64(c.expires_at) + be_u64(
        c.metadata@.len() as u64,
    ) + enc_metadata_list(c.metadata@)
}

/// The canonical encoding never reads the signature field: credentials that
/// agree on every other field encode to the same bytes.
pub proof fn lemma_canon_ignores_signature(a: Microcredential, b: Microcredential)
    requires
        a.id == b.id,
        a.issuer == b.issuer,
        a.subject == b.subject,
        a.skill == b.skill,
        a.evidence == b.evidence,
        a.issued_at == b.issued_at,
        a.expires_at == b.expires_at,
        a.metadata == b.metadata,
    ensures
        canon_credential(a) == canon_credential(b),
{
}

proof fn lemma_enc_evidence_list_push(es: Seq<Evidence>, e: Evidence)
    ensures
        enc_evidence_list(es.push(e)) =~= enc_evidence_list(es) + enc_evidence(e),
    decreases es.len(),
{
    if es.len() == 0 {
        assert(es.push(e).drop_first() =~= Seq::<Evidence>::empty());
        assert(enc_evidence_list(Seq::<Evidence>::empty()) == Seq::<u8>::empty());
        assert(es.push(e)[0] == e);
        assert(enc_evidence_list(es.push(e)) =~= enc_evidence_list(es) + enc_evidence(e));
    } else {
        assert(es.push(e).drop_first() =~= es.drop_first().push(e));
        lemma_enc_evidence_list_push(es.drop_first(), e);
        assert(es.push(e)[0] == es[0]);
        assert(enc_evidence_list(es.push(e)) == enc_evidence(es[0]) + (enc_evidence_list(
            es.drop_first(),
        ) + enc_evidence(e)));
        assert(enc_evidence(es[0]) + (enc_evidence_list(es.drop_first()) + enc_evidence(e)) =~= (
        enc_evidence(es[0]) + enc_evidence_list(es.drop_first())) + enc_evidence(e));
    }
}

proof fn lemma_enc_metadata_list_push(m: Seq<(String, String)>, e: (String, String))
    ensures
        enc_metadata_list(m.push(e)) =~= enc_metadata_list(m) + enc_str(e.0@) + enc_str(e.1@),
    decreases m.len(),
{
    if m.len() == 0 {
        assert(m.push(e).drop_first() =~= Seq::<(String, String)>::empty());
        assert(enc_metadata_list(Seq::<(String, String)>::empty()) == Seq::<u8>::empty());
        assert(m.push(e)[0] == e);
        assert(enc_metadata_list(m.push(e)) =~= enc_metadata_list(m) + enc_str(e.0@) + enc_str(
            e.1@,
        ));
    } else {
        assert(m.push(e).drop_first() =~= m.drop_first().push(e));
        lemma_enc_metadata_list_push(m.drop_first(), e);
        assert(m.push(e)[0] == m[0]);
        assert(enc_metadata_list(m.push(e)) == enc_str(m[0].0@) + enc_str(m[0].1@) + ((
        enc_metadata_list(m.drop_first()) + enc_str(e.0@)) + enc_str(e.1@)));
        assert(enc_str(m[0].0@) + enc_str(m[0].1@) + ((enc_metadata_list(m.drop_first()) + enc_str(
            e.0@,
        )) + enc_str(e.1@)) =~= ((enc_str(m[0].0@) + enc_str(m[0].1@) + enc_metadata_list(
            m.drop_first(),
        )) + enc_str(e.0@)) + enc_str(e.1@));
    }
}

/// Appends the 8 big-endian bytes of `n`.
fn push_u64(out: &mut Vec<u8>, n: u64)
    ensures
        final(out)@ == old(out)@ + be_u64(n),
{
    proof {
        assert((n >> 56) & 0xff < 256 && (n >> 48) & 0xff < 256 && (n >> 40) & 0xff < 256 && (n
            >> 32) & 0xff < 256 && (n >> 24) & 0xff < 256 && (n >> 16) & 0xff < 256 && (n >> 8)
            & 0xff < 256 && n & 0xff < 256) by (bit_vector);
    }
    out.push(((n >> 56) & 0xff) as u8);
    out.push(((n >> 48) & 0xff) as u8);
    out.push(((n >> 40) & 0xff) as u8);
    out.push(((n >> 32) & 0xff) as u8);
    out.push(((n >> 24) & 0xff) as u8);
    out.push(((n >> 16) & 0xff) as u8);
    out.push(((n >> 8) & 0xff) as u8);
    out.push((n & 0xff) as u8);
    assert(out@ =~= old(out)@ + be_u64(n));
}

/// Appends the 16 big-endian bytes of `n`.
fn push_u128(out: &mut Vec<u8>, n: u128)
    ensures
        final(out)@ == old(out)@ + be_u128(n),
{
    proof {
        assert((n >> 64) & 0xffff_ffff_ffff_ffff < 0x1_0000_0000_0000_0000 && n
            & 0xffff_ffff_ffff_ffff < 0x1_0000_0000_0000_0000) by (bit_vector);
    }
    push_u64(out, ((n >> 64) & 0xffff_ffff_ffff_ffff) as u64);
    push_u64(out, (n & 0xffff_ffff_ffff_ffff) as u64);
    assert(out@ =~= old(out)@ + be_u128(n));
}

/// Appends the sign-and-magnitude encoding of `n`.
fn push_i64(out: &mut Vec<u8>, n: i64)
    ensures
        final(out)@ == old(out)@ + enc_i64(n),
{
    if n >= 0 {
        out.push(0u8);
        push_u64(out, n as u64);
    } else {
        out.push(1u8);
        push_u64(out, (-(n + 1)) as u64);
    }
    assert(out@ =~= old(out)@ + enc_i64(n));
}

/// Appends a length-prefixed byte string.
fn push_bytes(out: &mut Vec<u8>, b: &[u8])
    ensures
        final(out)@ == old(out)@ + enc_bytes(b@),
{
    push_u64(out, b.len() as u64);
    let n = b.len();
    let mut i: usize = 0;
    while i < n
        invariant
            n == b@.len(),
            0 <= i <= n,
            out@ == old(out)@ + be_u64(b@.len() as u64) + b@.take(i as int),
        decreases n - i,
    {
        out.push(b[i]);
        assert(b@.take(i + 1) =~= b@.take(i as int).push(b@[i as int]));
        i += 1;
    }
    assert(b@.take(n as int) =~= b@);
    assert(out@ =~= old(out)@ + enc_bytes(b@));
}

/// Appends a length-prefixed UTF-8 string.
fn push_str(out: &mut Vec<u8>, s: &str)
    ensures
        final(out)@ == old(out)@ + enc_str(s@),
{
    push_bytes(out, s.as_bytes());
}

/// Appends a tagged optional timestamp.
fn push_opt_i64(out: &mut Vec<u8>, o: &Option<i64>)
    ensures
        final(out)@ == old(out)@ + enc_opt_i64(*o),
{
    match o {
        None => out.push(0u8),
        Some(t) => {
            out.push(1u8);
            push_i64(out, *t);
        },
    }
    assert(out@ =~= old(out)@ + enc_opt_i64(*o));
}

fn push_issuer(out: &mut Vec<u8>, i: &Issuer)
    ensures
        final(out)@ == old(out)@ + enc_issuer(*i),
{
    push_u128(out, i.id);
    push_str(out, i.name.as_str());
    push_str(out, i.url.as_str());
    push_bytes(out, i.public_key.as_slice());
    assert(out@ =~= old(out)@ + enc_issuer(*i));
}

fn push_subject(out: &mut Vec<u8>, s: &Subject)
    ensures
        final(out)@ == old(out)@ + enc_subject(*s),
{
    push_u128(out, s.id);
    push_str(out, s.name.as_str());
    push_str(out, s.email.as_str());
    assert(out@ =~= old(out)@ + enc_subject(*s));
}

fn push_skill(out: &mut Vec<u8>, s: &Skill)
    ensures
        final(out)@ == old(out)@ + enc_skill(*s),
{
    push_str(out, s.id.as_str());
    push_str(out, s.name.as_str());
    push_str(out, s.description.as_str());
    match s.level {
        SkillLevel::Beginner => out.push(0u8),
        SkillLevel::Intermediate => out.push(1u8),
        SkillLevel::Advanced => out.push(2u8),
        SkillLevel::Expert => out.push(3u8),
    }
    assert(out@ =~= old(out)@ + enc_skill(*s));
}

fn push_evidence(out: &mut Vec<u8>, e: &Evidence)
    ensures
        final(out)@ == old(out)@ + enc_evidence(*e),
{
    push_u128(out, e.id);
    push_str(out, e.name.as_str());
    push_str(out, e.description.as_str());
    push_str(out, e.url.as_str());
    match &e.evidence_type {
        EvidenceType::Project => out.push(0u8),
        EvidenceType::Assessment => out.push(1u8),
        EvidenceType::Portfolio => out.push(2u8),
        EvidenceType::Certification => out.push(3u8),
        EvidenceType::Other(s) => {
            out.push(4u8);
            push_str(out, s.as_str());
        },
    }
    assert(out@ =~= old(out)@ + enc_evidence(*e));
}

/// The canonical encoding of `c`, as executable bytes: exactly
/// `canon_credential(*c)`.  The signature field is never read.
#[verifier::rlimit(50)]
pub fn canonical_bytes(c: &Microcredential) -> (r: Vec<u8>)
    ensures
        r@ == canon_credential(*c),
{
    let mut out: Vec<u8> = Vec::new();
    push_u128(&mut out, c.id);
    push_issuer(&mut out, &c.issuer);
    push_subject(&mut out, &c.subject);
    push_skill(&mut out, &c.skill);
    let ghost head = out@;
    let n = c.evidence.len();
    push_u64(&mut out, n as u64);
    let mut i: usize = 0;
    while i < n
        invariant
            n == c.evidence@.len(),
            0 <= i <= n,
            out@ == head + be_u64(c.evidence@.len() as u64) + enc_evidence_list(
                c.evidence@.take(i as int),
            ),
        decreases n - i,
    {
        push_evidence(&mut out, &c.evidence[i]);
        proof {
            lemma_enc_evidence_list_push(c.evidence@.take(i as int), c.evidence@[i as int]);
            assert(c.evidence@.take(i + 1) =~= c.evidence@.take(i as int).push(
                c.evidence@[i as int],
            ));
        }
        i += 1;
    }
    proof {
        assert(c.evidence@.take(n as int) =~= c.evidence@);
    }
    push_i64(&mut out, c.issued_at);
    push_opt_i64(&mut out, &c.expires_at);
    let ghost mid = out@;
    let m = c.metadata.len();
    push_u64(&mut out, m as u64);
    let mut j: usize = 0;
    while j < m
        invariant
            m == c.metadata@.len(),
            0 <= j <= m,
            out@ == mid + be_u64(c.metadata@.len() as u64) + enc_metadata_list(
                c.metadata@.take(j as int),
            ),
        decreases m - j,
    {
        push_str(&mut out, c.metadata[j].0.as_str());
        push_str(&mut out, c.metadata[j].1.as_str());
        proof {
            lemma_enc_metadata_list_push(c.metadata@.take(j as int), c.metadata@[j as int]);
            assert(c.metadata@.take(j + 1) =~= c.metadata@.take(j as int).push(
                c.metadata@[j as int],
            ));
        }
        j += 1;
    }
    proof {
        assert(c.metadata@.take(m as int) =~= c.metadata@);
    }
    assert(out@ =~= canon_credential(*c));
    out
}

} // verus!
