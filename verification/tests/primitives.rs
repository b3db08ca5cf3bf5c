use microcred_rs::canonical::canonical_bytes;
use microcred_rs::crypto::{hash_credential, verify_signature, CryptoError, CryptoKeyPair};
use microcred_rs::{Issuer, Microcredential, Skill, SkillLevel, Subject};

#[test]
fn sha256_digest_known_value() {
    let digest = hash_credential(b"abc");
    let expected: Vec<u8> = vec![
        0xba, 0x78, 0x16, 0xbf, 0x8f, 0x01, 0xcf, 0xea, 0x41, 0x41, 0x40, 0xde, 0x5d, 0xae, 0x22,
        0x23, 0xb0, 0x03, 0x61, 0xa3, 0x96, 0x17, 0x7a, 0x9c, 0xb4, 0x10, 0xff, 0x61, 0xf2, 0x00,
        0x15, 0xad,
    ];
    assert_eq!(digest, expected);

    let empty_digest = hash_credential(b"");
    let expected_empty: Vec<u8> = vec![
        0xe3, 0xb0, 0xc4, 0x42, 0x98, 0xfc, 0x1c, 0x14, 0x9a, 0xfb, 0xf4, 0xc8, 0x99, 0x6f, 0xb9,
        0x24, 0x27, 0xae, 0x41, 0xe4, 0x64, 0x9b, 0x93, 0x4c, 0xa4, 0x95, 0x99, 0x1b, 0x78, 0x52,
        0xb8, 0x55,
    ];
    assert_eq!(empty_digest, expected_empty);
}

#[test]
fn keypair_lengths_and_round_trip() {
    let keypair = CryptoKeyPair::generate();
    assert_eq!(keypair.public_key().len(), 32);
    assert_eq!(keypair.secret_key().len(), 32);

    let message = b"attestation payload";
    let signature = keypair.sign(message);
    assert_eq!(signature.len(), 64);
    assert_eq!(
        verify_signature(&keypair.public_key(), message, &signature),
        Ok(true)
    );
    assert_eq!(
        verify_signature(&keypair.public_key(), b"another payload", &signature),
        Ok(false)
    );

    let mut flipped = signature.clone();
    flipped[10] ^= 0xff;
    assert_ne!(
        verify_signature(&keypair.public_key(), message, &flipped),
        Ok(true)
    );

    let rebuilt = CryptoKeyPair::from_secret_key(&keypair.secret_key()).unwrap();
    assert_eq!(rebuilt.public_key(), keypair.public_key());
    assert_eq!(rebuilt.sign(message), signature);
}

#[test]
fn verify_signature_length_errors() {
    let keypair = CryptoKeyPair::generate();
    let message = b"msg";
    let signature = keypair.sign(message);

    assert_eq!(
        verify_signature(&[0u8; 31], message, &signature),
        Err(CryptoError::InvalidKeyLength)
    );
    assert_eq!(
        verify_signature(&[0u8; 33], message, &signature),
        Err(CryptoError::InvalidKeyLength)
    );
    assert_eq!(
        verify_signature(&keypair.public_key(), message, &[0u8; 63]),
        Err(CryptoError::InvalidSignatureLength)
    );
    assert_eq!(
        verify_signature(&keypair.public_key(), message, &[0u8; 65]),
        Err(CryptoError::InvalidSignatureLength)
    );
    assert_eq!(verify_signature(&[], message, &[]), Err(CryptoError::InvalidKeyLength));
}

#[test]
fn verify_signature_decode_failure() {
    let keypair = CryptoKeyPair::generate();
    // A signature whose trailing scalar byte has its high bits set is refused
    // by the decoder before any curve arithmetic.
    let mut bad_sig = [0u8; 64];
    bad_sig[63] = 0xe0;
    assert_eq!(
        verify_signature(&keypair.public_key(), b"msg", &bad_sig),
        Err(CryptoError::DecodeFailed)
    );
}

#[test]
fn from_secret_key_length_check() {
    assert_eq!(
        CryptoKeyPair::from_secret_key(&[1u8; 31]).err(),
        Some(CryptoError::InvalidKeyLength)
    );
    assert_eq!(
        CryptoKeyPair::from_secret_key(&[1u8; 33]).err(),
        Some(CryptoError::InvalidKeyLength)
    );
    assert!(CryptoKeyPair::from_secret_key(&[1u8; 32]).is_ok());
}

fn be_u64_bytes(n: u64) -> Vec<u8> {
    n.to_be_bytes().to_vec()
}

fn be_u128_bytes(n: u128) -> Vec<u8> {
    n.to_be_bytes().to_vec()
}

fn enc_str_bytes(s: &str) -> Vec<u8> {
    let mut out = be_u64_bytes(s.len() as u64);
    out.extend_from_slice(s.as_bytes());
    out
}

#[test]
fn canonical_encoding_exact_layout() {
    let credential = Microcredential {
        id: 7,
        issuer: Issuer {
            id: 9,
            name: "iss".to_string(),
            url: "u".to_string(),
            public_key: vec![0xaa, 0xbb],
        },
        subject: Subject {
            id: 11,
            name: "sub".to_string(),
            email: "e@x".to_string(),
        },
        skill: Skill {
            id: "s".to_string(),
            name: "n".to_string(),
            description: "d".to_string(),
            level: SkillLevel::Advanced,
        },
        evidence: Vec::new(),
        issued_at: 5,
        expires_at: Some(-1),
        metadata: vec![("k".to_string(), "v".to_string())],
        signature: Some(vec![1, 2, 3]),
    };

    let mut expected: Vec<u8> = Vec::new();
    expected.extend_from_slice(&be_u128_bytes(7));
    expected.extend_from_slice(&be_u128_bytes(9));
    expected.extend_from_slice(&enc_str_bytes("iss"));
    expected.extend_from_slice(&enc_str_bytes("u"));
    expected.extend_from_slice(&be_u64_bytes(2));
    expected.extend_from_slice(&[0xaa, 0xbb]);
    expected.extend_from_slice(&be_u128_bytes(11));
    expected.extend_from_slice(&enc_str_bytes("sub"));
    expected.extend_from_slice(&enc_str_bytes("e@x"));
    expected.extend_from_slice(&enc_str_bytes("s"));
    expected.extend_from_slice(&enc_str_bytes("n"));
    expected.extend_from_slice(&enc_str_bytes("d"));
    expected.push(2); // Advanced
    expected.extend_from_slice(&be_u64_bytes(0)); // no evidence
    expected.push(0); // issued_at sign
    expected.extend_from_slice(&be_u64_bytes(5));
    expected.push(1); // expiry present
    expected.push(1); // expiry sign: negative
    expected.extend_from_slice(&be_u64_bytes(0)); // -(-1 + 1)
    expected.extend_from_slice(&be_u64_bytes(1)); // one metadata entry
    expected.extend_from_slice(&enc_str_bytes("k"));
    expected.extend_from_slice(&enc_str_bytes("v"));

    assert_eq!(canonical_bytes(&credential), expected);

    // The signature field is not part of the encoding.
    let mut unsigned = credential.clone();
    unsigned.signature = None;
    assert_eq!(canonical_bytes(&unsigned), expected);
}

#[test]
fn canonical_encoding_utf8_strings() {
    let credential = Microcredential {
        id: 0,
        issuer: Issuer {
            id: 0,
            name: "é".to_string(),
            url: String::new(),
            public_key: Vec::new(),
        },
        subject: Subject {
            id: 0,
            name: String::new(),
            email: String::new(),
        },
        skill: Skill {
            id: String::new(),
            name: String::new(),
            description: String::new(),
            level: SkillLevel::Beginner,
        },
        evidence: Vec::new(),
        issued_at: 0,
        expires_at: None,
        metadata: Vec::new(),
        signature: None,
    };
    let bytes = canonical_bytes(&credential);
    // After the two 16-byte ids comes the issuer name: its UTF-8 length (2)
    // and the bytes of "é".
    assert_eq!(&bytes[32..40], &[0, 0, 0, 0, 0, 0, 0, 2]);
    assert_eq!(&bytes[40..42], &[0xc3, 0xa9]);
}
