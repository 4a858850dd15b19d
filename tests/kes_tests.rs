use cardano_kes::{
    CompactSingleKes, OptimizedKesSignature,
    Blake2b256, KesHashAlgorithm,
    CompactSum1Kes, CompactSum2Kes, CompactSum3Kes, CompactSum6Kes, CompactSum7Kes, KesAlgorithm,
    KesError, KesMError, SingleKes, Sum1Kes, Sum2Kes, Sum6Kes, Sum7Kes, UnsoundKesAlgorithm,
};

fn evolve<K: KesAlgorithm<Context = ()>>(mut sk: K::SigningKey, target: u64) -> K::SigningKey {
    for t in 0..target {
        sk = K::update_kes(&(), sk, t).unwrap().unwrap();
    }
    sk
}

fn contains(haystack: &[u8], needle: &[u8]) -> bool {
    haystack.windows(needle.len()).any(|w| w == needle)
}

#[test]
fn test_single_kes_basic() -> Result<(), KesMError> {
    let mut seed = [0u8; 32];
    seed[0] = 0x42;

    let sk = SingleKes::gen_key_kes_from_seed_bytes(&seed)?;
    let vk = SingleKes::derive_verification_key(&sk)?;

    let message = b"SingleKES test message";
    let period = 0;

    let sig = SingleKes::sign_kes(&(), period, message, &sk)?;
    assert!(
        SingleKes::verify_kes(&(), &vk, period, message, &sig).is_ok(),
        "Signature verification failed at period 0"
    );
    assert!(
        SingleKes::verify_kes(&(), &vk, 1, message, &sig).is_err(),
        "Signature should not verify at wrong period"
    );
    assert!(
        SingleKes::verify_kes(&(), &vk, period, b"wrong message", &sig).is_err(),
        "Signature should not verify with wrong message"
    );

    let update_result = SingleKes::update_kes(&(), sk, period)?;
    assert!(update_result.is_none(), "SingleKES should expire after period 0");
    Ok(())
}

#[test]
fn test_sum2_kes() -> Result<(), KesMError> {
    let mut seed = [0u8; 32];
    seed[0] = 0x44;

    let sk = Sum2Kes::gen_key_kes_from_seed_bytes(&seed)?;
    let vk = Sum2Kes::derive_verification_key(&sk)?;

    let msg0 = b"Period 0 message";
    let msg1 = b"Period 1 message";

    let sig0 = Sum2Kes::sign_kes(&(), 0, msg0, &sk)?;
    assert!(Sum2Kes::verify_kes(&(), &vk, 0, msg0, &sig0).is_ok(), "Sum2KES sig0 verification failed");

    let sk = Sum2Kes::update_kes(&(), sk, 0)?.unwrap();

    let sig1 = Sum2Kes::sign_kes(&(), 1, msg1, &sk)?;
    assert!(Sum2Kes::verify_kes(&(), &vk, 1, msg1, &sig1).is_ok(), "Sum2KES sig1 verification failed");

    assert!(Sum2Kes::verify_kes(&(), &vk, 0, msg0, &sig0).is_ok(), "Sum2KES old signature should verify");
    Ok(())
}

#[test]
fn test_sum6_kes_evolution() -> Result<(), KesMError> {
    let seed = [0x45u8; 32];
    let vk = Sum6Kes::derive_verification_key(&Sum6Kes::gen_key_kes_from_seed_bytes(&seed)?)?;

    let test_periods = [0u64, 1, 2, 4, 8, 16, 32, 63];
    for &period in &test_periods {
        let sk = evolve::<Sum6Kes>(Sum6Kes::gen_key_kes_from_seed_bytes(&seed)?, period);
        let message = format!("Period {} message", period);
        let sig = Sum6Kes::sign_kes(&(), period, message.as_bytes(), &sk)?;
        assert!(
            Sum6Kes::verify_kes(&(), &vk, period, message.as_bytes(), &sig).is_ok(),
            "Sum6KES verification failed at period {}",
            period
        );
    }
    Ok(())
}

#[test]
fn test_sum6_kes_total_periods() {
    const EXPECTED_PERIODS: u64 = 64;
    assert_eq!(
        Sum6Kes::total_periods(),
        EXPECTED_PERIODS,
        "Sum6KES must support exactly 64 periods for Cardano compatibility"
    );
}

#[test]
fn test_sum6_kes_cardano_standard() -> Result<(), KesMError> {
    let seed = [0x4Cu8; 32];
    let vk = Sum6Kes::derive_verification_key(&Sum6Kes::gen_key_kes_from_seed_bytes(&seed)?)?;

    let test_cases: Vec<(u64, &[u8])> = vec![
        (0, b"Genesis block" as &[u8]),
        (10, b"Early epoch"),
        (31, b"Mid evolution"),
        (63, b"Final period"),
    ];

    for (period, message) in test_cases {
        let sk = evolve::<Sum6Kes>(Sum6Kes::gen_key_kes_from_seed_bytes(&seed)?, period);
        let sig = Sum6Kes::sign_kes(&(), period, message, &sk)?;
        assert!(
            Sum6Kes::verify_kes(&(), &vk, period, message, &sig).is_ok(),
            "Cardano KES verification failed at period {} with message {:?}",
            period,
            std::str::from_utf8(message)
        );
        if period > 0 {
            assert!(
                Sum6Kes::verify_kes(&(), &vk, period - 1, message, &sig).is_err(),
                "Signature should not verify at wrong period"
            );
        }
    }
    Ok(())
}

#[test]
fn test_kes_serialization_roundtrip() -> Result<(), KesMError> {
    let seed = [0x99u8; 32];
    let sk = Sum6Kes::gen_key_kes_from_seed_bytes(&seed)?;
    let vk = Sum6Kes::derive_verification_key(&sk)?;

    let vk_bytes = Sum6Kes::raw_serialize_verification_key_kes(&vk);
    let vk_restored = Sum6Kes::raw_deserialize_verification_key_kes(&vk_bytes).unwrap();
    let vk_bytes_restored = Sum6Kes::raw_serialize_verification_key_kes(&vk_restored);
    assert_eq!(vk_bytes, vk_bytes_restored, "Verification key serialization round-trip failed");
    Ok(())
}

#[test]
fn test_signature_serialization_roundtrip() -> Result<(), KesMError> {
    let seed = [0xAAu8; 32];
    let sk = Sum2Kes::gen_key_kes_from_seed_bytes(&seed)?;
    let vk = Sum2Kes::derive_verification_key(&sk)?;

    let message = b"Serialization test";
    let sig = Sum2Kes::sign_kes(&(), 0, message, &sk)?;

    let sig_bytes = Sum2Kes::raw_serialize_signature_kes(&sig);
    let sig_restored = Sum2Kes::raw_deserialize_signature_kes(&sig_bytes).unwrap();
    assert!(
        Sum2Kes::verify_kes(&(), &vk, 0, message, &sig_restored).is_ok(),
        "Deserialized signature failed verification"
    );
    Ok(())
}

#[test]
fn test_cross_period_validation_failure() -> Result<(), KesMError> {
    let seed = [0xBBu8; 32];
    let sk = Sum2Kes::gen_key_kes_from_seed_bytes(&seed)?;
    let vk = Sum2Kes::derive_verification_key(&sk)?;

    let message = b"Period mismatch test";
    let sig = Sum2Kes::sign_kes(&(), 0, message, &sk)?;

    assert!(Sum2Kes::verify_kes(&(), &vk, 0, message, &sig).is_ok());
    assert!(
        Sum2Kes::verify_kes(&(), &vk, 1, message, &sig).is_err(),
        "Signature from period 0 should not verify at period 1"
    );
    Ok(())
}

#[test]
fn test_deterministic_key_generation() -> Result<(), KesMError> {
    let seed = [0xCCu8; 32];

    let sk1 = Sum6Kes::gen_key_kes_from_seed_bytes(&seed)?;
    let sk2 = Sum6Kes::gen_key_kes_from_seed_bytes(&seed)?;
    let vk1 = Sum6Kes::derive_verification_key(&sk1)?;
    let vk2 = Sum6Kes::derive_verification_key(&sk2)?;

    let vk1_bytes = Sum6Kes::raw_serialize_verification_key_kes(&vk1);
    let vk2_bytes = Sum6Kes::raw_serialize_verification_key_kes(&vk2);
    assert_eq!(vk1_bytes, vk2_bytes, "Deterministic key generation failed for verification keys");

    let message = b"Determinism test";
    let sig1 = Sum6Kes::sign_kes(&(), 0, message, &sk1)?;
    let sig2 = Sum6Kes::sign_kes(&(), 0, message, &sk2)?;
    let sig1_bytes = Sum6Kes::raw_serialize_signature_kes(&sig1);
    let sig2_bytes = Sum6Kes::raw_serialize_signature_kes(&sig2);
    assert_eq!(sig1_bytes, sig2_bytes, "Deterministic signatures failed");
    Ok(())
}

#[test]
fn sum2_seed_zero_walk() -> Result<(), KesMError> {
    let seed = [0u8; 32];
    let mut sk = Sum2Kes::gen_key_kes_from_seed_bytes(&seed)?;
    let vk = Sum2Kes::derive_verification_key(&sk)?;
    let mut same_message_sigs = Vec::new();
    for t in 0..4u64 {
        let message = format!("Block at period {}", t);
        let sig = Sum2Kes::sign_kes(&(), t, message.as_bytes(), &sk)?;
        assert!(Sum2Kes::verify_kes(&(), &vk, t, message.as_bytes(), &sig).is_ok());
        let bytes = Sum2Kes::raw_serialize_signature_kes(&sig);
        assert_eq!(bytes.len(), 192);
        assert_eq!(Sum2Kes::signature_size(), 192);
        let m_sig = Sum2Kes::sign_kes(&(), t, b"m", &sk)?;
        same_message_sigs.push(Sum2Kes::raw_serialize_signature_kes(&m_sig));
        if t < 3 {
            sk = Sum2Kes::update_kes(&(), sk, t)?.unwrap();
        }
    }
    for i in 0..4 {
        for j in 0..4 {
            if i != j {
                assert_ne!(same_message_sigs[i], same_message_sigs[j]);
            }
        }
    }
    Ok(())
}

#[test]
fn sum6_period_63_evolution() -> Result<(), KesMError> {
    let seed = [0x45u8; 32];
    let mut sk = Sum6Kes::gen_key_kes_from_seed_bytes(&seed)?;
    let vk = Sum6Kes::derive_verification_key(&sk)?;
    let mut collected = Vec::new();
    for t in 0..63u64 {
        let message = format!("Period {} message", t);
        collected.push((t, message.clone(), Sum6Kes::sign_kes(&(), t, message.as_bytes(), &sk)?));
        sk = Sum6Kes::update_kes(&(), sk, t)?.unwrap();
        assert_eq!(Sum6Kes::derive_verification_key(&sk)?, vk);
    }
    let sig = Sum6Kes::sign_kes(&(), 63, b"Period 63 message", &sk)?;
    assert!(Sum6Kes::verify_kes(&(), &vk, 63, b"Period 63 message", &sig).is_ok());
    for (t, message, sig) in &collected {
        assert!(Sum6Kes::verify_kes(&(), &vk, *t, message.as_bytes(), sig).is_ok());
    }
    Ok(())
}

#[test]
fn forward_security_rejects_earlier_period() -> Result<(), KesMError> {
    let sk = Sum2Kes::gen_key_kes_from_seed_bytes(&[3u8; 32])?;
    let sk = Sum2Kes::update_kes(&(), sk, 0)?.unwrap();
    match Sum2Kes::sign_kes(&(), 0, b"m", &sk) {
        Err(KesMError::Kes(KesError::PeriodOutOfRange { period: 0, max_period: 4 })) => {}
        other => panic!("unexpected result: {:?}", other.map(|_| ())),
    }
    Ok(())
}

#[test]
fn sum1_expires_after_two_periods() -> Result<(), KesMError> {
    let sk = Sum1Kes::gen_key_kes_from_seed_bytes(&[5u8; 32])?;
    let sk = Sum1Kes::update_kes(&(), sk, 0)?.unwrap();
    assert!(Sum1Kes::sign_kes(&(), 1, b"m", &sk).is_ok());
    match Sum1Kes::sign_kes(&(), 2, b"m", &sk) {
        Err(KesMError::Kes(KesError::KeyExpired)) => {}
        other => panic!("unexpected result: {:?}", other.map(|_| ())),
    }
    assert!(Sum1Kes::update_kes(&(), sk, 1)?.is_none());
    Ok(())
}

#[test]
fn update_with_wrong_period_is_rejected() -> Result<(), KesMError> {
    let sk = Sum2Kes::gen_key_kes_from_seed_bytes(&[6u8; 32])?;
    match Sum2Kes::update_kes(&(), sk, 1) {
        Err(KesMError::Kes(KesError::PeriodOutOfRange { period: 1, max_period: 4 })) => {}
        other => panic!("unexpected result: {:?}", other.map(|_| ())),
    }
    Ok(())
}

#[test]
fn seed_of_wrong_length_is_rejected() {
    match Sum2Kes::gen_key_kes_from_seed_bytes(&[0u8; 31]) {
        Err(KesMError::Kes(KesError::WrongLength { expected: 32, actual: 31, .. })) => {}
        _ => panic!("a 31-byte seed must be rejected"),
    }
    assert!(SingleKes::gen_key_kes_from_seed_bytes(&[0u8; 33]).is_err());
}

#[test]
fn wrong_message_is_rejected() -> Result<(), KesMError> {
    let sk = Sum2Kes::gen_key_kes_from_seed_bytes(&[8u8; 32])?;
    let vk = Sum2Kes::derive_verification_key(&sk)?;
    let sig = Sum2Kes::sign_kes(&(), 0, b"m", &sk)?;
    assert_eq!(Sum2Kes::verify_kes(&(), &vk, 0, b"m'", &sig), Err(KesError::VerificationFailed));
    Ok(())
}

#[test]
fn signature_at_every_period_rejected_elsewhere() -> Result<(), KesMError> {
    let mut sk = Sum2Kes::gen_key_kes_from_seed_bytes(&[9u8; 32])?;
    let vk = Sum2Kes::derive_verification_key(&sk)?;
    for t in 0..4u64 {
        let sig = Sum2Kes::sign_kes(&(), t, b"m", &sk)?;
        for other in 0..6u64 {
            assert_eq!(Sum2Kes::verify_kes(&(), &vk, other, b"m", &sig).is_ok(), other == t);
        }
        if t < 3 {
            sk = Sum2Kes::update_kes(&(), sk, t)?.unwrap();
        }
    }
    Ok(())
}

#[test]
fn evolved_key_holds_no_seed_nor_earlier_child() -> Result<(), KesMError> {
    let seed = [0x17u8; 32];
    let sk = Sum1Kes::gen_key_kes_from_seed_bytes(&seed)?;
    let initial = Sum1Kes::raw_serialize_signing_key_kes(&sk);
    let left_child = initial[..32].to_vec();
    let right_seed = initial[32..64].to_vec();
    let sk = Sum1Kes::update_kes(&(), sk, 0)?.unwrap();
    let evolved = Sum1Kes::raw_serialize_signing_key_kes(&sk);
    assert_eq!(evolved.len(), Sum1Kes::signing_key_size());
    assert!(!contains(&evolved, &seed));
    assert!(!contains(&evolved, &left_child));
    assert_eq!(&evolved[..32], &right_seed[..]);
    assert_eq!(&evolved[32..64], &[0u8; 32]);
    Ok(())
}

#[test]
fn verification_key_is_stable_and_tree_shaped() -> Result<(), KesMError> {
    let seed = [0x21u8; 32];
    let sk = Sum1Kes::gen_key_kes_from_seed_bytes(&seed)?;
    let vk = Sum1Kes::derive_verification_key(&sk)?;
    let (r0, r1) = Blake2b256::expand_seed(&seed);
    let vk0 = SingleKes::derive_verification_key(&SingleKes::gen_key_kes_from_seed_bytes(&r0)?)?;
    let vk1 = SingleKes::derive_verification_key(&SingleKes::gen_key_kes_from_seed_bytes(&r1)?)?;
    assert_eq!(vk.bytes.to_vec(), Blake2b256::hash_concat(&vk0.bytes, &vk1.bytes));
    let sk = Sum1Kes::update_kes(&(), sk, 0)?.unwrap();
    assert_eq!(Sum1Kes::derive_verification_key(&sk)?, vk);
    Ok(())
}

#[test]
fn sizes_and_periods_of_the_towers() {
    assert_eq!(SingleKes::total_periods(), 1);
    assert_eq!(Sum7Kes::total_periods(), 128);
    assert_eq!(CompactSum7Kes::total_periods(), 128);
    assert_eq!(Sum6Kes::signature_size(), 64 + 2 * 32 * 6);
    assert_eq!(CompactSum6Kes::signature_size(), 64 + 32 * 6 + 32);
    assert_eq!(Sum2Kes::signing_key_size(), 32 + 2 * 96);
    assert_eq!(CompactSum2Kes::signing_key_size(), 32 + 2 * 64);
}

#[test]
fn signature_decoding_checks_length() -> Result<(), KesMError> {
    let sk = Sum2Kes::gen_key_kes_from_seed_bytes(&[1u8; 32])?;
    let sig = Sum2Kes::sign_kes(&(), 0, b"m", &sk)?;
    let bytes = Sum2Kes::raw_serialize_signature_kes(&sig);
    assert!(Sum2Kes::raw_deserialize_signature_kes(&bytes[..191]).is_none());
    let again = Sum2Kes::raw_deserialize_signature_kes(&bytes).unwrap();
    assert_eq!(Sum2Kes::raw_serialize_signature_kes(&again), bytes);
    assert!(Sum2Kes::raw_deserialize_verification_key_kes(&[0u8; 31]).is_none());
    Ok(())
}

#[test]
fn compact_sum_walk_and_rejections() -> Result<(), KesMError> {
    let seed = [0x33u8; 32];
    let mut sk = CompactSum3Kes::gen_key_kes_from_seed_bytes(&seed)?;
    let vk = CompactSum3Kes::derive_verification_key(&sk)?;
    for t in 0..8u64 {
        let message = format!("Block at period {}", t);
        let sig = CompactSum3Kes::sign_kes(&(), t, message.as_bytes(), &sk)?;
        let bytes = CompactSum3Kes::raw_serialize_signature_kes(&sig);
        assert_eq!(bytes.len(), 64 + 32 * 3 + 32);
        let decoded = CompactSum3Kes::raw_deserialize_signature_kes(&bytes).unwrap();
        assert!(CompactSum3Kes::verify_kes(&(), &vk, t, message.as_bytes(), &decoded).is_ok());
        assert!(CompactSum3Kes::verify_kes(&(), &vk, t, b"other", &sig).is_err());
        assert!(CompactSum3Kes::verify_kes(&(), &vk, (t + 1) % 8, message.as_bytes(), &sig).is_err());
        if t < 7 {
            sk = CompactSum3Kes::update_kes(&(), sk, t)?.unwrap();
            assert_eq!(CompactSum3Kes::derive_verification_key(&sk)?, vk);
        } else {
            assert!(CompactSum3Kes::update_kes(&(), sk, t)?.is_none());
            break;
        }
    }
    Ok(())
}

#[test]
fn compact_and_plain_sum_share_verification_keys() -> Result<(), KesMError> {
    let seed = [0x51u8; 32];
    let plain = Sum2Kes::derive_verification_key(&Sum2Kes::gen_key_kes_from_seed_bytes(&seed)?)?;
    let compact =
        CompactSum2Kes::derive_verification_key(&CompactSum2Kes::gen_key_kes_from_seed_bytes(&seed)?)?;
    assert_eq!(plain, compact);
    let single = CompactSum1Kes::gen_key_kes_from_seed_bytes(&seed)?;
    assert!(CompactSum1Kes::sign_kes(&(), 1, b"m", &single).is_err());
    Ok(())
}

#[test]
fn sum7_last_period() -> Result<(), KesMError> {
    let seed = [0x7fu8; 32];
    let sk = Sum7Kes::gen_key_kes_from_seed_bytes(&seed)?;
    let vk = Sum7Kes::derive_verification_key(&sk)?;
    let sk = evolve::<Sum7Kes>(sk, 127);
    let sig = Sum7Kes::sign_kes(&(), 127, b"last", &sk)?;
    assert!(Sum7Kes::verify_kes(&(), &vk, 127, b"last", &sig).is_ok());
    assert!(Sum7Kes::update_kes(&(), sk, 127)?.is_none());
    Ok(())
}

#[test]
fn wrong_length_error_builder() {
    assert_eq!(
        KesError::wrong_length("vk", 32, 3),
        KesError::WrongLength { context: "vk", expected: 32, actual: 3 }
    );
}

#[test]
fn compact_single_signature_carries_its_key() -> Result<(), KesMError> {
    let sk = CompactSingleKes::gen_key_kes_from_seed_bytes(&[0x61u8; 32])?;
    let vk = CompactSingleKes::derive_verification_key(&sk)?;
    let sig = CompactSingleKes::sign_kes(&(), 0, b"m", &sk)?;
    assert_eq!(sig.vk, vk);
    assert_eq!(CompactSingleKes::embedded_verification_key(0, &sig), vk);
    let bytes = CompactSingleKes::raw_serialize_signature_kes(&sig);
    assert_eq!(bytes.len(), 96);
    assert_eq!(&bytes[64..], &vk.bytes[..]);
    assert!(CompactSingleKes::verify_kes(&(), &vk, 0, b"m", &sig).is_ok());
    let other = CompactSingleKes::derive_verification_key(
        &CompactSingleKes::gen_key_kes_from_seed_bytes(&[0x62u8; 32])?,
    )?;
    assert_eq!(
        CompactSingleKes::verify_kes(&(), &other, 0, b"m", &sig),
        Err(KesError::VerificationFailed)
    );
    Ok(())
}

#[test]
fn compact_sum_embedded_key_is_the_root_key() -> Result<(), KesMError> {
    let mut sk = CompactSum2Kes::gen_key_kes_from_seed_bytes(&[0x63u8; 32])?;
    let vk = CompactSum2Kes::derive_verification_key(&sk)?;
    for t in 0..4u64 {
        let sig = CompactSum2Kes::sign_kes(&(), t, b"m", &sk)?;
        assert_eq!(CompactSum2Kes::embedded_verification_key(t, &sig), vk);
        if t < 3 {
            sk = CompactSum2Kes::update_kes(&(), sk, t)?.unwrap();
        }
    }
    Ok(())
}
