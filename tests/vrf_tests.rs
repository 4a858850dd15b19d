use cardano_kes::vrf::{OUTPUT_SIZE, PROOF_SIZE};
use cardano_kes::{VrfDraft03, VrfError};

fn hex(s: &str) -> Vec<u8> {
    (0..s.len() / 2).map(|i| u8::from_str_radix(&s[2 * i..2 * i + 2], 16).unwrap()).collect()
}

#[test]
fn test_vrf_draft03_basic_roundtrip() -> Result<(), VrfError> {
    let seed = [0x01u8; 32];
    let (secret_key, public_key) = VrfDraft03::keypair_from_seed(&seed);

    let message = b"Cardano slot leader election";
    let proof = VrfDraft03::prove(&secret_key, message)?;
    assert_eq!(proof.len(), 80, "Draft-03 proof must be 80 bytes for Cardano compatibility");

    let output = VrfDraft03::verify(&public_key, &proof, message)?;
    assert_eq!(output.len(), 64, "VRF output must be 64 bytes (SHA-512)");

    let hash = VrfDraft03::proof_to_hash(&proof)?;
    assert_eq!(hash, output, "proof_to_hash must match verify output");
    Ok(())
}

#[test]
fn test_draft03_deterministic_keygen() {
    let seed = [0x42u8; 32];

    let (sk1, pk1) = VrfDraft03::keypair_from_seed(&seed);
    let (sk2, pk2) = VrfDraft03::keypair_from_seed(&seed);

    assert_eq!(pk1, pk2, "Draft-03 keypair generation must be deterministic");
    assert_eq!(sk1, sk2, "Draft-03 secret keys must be deterministic");
    assert_eq!(&sk1[0..32], &seed[..], "Secret key must contain original seed");
    assert_eq!(&sk1[32..64], &pk1[..], "Secret key must contain public key");
}

#[test]
fn test_draft03_proof_determinism() -> Result<(), VrfError> {
    let seed = [0x44u8; 32];
    let (secret_key, _public_key) = VrfDraft03::keypair_from_seed(&seed);
    let message = b"Determinism test message";
    let proof1 = VrfDraft03::prove(&secret_key, message)?;
    let proof2 = VrfDraft03::prove(&secret_key, message)?;
    assert_eq!(proof1, proof2, "Draft-03 proofs must be deterministic");
    Ok(())
}

#[test]
fn test_draft03_wrong_message() -> Result<(), VrfError> {
    let seed = [0x46u8; 32];
    let (secret_key, public_key) = VrfDraft03::keypair_from_seed(&seed);
    let proof = VrfDraft03::prove(&secret_key, b"Original message")?;
    assert!(VrfDraft03::verify(&public_key, &proof, b"Original message").is_ok());
    assert!(VrfDraft03::verify(&public_key, &proof, b"Wrong message").is_err());
    Ok(())
}

#[test]
fn test_draft03_wrong_public_key() -> Result<(), VrfError> {
    let (secret_key, _) = VrfDraft03::keypair_from_seed(&[0x48u8; 32]);
    let (_, other_public_key) = VrfDraft03::keypair_from_seed(&[0x49u8; 32]);
    let proof = VrfDraft03::prove(&secret_key, b"Test message")?;
    assert!(VrfDraft03::verify(&other_public_key, &proof, b"Test message").is_err());
    Ok(())
}

#[test]
fn test_draft03_empty_message() -> Result<(), VrfError> {
    let (secret_key, public_key) = VrfDraft03::keypair_from_seed(&[0x4Au8; 32]);
    let proof = VrfDraft03::prove(&secret_key, b"")?;
    let output = VrfDraft03::verify(&public_key, &proof, b"")?;
    assert_eq!(output.len(), 64);
    Ok(())
}

#[test]
fn test_draft03_large_message() -> Result<(), VrfError> {
    let (secret_key, public_key) = VrfDraft03::keypair_from_seed(&[0x4Cu8; 32]);
    let message = vec![0xABu8; 10000];
    let proof = VrfDraft03::prove(&secret_key, &message)?;
    let output = VrfDraft03::verify(&public_key, &proof, &message)?;
    assert_eq!(output.len(), 64);
    Ok(())
}

#[test]
fn test_cardano_proof_sizes() -> Result<(), VrfError> {
    let (sk03, _) = VrfDraft03::keypair_from_seed(&[0x50u8; 32]);
    let proof03 = VrfDraft03::prove(&sk03, b"test")?;
    assert_eq!(proof03.len(), 80, "Cardano production VRF (Draft-03) must be 80 bytes");
    assert_eq!(PROOF_SIZE, 80);
    assert_eq!(OUTPUT_SIZE, 64);
    Ok(())
}

#[test]
fn test_vrf_output_uniqueness() -> Result<(), VrfError> {
    let (sk1, _) = VrfDraft03::keypair_from_seed(&[0x51u8; 32]);
    let (sk2, _) = VrfDraft03::keypair_from_seed(&[0x52u8; 32]);
    let proof1 = VrfDraft03::prove(&sk1, b"Same message")?;
    let proof2 = VrfDraft03::prove(&sk2, b"Same message")?;
    assert_ne!(proof1, proof2, "Different keys must produce different proofs");
    Ok(())
}

#[test]
fn test_vrf_invalid_proof() {
    let (_, public_key) = VrfDraft03::keypair_from_seed(&[0x53u8; 32]);
    let invalid_proof = [0u8; 80];
    assert!(
        VrfDraft03::verify(&public_key, &invalid_proof, b"Test message").is_err(),
        "Invalid proof should fail verification"
    );
}

#[test]
fn test_cardano_slot_leader_vrf() -> Result<(), VrfError> {
    let (secret_key, public_key) = VrfDraft03::keypair_from_seed(&[0x54u8; 32]);
    let slot_data = b"epoch_12345_slot_67890";
    let proof = VrfDraft03::prove(&secret_key, slot_data)?;
    let output = VrfDraft03::verify(&public_key, &proof, slot_data)?;
    assert_eq!(output.len(), 64, "VRF output must be 64 bytes for Cardano");
    Ok(())
}

#[test]
fn draft03_standard_vector_10() -> Result<(), VrfError> {
    let seed = hex("9d61b19deffd5a60ba844af492ec2cc44449c5697b326919703bac031cae7f60");
    let mut seed_arr = [0u8; 32];
    seed_arr.copy_from_slice(&seed);
    let (sk, pk) = VrfDraft03::keypair_from_seed(&seed_arr);
    assert_eq!(pk.to_vec(), hex("d75a980182b10ab7d54bfed3c964073a0ee172f3daa62325af021a68f707511a"));
    let pi = VrfDraft03::prove(&sk, b"")?;
    assert_eq!(
        pi.to_vec(),
        hex("b6b4699f87d56126c9117a7da55bd0085246f4c56dbc95d20172612e9d38e8d7ca65e573a126ed88d4e30a46f80a666854d675cf3ba81de0de043c3774f061560f55edc256a787afe701677c0f602900")
    );
    let beta = hex("5b49b554d05c0cd5a5325376b3387de59d924fd1e13ded44648ab33c21349a603f25b84ec5ed887995b33da5e3bfcb87cd2f64521c4c62cf825cffabbe5d31cc");
    assert_eq!(VrfDraft03::proof_to_hash(&pi)?.to_vec(), beta);
    assert_eq!(VrfDraft03::verify(&pk, &pi, b"")?.to_vec(), beta);
    Ok(())
}

#[test]
fn draft13_sized_proof_is_rejected_by_length() {
    let (_, pk) = VrfDraft03::keypair_from_seed(&[0x55u8; 32]);
    let long_proof = [0u8; 128];
    assert_eq!(
        VrfDraft03::verify(&pk, &long_proof, b"m"),
        Err(VrfError::WrongLength { expected: 80, actual: 128 })
    );
    assert_eq!(
        VrfDraft03::proof_to_hash(&long_proof),
        Err(VrfError::WrongLength { expected: 80, actual: 128 })
    );
}

#[test]
fn tampered_proof_is_rejected() -> Result<(), VrfError> {
    let (sk, pk) = VrfDraft03::keypair_from_seed(&[0x56u8; 32]);
    let mut pi = VrfDraft03::prove(&sk, b"m")?;
    pi[40] ^= 1;
    assert_eq!(VrfDraft03::verify(&pk, &pi, b"m"), Err(VrfError::VerificationFailed));
    Ok(())
}

#[test]
fn small_order_public_key_is_rejected() -> Result<(), VrfError> {
    let (sk, _) = VrfDraft03::keypair_from_seed(&[0x57u8; 32]);
    let pi = VrfDraft03::prove(&sk, b"m")?;
    let mut identity = [0u8; 32];
    identity[0] = 1;
    assert_eq!(VrfDraft03::verify(&identity, &pi, b"m"), Err(VrfError::InvalidPublicKey));
    Ok(())
}

fn check_vector(sk_hex: &str, pk_hex: &str, alpha_hex: &str, pi_hex: &str, beta_hex: &str) {
    let mut seed = [0u8; 32];
    seed.copy_from_slice(&hex(sk_hex));
    let (sk, pk) = VrfDraft03::keypair_from_seed(&seed);
    assert_eq!(pk.to_vec(), hex(pk_hex));
    let alpha = hex(alpha_hex);
    let pi = VrfDraft03::prove(&sk, &alpha).unwrap();
    assert_eq!(pi.to_vec(), hex(pi_hex));
    assert_eq!(VrfDraft03::proof_to_hash(&pi).unwrap().to_vec(), hex(beta_hex));
    assert_eq!(VrfDraft03::verify(&pk, &pi, &alpha).unwrap().to_vec(), hex(beta_hex));
}

#[test]
fn draft03_standard_vector_11() {
    check_vector(
        "4ccd089b28ff96da9db6c346ec114e0f5b8a319f35aba624da8cf6ed4fb8a6fb",
        "3d4017c3e843895a92b70aa74d1b7ebc9c982ccf2ec4968cc0cd55f12af4660c",
        "72",
        "ae5b66bdf04b4c010bfe32b2fc126ead2107b697634f6f7337b9bff8785ee111200095ece87dde4dbe87343f6df3b107d91798c8a7eb1245d3bb9c5aafb093358c13e6ae1111a55717e895fd15f99f07",
        "94f4487e1b2fec954309ef1289ecb2e15043a2461ecc7b2ae7d4470607ef82eb1cfa97d84991fe4a7bfdfd715606bc27e2967a6c557cfb5875879b671740b7d8",
    );
}

#[test]
fn draft03_standard_vector_12() {
    check_vector(
        "c5aa8df43f9f837bedb7442f31dcb7b166d38535076f094b85ce3a2e0b4458f7",
        "fc51cd8e6218a1a38da47ed00230f0580816ed13ba3303ac5deb911548908025",
        "af82",
        "dfa2cba34b611cc8c833a6ea83b8eb1bb5e2ef2dd1b0c481bc42ff36ae7847f6ab52b976cfd5def172fa412defde270c8b8bdfbaae1c7ece17d9833b1bcf31064fff78ef493f820055b561ece45e1009",
        "2031837f582cd17a9af9e0c7ef5a6540e3453ed894b62c293686ca3c1e319dde9d0aa489a4b59a9594fc2328bc3deff3c8a0929a369a72b1180a596e016b5ded",
    );
}

#[test]
fn draft03_many_messages_round_trip() {
    let (sk, pk) = VrfDraft03::keypair_from_seed(&[0x60u8; 32]);
    for i in 0..32u8 {
        let alpha = vec![i; i as usize];
        let pi = VrfDraft03::prove(&sk, &alpha).unwrap();
        assert_eq!(VrfDraft03::verify(&pk, &pi, &alpha), VrfDraft03::proof_to_hash(&pi));
    }
}
