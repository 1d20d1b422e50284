use pvp_engine::commitment;
use sha2::Digest;

fn sample_salt() -> [u8; 32] {
    let mut salt = [0u8; 32];
    for i in 0..32 {
        salt[i] = i as u8;
    }
    salt
}

#[test]
fn commit_verify_round_trip() {
    let salt = sample_salt();
    for choice in 0u8..3 {
        let c = commitment::commit(choice, &salt, 77, 12345);
        assert!(commitment::verify(&c, choice, &salt, 77, 12345));
    }
}

#[test]
fn verify_rejects_changed_choice() {
    let salt = sample_salt();
    let c = commitment::commit(0, &salt, 77, 12345);
    assert!(!commitment::verify(&c, 1, &salt, 77, 12345));
    assert!(!commitment::verify(&c, 2, &salt, 77, 12345));
}

#[test]
fn verify_rejects_changed_salt() {
    let salt = sample_salt();
    let c = commitment::commit(0, &salt, 77, 12345);
    let mut other = salt;
    other[31] ^= 1;
    assert!(!commitment::verify(&c, 0, &other, 77, 12345));
}

#[test]
fn verify_rejects_changed_party_and_nonce() {
    let salt = sample_salt();
    let c = commitment::commit(0, &salt, 77, 12345);
    assert!(
        !commitment::verify(&c, 0, &salt, 78, 12345),
        "a commitment must be bound to the party identity"
    );
    assert!(
        !commitment::verify(&c, 0, &salt, 77, 12346),
        "a commitment must be bound to the nonce"
    );
}

#[test]
fn commitment_matches_sha256_of_preimage() {
    let salt = sample_salt();
    let choice = 2u8;
    let party = 0xdead_beefu64;
    let nonce = 42u64;
    let mut preimage = Vec::new();
    preimage.push(choice);
    preimage.extend_from_slice(&salt);
    preimage.extend_from_slice(&party.to_le_bytes());
    preimage.extend_from_slice(&nonce.to_le_bytes());
    let expected: [u8; 32] = sha2::Sha256::digest(&preimage).into();
    let got = commitment::commit(choice, &salt, party, nonce);
    assert_eq!(got, expected);
}

#[test]
fn bytes32_eq_compares_contents() {
    let a = sample_salt();
    let mut b = a;
    assert!(commitment::bytes32_eq(&a, &b));
    b[0] ^= 0x80;
    assert!(!commitment::bytes32_eq(&a, &b));
}
