use bls12_381::Scalar;
use bls_blind::{BlindingError, BlsBlind, Keypair};
use rand::rngs::StdRng;
use rand::SeedableRng;

#[test]
fn test_blind_sign_verify() {
    let mut rng = rand::thread_rng();

    // 150 rounds: each round does a key generation, a full blinding exchange
    // and a pairing-based verification, and the whole loop has to fit the test
    // runner's per-test time budget with the dependencies built unoptimized.
    for i in 0..150 {
        let keypair = Keypair::generate(&mut rng);
        let message = format!("Blinded message {}", i);
        let user = BlsBlind::new(&mut rng, message.as_bytes(), &keypair.public).unwrap();
        let blinded_signature = keypair.secret.blind_sign(&user.blinded_message());
        let signature = user.unblind(blinded_signature);
        assert!(keypair.verify(message.as_bytes(), &signature))
    }
}

#[test]
fn fixed_seed_scenario() {
    let mut rng = StdRng::seed_from_u64(7);
    let keypair = Keypair::generate(&mut rng);
    let message = "Message 0";
    let sig = keypair.sign(message.as_bytes());
    assert!(keypair.verify(message.as_bytes(), &sig));

    let mut other_rng = StdRng::seed_from_u64(8);
    let other = Keypair::generate(&mut other_rng);
    assert!(!other.verify(message.as_bytes(), &sig));

    let blinded_text = "Blinded message 0";
    let user = BlsBlind::new(&mut rng, blinded_text.as_bytes(), &keypair.public).unwrap();
    let blinded_signature = keypair.secret.blind_sign(&user.blinded_message());
    let signature = user.unblind(blinded_signature);
    assert!(keypair.verify(blinded_text.as_bytes(), &signature));
}

#[test]
fn unblinded_signature_equals_direct_signature() {
    let mut rng = StdRng::seed_from_u64(21);
    let keypair = Keypair::generate(&mut rng);
    let message = b"pay to the bearer";

    let direct = keypair.sign(message);
    let user = BlsBlind::new(&mut rng, message, &keypair.public).unwrap();
    let blinded_signature = keypair.secret.blind_sign(&user.blinded_message());
    let unblinded = user.unblind(blinded_signature);

    assert_eq!(unblinded.to_bytes(), direct.to_bytes());
}

#[test]
fn blind_signature_of_blinded_point_is_not_the_direct_signature() {
    let mut rng = StdRng::seed_from_u64(22);
    let keypair = Keypair::generate(&mut rng);
    let message = b"pay to the bearer";

    let direct = keypair.sign(message);
    let user = BlsBlind::new(&mut rng, message, &keypair.public).unwrap();
    let blinded_signature = keypair.secret.blind_sign(&user.blinded_message());

    assert_ne!(blinded_signature.to_bytes(), direct.to_bytes());
    assert!(!keypair.verify(message, &blinded_signature));
}

#[test]
fn zero_blinding_scalar_reports_inversion_failure() {
    let mut rng = StdRng::seed_from_u64(5);
    let keypair = Keypair::generate(&mut rng);

    let res = BlsBlind::new_with_scalar(Scalar::from(0u64), b"some message", &keypair.public);
    match res {
        Err(e) => assert_eq!(e, BlindingError::InversionFailure),
        Ok(_) => panic!("a zero blinding scalar must be rejected"),
    }
}

#[test]
fn nonzero_blinding_scalar_is_accepted() {
    let mut rng = StdRng::seed_from_u64(6);
    let keypair = Keypair::generate(&mut rng);
    let message = b"some message";

    let user = match BlsBlind::new_with_scalar(Scalar::from(41u64), message, &keypair.public) {
        Ok(user) => user,
        Err(_) => panic!("a nonzero blinding scalar must be accepted"),
    };
    let blinded_signature = keypair.secret.blind_sign(&user.blinded_message());
    let signature = user.unblind(blinded_signature);
    assert!(keypair.verify(message, &signature));
}

#[test]
fn blinded_point_rendering_tracks_the_point() {
    let mut rng = StdRng::seed_from_u64(9);
    let keypair = Keypair::generate(&mut rng);
    let message = b"render me";

    let first = BlsBlind::new(&mut rng, message, &keypair.public).unwrap();
    let second = BlsBlind::new(&mut rng, message, &keypair.public).unwrap();

    assert!(!first.to_string().is_empty());
    assert_eq!(first.to_string(), first.to_string());
    assert_ne!(first.to_string(), second.to_string());
}
