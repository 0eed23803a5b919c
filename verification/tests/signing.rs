use bls_blind::Keypair;
use rand::rngs::StdRng;
use rand::SeedableRng;

#[test]
fn sign_verify() {
    let mut rng = rand::thread_rng();

    // 150 rounds: each round does a key generation, a signature and a
    // pairing-based verification, and the whole loop has to fit the test
    // runner's per-test time budget with the dependencies built unoptimized.
    for i in 0..150 {
        let keypair = Keypair::generate(&mut rng);
        let message = format!("Message {}", i);
        let sig = keypair.sign(&message.as_bytes());
        assert_eq!(keypair.verify(&message.as_bytes(), &sig), true);
    }
}

#[test]
fn wrong_key_rejects() {
    let mut rng = rand::thread_rng();

    for i in 0..8 {
        let keypair = Keypair::generate(&mut rng);
        let other = Keypair::generate(&mut rng);
        let message = format!("Message {}", i);
        let sig = keypair.sign(message.as_bytes());
        assert!(!other.verify(message.as_bytes(), &sig));
    }
}

#[test]
fn tampered_message_rejects() {
    let mut rng = StdRng::seed_from_u64(11);
    let keypair = Keypair::generate(&mut rng);
    let message = b"attack at dawn";
    let sig = keypair.sign(message);
    assert!(keypair.verify(message, &sig));

    for i in 0..message.len() {
        for flip in [1u8, 0x80] {
            let mut mutated = *message;
            mutated[i] ^= flip;
            assert!(!keypair.verify(&mutated, &sig));
        }
    }
}

#[test]
fn signature_bytes_are_canonical() {
    let mut rng = StdRng::seed_from_u64(3);
    let keypair = Keypair::generate(&mut rng);
    let first = keypair.sign(b"one message");
    let again = keypair.sign(b"one message");
    let other = keypair.sign(b"another message");

    assert_eq!(first.to_bytes().len(), 48);
    assert_eq!(first.to_bytes(), again.to_bytes());
    assert_ne!(first.to_bytes(), other.to_bytes());
}
