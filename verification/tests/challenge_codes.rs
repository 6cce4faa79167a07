use habbo_verifier::challenge::{generate_challenge, CHALLENGE_LEN};

#[test]
fn challenge_is_five_alphanumeric() {
    let code = generate_challenge();
    assert_eq!(code.chars().count(), CHALLENGE_LEN);
    assert_eq!(CHALLENGE_LEN, 5);
    for c in code.chars() {
        assert!(c.is_ascii_alphanumeric());
    }
}

#[test]
fn challenge_every_attempt_is_well_formed() {
    for _ in 0..50 {
        let code = generate_challenge();
        assert_eq!(code.len(), 5);
        assert!(code.bytes().all(|b| b.is_ascii_alphanumeric()));
    }
}
