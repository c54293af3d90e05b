use leaderboard::{Error, Protected};

#[test]
fn check_pass_accepts_the_matching_digest() {
    let p = Protected::new(41u32, "abc".to_string());
    assert_eq!(p.check_pass(b"abc"), Ok(41));
}

#[test]
fn check_pass_refuses_another_digest() {
    let p = Protected::new(41u32, "abc".to_string());
    assert_eq!(p.check_pass(b"abd"), Err(Error::Unauthorized));
    let p = Protected::new(41u32, "abc".to_string());
    assert_eq!(p.check_pass(b"ab"), Err(Error::Unauthorized));
}

#[test]
fn validate_without_admin_password_is_internal() {
    let p = Protected::new((), "abc".to_string());
    assert_eq!(
        p.validate(Err("environment variable not found".to_string())),
        Err(Error::Internal("environment variable not found".to_string()))
    );
}

#[test]
fn validate_hashes_the_admin_password() {
    // Sending the administrator password itself is refused: it is compared
    // with the SHA-256 digest of that password.
    let p = Protected::new((), "letmein".to_string());
    assert_eq!(p.validate(Ok("letmein".to_string())), Err(Error::Unauthorized));
}

#[test]
fn validate_refuses_the_hex_digest() {
    // The digest of "abc" as hex text is not its bytes either.
    let hex = "ba7816bf8f01cfea414140de5dae2223b00361a396177a9cb410ff61f20015ad".to_string();
    let p = Protected::new((), hex);
    assert_eq!(p.validate(Ok("abc".to_string())), Err(Error::Unauthorized));
}
