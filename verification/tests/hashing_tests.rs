use accounts_core::hashing::{hash_password, verify_password};

#[test]
fn fresh_hash_verifies_its_password() {
    let h = hash_password("Valid1Pass!").unwrap();
    assert!(h != "Valid1Pass!");
    assert_eq!(verify_password("Valid1Pass!", &h).unwrap(), true);
}

#[test]
fn wrong_password_does_not_verify() {
    let h = hash_password("Valid1Pass!").unwrap();
    assert_eq!(verify_password("Other2Pass!", &h).unwrap(), false);
}

#[test]
fn salting_makes_hashes_differ_yet_both_verify() {
    let h1 = hash_password("Valid1Pass!").unwrap();
    let h2 = hash_password("Valid1Pass!").unwrap();
    assert!(h1 != h2);
    assert_eq!(verify_password("Valid1Pass!", &h1).unwrap(), true);
    assert_eq!(verify_password("Valid1Pass!", &h2).unwrap(), true);
}

#[test]
fn malformed_hash_is_an_error_not_a_mismatch() {
    assert!(verify_password("Valid1Pass!", "not-a-phc-string").is_err());
}
