use revenant::credentials::CredentialStore;
use revenant::encryption::{
    create_test_value, derive_key, enhanced_config, generate_salt, reencrypt_all, simple_config,
    validate_master_password, EncryptionConfig, EncryptionMode, ReencryptError,
};

#[test]
fn defaults() {
    assert_eq!(EncryptionMode::default(), EncryptionMode::Standard);
    let c = EncryptionConfig::default();
    assert_eq!(c.mode, EncryptionMode::Standard);
    assert!(c.salt.is_none() && c.test_value.is_none());
    assert_eq!(simple_config(EncryptionMode::Plaintext).mode, EncryptionMode::Plaintext);
}

#[test]
fn key_derivation_is_deterministic() {
    let a = derive_key("master", b"saltsaltsaltsalt");
    let b = derive_key("master", b"saltsaltsaltsalt");
    let c = derive_key("master2", b"saltsaltsaltsalt");
    assert_eq!(a, b);
    assert_ne!(a, c);
    assert_eq!(generate_salt().len(), 16);
}

#[test]
fn test_value_decrypts_to_fixed_text() {
    let k = [3u8; 32];
    let tv = create_test_value(&k).unwrap();
    assert_eq!(CredentialStore::decrypt_password(&tv, Some(&k)).unwrap(), "revenant_test_value");
}

#[test]
fn master_password_validation() {
    let salt = generate_salt();
    let (key, config) = enhanced_config("correct horse", &salt);
    assert_eq!(validate_master_password("correct horse", &config), Some(key));
    assert_eq!(validate_master_password("wrong", &config), None);
    assert_eq!(validate_master_password("correct horse", &EncryptionConfig::default()), None);
}

#[test]
fn reencryption_keeps_passwords() {
    let old = [1u8; 32];
    let new = [2u8; 32];
    let mut s = CredentialStore::new();
    s.add_account("a", "pw-a", Some(&old)).unwrap();
    s.add_account("b", "pw-b", Some(&old)).unwrap();
    reencrypt_all(&mut s, Some(&old), Some(&new)).unwrap();
    assert_eq!(s.get_password("a", Some(&new)).unwrap(), "pw-a");
    assert_eq!(s.get_password("b", Some(&new)).unwrap(), "pw-b");
    reencrypt_all(&mut s, Some(&new), None).unwrap();
    assert_eq!(s.accounts[0].encrypted_password, "pw-a");
}

#[test]
fn reencryption_failure_leaves_store() {
    let old = [1u8; 32];
    let wrong = [5u8; 32];
    let mut s = CredentialStore::new();
    s.add_account("a", "pw-a", Some(&old)).unwrap();
    let before = s.accounts[0].encrypted_password.clone();
    let r = reencrypt_all(&mut s, Some(&wrong), None);
    assert!(matches!(r, Err(ReencryptError::Decrypt { ref account, .. }) if account == "a"));
    assert_eq!(s.accounts[0].encrypted_password, before);
}
