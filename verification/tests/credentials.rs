use revenant::credentials::{
    default_frontend, key_from_bytes, CredentialError, CredentialStore, CryptoError, KeyFileError,
};

fn key() -> [u8; 32] {
    [7u8; 32]
}

#[test]
fn encrypt_then_decrypt_gives_password() {
    let k = key();
    let enc = CredentialStore::encrypt_password("hunter2", Some(&k)).unwrap();
    assert_ne!(enc, "hunter2");
    assert_eq!(CredentialStore::decrypt_password(&enc, Some(&k)).unwrap(), "hunter2");
}

#[test]
fn plaintext_mode_stores_as_is() {
    let enc = CredentialStore::encrypt_password("hunter2", None).unwrap();
    assert_eq!(enc, "hunter2");
    assert_eq!(CredentialStore::decrypt_password(&enc, None).unwrap(), "hunter2");
}

#[test]
fn decrypt_errors() {
    let k = key();
    assert_eq!(CredentialStore::decrypt_password("%%%", Some(&k)).unwrap_err(), CryptoError::Base64);
    assert_eq!(CredentialStore::decrypt_password("AAAA", Some(&k)).unwrap_err(), CryptoError::TooShort);
    let enc = CredentialStore::encrypt_password("hunter2", Some(&k)).unwrap();
    let other = [9u8; 32];
    assert_eq!(CredentialStore::decrypt_password(&enc, Some(&other)).unwrap_err(), CryptoError::Decrypt);
}

#[test]
fn accounts_and_characters() {
    let k = key();
    let mut s = CredentialStore::new();
    s.add_account("Alice", "pw1", Some(&k)).unwrap();
    s.add_account("bob", "pw2", Some(&k)).unwrap();
    s.add_account("ALICE", "pw3", Some(&k)).unwrap();
    assert_eq!(s.accounts.len(), 2);
    assert_eq!(s.accounts[1].account, "ALICE");
    assert_eq!(s.get_password("alice", Some(&k)).unwrap(), "pw3");
    assert!(matches!(s.get_password("carol", Some(&k)), Err(CredentialError::AccountNotFound(a)) if a == "carol"));
    s.add_character("bob", "Gandalf", "GS3", "GemStone IV", "stormfront", None, None);
    assert!(s.toggle_favorite("BOB", "gandalf", "GS3"));
    assert!(!s.toggle_favorite("BOB", "gandalf", "DR"));
    s.add_character("bob", "GANDALF", "GS3", "GemStone IV", "wizard", None, None);
    assert_eq!(s.accounts[0].characters.len(), 1);
    assert!(s.accounts[0].characters[0].favorite);
    assert_eq!(s.accounts[0].characters[0].frontend, "wizard");
    s.remove_account("Bob");
    assert_eq!(s.accounts.len(), 1);
}

#[test]
fn key_file_bytes() {
    assert_eq!(key_from_bytes(&vec![1u8; 32]).unwrap(), [1u8; 32]);
    assert_eq!(key_from_bytes(&vec![1u8; 31]).unwrap_err(), KeyFileError::InvalidLength);
    assert_eq!(default_frontend(), "stormfront");
    assert!(CredentialStore::accounts_path().ends_with("/revenant/accounts.json"));
    assert!(CredentialStore::key_path().ends_with("/revenant/key"));
}

#[test]
fn key_file_contents_decide_the_key() {
    use_key_for_file();
}

fn use_key_for_file() {
    let bytes: Vec<u8> = (0u8..32).collect();
    assert_eq!(revenant::credentials::key_for_file(Some(bytes.clone())), Ok((bytes.clone().try_into().unwrap(), false)));
    assert_eq!(
        revenant::credentials::key_for_file(Some(vec![1, 2, 3])),
        Err(revenant::credentials::KeyFileError::InvalidLength)
    );
    let (k1, fresh) = revenant::credentials::key_for_file(None).unwrap();
    let (k2, _) = revenant::credentials::key_for_file(None).unwrap();
    assert!(fresh);
    assert_ne!(k1, k2);
}
