//! How saved passwords are protected: the encryption mode, the master
//! password check of the enhanced mode, and re-encryption of the whole store
//! under a new key.
use vstd::prelude::*;
use vstd::utf8::encode_utf8;
use crate::text;
use aes_gcm::aead::rand_core::RngCore;
use crate::credentials::{AccountV, CredentialStore, CryptoError, b64_decode, b64_encode, base64_decoded, decrypt_spec, key_view};

verus! {

#[derive(Clone, Copy, Debug, PartialEq, Eq, Structural)]
pub enum EncryptionMode {
    Plaintext,
    Standard,
    Enhanced,
}

impl Default for EncryptionMode {
    fn default() -> (r: Self)
        ensures
            r == EncryptionMode::Standard,
    {
        EncryptionMode::Standard
    }
}

#[derive(Clone, Debug)]
pub struct EncryptionConfig {
    pub mode: EncryptionMode,
    /// Base64-encoded AES-GCM ciphertext of "revenant_test_value" (Enhanced only)
    pub test_value: Option<String>,
    /// Base64-encoded PBKDF2 salt (Enhanced only)
    pub salt: Option<String>,
}

impl Default for EncryptionConfig {
    fn default() -> (r: Self)
        ensures
            r.mode == EncryptionMode::Standard,
            r.test_value is None,
            r.salt is None,
    {
        EncryptionConfig { mode: EncryptionMode::Standard, test_value: None, salt: None }
    }
}

// ── Key derivation ──────────────────────────────────────────────────────────

/// Rounds of PBKDF2 used to turn a master password into a key.
pub const PBKDF2_ROUNDS: u32 = 100_000;

/// The 32-byte PBKDF2-HMAC-SHA256 output for `password`, `salt` and `rounds`.
pub uninterp spec fn pbkdf2_sha256(password: Seq<u8>, salt: Seq<u8>, rounds: u32) -> Seq<u8>;

/// `pbkdf2::pbkdf2_hmac::<sha2::Sha256>` filling a 32-byte key. The result
/// is the named `pbkdf2_sha256` of the three inputs, nothing more.
#[verifier::external_body]
fn pbkdf2_hmac_sha256(password: &[u8], salt: &[u8], rounds: u32) -> (r: [u8; 32])
    ensures
        r@ == pbkdf2_sha256(password@, salt@, rounds),
{
    let mut key = [0u8; 32];
    pbkdf2::pbkdf2_hmac::<sha2::Sha256>(password, salt, rounds, &mut key);
    key
}

/// The key derived from a master password and salt.
pub fn derive_key(password: &str, salt: &[u8]) -> (r: [u8; 32])
    ensures
        r@ == pbkdf2_sha256(encode_utf8(password@), salt@, PBKDF2_ROUNDS),
{
    pbkdf2_hmac_sha256(password.as_bytes(), salt, PBKDF2_ROUNDS)
}

/// Sixteen random bytes from the operating system (`OsRng::fill_bytes`);
/// nothing is claimed of them but their number.
#[verifier::external_body]
fn random_bytes_16() -> (r: Vec<u8>)
    ensures
        r@.len() == 16,
{
    let mut salt = vec![0u8; 16];
    aes_gcm::aead::OsRng.fill_bytes(&mut salt);
    salt
}

/// A fresh random salt of 16 bytes.
pub fn generate_salt() -> (r: Vec<u8>)
    ensures
        r@.len() == 16,
{
    random_bytes_16()
}

// ── The test value ──────────────────────────────────────────────────────────

pub const TEST_PLAINTEXT: &'static str = "revenant_test_value";

/// The test value stored with an enhanced-mode configuration: the fixed
/// text encrypted under the key.
pub fn create_test_value(key: &[u8; 32]) -> (r: Result<String, CryptoError>)
    ensures
        r is Ok,
        r matches Ok(s) ==> decrypt_spec(s@, Some(key@)) == Ok::<Seq<char>, CryptoError>(TEST_PLAINTEXT@),
{
    proof {
        reveal_strlit("revenant_test_value");
    }
    CredentialStore::encrypt_password(TEST_PLAINTEXT, Some(key))
}

/// The key a master password gives under `config`, when the configuration
/// has a salt and a test value, the salt is base64, and the test value
/// decrypts under that key to the fixed text.
pub open spec fn validate_spec(password: Seq<char>, salt: Option<Seq<char>>, test_value: Option<Seq<char>>) -> Option<Seq<u8>> {
    match (salt, test_value) {
        (Some(s), Some(t)) => match base64_decoded(s) {
            Some(sb) => {
                let key = pbkdf2_sha256(encode_utf8(password), sb, PBKDF2_ROUNDS);
                if decrypt_spec(t, Some(key)) == Ok::<Seq<char>, CryptoError>(TEST_PLAINTEXT@) {
                    Some(key)
                } else {
                    None
                }
            },
            None => None,
        },
        _ => None,
    }
}

pub open spec fn opt_string_view(o: Option<String>) -> Option<Seq<char>> {
    match o {
        Some(s) => Some(s@),
        None => None,
    }
}

/// Validate a master password against the stored test value.
/// Returns the derived key if the password is correct, None otherwise.
pub fn validate_master_password(password: &str, config: &EncryptionConfig) -> (r: Option<[u8; 32]>)
    ensures
        match r {
            Some(k) => validate_spec(password@, opt_string_view(config.salt), opt_string_view(config.test_value))
                == Some(k@),
            None => validate_spec(password@, opt_string_view(config.salt), opt_string_view(config.test_value))
                is None,
        },
{
    let salt_b64 = match &config.salt {
        Some(s) => s,
        None => return None,
    };
    let test_value = match &config.test_value {
        Some(t) => t,
        None => return None,
    };
    let salt = match b64_decode(salt_b64.as_str()) {
        Some(s) => s,
        None => return None,
    };
    let key = derive_key(password, salt.as_slice());
    match CredentialStore::decrypt_password(test_value.as_str(), Some(&key)) {
        Ok(plaintext) => {
            if text::str_eq(plaintext.as_str(), TEST_PLAINTEXT) {
                Some(key)
            } else {
                None
            }
        },
        Err(_) => None,
    }
}

// ── Re-encryption ───────────────────────────────────────────────────────────

/// Why re-encryption stopped (the store is then left as it was).
#[derive(Debug, Clone)]
pub enum ReencryptError {
    /// An account's password could not be decrypted with the old key.
    Decrypt { account: String, error: CryptoError },
    /// A password could not be encrypted with the new key.
    Encrypt(CryptoError),
}

/// All stored passwords read back under `key`.
pub open spec fn all_decrypt(s: Seq<AccountV>, key: Option<Seq<u8>>) -> bool {
    forall|i: int| 0 <= i < s.len() ==> (#[trigger] decrypt_spec(s[i].encrypted_password, key)) is Ok
}

/// `after` is `before` with each password re-stored so that it reads back,
/// under `new_key`, to what it read under `old_key`.
pub open spec fn reencrypted(
    before: Seq<AccountV>,
    after: Seq<AccountV>,
    old_key: Option<Seq<u8>>,
    new_key: Option<Seq<u8>>,
) -> bool {
    &&& after.len() == before.len()
    &&& forall|i: int|
        0 <= i < before.len() ==> {
            &&& (#[trigger] after[i]).account == before[i].account
            &&& after[i].characters == before[i].characters
            &&& decrypt_spec(after[i].encrypted_password, new_key) == decrypt_spec(
                before[i].encrypted_password,
                old_key,
            )
        }
}

/// Re-encrypt all passwords in the credential store atomically.
/// Decrypts ALL passwords first into memory, then re-encrypts ALL; on any
/// failure the store is left unchanged.
pub fn reencrypt_all(
    store: &mut CredentialStore,
    old_key: Option<&[u8; 32]>,
    new_key: Option<&[u8; 32]>,
) -> (r: Result<(), ReencryptError>)
    ensures
        r is Ok ==> reencrypted(old(store)@, final(store)@, key_view(old_key), key_view(new_key)),
        r is Err ==> final(store)@ == old(store)@,
        r matches Err(ReencryptError::Decrypt { account, error }) ==> exists|i: int|
            0 <= i < old(store)@.len() && old(store)@[i].account == account@ && decrypt_spec(
                old(store)@[i].encrypted_password,
                key_view(old_key),
            ) == Err::<Seq<char>, CryptoError>(error),
        r matches Err(ReencryptError::Encrypt(_)) ==> new_key is Some && all_decrypt(
            old(store)@,
            key_view(old_key),
        ),
        all_decrypt(old(store)@, key_view(old_key)) && (forall|i: int|
            0 <= i < old(store)@.len() ==> (#[trigger] decrypt_spec(
                old(store)@[i].encrypted_password,
                key_view(old_key),
            ))->Ok_0.len() <= 0x1_0000_0000) ==> r is Ok,
{
    let ghost s0 = store@;
    let ghost ok = key_view(old_key);
    let ghost nk = key_view(new_key);
    // Phase 1: decrypt every password.
    let mut plain: Vec<String> = Vec::new();
    let mut i: usize = 0;
    while i < store.accounts.len()
        invariant
            i <= store.accounts.len(),
            store@ == s0,
            ok == key_view(old_key),
            plain.len() == i,
            forall|j: int| 0 <= j < i ==> decrypt_spec(s0[j].encrypted_password, ok) == Ok::<Seq<char>, CryptoError>(
                (#[trigger] plain@[j])@,
            ),
        decreases store.accounts.len() - i,
    {
        match CredentialStore::decrypt_password(store.accounts[i].encrypted_password.as_str(), old_key) {
            Ok(pw) => {
                plain.push(pw);
            },
            Err(e) => {
                assert(s0[i as int].account == store.accounts@[i as int].account@);
                assert(decrypt_spec(s0[i as int].encrypted_password, ok) == Err::<Seq<char>, CryptoError>(e));
                return Err(
                    ReencryptError::Decrypt { account: store.accounts[i].account.clone(), error: e },
                );
            },
        }
        i += 1;
    }
    // Phase 2: encrypt every password under the new key.
    let mut enc: Vec<String> = Vec::new();
    let mut k: usize = 0;
    while k < plain.len()
        invariant
            k <= plain.len(),
            plain.len() == s0.len(),
            store@ == s0,
            ok == key_view(old_key),
            nk == key_view(new_key),
            enc.len() == k,
            forall|j: int| 0 <= j < s0.len() ==> decrypt_spec(s0[j].encrypted_password, ok) == Ok::<Seq<char>, CryptoError>(
                (#[trigger] plain@[j])@,
            ),
            forall|j: int| 0 <= j < k ==> decrypt_spec((#[trigger] enc@[j])@, nk) == Ok::<Seq<char>, CryptoError>(
                plain@[j]@,
            ),
        decreases plain.len() - k,
    {
        match CredentialStore::encrypt_password(plain[k].as_str(), new_key) {
            Ok(e) => {
                enc.push(e);
            },
            Err(e) => {
                proof {
                    assert forall|j: int| 0 <= j < s0.len() implies (#[trigger] decrypt_spec(
                        s0[j].encrypted_password,
                        ok,
                    )) is Ok by {
                        assert(decrypt_spec(s0[j].encrypted_password, ok) == Ok::<Seq<char>, CryptoError>(
                            plain@[j]@,
                        ));
                    }
                }
                return Err(ReencryptError::Encrypt(e));
            },
        }
        k += 1;
    }
    // Phase 3: store the new ciphertexts.
    let mut m: usize = 0;
    while m < enc.len()
        invariant
            m <= enc.len(),
            enc.len() == s0.len(),
            store.accounts.len() == s0.len(),
            ok == key_view(old_key),
            nk == key_view(new_key),
            forall|j: int| 0 <= j < s0.len() ==> decrypt_spec(s0[j].encrypted_password, ok) == Ok::<Seq<char>, CryptoError>(
                (#[trigger] plain@[j])@,
            ),
            forall|j: int| 0 <= j < s0.len() ==> decrypt_spec((#[trigger] enc@[j])@, nk) == Ok::<Seq<char>, CryptoError>(
                plain@[j]@,
            ),
            forall|j: int|
                0 <= j < s0.len() ==> {
                    &&& (#[trigger] store@[j]).account == s0[j].account
                    &&& store@[j].characters == s0[j].characters
                    &&& store@[j].encrypted_password == if j < m {
                        enc@[j]@
                    } else {
                        s0[j].encrypted_password
                    }
                },
        decreases enc.len() - m,
    {
        let ghost before = store@;
        let mut a = store.accounts.remove(m);
        let e = enc[m].clone();
        assert(e@ == enc@[m as int]@);
        assert(a@ == before[m as int]);
        a.encrypted_password = e;
        store.accounts.insert(m, a);
        assert(store@ =~= before.update(m as int, store@[m as int]));
        assert(store@[m as int].encrypted_password == enc@[m as int]@);
        m += 1;
    }
    Ok(())
}

// ── Mode set-up ─────────────────────────────────────────────────────────────

/// The configuration of plaintext or standard mode: no salt, no test value.
pub fn simple_config(mode: EncryptionMode) -> (r: EncryptionConfig)
    ensures
        r.mode == mode,
        r.salt is None,
        r.test_value is None,
{
    EncryptionConfig { mode, test_value: None, salt: None }
}

/// The key and configuration of enhanced mode for a master password and a
/// fresh salt: the key derived from both, the salt in base64, and the test
/// value encrypted under the key. The same password then validates against
/// that configuration and gives the same key back.
pub fn enhanced_config(password: &str, salt: &[u8]) -> (r: ([u8; 32], EncryptionConfig))
    ensures
        r.0@ == pbkdf2_sha256(encode_utf8(password@), salt@, PBKDF2_ROUNDS),
        r.1.mode == EncryptionMode::Enhanced,
        validate_spec(password@, opt_string_view(r.1.salt), opt_string_view(r.1.test_value)) == Some(r.0@),
{
    let key = derive_key(password, salt);
    let tv = match create_test_value(&key) {
        Ok(t) => t,
        Err(_) => String::new(),
    };
    let s = b64_encode(salt);
    (key, EncryptionConfig { mode: EncryptionMode::Enhanced, test_value: Some(tv), salt: Some(s) })
}

} // verus!
