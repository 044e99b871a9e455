//! Saved accounts and characters, with passwords kept encrypted under
//! AES-256-GCM (nonce and ciphertext together, base64-encoded). Accounts and
//! character names are matched ignoring case.
use vstd::prelude::*;
use vstd::utf8::{encode_utf8, decode_utf8, valid_utf8};
use crate::text;
use base64::Engine as _;
use aes_gcm::aead::{Aead, AeadCore, OsRng};
use aes_gcm::KeyInit;
use aes_gcm::aead::rand_core::RngCore;

verus! {

broadcast use vstd::utf8::group_utf8_lib;

pub fn default_frontend() -> (r: String)
    ensures
        r@ == "stormfront"@,
{
    "stormfront".to_owned()
}

// ── Outside crates ──────────────────────────────────────────────────────────

/// What `base64`'s standard engine encodes `bytes` to.
pub uninterp spec fn base64_encoded(bytes: Seq<u8>) -> Seq<char>;

/// What `base64`'s standard engine decodes the text `s` to (`None` when it
/// is not valid base64).
pub uninterp spec fn base64_decoded(s: Seq<char>) -> Option<Seq<u8>>;

/// The AES-256-GCM ciphertext (with its tag) of `pt` under `key` and
/// `nonce`, with no associated data (`None` when the cipher refuses).
pub uninterp spec fn aes_gcm_sealed(key: Seq<u8>, nonce: Seq<u8>, pt: Seq<u8>) -> Option<Seq<u8>>;

/// The plaintext that AES-256-GCM recovers from `ct` under `key` and
/// `nonce` (`None` when authentication fails).
pub uninterp spec fn aes_gcm_opened(key: Seq<u8>, nonce: Seq<u8>, ct: Seq<u8>) -> Option<Seq<u8>>;

/// `base64::engine::general_purpose::STANDARD.encode`. Claimed beyond the
/// name: decoding the result gives the bytes back.
#[verifier::external_body]
pub(crate) fn b64_encode(bytes: &[u8]) -> (r: String)
    ensures
        r@ == base64_encoded(bytes@),
        base64_decoded(r@) == Some(bytes@),
{
    base64::engine::general_purpose::STANDARD.encode(bytes)
}

/// `base64::engine::general_purpose::STANDARD.decode`, `None` on an error.
#[verifier::external_body]
pub(crate) fn b64_decode(s: &str) -> (r: Option<Vec<u8>>)
    ensures
        match r {
            Some(v) => base64_decoded(s@) == Some(v@),
            None => base64_decoded(s@) is None,
        },
{
    base64::engine::general_purpose::STANDARD.decode(s).ok()
}

/// `Aes256Gcm::new(key).encrypt(nonce, pt)`. Claimed beyond the name, as
/// the aes-gcm source shows: it succeeds for a plaintext of at most 2^36
/// bytes, and decrypting what it returns with the same key and nonce gives
/// `pt` back.
#[verifier::external_body]
fn aes_seal(key: &[u8; 32], nonce: &[u8], pt: &[u8]) -> (r: Option<Vec<u8>>)
    requires
        nonce@.len() == 12,
    ensures
        match r {
            Some(ct) => aes_gcm_sealed(key@, nonce@, pt@) == Some(ct@) && aes_gcm_opened(
                key@,
                nonce@,
                ct@,
            ) == Some(pt@),
            None => aes_gcm_sealed(key@, nonce@, pt@) is None,
        },
        pt@.len() <= 0x10_0000_0000 ==> r is Some,
{
    let cipher = aes_gcm::Aes256Gcm::new(key.into());
    cipher.encrypt(aes_gcm::Nonce::from_slice(nonce), pt).ok()
}

/// `Aes256Gcm::new(key).decrypt(nonce, ct)`, `None` when authentication fails.
#[verifier::external_body]
fn aes_open(key: &[u8; 32], nonce: &[u8], ct: &[u8]) -> (r: Option<Vec<u8>>)
    requires
        nonce@.len() == 12,
    ensures
        match r {
            Some(pt) => aes_gcm_opened(key@, nonce@, ct@) == Some(pt@),
            None => aes_gcm_opened(key@, nonce@, ct@) is None,
        },
{
    let cipher = aes_gcm::Aes256Gcm::new(key.into());
    cipher.decrypt(aes_gcm::Nonce::from_slice(nonce), ct).ok()
}

/// A fresh nonce from the operating system's random source
/// (`Aes256Gcm::generate_nonce(&mut OsRng)`): twelve bytes, nothing else claimed.
#[verifier::external_body]
fn random_nonce() -> (r: Vec<u8>)
    ensures
        r@.len() == 12,
{
    aes_gcm::Aes256Gcm::generate_nonce(&mut OsRng).to_vec()
}

/// `String::from_utf8`: the decoded text when the bytes are valid UTF-8.
#[verifier::external_body]
fn utf8_string(bytes: Vec<u8>) -> (r: Option<String>)
    ensures
        match r {
            Some(s) => valid_utf8(bytes@) && s@ == decode_utf8(bytes@),
            None => !valid_utf8(bytes@),
        },
{
    String::from_utf8(bytes).ok()
}

/// Each character takes at most four bytes in UTF-8.
pub proof fn lemma_utf8_len(s: Seq<char>)
    ensures
        encode_utf8(s).len() <= 4 * s.len(),
    decreases s.len(),
{
    if s.len() > 0 {
        lemma_utf8_len(s.drop_first());
    }
}

fn byte_range(v: &Vec<u8>, a: usize, b: usize) -> (r: Vec<u8>)
    requires
        a <= b <= v.len(),
    ensures
        r@ == v@.subrange(a as int, b as int),
{
    let mut out: Vec<u8> = Vec::new();
    let mut i: usize = a;
    while i < b
        invariant
            a <= i <= b <= v.len(),
            out@ == v@.subrange(a as int, i as int),
        decreases b - i,
    {
        out.push(v[i]);
        assert(out@ =~= v@.subrange(a as int, i + 1));
        i += 1;
    }
    out
}

// ── Password encryption ─────────────────────────────────────────────────────

/// Why a password could not be stored or read back.
#[derive(Debug, Clone, PartialEq, Eq, Structural)]
pub enum CryptoError {
    /// The cipher refused to encrypt.
    Encrypt,
    /// The stored text is not base64.
    Base64,
    /// The stored bytes are shorter than a nonce.
    TooShort,
    /// Authentication failed: wrong key or damaged data.
    Decrypt,
    /// The decrypted bytes are not UTF-8.
    Utf8,
}

/// The stored form of `password` under `key` with the given nonce: the
/// password itself when there is no key.
pub open spec fn sealed_text(password: Seq<char>, key: Option<Seq<u8>>, nonce: Seq<u8>) -> Option<Seq<char>> {
    match key {
        None => Some(password),
        Some(k) => match aes_gcm_sealed(k, nonce, encode_utf8(password)) {
            Some(ct) => Some(base64_encoded(nonce + ct)),
            None => None,
        },
    }
}

/// What reading back the stored text `enc` under `key` gives.
pub open spec fn decrypt_spec(enc: Seq<char>, key: Option<Seq<u8>>) -> Result<Seq<char>, CryptoError> {
    match key {
        None => Ok(enc),
        Some(k) => match base64_decoded(enc) {
            None => Err(CryptoError::Base64),
            Some(bytes) => if bytes.len() < 12 {
                Err(CryptoError::TooShort)
            } else {
                match aes_gcm_opened(k, bytes.subrange(0, 12), bytes.subrange(12, bytes.len() as int)) {
                    None => Err(CryptoError::Decrypt),
                    Some(pt) => if valid_utf8(pt) {
                        Ok(decode_utf8(pt))
                    } else {
                        Err(CryptoError::Utf8)
                    },
                }
            },
        },
    }
}

pub open spec fn key_view(key: Option<&[u8; 32]>) -> Option<Seq<u8>> {
    match key {
        Some(k) => Some(k@),
        None => None,
    }
}

pub open spec fn str_result(r: Result<String, CryptoError>) -> Result<Seq<char>, CryptoError> {
    match r {
        Ok(s) => Ok(s@),
        Err(e) => Err(e),
    }
}

// ── The store ───────────────────────────────────────────────────────────────

#[derive(Debug, Clone)]
pub struct SavedCharacter {
    pub name: String,
    pub game_code: String,
    pub game_name: String,
    pub favorite: bool,
    pub frontend: String,
    pub custom_launch: Option<String>,
    pub custom_launch_dir: Option<String>,
}

#[derive(Debug, Clone)]
pub struct SavedAccount {
    pub account: String,
    /// AES-256-GCM encrypted password, base64-encoded: nonce(12) + ciphertext
    pub encrypted_password: String,
    pub characters: Vec<SavedCharacter>,
}

#[derive(Debug)]
pub struct CredentialStore {
    pub accounts: Vec<SavedAccount>,
}

pub open spec fn opt_view(o: Option<String>) -> Option<Seq<char>> {
    match o {
        Some(s) => Some(s@),
        None => None,
    }
}

pub struct CharV {
    pub name: Seq<char>,
    pub game_code: Seq<char>,
    pub game_name: Seq<char>,
    pub favorite: bool,
    pub frontend: Seq<char>,
    pub custom_launch: Option<Seq<char>>,
    pub custom_launch_dir: Option<Seq<char>>,
}

pub struct AccountV {
    pub account: Seq<char>,
    pub encrypted_password: Seq<char>,
    pub characters: Seq<CharV>,
}

impl View for SavedCharacter {
    type V = CharV;

    open spec fn view(&self) -> CharV {
        CharV {
            name: self.name@,
            game_code: self.game_code@,
            game_name: self.game_name@,
            favorite: self.favorite,
            frontend: self.frontend@,
            custom_launch: opt_view(self.custom_launch),
            custom_launch_dir: opt_view(self.custom_launch_dir),
        }
    }
}

pub open spec fn chars_view(v: Seq<SavedCharacter>) -> Seq<CharV> {
    v.map_values(|c: SavedCharacter| c@)
}

impl View for SavedAccount {
    type V = AccountV;

    open spec fn view(&self) -> AccountV {
        AccountV {
            account: self.account@,
            encrypted_password: self.encrypted_password@,
            characters: chars_view(self.characters@),
        }
    }
}

pub open spec fn accounts_view(v: Seq<SavedAccount>) -> Seq<AccountV> {
    v.map_values(|a: SavedAccount| a@)
}

impl View for CredentialStore {
    type V = Seq<AccountV>;

    open spec fn view(&self) -> Seq<AccountV> {
        accounts_view(self.accounts@)
    }
}

/// Names match ignoring case (both lowercased by `str::to_lowercase`).
pub open spec fn same_name(a: Seq<char>, b: Seq<char>) -> bool {
    text::unicode_lowercase(a) == text::unicode_lowercase(b)
}

/// The accounts not named `name`, in order.
pub open spec fn other_accounts(s: Seq<AccountV>, name: Seq<char>) -> Seq<AccountV>
    decreases s.len(),
{
    if s.len() == 0 {
        s
    } else if same_name(s[0].account, name) {
        other_accounts(s.drop_first(), name)
    } else {
        seq![s[0]] + other_accounts(s.drop_first(), name)
    }
}

/// The characters not named `name`, in order.
pub open spec fn other_chars(s: Seq<CharV>, name: Seq<char>) -> Seq<CharV>
    decreases s.len(),
{
    if s.len() == 0 {
        s
    } else if same_name(s[0].name, name) {
        other_chars(s.drop_first(), name)
    } else {
        seq![s[0]] + other_chars(s.drop_first(), name)
    }
}

/// Index of the first account named `name`.
pub open spec fn find_account(s: Seq<AccountV>, name: Seq<char>, i: int) -> Option<int>
    decreases s.len() - i,
{
    if i < 0 || i >= s.len() {
        None
    } else if same_name(s[i].account, name) {
        Some(i)
    } else {
        find_account(s, name, i + 1)
    }
}

/// Index of the first character named `name` (and, when `code` is given,
/// of that game code).
pub open spec fn find_char(s: Seq<CharV>, name: Seq<char>, code: Option<Seq<char>>, i: int) -> Option<int>
    decreases s.len() - i,
{
    if i < 0 || i >= s.len() {
        None
    } else if same_name(s[i].name, name) && (match code {
        Some(c) => s[i].game_code == c,
        None => true,
    }) {
        Some(i)
    } else {
        find_char(s, name, code, i + 1)
    }
}

pub proof fn lemma_find_account(s: Seq<AccountV>, name: Seq<char>, i: int)
    requires
        0 <= i,
    ensures
        find_account(s, name, i) matches Some(j) ==> i <= j < s.len() && same_name(s[j].account, name),
    decreases s.len() - i,
{
    if i < s.len() && !same_name(s[i].account, name) {
        lemma_find_account(s, name, i + 1);
    }
}

pub proof fn lemma_find_char(s: Seq<CharV>, name: Seq<char>, code: Option<Seq<char>>, i: int)
    requires
        0 <= i,
    ensures
        find_char(s, name, code, i) matches Some(j) ==> i <= j < s.len(),
    decreases s.len() - i,
{
    if i < s.len() && !(same_name(s[i].name, name) && (match code {
        Some(c) => s[i].game_code == c,
        None => true,
    })) {
        lemma_find_char(s, name, code, i + 1);
    }
}

fn name_eq(a: &str, b: &str) -> (r: bool)
    ensures
        r == same_name(a@, b@),
{
    let la = text::to_lowercase(a);
    let lb = text::to_lowercase(b);
    text::str_eq(la.as_str(), lb.as_str())
}

pub(crate) fn account_index(accounts: &Vec<SavedAccount>, name: &str) -> (r: Option<usize>)
    ensures
        text::opt_int(r) == find_account(accounts_view(accounts@), name@, 0),
{
    let ghost av = accounts_view(accounts@);
    let mut i: usize = 0;
    while i < accounts.len()
        invariant
            i <= accounts.len(),
            av == accounts_view(accounts@),
            find_account(av, name@, 0) == find_account(av, name@, i as int),
        decreases accounts.len() - i,
    {
        if name_eq(accounts[i].account.as_str(), name) {
            return Some(i);
        }
        i += 1;
    }
    None
}

fn char_index(chars: &Vec<SavedCharacter>, name: &str, code: Option<&str>) -> (r: Option<usize>)
    ensures
        text::opt_int(r) == find_char(
            chars_view(chars@),
            name@,
            match code {
                Some(c) => Some(c@),
                None => None,
            },
            0,
        ),
{
    let ghost cv = chars_view(chars@);
    let ghost co = match code {
        Some(c) => Some(c@),
        None => None::<Seq<char>>,
    };
    let mut i: usize = 0;
    while i < chars.len()
        invariant
            i <= chars.len(),
            cv == chars_view(chars@),
            co == match code {
                Some(c) => Some(c@),
                None => None::<Seq<char>>,
            },
            find_char(cv, name@, co, 0) == find_char(cv, name@, co, i as int),
        decreases chars.len() - i,
    {
        let code_ok = match code {
            Some(c) => text::str_eq(chars[i].game_code.as_str(), c),
            None => true,
        };
        if code_ok && name_eq(chars[i].name.as_str(), name) {
            return Some(i);
        }
        i += 1;
    }
    None
}

fn remove_accounts_named(accounts: &mut Vec<SavedAccount>, name: &str)
    ensures
        accounts_view(final(accounts)@) == other_accounts(accounts_view(old(accounts)@), name@),
{
    let ghost orig = accounts_view(accounts@);
    let mut rest: Vec<SavedAccount> = Vec::new();
    std::mem::swap(accounts, &mut rest);
    while rest.len() > 0
        invariant
            accounts_view(accounts@) + other_accounts(accounts_view(rest@), name@) == other_accounts(
                orig,
                name@,
            ),
        decreases rest.len(),
    {
        let ghost rv = accounts_view(rest@);
        let a = rest.remove(0);
        assert(accounts_view(rest@) =~= rv.drop_first());
        if !name_eq(a.account.as_str(), name) {
            let ghost before = accounts_view(accounts@);
            accounts.push(a);
            assert(accounts_view(accounts@) =~= before.push(rv[0]));
            assert(before + other_accounts(rv, name@) =~= accounts_view(accounts@) + other_accounts(
                rv.drop_first(),
                name@,
            ));
        }
    }
    assert(accounts_view(rest@) =~= seq![]);
    assert(accounts_view(accounts@) + other_accounts(accounts_view(rest@), name@) =~= accounts_view(
        accounts@,
    ));
}

fn remove_chars_named(chars: &mut Vec<SavedCharacter>, name: &str)
    ensures
        chars_view(final(chars)@) == other_chars(chars_view(old(chars)@), name@),
{
    let ghost orig = chars_view(chars@);
    let mut rest: Vec<SavedCharacter> = Vec::new();
    std::mem::swap(chars, &mut rest);
    while rest.len() > 0
        invariant
            chars_view(chars@) + other_chars(chars_view(rest@), name@) == other_chars(orig, name@),
        decreases rest.len(),
    {
        let ghost rv = chars_view(rest@);
        let c = rest.remove(0);
        assert(chars_view(rest@) =~= rv.drop_first());
        if !name_eq(c.name.as_str(), name) {
            let ghost before = chars_view(chars@);
            chars.push(c);
            assert(chars_view(chars@) =~= before.push(rv[0]));
            assert(before + other_chars(rv, name@) =~= chars_view(chars@) + other_chars(
                rv.drop_first(),
                name@,
            ));
        }
    }
    assert(chars_view(rest@) =~= seq![]);
    assert(chars_view(chars@) + other_chars(chars_view(rest@), name@) =~= chars_view(chars@));
}

/// The accounts after `add_account` stored `enc` for `account`.
pub open spec fn with_account(s: Seq<AccountV>, account: Seq<char>, enc: Seq<char>) -> Seq<AccountV> {
    other_accounts(s, account).push(AccountV { account, encrypted_password: enc, characters: seq![] })
}

/// An account's characters after `add_character`: any of that name replaced
/// by the new one, which keeps the favorite mark of the first it replaced.
pub open spec fn with_char(chars: Seq<CharV>, c: CharV) -> Seq<CharV> {
    let fav = match find_char(chars, c.name, None, 0) {
        Some(j) => chars[j].favorite,
        None => false,
    };
    other_chars(chars, c.name).push(CharV { favorite: fav, ..c })
}

/// The store with the favorite mark of the character `name` of game `code`
/// in the account `account` flipped (nothing changes when either is not
/// found).
pub open spec fn toggled_store(s: Seq<AccountV>, account: Seq<char>, name: Seq<char>, code: Seq<char>) -> Seq<AccountV> {
    match find_account(s, account, 0) {
        None => s,
        Some(i) => match find_char(s[i].characters, name, Some(code), 0) {
            None => s,
            Some(j) => {
                let c = s[i].characters[j];
                s.update(i, AccountV { characters: s[i].characters.update(j, CharV { favorite: !c.favorite, ..c }), ..s[i] })
            },
        },
    }
}

/// The store after `c` is added to the account named `account` (nothing
/// changes when there is no such account).
pub open spec fn store_with_char(s: Seq<AccountV>, account: Seq<char>, c: CharV) -> Seq<AccountV> {
    match find_account(s, account, 0) {
        None => s,
        Some(i) => s.update(i, AccountV { characters: with_char(s[i].characters, c), ..s[i] }),
    }
}

impl CredentialStore {
    pub fn new() -> (r: Self)
        ensures
            r@.len() == 0,
    {
        let r = CredentialStore { accounts: Vec::new() };
        assert(r@ =~= seq![]);
        r
    }

    /// Encrypts `password` for storage: AES-256-GCM under a fresh random
    /// nonce, nonce and ciphertext base64-encoded together. With no key the
    /// password is stored as it is.
    pub fn encrypt_password(password: &str, key: Option<&[u8; 32]>) -> (r: Result<String, CryptoError>)
        ensures
            match r {
                Ok(s) => exists|nonce: Seq<u8>|
                    nonce.len() == 12 && #[trigger] sealed_text(password@, key_view(key), nonce) == Some(s@),
                Err(e) => e == CryptoError::Encrypt && key is Some,
            },
            password@.len() <= 0x1_0000_0000 ==> r is Ok,
            r matches Ok(s) ==> decrypt_spec(s@, key_view(key)) == Ok::<Seq<char>, CryptoError>(password@),
    {
        match key {
            None => {
                let r = password.to_owned();
                proof {
                    let w = Seq::new(12, |i: int| 0u8);
                    assert(w.len() == 12);
                    assert(sealed_text(password@, key_view(key), w) == Some(r@));
                }
                Ok(r)
            },
            Some(k) => {
                let nonce = random_nonce();
                let pt = password.as_bytes();
                proof {
                    lemma_utf8_len(password@);
                }
                match aes_seal(k, nonce.as_slice(), pt) {
                    None => Err(CryptoError::Encrypt),
                    Some(ct) => {
                        let mut combined = nonce.clone();
                        let mut i: usize = 0;
                        while i < ct.len()
                            invariant
                                i <= ct.len(),
                                combined@ == nonce@ + ct@.take(i as int),
                            decreases ct.len() - i,
                        {
                            combined.push(ct[i]);
                            assert(combined@ =~= nonce@ + ct@.take(i + 1));
                            i += 1;
                        }
                        assert(combined@ =~= nonce@ + ct@);
                        let s = b64_encode(combined.as_slice());
                        proof {
                            assert(sealed_text(password@, key_view(key), nonce@) == Some(s@));

                            assert(combined@.subrange(0, 12) =~= nonce@);
                            assert(combined@.subrange(12, combined@.len() as int) =~= ct@);
                        }
                        Ok(s)
                    },
                }
            },
        }
    }

    /// Reads back a stored password.
    pub fn decrypt_password(encrypted: &str, key: Option<&[u8; 32]>) -> (r: Result<String, CryptoError>)
        ensures
            str_result(r) == decrypt_spec(encrypted@, key_view(key)),
    {
        match key {
            None => Ok(encrypted.to_owned()),
            Some(k) => {
                let bytes = match b64_decode(encrypted) {
                    Some(b) => b,
                    None => return Err(CryptoError::Base64),
                };
                if bytes.len() < 12 {
                    return Err(CryptoError::TooShort);
                }
                let nonce = byte_range(&bytes, 0, 12);
                let ct = byte_range(&bytes, 12, bytes.len());
                match aes_open(k, nonce.as_slice(), ct.as_slice()) {
                    None => Err(CryptoError::Decrypt),
                    Some(pt) => match utf8_string(pt) {
                        Some(s) => Ok(s),
                        None => Err(CryptoError::Utf8),
                    },
                }
            },
        }
    }

    /// Stores an account, replacing any of the same name (ignoring case);
    /// its saved characters are dropped. On an error the store is unchanged.
    pub fn add_account(&mut self, account: &str, password: &str, key: Option<&[u8; 32]>) -> (r: Result<(), CryptoError>)
        ensures
            match r {
                Ok(()) => exists|enc: Seq<char>|
                    decrypt_spec(enc, key_view(key)) == Ok::<Seq<char>, CryptoError>(password@) && final(self)@ == with_account(
                        old(self)@,
                        account@,
                        enc,
                    ),
                Err(_) => final(self)@ == old(self)@ && key is Some,
            },
            password@.len() <= 0x1_0000_0000 ==> r is Ok,
    {
        let enc = match Self::encrypt_password(password, key) {
            Ok(e) => e,
            Err(e) => return Err(e),
        };
        remove_accounts_named(&mut self.accounts, account);
        let ghost before = self@;
        self.accounts.push(
            SavedAccount { account: account.to_owned(), encrypted_password: enc, characters: Vec::new() },
        );
        assert(chars_view(Seq::<SavedCharacter>::empty()) =~= seq![]);
        assert(self@ =~= before.push(AccountV { account: account@, encrypted_password: enc@, characters: seq![] }));
        Ok(())
    }

    /// Saves a character under an account (found ignoring case), replacing
    /// one of the same name and keeping its favorite mark. Nothing happens
    /// when the account is not stored.
    pub fn add_character(
        &mut self,
        account: &str,
        name: &str,
        game_code: &str,
        game_name: &str,
        frontend: &str,
        custom_launch: Option<String>,
        custom_launch_dir: Option<String>,
    )
        ensures
            final(self)@ == store_with_char(
                old(self)@,
                account@,
                CharV {
                    name: name@,
                    game_code: game_code@,
                    game_name: game_name@,
                    favorite: false,
                    frontend: frontend@,
                    custom_launch: opt_view(custom_launch),
                    custom_launch_dir: opt_view(custom_launch_dir),
                },
            ),
    {
        proof {
            lemma_find_account(self@, account@, 0);
        }
        let i = match account_index(&self.accounts, account) {
            Some(i) => i,
            None => return,
        };
        let ghost old_s = self@;
        let mut a = self.accounts.remove(i);
        proof {
            lemma_find_char(a@.characters, name@, None, 0);
        }
        let was_favorite = match char_index(&a.characters, name, None) {
            Some(j) => a.characters[j].favorite,
            None => false,
        };
        remove_chars_named(&mut a.characters, name);
        let ghost before_chars = chars_view(a.characters@);
        a.characters.push(
            SavedCharacter {
                name: name.to_owned(),
                game_code: game_code.to_owned(),
                game_name: game_name.to_owned(),
                favorite: was_favorite,
                frontend: frontend.to_owned(),
                custom_launch,
                custom_launch_dir,
            },
        );
        assert(chars_view(a.characters@) =~= before_chars.push(a.characters@.last()@));
        self.accounts.insert(i, a);
        assert(self@ =~= old_s.update(i as int, a@));
    }

    /// Flips the favorite mark of a character (account and name matched
    /// ignoring case, game code exactly) and returns the new mark; `false`
    /// when there is no such character.
    pub fn toggle_favorite(&mut self, account: &str, char_name: &str, game_code: &str) -> (r: bool)
        ensures
            final(self)@ == toggled_store(old(self)@, account@, char_name@, game_code@),
            r == match find_account(old(self)@, account@, 0) {
                None => false,
                Some(i) => match find_char(old(self)@[i].characters, char_name@, Some(game_code@), 0) {
                    None => false,
                    Some(j) => !old(self)@[i].characters[j].favorite,
                },
            },
    {
        proof {
            lemma_find_account(self@, account@, 0);
        }
        let i = match account_index(&self.accounts, account) {
            Some(i) => i,
            None => return false,
        };
        proof {
            lemma_find_char(self@[i as int].characters, char_name@, Some(game_code@), 0);
        }
        let j = match char_index(&self.accounts[i].characters, char_name, Some(game_code)) {
            Some(j) => j,
            None => return false,
        };
        let ghost old_s = self@;
        let mut a = self.accounts.remove(i);
        let ghost old_chars = chars_view(a.characters@);
        let mut c = a.characters.remove(j);
        c.favorite = !c.favorite;
        let fav = c.favorite;
        a.characters.insert(j, c);
        assert(chars_view(a.characters@) =~= old_chars.update(j as int, a.characters@[j as int]@));
        self.accounts.insert(i, a);
        assert(self@ =~= old_s.update(i as int, self@[i as int]));
        fav
    }

    /// Removes every account of that name (ignoring case).
    pub fn remove_account(&mut self, account: &str)
        ensures
            final(self)@ == other_accounts(old(self)@, account@),
    {
        remove_accounts_named(&mut self.accounts, account);
    }

    /// The stored password of an account (found ignoring case).
    pub fn get_password(&self, account: &str, key: Option<&[u8; 32]>) -> (r: Result<String, CredentialError>)
        ensures
            match find_account(self@, account@, 0) {
                None => r matches Err(CredentialError::AccountNotFound(a)) && a@ == account@,
                Some(i) => match (r, decrypt_spec(self@[i].encrypted_password, key_view(key))) {
                    (Ok(s), Ok(p)) => s@ == p,
                    (Err(CredentialError::Crypto(e)), Err(f)) => e == f,
                    _ => false,
                },
            },
    {
        proof {
            lemma_find_account(self@, account@, 0);
        }
        match account_index(&self.accounts, account) {
            None => Err(CredentialError::AccountNotFound(account.to_owned())),
            Some(i) => match Self::decrypt_password(self.accounts[i].encrypted_password.as_str(), key) {
                Ok(s) => Ok(s),
                Err(e) => Err(CredentialError::Crypto(e)),
            },
        }
    }
}

/// Why a credential operation failed.
#[derive(Debug, Clone)]
pub enum CredentialError {
    AccountNotFound(String),
    Crypto(CryptoError),
}

pub open spec fn crypto_message(e: CryptoError) -> Seq<char> {
    match e {
        CryptoError::Encrypt => "encrypt: aead::Error"@,
        CryptoError::Base64 => "invalid base64"@,
        CryptoError::TooShort => "Invalid encrypted password"@,
        CryptoError::Decrypt => "decrypt: aead::Error"@,
        CryptoError::Utf8 => "invalid utf-8"@,
    }
}

impl CryptoError {
    /// What went wrong, in a few words.
    pub fn message(&self) -> (r: &'static str)
        ensures
            r@ == crypto_message(*self),
    {
        match self {
            CryptoError::Encrypt => "encrypt: aead::Error",
            CryptoError::Base64 => "invalid base64",
            CryptoError::TooShort => "Invalid encrypted password",
            CryptoError::Decrypt => "decrypt: aead::Error",
            CryptoError::Utf8 => "invalid utf-8",
        }
    }
}

impl CredentialError {
    /// `Account not found: <name>`, or what went wrong with the password.
    pub fn message(&self) -> (r: String)
        ensures
            r@ == match self {
                CredentialError::AccountNotFound(a) => "Account not found: "@ + a@,
                CredentialError::Crypto(e) => crypto_message(*e),
            },
    {
        proof {
            reveal_strlit("");
        }
        match self {
            CredentialError::AccountNotFound(a) => text::join3("Account not found: ", a.as_str(), ""),
            CredentialError::Crypto(e) => text::join3(e.message(), "", ""),
        }
    }
}

// ── Files ───────────────────────────────────────────────────────────────────

/// The user's configuration directory (`dirs::config_dir`) as text. It
/// depends on the platform and the environment, so nothing is claimed of it.
#[verifier::external_body]
fn user_config_dir() -> (r: Option<String>) {
    dirs::config_dir().map(|p| p.to_string_lossy().into_owned())
}

/// The application's directory under a configuration directory (`.` when
/// there is none).
pub open spec fn app_dir_spec(base: Option<Seq<char>>) -> Seq<char> {
    match base {
        Some(b) => b + "/revenant"@,
        None => "./revenant"@,
    }
}

pub fn app_dir_in(base: Option<&str>) -> (r: String)
    ensures
        r@ == app_dir_spec(crate::game_obj::opt_str(base)),
{
    match base {
        Some(b) => {
            let mut p = text::chars_of(b);
            text::push_str(&mut p, "/revenant");
            text::string_of(&p)
        },
        None => "./revenant".to_owned(),
    }
}

/// `dir/file`.
pub fn file_in(dir: &str, file: &str) -> (r: String)
    ensures
        r@ == dir@ + "/"@ + file@,
{
    let mut p = text::chars_of(dir);
    text::push_str(&mut p, "/");
    text::push_str(&mut p, file);
    text::string_of(&p)
}

/// Why a key file cannot be used.
#[derive(Debug, Clone, Copy, PartialEq, Eq, Structural)]
pub enum KeyFileError {
    /// The file does not hold exactly 32 bytes.
    InvalidLength,
}

/// The key held in a key file's bytes.
pub fn key_from_bytes(bytes: &Vec<u8>) -> (r: Result<[u8; 32], KeyFileError>)
    ensures
        match r {
            Ok(k) => bytes@.len() == 32 && k@ == bytes@,
            Err(e) => bytes@.len() != 32 && e == KeyFileError::InvalidLength,
        },
{
    if bytes.len() != 32 {
        return Err(KeyFileError::InvalidLength);
    }
    let mut key = [0u8; 32];
    let mut i: usize = 0;
    while i < 32
        invariant
            i <= 32,
            bytes@.len() == 32,
            forall|j: int| 0 <= j < i ==> key@[j] == bytes@[j],
        decreases 32 - i,
    {
        key.set(i, bytes[i]);
        i += 1;
    }
    assert(key@ =~= bytes@);
    Ok(key)
}

/// Thirty-two random bytes from the operating system (`OsRng::fill_bytes`);
/// nothing is claimed of them.
#[verifier::external_body]
fn rand_key() -> (r: [u8; 32]) {
    let mut key = [0u8; 32];
    OsRng.fill_bytes(&mut key);
    key
}

/// The key that goes with the key file: the one it holds when it exists
/// (`existing` is its bytes), or else a fresh random key, with `true` to say
/// that it is to be written.
pub fn key_for_file(existing: Option<Vec<u8>>) -> (r: Result<([u8; 32], bool), KeyFileError>)
    ensures
        match existing {
            Some(b) => match r {
                Ok((k, fresh)) => !fresh && b@.len() == 32 && k@ == b@,
                Err(e) => b@.len() != 32 && e == KeyFileError::InvalidLength,
            },
            None => r matches Ok((_, fresh)) && fresh,
        },
{
    match existing {
        Some(b) => match key_from_bytes(&b) {
            Ok(k) => Ok((k, false)),
            Err(e) => Err(e),
        },
        None => Ok((rand_key(), true)),
    }
}

impl CredentialStore {
    /// The application's configuration directory.
    pub fn config_dir() -> (r: String)
        ensures
            exists|b: Option<Seq<char>>| r@ == app_dir_spec(b),
    {
        let base = user_config_dir();
        let r = match &base {
            Some(b) => app_dir_in(Some(b.as_str())),
            None => app_dir_in(None),
        };
        r
    }

    /// Where the saved accounts are kept: `accounts.json` in the configuration directory.
    pub fn accounts_path() -> (r: String)
        ensures
            exists|b: Option<Seq<char>>| r@ == app_dir_spec(b) + "/"@ + "accounts.json"@,
    {
        let d = Self::config_dir();
        file_in(d.as_str(), "accounts.json")
    }

    /// Where the standard-mode key is kept: `key` in the configuration directory.
    pub fn key_path() -> (r: String)
        ensures
            exists|b: Option<Seq<char>>| r@ == app_dir_spec(b) + "/"@ + "key"@,
    {
        let d = Self::config_dir();
        file_in(d.as_str(), "key")
    }
}

// ── Laws of the store ───────────────────────────────────────────────────────

proof fn lemma_find_account_same_names(s: Seq<AccountV>, t: Seq<AccountV>, name: Seq<char>, i: int)
    requires
        s.len() == t.len(),
        forall|k: int| 0 <= k < s.len() ==> s[k].account == t[k].account,
    ensures
        find_account(s, name, i) == find_account(t, name, i),
    decreases s.len() - i,
{
    if 0 <= i < s.len() {
        lemma_find_account_same_names(s, t, name, i + 1);
    }
}

proof fn lemma_find_char_same_keys(s: Seq<CharV>, t: Seq<CharV>, name: Seq<char>, code: Option<Seq<char>>, i: int)
    requires
        s.len() == t.len(),
        forall|k: int| 0 <= k < s.len() ==> s[k].name == t[k].name && s[k].game_code == t[k].game_code,
    ensures
        find_char(s, name, code, i) == find_char(t, name, code, i),
    decreases s.len() - i,
{
    if 0 <= i < s.len() {
        lemma_find_char_same_keys(s, t, name, code, i + 1);
    }
}

/// Marking a character as a favorite twice leaves the store as it was.
pub proof fn lemma_toggle_twice(s: Seq<AccountV>, account: Seq<char>, name: Seq<char>, code: Seq<char>)
    ensures
        toggled_store(toggled_store(s, account, name, code), account, name, code) == s,
{
    let t = toggled_store(s, account, name, code);
    lemma_find_account(s, account, 0);
    match find_account(s, account, 0) {
        None => {},
        Some(i) => {
            lemma_find_char(s[i].characters, name, Some(code), 0);
            match find_char(s[i].characters, name, Some(code), 0) {
                None => {},
                Some(j) => {
                    lemma_find_account_same_names(s, t, account, 0);
                    lemma_find_char_same_keys(s[i].characters, t[i].characters, name, Some(code), 0);
                    assert(toggled_store(t, account, name, code) =~= s) by {
                        assert(t[i].characters.update(j, s[i].characters[j]) =~= s[i].characters);
                    }
                },
            }
        },
    }
}

proof fn lemma_no_other_named(s: Seq<AccountV>, name: Seq<char>)
    ensures
        forall|k: int| 0 <= k < other_accounts(s, name).len() ==> !same_name(#[trigger] other_accounts(s, name)[k].account, name),
    decreases s.len(),
{
    if s.len() > 0 {
        lemma_no_other_named(s.drop_first(), name);
        let rest = other_accounts(s.drop_first(), name);
        if !same_name(s[0].account, name) {
            assert forall|k: int| 0 <= k < other_accounts(s, name).len() implies !same_name(#[trigger] other_accounts(s, name)[k].account, name) by {
                if k > 0 {
                    assert(other_accounts(s, name)[k] == rest[k - 1]);
                }
            }
        }
    }
}

proof fn lemma_find_account_none_before(s: Seq<AccountV>, name: Seq<char>, i: int, n: int)
    requires
        0 <= i <= n <= s.len(),
        forall|k: int| i <= k < n ==> !same_name(#[trigger] s[k].account, name),
    ensures
        find_account(s, name, i) == find_account(s, name, n),
    decreases n - i,
{
    if i < n {
        lemma_find_account_none_before(s, name, i + 1, n);
    }
}

/// Removing an account leaves no account of that name.
pub proof fn lemma_removed_account_gone(s: Seq<AccountV>, name: Seq<char>)
    ensures
        find_account(other_accounts(s, name), name, 0) is None,
{
    let o = other_accounts(s, name);
    lemma_no_other_named(s, name);
    lemma_find_account_none_before(o, name, 0, o.len() as int);
}

/// After an account is saved, looking it up (by any spelling that matches
/// ignoring case) finds the new entry, with the password text it was saved
/// with; so its password reads back as it was given.
pub proof fn lemma_saved_account_found(s: Seq<AccountV>, account: Seq<char>, lookup: Seq<char>, enc: Seq<char>)
    requires
        same_name(account, lookup),
    ensures
        ({
            let t = with_account(s, account, enc);
            find_account(t, lookup, 0) == Some((t.len() - 1) as int) && t[t.len() - 1].encrypted_password == enc
        }),
{
    let o = other_accounts(s, account);
    let t = with_account(s, account, enc);
    lemma_no_other_named(s, account);
    assert forall|k: int| 0 <= k < o.len() implies !same_name(#[trigger] t[k].account, lookup) by {
        assert(t[k] == o[k]);
        assert(!same_name(o[k].account, account));
    }
    lemma_find_account_none_before(t, lookup, 0, o.len() as int);
}

} // verus!
