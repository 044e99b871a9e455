//! The login screen's model: the front ends it can launch, the known games,
//! the launch suggestions, and the state behind the encryption settings
//! (which key is in use, the master password prompt, switching modes).
use vstd::prelude::*;
use vstd::utf8::encode_utf8;
use crate::text;
use crate::credentials::CredentialStore;
use crate::eaccess::Session;
use crate::encryption::{EncryptionConfig, EncryptionMode, opt_string_view, validate_master_password, validate_spec};

verus! {

/// Known game codes and their display names.
pub open spec fn game_codes() -> Seq<(Seq<char>, Seq<char>)> {
    seq![("GS3"@, "GemStone IV"@), ("DR"@, "DragonRealms"@), ("GSF"@, "GemStone IV Prime F2P"@)]
}

pub open spec fn game_name_spec(code: Seq<char>) -> Seq<char> {
    if code == "GS3"@ {
        "GemStone IV"@
    } else if code == "DR"@ {
        "DragonRealms"@
    } else if code == "GSF"@ {
        "GemStone IV Prime F2P"@
    } else {
        "Unknown"@
    }
}

/// The display name of a game code (`Unknown` for codes not listed).
pub fn game_name(code: &str) -> (r: &'static str)
    ensures
        r@ == game_name_spec(code@),
{
    let c = text::chars_of(code);
    if text::eq_lit(&c, "GS3") {
        "GemStone IV"
    } else if text::eq_lit(&c, "DR") {
        "DragonRealms"
    } else if text::eq_lit(&c, "GSF") {
        "GemStone IV Prime F2P"
    } else {
        "Unknown"
    }
}

/// The front ends the login screen can launch.
#[derive(Debug, Clone, Copy, PartialEq, Eq, Structural)]
pub enum Frontend {
    Wrayth,
    Wizard,
    Avalon,
}

impl Frontend {
    pub open spec fn name_spec(self) -> Seq<char> {
        match self {
            Frontend::Wrayth => "stormfront"@,
            Frontend::Wizard => "wizard"@,
            Frontend::Avalon => "avalon"@,
        }
    }

    /// The name stored with a saved character (Wrayth is stored as `stormfront`).
    pub fn as_str(&self) -> (r: &'static str)
        ensures
            r@ == self.name_spec(),
    {
        match self {
            Frontend::Wrayth => "stormfront",
            Frontend::Wizard => "wizard",
            Frontend::Avalon => "avalon",
        }
    }

    pub open spec fn display_spec(self) -> Seq<char> {
        match self {
            Frontend::Wrayth => "Wrayth"@,
            Frontend::Wizard => "Wizard"@,
            Frontend::Avalon => "Avalon"@,
        }
    }

    pub fn display_name(&self) -> (r: &'static str)
        ensures
            r@ == self.display_spec(),
    {
        match self {
            Frontend::Wrayth => "Wrayth",
            Frontend::Wizard => "Wizard",
            Frontend::Avalon => "Avalon",
        }
    }

    pub open spec fn from_spec(s: Seq<char>) -> Frontend {
        if s == "wizard"@ {
            Frontend::Wizard
        } else if s == "avalon"@ {
            Frontend::Avalon
        } else {
            Frontend::Wrayth
        }
    }

    /// The front end of a stored name; anything unknown is Wrayth.
    pub fn from_str(s: &str) -> (r: Frontend)
        ensures
            r == Frontend::from_spec(s@),
    {
        let c = text::chars_of(s);
        if text::eq_lit(&c, "wizard") {
            Frontend::Wizard
        } else if text::eq_lit(&c, "avalon") {
            Frontend::Avalon
        } else {
            Frontend::Wrayth
        }
    }
}

/// A front end's stored name reads back as the same front end.
pub proof fn lemma_frontend_round_trip(f: Frontend)
    ensures
        Frontend::from_spec(f.name_spec()) == f,
{
    reveal_strlit("stormfront");
    reveal_strlit("wizard");
    reveal_strlit("avalon");
    assert("stormfront"@.len() != "wizard"@.len());
    assert("stormfront"@.len() != "avalon"@.len());
    assert("avalon"@[0] != "wizard"@[0]);
}

/// The result returned when the user clicks Play.
#[derive(Debug, Clone)]
pub struct LoginResult {
    pub account: String,
    pub password: String,
    pub game_code: String,
    pub character: String,
    pub frontend: Frontend,
    pub custom_launch: Option<String>,
    pub custom_launch_dir: Option<String>,
    pub session: Option<Session>,
    pub theme: String,
}

/// The operating system, for the launch command suggestions.
#[derive(Debug, Clone, Copy, PartialEq, Eq, Structural)]
pub enum Os {
    MacOs,
    Windows,
    Linux,
    Other,
}

pub open spec fn launch_cmd_spec(os: Os) -> Seq<Seq<char>> {
    let base = seq![
        "Wizard.Exe /GGS /H127.0.0.1 /P%port% /K%key%"@,
        "Stormfront.exe /GGS /Hlocalhost /P%port% /K%key%"@,
    ];
    match os {
        Os::MacOs => base.push(
            "/Applications/Warlock.app/Contents/MacOS/Warlock --host localhost --port %port% --key %key%"@,
        ),
        Os::Windows => base.push("warlock --host localhost --port %port% --key %key%"@),
        Os::Linux => base.push("/usr/bin/warlock --host localhost --port %port% --key %key%"@),
        Os::Other => base,
    }
}

pub open spec fn strings_view(v: Seq<String>) -> Seq<Seq<char>> {
    v.map_values(|s: String| s@)
}

/// Custom launch command suggestions for an operating system.
pub fn launch_cmd_suggestions(os: Os) -> (r: Vec<String>)
    ensures
        strings_view(r@) == launch_cmd_spec(os),
{
    let mut s: Vec<String> = Vec::new();
    s.push("Wizard.Exe /GGS /H127.0.0.1 /P%port% /K%key%".to_owned());
    s.push("Stormfront.exe /GGS /Hlocalhost /P%port% /K%key%".to_owned());
    match os {
        Os::MacOs => s.push(
            "/Applications/Warlock.app/Contents/MacOS/Warlock --host localhost --port %port% --key %key%".to_owned(),
        ),
        Os::Windows => s.push("warlock --host localhost --port %port% --key %key%".to_owned()),
        Os::Linux => s.push("/usr/bin/warlock --host localhost --port %port% --key %key%".to_owned()),
        Os::Other => {},
    }
    assert(strings_view(s@) =~= launch_cmd_spec(os));
    s
}

/// Custom launch directory suggestions.
pub fn launch_dir_suggestions() -> (r: Vec<String>)
    ensures
        strings_view(r@) == seq!["../wizard"@, "../StormFront"@],
{
    let r = vec!["../wizard".to_owned(), "../StormFront".to_owned()];
    assert(strings_view(r@) =~= seq!["../wizard"@, "../StormFront"@]);
    r
}

// ── Encryption state ────────────────────────────────────────────────────────

/// Where the key for a mode comes from.
#[derive(Debug, Clone, Copy, PartialEq, Eq, Structural)]
pub enum KeySource {
    /// Plaintext mode: no key.
    NoKey,
    /// Standard mode: the key file, created when missing.
    KeyFile,
    /// Enhanced mode: the system keychain (else the master password).
    Keychain,
}

pub fn key_source(mode: EncryptionMode) -> (r: KeySource)
    ensures
        r == match mode {
            EncryptionMode::Plaintext => KeySource::NoKey,
            EncryptionMode::Standard => KeySource::KeyFile,
            EncryptionMode::Enhanced => KeySource::Keychain,
        },
{
    match mode {
        EncryptionMode::Plaintext => KeySource::NoKey,
        EncryptionMode::Standard => KeySource::KeyFile,
        EncryptionMode::Enhanced => KeySource::Keychain,
    }
}

pub open spec fn opt_key(k: Option<[u8; 32]>) -> Option<Seq<u8>> {
    match k {
        Some(a) => Some(a@),
        None => None,
    }
}

/// The state behind the login screen that is not drawing: the saved
/// accounts, the key in use and the encryption settings.
pub struct LoginApp {
    pub store: CredentialStore,
    pub key: Option<[u8; 32]>,
    pub enc_config: EncryptionConfig,
    pub enc_new_mode: EncryptionMode,
    pub master_password_prompt: bool,
    pub master_password_input: String,
    pub master_password_error: String,
    pub enc_new_password: String,
    pub enc_confirm_password: String,
    pub enc_current_password: String,
    pub enc_status: String,
    pub enc_show_dialog: bool,
    pub result: Option<LoginResult>,
    /// The line shown under the saved characters.
    pub saved_status: String,
    /// The line shown on the manual entry tab.
    pub manual_status: String,
    /// Whether a login request is under way.
    pub authenticating: bool,
    /// The play that waits for the login request's answer.
    pub pending_play: Option<PendingPlay>,
    /// The line shown under the saved accounts.
    pub accounts_status: String,
    /// The account whose password the change dialog is open for.
    pub change_pw_account: Option<String>,
    pub change_pw_current: String,
    pub change_pw_new: String,
    pub change_pw_confirm: String,
    /// The line shown in the change dialog.
    pub change_pw_status: String,
    /// Whether the new password is being tried with the server.
    pub change_pw_verifying: bool,
}

/// A character that is to be played once the login request succeeds.
#[derive(Debug, Clone)]
pub struct PendingPlay {
    pub account: String,
    pub password: String,
    pub game_code: String,
    pub character: String,
    pub frontend: Frontend,
    pub custom_launch: Option<String>,
    pub custom_launch_dir: Option<String>,
}

impl LoginApp {
    /// The login state from the loaded configuration and store and the key
    /// that the mode's source gave: none in plaintext mode, the key file's
    /// (all zeros when it could not be read) in standard mode, the
    /// keychain's in enhanced mode. Enhanced mode without a key asks for
    /// the master password.
    pub fn new(enc_config: EncryptionConfig, store: CredentialStore, loaded_key: Option<[u8; 32]>) -> (r: LoginApp)
        ensures
            opt_key(r.key) == match enc_config.mode {
                EncryptionMode::Plaintext => None,
                EncryptionMode::Standard => Some(
                    match loaded_key {
                        Some(k) => k@,
                        None => Seq::new(32, |i: int| 0u8),
                    },
                ),
                EncryptionMode::Enhanced => opt_key(loaded_key),
            },
            r.master_password_prompt == (enc_config.mode == EncryptionMode::Enhanced && r.key is None),
            r.enc_new_mode == enc_config.mode,
            r.store@ == store@,
            r.result is None,
            !r.enc_show_dialog,
            !r.authenticating,
            r.pending_play is None,
            r.saved_status@.len() == 0,
            r.manual_status@.len() == 0,
            r.accounts_status@.len() == 0,
            r.change_pw_account is None,
            !r.change_pw_verifying,
    {
        let key = match enc_config.mode {
            EncryptionMode::Plaintext => None,
            EncryptionMode::Standard => match loaded_key {
                Some(k) => Some(k),
                None => {
                    let z = [0u8; 32];
                    assert(z@ =~= Seq::new(32, |i: int| 0u8));
                    Some(z)
                },
            },
            EncryptionMode::Enhanced => loaded_key,
        };
        let prompt = enc_config.mode == EncryptionMode::Enhanced && key.is_none();
        let mode = enc_config.mode;
        LoginApp {
            store,
            key,
            enc_config,
            enc_new_mode: mode,
            master_password_prompt: prompt,
            master_password_input: String::new(),
            master_password_error: String::new(),
            enc_new_password: String::new(),
            enc_confirm_password: String::new(),
            enc_current_password: String::new(),
            enc_status: String::new(),
            enc_show_dialog: false,
            result: None,
            saved_status: String::new(),
            manual_status: String::new(),
            authenticating: false,
            pending_play: None,
            accounts_status: String::new(),
            change_pw_account: None,
            change_pw_current: String::new(),
            change_pw_new: String::new(),
            change_pw_confirm: String::new(),
            change_pw_status: String::new(),
            change_pw_verifying: false,
        }
    }

    /// Checks the typed master password. On success the key is taken into
    /// use, the prompt closes, and the key is returned so that it can be
    /// kept in the keychain; otherwise an error is shown.
    pub fn try_unlock_master_password(&mut self) -> (r: Option<[u8; 32]>)
        ensures
            old(self).master_password_input@.len() == 0 ==> r is None && final(self).master_password_error@
                == "Please enter your master password."@ && final(self).key == old(self).key,
            old(self).master_password_input@.len() > 0 ==> match validate_spec(
                old(self).master_password_input@,
                opt_string_view(old(self).enc_config.salt),
                opt_string_view(old(self).enc_config.test_value),
            ) {
                Some(k) => r matches Some(key) && key@ == k && final(self).key == r
                    && !final(self).master_password_prompt && final(self).master_password_error@.len() == 0,
                None => r is None && final(self).master_password_error@ == "Incorrect master password."@
                    && final(self).key == old(self).key,
            },
            final(self).master_password_input@.len() == 0 || old(self).master_password_input@.len() == 0,
    {
        if self.master_password_input.as_str().is_empty() {
            self.master_password_error = "Please enter your master password.".to_owned();
            return None;
        }
        match validate_master_password(self.master_password_input.as_str(), &self.enc_config) {
            Some(key) => {
                self.key = Some(key);
                self.master_password_prompt = false;
                self.master_password_input = String::new();
                self.master_password_error = String::new();
                Some(key)
            },
            None => {
                self.master_password_error = "Incorrect master password.".to_owned();
                self.master_password_input = String::new();
                None
            },
        }
    }
}

/// Why a change of encryption mode was not started.
#[derive(Debug, Clone, Copy, PartialEq, Eq, Structural)]
pub enum ModeChangeError {
    Unchanged,
    MasterPasswordRequired,
    PasswordsDiffer,
    PasswordTooShort,
    CurrentPasswordRequired,
    CurrentPasswordWrong,
}

pub open spec fn mode_change_spec(
    old_mode: EncryptionMode,
    new_mode: EncryptionMode,
    new_pw: Seq<char>,
    confirm: Seq<char>,
    current: Seq<char>,
    config_salt: Option<Seq<char>>,
    config_test: Option<Seq<char>>,
) -> Result<(), ModeChangeError> {
    if old_mode == new_mode {
        Err(ModeChangeError::Unchanged)
    } else if new_mode == EncryptionMode::Enhanced && new_pw.len() == 0 {
        Err(ModeChangeError::MasterPasswordRequired)
    } else if new_mode == EncryptionMode::Enhanced && new_pw != confirm {
        Err(ModeChangeError::PasswordsDiffer)
    } else if new_mode == EncryptionMode::Enhanced && encode_utf8(new_pw).len() < 8 {
        Err(ModeChangeError::PasswordTooShort)
    } else if old_mode == EncryptionMode::Enhanced && current.len() == 0 {
        Err(ModeChangeError::CurrentPasswordRequired)
    } else if old_mode == EncryptionMode::Enhanced && validate_spec(current, config_salt, config_test) is None {
        Err(ModeChangeError::CurrentPasswordWrong)
    } else {
        Ok(())
    }
}

impl ModeChangeError {
    pub open spec fn message_spec(self) -> Seq<char> {
        match self {
            ModeChangeError::Unchanged => "Mode unchanged."@,
            ModeChangeError::MasterPasswordRequired => "Error: Master password is required."@,
            ModeChangeError::PasswordsDiffer => "Error: Passwords do not match."@,
            ModeChangeError::PasswordTooShort => "Error: Password must be at least 8 characters."@,
            ModeChangeError::CurrentPasswordRequired =>
                "Error: Current master password is required to switch away from Enhanced mode."@,
            ModeChangeError::CurrentPasswordWrong => "Error: Incorrect current master password."@,
        }
    }

    /// The status line shown for the error.
    pub fn message(&self) -> (r: &'static str)
        ensures
            r@ == self.message_spec(),
    {
        match self {
            ModeChangeError::Unchanged => "Mode unchanged.",
            ModeChangeError::MasterPasswordRequired => "Error: Master password is required.",
            ModeChangeError::PasswordsDiffer => "Error: Passwords do not match.",
            ModeChangeError::PasswordTooShort => "Error: Password must be at least 8 characters.",
            ModeChangeError::CurrentPasswordRequired =>
                "Error: Current master password is required to switch away from Enhanced mode.",
            ModeChangeError::CurrentPasswordWrong => "Error: Incorrect current master password.",
        }
    }
}

pub open spec fn mode_label(m: EncryptionMode) -> Seq<char> {
    match m {
        EncryptionMode::Plaintext => "Plaintext"@,
        EncryptionMode::Standard => "Standard"@,
        EncryptionMode::Enhanced => "Enhanced"@,
    }
}

impl LoginApp {
    /// Checks whether the requested change of encryption mode may start;
    /// on refusal the status line says why.
    pub fn check_mode_change(&mut self) -> (r: Result<(), ModeChangeError>)
        ensures
            r == mode_change_spec(
                old(self).enc_config.mode,
                old(self).enc_new_mode,
                old(self).enc_new_password@,
                old(self).enc_confirm_password@,
                old(self).enc_current_password@,
                opt_string_view(old(self).enc_config.salt),
                opt_string_view(old(self).enc_config.test_value),
            ),
            r matches Err(e) ==> final(self).enc_status@ == e.message_spec(),
            r is Ok ==> final(self).enc_status == old(self).enc_status,
            final(self).key == old(self).key,
            final(self).store@ == old(self).store@,
    {
        let r = self.mode_change_verdict();
        match r {
            Err(e) => {
                self.enc_status = e.message().to_owned();
            },
            Ok(()) => {},
        }
        r
    }

    fn mode_change_verdict(&self) -> (r: Result<(), ModeChangeError>)
        ensures
            r == mode_change_spec(
                self.enc_config.mode,
                self.enc_new_mode,
                self.enc_new_password@,
                self.enc_confirm_password@,
                self.enc_current_password@,
                opt_string_view(self.enc_config.salt),
                opt_string_view(self.enc_config.test_value),
            ),
    {
        let old_mode = self.enc_config.mode;
        let new_mode = self.enc_new_mode;
        if old_mode == new_mode {
            return Err(ModeChangeError::Unchanged);
        }
        if new_mode == EncryptionMode::Enhanced {
            if self.enc_new_password.as_str().is_empty() {
                return Err(ModeChangeError::MasterPasswordRequired);
            }
            if !text::str_eq(self.enc_new_password.as_str(), self.enc_confirm_password.as_str()) {
                return Err(ModeChangeError::PasswordsDiffer);
            }
            if self.enc_new_password.as_str().as_bytes().len() < 8 {
                return Err(ModeChangeError::PasswordTooShort);
            }
        }
        if old_mode == EncryptionMode::Enhanced {
            if self.enc_current_password.as_str().is_empty() {
                return Err(ModeChangeError::CurrentPasswordRequired);
            }
            if validate_master_password(self.enc_current_password.as_str(), &self.enc_config).is_none() {
                return Err(ModeChangeError::CurrentPasswordWrong);
            }
        }
        Ok(())
    }

    /// Takes the new mode into use once the store has been re-encrypted and
    /// saved: the new key and configuration replace the old ones, the dialog
    /// closes and its password fields are emptied.
    pub fn commit_mode_change(&mut self, new_key: Option<[u8; 32]>, new_config: EncryptionConfig)
        ensures
            final(self).key == new_key,
            final(self).enc_config.mode == new_config.mode,
            opt_string_view(final(self).enc_config.salt) == opt_string_view(new_config.salt),
            opt_string_view(final(self).enc_config.test_value) == opt_string_view(new_config.test_value),
            !final(self).enc_show_dialog,
            final(self).enc_new_password@.len() == 0,
            final(self).enc_confirm_password@.len() == 0,
            final(self).enc_current_password@.len() == 0,
            final(self).enc_status@ == "Encryption mode changed to "@ + mode_label(new_config.mode) + "."@,
            final(self).store@ == old(self).store@,
    {
        let label = match new_config.mode {
            EncryptionMode::Plaintext => "Plaintext",
            EncryptionMode::Standard => "Standard",
            EncryptionMode::Enhanced => "Enhanced",
        };
        let mut status: Vec<char> = Vec::new();
        text::push_str(&mut status, "Encryption mode changed to ");
        text::push_str(&mut status, label);
        text::push_str(&mut status, ".");
        self.key = new_key;
        self.enc_config = new_config;
        self.enc_show_dialog = false;
        self.enc_new_password = String::new();
        self.enc_confirm_password = String::new();
        self.enc_current_password = String::new();
        self.enc_status = text::string_of(&status);
    }
}

} // verus!
