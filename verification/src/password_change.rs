//! The accounts tab's password change and account removal: what the dialog
//! checks before the server is asked, what it does with the server's
//! answer, and the line the tab shows afterwards.
use vstd::prelude::*;
use crate::text;
use crate::credentials::{
    AccountV, CryptoError, crypto_message, decrypt_spec, find_account, other_accounts, with_account,
};
use crate::login::{LoginApp, opt_key};

verus! {

/// Which password the server took when the change was tried.
#[derive(Debug, Clone, Copy, PartialEq, Eq, Structural)]
pub enum ProbeAnswer {
    /// The new password works: the change has been made on the server.
    NewPassword,
    /// The new password was refused but the old one still works.
    OldPassword,
}

/// The passwords that the server is to be asked about.
#[derive(Debug, Clone)]
pub struct PasswordProbe {
    pub account: String,
    pub new_password: String,
    pub old_password: String,
}

/// Why a change is refused before the server is asked, or `None` when it
/// may go ahead: the fields are checked in order, then the current
/// password against the one saved for the account.
pub open spec fn change_refusal(
    s: Seq<AccountV>,
    key: Option<Seq<u8>>,
    account: Seq<char>,
    current: Seq<char>,
    new_pw: Seq<char>,
    confirm: Seq<char>,
) -> Option<Seq<char>> {
    if current.len() == 0 {
        Some("Current password cannot be empty."@)
    } else if new_pw.len() == 0 {
        Some("New password cannot be empty."@)
    } else if new_pw != confirm {
        Some("New passwords do not match."@)
    } else {
        match find_account(s, account, 0) {
            None => Some("Failed to verify password: "@ + ("Account not found: "@ + account)),
            Some(i) => match decrypt_spec(s[i].encrypted_password, key) {
                Err(e) => Some("Failed to verify password: "@ + crypto_message(e)),
                Ok(p) => if p != current {
                    Some("Current password is incorrect."@)
                } else {
                    None
                },
            },
        }
    }
}

/// Whether `after` is `before` with `account` saved anew under a password
/// that reads back as `password` with `key`.
pub open spec fn saved_with(
    before: Seq<AccountV>,
    key: Option<Seq<u8>>,
    account: Seq<char>,
    password: Seq<char>,
    after: Seq<AccountV>,
) -> bool {
    exists|enc: Seq<char>|
        decrypt_spec(enc, key) == Ok::<Seq<char>, CryptoError>(password) && #[trigger] with_account(before, account, enc)
            == after
}

pub open spec fn neither_message() -> Seq<char> {
    "Neither password works with the server. Check your credentials."@
}

/// The answer to report once the new password was tried (and, when it was
/// refused, the old one): the new one wins; with both refused the answer
/// is an error that says so.
pub fn probe_answer(new_accepted: bool, old_accepted: bool) -> (r: Result<ProbeAnswer, String>)
    ensures
        new_accepted ==> r == Ok::<ProbeAnswer, String>(ProbeAnswer::NewPassword),
        !new_accepted && old_accepted ==> r == Ok::<ProbeAnswer, String>(ProbeAnswer::OldPassword),
        !new_accepted && !old_accepted ==> (r matches Err(m) && m@ == neither_message()),
{
    if new_accepted {
        Ok(ProbeAnswer::NewPassword)
    } else if old_accepted {
        Ok(ProbeAnswer::OldPassword)
    } else {
        Err("Neither password works with the server. Check your credentials.".to_owned())
    }
}

fn key_ref(k: &Option<[u8; 32]>) -> (r: Option<&[u8; 32]>)
    ensures
        crate::credentials::key_view(r) == opt_key(*k),
{
    match k {
        Some(a) => Some(a),
        None => None,
    }
}

fn is_empty_text(s: &str) -> (r: bool)
    ensures
        r == (s@.len() == 0),
{
    text::chars_of(s).len() == 0
}

/// Once the change to `password` is saved, the account's password reads
/// back as `password`, so a later change that gives it as the current one
/// (with a new one typed twice) passes every check before the server.
pub proof fn lemma_changed_password_reads_back(
    before: Seq<AccountV>,
    key: Option<Seq<u8>>,
    account: Seq<char>,
    password: Seq<char>,
    after: Seq<AccountV>,
    next: Seq<char>,
)
    requires
        saved_with(before, key, account, password, after),
        password.len() > 0,
        next.len() > 0,
    ensures
        find_account(after, account, 0) matches Some(i) && decrypt_spec(after[i].encrypted_password, key)
            == Ok::<Seq<char>, CryptoError>(password),
        change_refusal(after, key, account, password, next, next) is None,
{
    let enc = choose|enc: Seq<char>|
        decrypt_spec(enc, key) == Ok::<Seq<char>, CryptoError>(password) && #[trigger] with_account(before, account, enc)
            == after;
    crate::credentials::lemma_saved_account_found(before, account, account, enc);
}

impl LoginApp {
    /// Opens the change dialog for `account`, with empty fields.
    pub fn open_change_password(&mut self, account: String)
        ensures
            final(self).change_pw_account == Some(account),
            final(self).change_pw_current@.len() == 0,
            final(self).change_pw_new@.len() == 0,
            final(self).change_pw_confirm@.len() == 0,
            final(self).change_pw_status@.len() == 0,
            final(self).change_pw_verifying == old(self).change_pw_verifying,
            final(self).store@ == old(self).store@,
            final(self).key == old(self).key,
    {
        self.change_pw_account = Some(account);
        self.change_pw_current = String::new();
        self.change_pw_new = String::new();
        self.change_pw_confirm = String::new();
        self.change_pw_status = String::new();
    }

    /// Closes the change dialog and forgets what was typed in it.
    pub fn close_change_password(&mut self)
        ensures
            final(self).change_pw_account is None,
            final(self).accounts_status == old(self).accounts_status,
            final(self).change_pw_current@.len() == 0,
            final(self).change_pw_new@.len() == 0,
            final(self).change_pw_confirm@.len() == 0,
            final(self).change_pw_status@.len() == 0,
            final(self).change_pw_verifying == old(self).change_pw_verifying,
            final(self).store@ == old(self).store@,
            final(self).key == old(self).key,
    {
        self.change_pw_account = None;
        self.change_pw_current = String::new();
        self.change_pw_new = String::new();
        self.change_pw_confirm = String::new();
        self.change_pw_status = String::new();
    }

    /// The dialog's "Change Password" button. With no dialog open, or while
    /// the server is being asked, nothing happens. Otherwise the fields are
    /// checked (see `change_refusal`): a refusal is shown in the dialog;
    /// when they pass, the dialog waits for the server and the passwords
    /// to try are returned.
    pub fn submit_change_password(&mut self) -> (r: Option<PasswordProbe>)
        ensures
            final(self).store@ == old(self).store@,
            final(self).key == old(self).key,
            final(self).change_pw_account == old(self).change_pw_account,
            final(self).change_pw_current == old(self).change_pw_current,
            final(self).change_pw_new == old(self).change_pw_new,
            final(self).change_pw_confirm == old(self).change_pw_confirm,
            (old(self).change_pw_account is None || old(self).change_pw_verifying) ==> r is None
                && final(self).change_pw_status == old(self).change_pw_status
                && final(self).change_pw_verifying == old(self).change_pw_verifying,
            match old(self).change_pw_account {
                Some(a) => !old(self).change_pw_verifying ==> match change_refusal(
                    old(self).store@,
                    opt_key(old(self).key),
                    a@,
                    old(self).change_pw_current@,
                    old(self).change_pw_new@,
                    old(self).change_pw_confirm@,
                ) {
                    Some(m) => r is None && final(self).change_pw_status@ == m && !final(self).change_pw_verifying,
                    None => {
                        &&& final(self).change_pw_verifying
                        &&& final(self).change_pw_status@ == "Verifying new password with server..."@
                        &&& r matches Some(p)
                        &&& p.account@ == a@
                        &&& p.new_password@ == old(self).change_pw_new@
                        &&& p.old_password@ == old(self).change_pw_current@
                    },
                },
                None => true,
            },
    {
        proof {
            reveal_strlit("");
        }
        if self.change_pw_verifying {
            return None;
        }
        let account = match &self.change_pw_account {
            Some(a) => text::join3(a.as_str(), "", ""),
            None => {
                return None;
            },
        };
        if is_empty_text(self.change_pw_current.as_str()) {
            self.change_pw_status = "Current password cannot be empty.".to_owned();
            return None;
        }
        if is_empty_text(self.change_pw_new.as_str()) {
            self.change_pw_status = "New password cannot be empty.".to_owned();
            return None;
        }
        if !text::str_eq(self.change_pw_new.as_str(), self.change_pw_confirm.as_str()) {
            self.change_pw_status = "New passwords do not match.".to_owned();
            return None;
        }
        let k = key_ref(&self.key);
        match self.store.get_password(account.as_str(), k) {
            Err(e) => {
                let m = e.message();
                self.change_pw_status = text::join3("Failed to verify password: ", m.as_str(), "");
                None
            },
            Ok(stored) => {
                if !text::str_eq(stored.as_str(), self.change_pw_current.as_str()) {
                    self.change_pw_status = "Current password is incorrect.".to_owned();
                    None
                } else {
                    self.change_pw_verifying = true;
                    self.change_pw_status = "Verifying new password with server...".to_owned();
                    Some(
                        PasswordProbe {
                            account,
                            new_password: text::join3(self.change_pw_new.as_str(), "", ""),
                            old_password: text::join3(self.change_pw_current.as_str(), "", ""),
                        },
                    )
                }
            },
        }
    }

    /// Takes in the server's answer. The dialog stops waiting. When the new
    /// password works it is saved for the account (encrypted with the key
    /// in use), the dialog closes and the tab says so; the store is then
    /// to be written out. When the new one was refused, or the server could
    /// not be asked, the dialog says so.
    pub fn finish_change_password(&mut self, answer: Result<ProbeAnswer, String>)
        ensures
            !final(self).change_pw_verifying,
            final(self).key == old(self).key,
            answer == Ok::<ProbeAnswer, String>(ProbeAnswer::OldPassword) ==> {
                &&& final(self).store@ == old(self).store@
                &&& final(self).change_pw_status@ == "New password doesn't work. Old password is still active on the server."@
                &&& final(self).change_pw_account == old(self).change_pw_account
            },
            answer is Err ==> {
                &&& final(self).store@ == old(self).store@
                &&& Err::<ProbeAnswer, String>(final(self).change_pw_status) == answer
                &&& final(self).change_pw_account == old(self).change_pw_account
            },
            answer == Ok::<ProbeAnswer, String>(ProbeAnswer::NewPassword) && old(self).change_pw_account is None ==> {
                &&& final(self).store@ == old(self).store@
                &&& final(self).change_pw_status == old(self).change_pw_status
                &&& final(self).accounts_status == old(self).accounts_status
            },
            answer == Ok::<ProbeAnswer, String>(ProbeAnswer::NewPassword) && old(self).change_pw_account is Some ==> {
                let a = old(self).change_pw_account->0;
                &&& old(self).change_pw_new@.len() <= 0x1_0000_0000 ==> final(self).change_pw_account is None
                &&& final(self).change_pw_account is None ==> {
                    &&& saved_with(old(self).store@, opt_key(old(self).key), a@, old(self).change_pw_new@, final(self).store@)
                    &&& final(self).accounts_status@ == "Password changed successfully for '"@ + a@ + "'."@
                    &&& final(self).change_pw_new@.len() == 0
                    &&& final(self).change_pw_current@.len() == 0
                    &&& final(self).change_pw_confirm@.len() == 0
                    &&& final(self).change_pw_status@.len() == 0
                }
                &&& final(self).change_pw_account is Some ==> {
                    &&& final(self).change_pw_account == old(self).change_pw_account
                    &&& final(self).store@ == old(self).store@
                    &&& old(self).key is Some
                    &&& exists|e: CryptoError| final(self).change_pw_status@ == "Failed to save: "@ + #[trigger] crypto_message(e)
                }
            },
    {
        self.change_pw_verifying = false;
        match answer {
            Ok(ProbeAnswer::OldPassword) => {
                self.change_pw_status =
                    "New password doesn't work. Old password is still active on the server.".to_owned();
            },
            Err(m) => {
                self.change_pw_status = m;
            },
            Ok(ProbeAnswer::NewPassword) => {
                let account = match &self.change_pw_account {
                    Some(a) => text::join3(a.as_str(), "", ""),
                    None => {
                        return;
                    },
                };
                proof {
                    reveal_strlit("");
                }
                let k = key_ref(&self.key);
                match self.store.add_account(account.as_str(), self.change_pw_new.as_str(), k) {
                    Ok(()) => {
                        self.accounts_status = text::join3(
                            "Password changed successfully for '",
                            account.as_str(),
                            "'.",
                        );
                        self.close_change_password();
                    },
                    Err(e) => {
                        self.change_pw_status = text::join3("Failed to save: ", e.message(), "");
                    },
                }
            },
        }
    }

    /// Removes a saved account (all its characters with it) and says so on
    /// the tab; the store is then to be written out.
    pub fn remove_saved_account(&mut self, account: &str)
        ensures
            final(self).store@ == other_accounts(old(self).store@, account@),
            final(self).accounts_status@ == "Removed account '"@ + account@ + "'."@,
            final(self).key == old(self).key,
    {
        self.store.remove_account(account);
        self.accounts_status = text::join3("Removed account '", account, "'.");
    }
}

} // verus!
