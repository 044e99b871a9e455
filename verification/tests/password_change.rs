use revenant::credentials::CredentialStore;
use revenant::encryption::EncryptionConfig;
use revenant::login::LoginApp;
use revenant::password_change::{probe_answer, ProbeAnswer};

fn app_with_account() -> LoginApp {
    let mut app = LoginApp::new(EncryptionConfig::default(), CredentialStore::new(), Some([3u8; 32]));
    let key = app.key;
    app.store.add_account("acct", "old-pw", key.as_ref()).unwrap();
    app
}

fn filled(app: &mut LoginApp, current: &str, new_pw: &str, confirm: &str) {
    app.open_change_password("acct".to_string());
    app.change_pw_current = current.to_string();
    app.change_pw_new = new_pw.to_string();
    app.change_pw_confirm = confirm.to_string();
}

#[test]
fn change_password_field_checks_in_order() {
    let mut app = app_with_account();
    filled(&mut app, "", "", "x");
    assert!(app.submit_change_password().is_none());
    assert_eq!(app.change_pw_status, "Current password cannot be empty.");

    filled(&mut app, "old-pw", "", "x");
    assert!(app.submit_change_password().is_none());
    assert_eq!(app.change_pw_status, "New password cannot be empty.");

    filled(&mut app, "old-pw", "new-pw", "other");
    assert!(app.submit_change_password().is_none());
    assert_eq!(app.change_pw_status, "New passwords do not match.");

    filled(&mut app, "wrong", "new-pw", "new-pw");
    assert!(app.submit_change_password().is_none());
    assert_eq!(app.change_pw_status, "Current password is incorrect.");
    assert!(!app.change_pw_verifying);
}

#[test]
fn change_password_unknown_account_cannot_be_verified() {
    let mut app = app_with_account();
    app.open_change_password("nobody".to_string());
    app.change_pw_current = "a".to_string();
    app.change_pw_new = "b".to_string();
    app.change_pw_confirm = "b".to_string();
    assert!(app.submit_change_password().is_none());
    assert_eq!(app.change_pw_status, "Failed to verify password: Account not found: nobody");
}

#[test]
fn change_password_accepted_by_server_is_saved() {
    let mut app = app_with_account();
    filled(&mut app, "old-pw", "new-pw", "new-pw");
    let probe = app.submit_change_password().unwrap();
    assert_eq!(probe.account, "acct");
    assert_eq!(probe.new_password, "new-pw");
    assert_eq!(probe.old_password, "old-pw");
    assert!(app.change_pw_verifying);
    assert_eq!(app.change_pw_status, "Verifying new password with server...");
    // A second press while waiting does nothing.
    assert!(app.submit_change_password().is_none());

    app.finish_change_password(probe_answer(true, false));
    assert!(!app.change_pw_verifying);
    assert!(app.change_pw_account.is_none());
    assert_eq!(app.accounts_status, "Password changed successfully for 'acct'.");
    assert!(app.change_pw_new.is_empty());
    let key = app.key;
    assert_eq!(app.store.get_password("acct", key.as_ref()).ok().as_deref(), Some("new-pw"));
}

#[test]
fn change_password_refused_by_server_keeps_old() {
    let mut app = app_with_account();
    filled(&mut app, "old-pw", "new-pw", "new-pw");
    app.submit_change_password().unwrap();
    app.finish_change_password(probe_answer(false, true));
    assert!(!app.change_pw_verifying);
    assert_eq!(
        app.change_pw_status,
        "New password doesn't work. Old password is still active on the server."
    );
    assert!(app.change_pw_account.is_some());
    let key = app.key;
    assert_eq!(app.store.get_password("acct", key.as_ref()).ok().as_deref(), Some("old-pw"));

    app.finish_change_password(probe_answer(false, false));
    assert_eq!(
        app.change_pw_status,
        "Neither password works with the server. Check your credentials."
    );
}

#[test]
fn probe_answer_prefers_new_password() {
    assert_eq!(probe_answer(true, true), Ok(ProbeAnswer::NewPassword));
    assert_eq!(probe_answer(false, true), Ok(ProbeAnswer::OldPassword));
    assert!(probe_answer(false, false).is_err());
}

#[test]
fn removing_an_account_says_so() {
    let mut app = app_with_account();
    app.remove_saved_account("ACCT");
    assert!(app.store.accounts.is_empty());
    assert_eq!(app.accounts_status, "Removed account 'ACCT'.");
}

#[test]
fn closing_the_dialog_forgets_the_fields() {
    let mut app = app_with_account();
    filled(&mut app, "old-pw", "new-pw", "new-pw");
    app.close_change_password();
    assert!(app.change_pw_account.is_none());
    assert!(app.change_pw_current.is_empty());
    assert!(app.change_pw_confirm.is_empty());
}
