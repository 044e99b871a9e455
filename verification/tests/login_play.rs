use revenant::credentials::CredentialStore;
use revenant::eaccess::Session;
use revenant::encryption::{EncryptionConfig, EncryptionMode};
use revenant::login::{Frontend, LoginApp};
use revenant::login_play::{clamp_tab, favorites, saved_message, saved_tab_labels};

fn plain_app() -> LoginApp {
    let cfg = EncryptionConfig { mode: EncryptionMode::Plaintext, test_value: None, salt: None };
    LoginApp::new(cfg, CredentialStore::new(), None)
}

fn keyed_app() -> LoginApp {
    LoginApp::new(EncryptionConfig::default(), CredentialStore::new(), Some([7u8; 32]))
}

fn session() -> Session {
    Session {
        host: "h".to_string(),
        port: 1,
        key: "k".to_string(),
        game: "GS3".to_string(),
        character: "Ondreian".to_string(),
        raw_fields: vec![],
    }
}

#[test]
fn manual_play_saves_and_waits() {
    let mut app = keyed_app();
    let started = app.manual_play(
        "acct",
        "secret",
        "GS3",
        "GemStone IV",
        "Ondreian",
        Frontend::Wizard,
        Some(("wine x".to_string(), "/opt".to_string())),
        true,
    );
    assert!(started);
    assert!(app.authenticating);
    assert_eq!(app.manual_status, "Authenticating...");
    let p = app.pending_play.clone().unwrap();
    assert_eq!(p.password, "secret");
    assert_eq!(p.custom_launch.as_deref(), Some("wine x"));
    assert_eq!(app.store.accounts.len(), 1);
    assert_eq!(app.store.accounts[0].characters[0].frontend, "wizard");
    assert_eq!(app.store.accounts[0].characters[0].custom_launch_dir.as_deref(), Some("/opt"));
    // The saved password reads back with the key.
    assert_eq!(app.store.get_password("ACCT", app.key.as_ref()).ok().as_deref(), Some("secret"));

    app.finish_play(Ok(session()), "slate");
    assert!(!app.authenticating);
    assert!(app.pending_play.is_none());
    let res = app.result.as_ref().unwrap();
    assert_eq!(res.character, "Ondreian");
    assert_eq!(res.theme, "slate");
    assert!(res.session.is_some());
}

#[test]
fn manual_play_without_saving_and_failed_auth() {
    let mut app = plain_app();
    assert!(app.manual_play("a", "pw", "DR", "DragonRealms", "Zed", Frontend::Wrayth, None, false));
    assert_eq!(app.store.accounts.len(), 0);
    app.finish_play(Err("bad password".to_string()), "slate");
    assert_eq!(app.manual_status, "Auth failed: bad password");
    assert_eq!(app.saved_status, "Auth failed: bad password");
    assert!(app.result.is_none());
    assert!(app.pending_play.is_some());
}

#[test]
fn play_saved_reads_password_or_reports() {
    let mut app = keyed_app();
    let key = app.key;
    app.store.add_account("acct", "pw1", key.as_ref()).unwrap();
    assert!(app.play_saved("ACCT", "Ondreian", "GS3", "avalon", None, None));
    let p = app.pending_play.clone().unwrap();
    assert_eq!(p.password, "pw1");
    assert_eq!(p.frontend, Frontend::Avalon);

    let mut app2 = keyed_app();
    assert!(!app2.play_saved("nobody", "X", "GS3", "wizard", None, None));
    assert_eq!(app2.saved_status, "Failed to decrypt password: Account not found: nobody");
    assert!(!app2.authenticating);

    // A password saved under another key does not read back.
    let mut app3 = keyed_app();
    app3.store.add_account("acct", "pw1", Some(&[9u8; 32])).unwrap();
    assert!(!app3.play_saved("acct", "X", "GS3", "wizard", None, None));
    assert_eq!(app3.saved_status, "Failed to decrypt password: decrypt: aead::Error");
}

#[test]
fn saved_tab_lists() {
    let mut store = CredentialStore::new();
    store.add_account("alpha", "p", None).unwrap();
    store.add_account("beta", "p", None).unwrap();
    store.add_character("alpha", "zed", "GS3", "GemStone IV", "stormfront", None, None);
    store.add_character("alpha", "Amy", "GS3", "GemStone IV", "wizard", None, None);
    store.add_character("beta", "bob", "DR", "DragonRealms", "stormfront", None, None);
    store.add_character("beta", "amy", "DR", "DragonRealms", "stormfront", None, None);
    assert_eq!(saved_tab_labels(&store), vec!["\u{2605} FAVORITES", "ALPHA", "BETA"]);
    assert!(favorites(&store).is_empty());
    store.toggle_favorite("alpha", "zed", "GS3");
    store.toggle_favorite("alpha", "Amy", "GS3");
    store.toggle_favorite("beta", "amy", "DR");
    store.toggle_favorite("beta", "bob", "DR");
    let f: Vec<(String, String)> = favorites(&store).into_iter().map(|f| (f.account, f.name)).collect();
    assert_eq!(
        f,
        vec![
            ("alpha".to_string(), "Amy".to_string()),
            ("beta".to_string(), "amy".to_string()),
            ("beta".to_string(), "bob".to_string()),
            ("alpha".to_string(), "zed".to_string()),
        ]
    );
    assert_eq!(clamp_tab(5, 3), 0);
    assert_eq!(clamp_tab(2, 3), 2);
}

#[test]
fn fetched_account_is_saved_with_its_characters() {
    let mut app = keyed_app();
    assert_eq!(app.save_fetched_account("", "pw", &vec![]), Err("Username is required.".to_string()));
    let names = vec!["Ondreian".to_string(), "Zed".to_string()];
    assert_eq!(app.save_fetched_account("Acct", "pw", &names), Ok(2));
    assert_eq!(app.store.accounts.len(), 1);
    let chars = &app.store.accounts[0].characters;
    assert_eq!(chars.len(), 2);
    assert_eq!(chars[1].name, "Zed");
    assert_eq!(chars[0].game_name, "GemStone IV");
    assert_eq!(chars[0].frontend, "stormfront");
    assert_eq!(app.store.get_password("acct", app.key.as_ref()).ok().as_deref(), Some("pw"));
    // Saving again keeps the account and its password.
    assert_eq!(app.save_fetched_account("ACCT", "other", &vec!["Zed".to_string()]), Ok(1));
    assert_eq!(app.store.accounts.len(), 1);
    assert_eq!(app.store.accounts[0].characters.len(), 2);
    assert_eq!(app.store.get_password("acct", app.key.as_ref()).ok().as_deref(), Some("pw"));
    assert_eq!(saved_message(2, "Acct"), "Saved 2 character(s) for 'Acct'.");
}
