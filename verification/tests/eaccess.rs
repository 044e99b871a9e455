use revenant::eaccess::{
    find_character_id, hash_password, parse_character_list, parse_session, EAccessError, SgeAction,
    SgeLogin, SgePhase, SGE_HOST, SGE_PORT,
};

#[test]
fn eaccess_constants() {
    assert_eq!(SGE_HOST, "eaccess.play.net");
    assert_eq!(SGE_PORT, 7910);
}

#[test]
fn hash_password_formula() {
    // ((b - 32) ^ k) + 32 per byte: 'a' (97) with key 'A' (65): (65 ^ 65) + 32 = 32 (' ').
    assert_eq!(hash_password("a", "A"), " ");
    // Key bytes repeat: "ab" with key "A": 'b' (98): (66 ^ 65) + 32 = 35 ('#').
    assert_eq!(hash_password("ab", "A"), " #");
    // An empty (trimmed) key leaves the password as it is.
    assert_eq!(hash_password("secret", "  \n"), "secret");
}

#[test]
fn hash_password_changes_text() {
    let h = hash_password("password", "KEYKEYKEY");
    assert_ne!(h, "password");
}

#[test]
fn character_list_pairs() {
    let list = parse_character_list("C\t2\t1\t0\t0\tW_ID1\tOndreian\tW_ID2\tGandalf\n").unwrap();
    assert_eq!(list.len(), 2);
    assert_eq!(list[0].id, "W_ID1");
    assert_eq!(list[1].name, "Gandalf");
    let empty = parse_character_list("C\t0\t0\t0\t0").unwrap();
    assert!(empty.is_empty());
}

#[test]
fn character_id_lookup_ignores_case() {
    let resp = "C\t2\t1\t0\t0\tW_ID1\tOndreian\tW_ID2\tGandalf";
    assert_eq!(find_character_id(resp, "gandalf").unwrap(), "W_ID2");
    assert!(matches!(find_character_id(resp, "Frodo"), Err(EAccessError::CharacterNotFound { .. })));
    assert!(matches!(find_character_id("C\t0", "x"), Err(EAccessError::CharListTooShort { .. })));
}

#[test]
fn session_from_login_reply() {
    let resp = "L\tOK\tUPPORT=5535\tGAME=STORM\tGAMECODE=GS3\tGAMEHOST=storm.gs4.game.play.net\tGAMEPORT=10024\tKEY=abc123\n";
    let s = parse_session(resp, "GS3", "Ondreian").unwrap();
    assert_eq!(s.host, "storm.gs4.game.play.net");
    assert_eq!(s.port, 10024);
    assert_eq!(s.key, "abc123");
    assert_eq!(s.game, "GS3");
    assert_eq!(s.character, "Ondreian");
    assert_eq!(s.raw_fields.len(), 6);
    assert_eq!(s.raw_fields[0], ("UPPORT".to_string(), "5535".to_string()));
}

#[test]
fn session_errors() {
    assert!(matches!(parse_session("L\tPROBLEM", "GS3", "x"), Err(EAccessError::BadSessionFormat(_))));
    assert!(matches!(parse_session("L\tOK\tGAMEPORT=abc", "GS3", "x"), Err(EAccessError::InvalidPort)));
    assert!(matches!(
        parse_session("L\tOK\tGAMEHOST=h\tGAMEPORT=1", "GS3", "x"),
        Err(EAccessError::IncompleteSession { key_present: false, port: 1, .. })
    ));
}

#[test]
fn login_conversation() {
    let (mut l, first) = SgeLogin::new("acct", "pw", "GS3", "Gandalf", false);
    assert_eq!(first, "K\n");
    match l.on_reply("A") {
        SgeAction::Send(s) => assert_eq!(s, format!("A\tacct\t{}\n", hash_password("pw", "A"))),
        _ => panic!("expected a request"),
    }
    assert!(matches!(l.on_reply("A\tacct\tKEY\tx"), SgeAction::Send(s) if s == "M\n"));
    assert!(matches!(l.on_reply("M\tGS3\tGemStone IV"), SgeAction::Send(s) if s == "F\tGS3\n"));
    assert!(matches!(l.on_reply("F\tNORMAL"), SgeAction::Send(s) if s == "G\tGS3\n"));
    assert!(matches!(l.on_reply("G\tx"), SgeAction::Send(s) if s == "P\tGS3\n"));
    assert!(matches!(l.on_reply("P\tx"), SgeAction::Send(s) if s == "C\n"));
    assert!(matches!(l.on_reply("C\t1\t1\t0\t0\tW_ID2\tGandalf"), SgeAction::Send(s) if s == "L\tW_ID2\tSTORM\n"));
    match l.on_reply("L\tOK\tGAMEHOST=h\tGAMEPORT=99\tKEY=k") {
        SgeAction::LoggedIn(s) => {
            assert_eq!(s.host, "h");
            assert_eq!(s.port, 99);
        },
        _ => panic!("expected a session"),
    }
    assert_eq!(l.phase, SgePhase::Finished);
}

#[test]
fn login_rejected_password() {
    let (mut l, _) = SgeLogin::new("acct", "pw", "GS3", "Gandalf", false);
    let _ = l.on_reply("KEY");
    match l.on_reply("A\t\tPASSWORD") {
        SgeAction::Fail(EAccessError::AuthFailed { code, .. }) => assert_eq!(code, "PASSWORD"),
        _ => panic!("expected a failure"),
    }
}

#[test]
fn listing_characters_only() {
    let (mut l, _) = SgeLogin::new("acct", "pw", "DR", "", true);
    let _ = l.on_reply("KEY");
    let _ = l.on_reply("A\tKEY\t1");
    let _ = l.on_reply("whatever");
    let _ = l.on_reply("whatever");
    let _ = l.on_reply("G");
    let _ = l.on_reply("P");
    match l.on_reply("C\t1\t1\t0\t0\tD1\tBob") {
        SgeAction::Characters(v) => {
            assert_eq!(v.len(), 1);
            assert_eq!(v[0].name, "Bob");
        },
        _ => panic!("expected the list"),
    }
}

#[test]
fn hash_password_ascii_result() {
    assert_eq!(hash_password("AB", "!"), " #");
}
