use revenant::dispatch::{
    first_existing, game_subdir, list_reply, parse_args, parse_command, script_candidates, Command,
};
use revenant::game_state::Game;

#[test]
fn parse_args_basic() {
    let args = parse_args("install go2 --force");
    assert_eq!(args, vec!["install go2 --force", "install", "go2", "--force"]);
}

#[test]
fn parse_args_empty() {
    let args = parse_args("");
    assert!(args.is_empty());
}

#[test]
fn parse_args_quoted() {
    let args = parse_args("install \"my script\" --force");
    assert_eq!(args, vec!["install \"my script\" --force", "install", "my script", "--force"]);
}

#[test]
fn parse_args_tabs_and_repeated_spaces() {
    let args = parse_args("a\t\tb   c");
    assert_eq!(args, vec!["a\t\tb   c", "a", "b", "c"]);
}

#[test]
fn command_plain_line_is_forwarded() {
    assert!(matches!(parse_command("look"), Command::Forward));
    assert!(matches!(parse_command("<c>look"), Command::Forward));
}

#[test]
fn command_kill_pause_unpause() {
    assert!(matches!(parse_command(";k"), Command::KillAll));
    assert!(matches!(parse_command(";kill all"), Command::KillAll));
    assert!(matches!(parse_command(";kill go2"), Command::Kill(n) if n == "go2"));
    assert!(matches!(parse_command("<c>;p  bigshot "), Command::Pause(n) if n == "bigshot"));
    assert!(matches!(parse_command(";unpause"), Command::UnpauseAll));
    assert!(matches!(parse_command(";u x"), Command::Unpause(n) if n == "x"));
}

#[test]
fn command_list_exec_and_run() {
    assert!(matches!(parse_command(";l"), Command::List));
    assert!(matches!(parse_command(";e print(1)"), Command::Exec(c) if c == "print(1)"));
    match parse_command(";go2 town \"big gate\"") {
        Command::Run { name, args } => {
            assert_eq!(name, "go2");
            assert_eq!(args, vec!["town \"big gate\"", "town", "big gate"]);
        },
        _ => panic!("expected a script run"),
    }
}

#[test]
fn list_reply_texts() {
    assert_eq!(list_reply(&vec![]), "No scripts running.");
    assert_eq!(list_reply(&vec!["a".to_string(), "b".to_string()]), "Running: a, b");
}

#[test]
fn script_candidates_order() {
    let c = script_candidates("/s", "gs", "go2");
    assert_eq!(c, vec!["/s/gs/go2/init.lua", "/s/gs/go2.lua", "/s/go2/init.lua", "/s/go2.lua"]);
    assert_eq!(game_subdir(Game::DragonRealms), "dr");
    assert_eq!(game_subdir(Game::GemStone), "gs");
}

#[test]
fn first_existing_picks_first_flagged() {
    let c = script_candidates("/s", "gs", "go2");
    assert_eq!(first_existing(&c, &vec![false, true, true, false]), Some("/s/gs/go2.lua".to_string()));
    assert_eq!(first_existing(&c, &vec![false, false, false, false]), None);
}

#[test]
fn resolve_script_path_missing_dir_is_none() {
    let r = revenant::dispatch::resolve_script_path("/nonexistent-revenant-dir", "gs", "nothing");
    assert_eq!(r, None);
}
