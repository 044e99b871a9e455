use revenant::sandbox::{sandbox_join, SandboxError};
use revenant::config::Config;
use revenant::eaccess::Session;
use revenant::launch::{
    decimal_text, launch_dir, listen_port, plan_launch, reg_query_command, reg_query_dir, registry_subkey,
    sal_content, LaunchPlan, Platform,
};

fn session() -> Session {
    Session {
        host: "storm.gs4.game.play.net".to_string(),
        port: 10024,
        key: "abc123".to_string(),
        game: "GS3".to_string(),
        character: "Ondreian".to_string(),
        raw_fields: vec![
            ("GAMECODE".to_string(), "GS3".to_string()),
            ("GameHost".to_string(), "storm.gs4.game.play.net".to_string()),
            ("GAMEPORT".to_string(), "10024".to_string()),
            ("KEY".to_string(), "abc123".to_string()),
        ],
    }
}

const LINUX: Platform = Platform { windows: false, macos: false, wsl2: false };

#[test]
fn listen_port_from_address() {
    assert_eq!(listen_port("127.0.0.1:4901"), 4901);
    assert_eq!(listen_port("4902"), 4902);
    assert_eq!(listen_port("localhost:notaport"), 4900);
    assert_eq!(listen_port("host:70000"), 4900);
    assert_eq!(String::from_iter(decimal_text(0)), "0");
    assert_eq!(String::from_iter(decimal_text(4900)), "4900");
}

#[test]
fn sal_points_frontend_at_proxy() {
    let s = session();
    assert_eq!(
        sal_content(&s.raw_fields, 4901),
        "GAMECODE=GS3\nGameHost=127.0.0.1\nGAMEPORT=4901\nKEY=abc123"
    );
    let mut c = Config::default();
    c.frontend = "avalon".to_string();
    let mac = Platform { windows: false, macos: true, wsl2: false };
    match plan_launch(&c, &s, None, mac) {
        LaunchPlan::Avalon { port, sal } => {
            assert_eq!(port, 4900);
            assert!(sal.contains("GAMEPORT=4900"));
        }
        other => panic!("unexpected {other:?}"),
    }
}

#[test]
fn registry_output_and_dirs() {
    let out = "\r\nHKEY_LOCAL_MACHINE\\SOFTWARE\\WOW6432Node\\Simutronics\\STORM32\r\n    Directory    REG_SZ    C:\\Games\\Wrayth\r\n\r\n";
    assert_eq!(reg_query_dir(out), Some("C:\\Games\\Wrayth".to_string()));
    assert_eq!(reg_query_dir("nothing here\n"), None);
    assert_eq!(reg_query_dir("a REG_SZ   \nb REG_SZ x REG_SZ y\n"), None);
    assert_eq!(launch_dir("C:\\Games\\Wrayth", true), "/mnt/c/Games/Wrayth");
    assert_eq!(launch_dir("C:\\Games\\Wrayth", false), "C:/Games/Wrayth");
    assert_eq!(registry_subkey("wizard"), "WIZ32");
    assert_eq!(registry_subkey("stormfront"), "STORM32");
    let (prog, args) = reg_query_command("WIZ32", false);
    assert_eq!(prog, "wine");
    assert_eq!(
        args,
        vec!["reg", "query", "HKLM\\SOFTWARE\\WOW6432Node\\Simutronics\\WIZ32", "/v", "Directory"]
    );
    let (prog, args) = reg_query_command("STORM32", true);
    assert_eq!(prog, "/mnt/c/Windows/System32/reg.exe");
    assert_eq!(args.len(), 4);
}

#[test]
fn standard_and_custom_launches() {
    let s = session();
    let mut c = Config::default();
    c.frontend = "wizard".to_string();
    c.game = "DR".to_string();
    assert_eq!(
        plan_launch(&c, &s, Some("D:\\Sim\\Wizard".to_string()), LINUX),
        LaunchPlan::Frontend {
            exe: "Wizard.Exe".to_string(),
            dir: "D:/Sim/Wizard".to_string(),
            args: vec!["/GDR/H127.0.0.1".to_string(), "/P4900".to_string(), "/Kabc123".to_string()],
            wine: true,
        }
    );
    c.frontend = "stormfront".to_string();
    c.game = "GS3".to_string();
    c.custom_launch_dir = Some("/opt/wrayth".to_string());
    let win = Platform { windows: true, macos: false, wsl2: false };
    assert_eq!(
        plan_launch(&c, &s, None, win),
        LaunchPlan::Frontend {
            exe: "Wrayth.exe".to_string(),
            dir: "/opt/wrayth".to_string(),
            args: vec!["/GGS/Hlocalhost/P4900/Kabc123".to_string()],
            wine: false,
        }
    );
    c.custom_launch = Some("wine  Wrayth.exe /GGS /P%port%  /K%key%".to_string());
    c.custom_launch_dir = None;
    assert_eq!(
        plan_launch(&c, &s, None, LINUX),
        LaunchPlan::Custom {
            program: "wine".to_string(),
            args: vec!["Wrayth.exe".to_string(), "/GGS".to_string(), "/P4900".to_string(), "/Kabc123".to_string()],
            dir: ".".to_string(),
        }
    );
}

#[test]
fn sandbox_paths() {
    assert_eq!(sandbox_join("scripts", "data/x.txt"), Ok("scripts/data/x.txt".to_string()));
    assert_eq!(sandbox_join("scripts/", "x"), Ok("scripts/x".to_string()));
    assert_eq!(sandbox_join("", "x"), Ok("x".to_string()));
    assert_eq!(sandbox_join("scripts", "/etc/passwd"), Err(SandboxError::Absolute));
    assert_eq!(sandbox_join("scripts", "a/../../b"), Err(SandboxError::Escapes));
    assert_eq!(sandbox_join("../scripts", "a"), Err(SandboxError::Escapes));
    assert_eq!(sandbox_join("scripts", "a..b/c"), Ok("scripts/a..b/c".to_string()));
    assert_eq!(SandboxError::Escapes.message(), "path escapes scripts directory");
}
