use revenant::config::Config;
use revenant::frontend::{Capability, Frontend};
use revenant::login::{self, game_name, launch_cmd_suggestions, launch_dir_suggestions, Os};
use revenant::theme_config::ThemeConfig;
use revenant::type_data::{Table, TypeData};

#[test]
fn frontend_names_and_capabilities() {
    assert_eq!(Frontend::from_name("StormFront"), Frontend::Wrayth);
    assert_eq!(Frontend::from_name("WIZARD"), Frontend::Wizard);
    assert_eq!(Frontend::from_name("telnet"), Frontend::Unknown);
    assert_eq!(Frontend::Genie.as_str(), "genie");
    assert_eq!(Frontend::default(), Frontend::Wrayth);
    assert!(Frontend::Wizard.supports(Capability::Gsl));
    assert!(!Frontend::Wizard.supports(Capability::Xml));
    assert_eq!(Frontend::Profanity.capabilities(), vec![Capability::Xml, Capability::Streams]);
    assert!(Frontend::Unknown.capabilities().is_empty());
    assert_eq!(Frontend::Mudlet.to_string(), "mudlet");
}

#[test]
fn type_data_lookups() {
    let mut td = TypeData::new();
    td.insert(Table::NounType, "Ruby", "gem");
    td.insert(Table::NounType, "emerald", "gem");
    td.insert(Table::NameType, "star ruby", "gem");
    td.insert(Table::NounType, "acantha", "herb,forageable");
    td.insert(Table::NounSellable, "ruby", "gemshop");
    assert_eq!(td.get_type("ruby", "a shimmering ruby"), Some("gem"));
    assert_eq!(td.get_type("EMERALD", "a green emerald"), Some("gem"));
    assert_eq!(td.get_type("acantha", "some acantha leaf"), Some("herb,forageable"));
    assert!(td.is_type("ruby", "", "gem"));
    assert!(td.is_type("acantha", "", "herb"));
    assert!(td.is_type("acantha", "", "forageable"));
    assert!(!td.is_type("ruby", "", "herb"));
    assert_eq!(td.get_sellable("ruby", ""), Some("gemshop"));
    assert_eq!(td.get_sellable("sword", ""), None);
    assert_eq!(td.get_type("xxx", "Star Ruby"), Some("gem"));
}

#[test]
fn theme_file_round_trip() {
    assert_eq!(ThemeConfig::default().theme, "slate");
    let t = ThemeConfig { theme: "ember".to_string() };
    let contents = t.to_file_contents();
    assert_eq!(contents, "theme = \"ember\"\n");
    assert_eq!(ThemeConfig::parse(&contents).theme, "ember");
    assert_eq!(ThemeConfig::parse("# x\ntheme='fantasy'\r\n").theme, "fantasy");
    assert_eq!(ThemeConfig::parse("theme = \"neon\"\n").theme, "slate");
    assert_eq!(ThemeConfig::parse("").theme, "slate");
}

#[test]
fn login_tables() {
    assert_eq!(game_name("GS3"), "GemStone IV");
    assert_eq!(game_name("GSF"), "GemStone IV Prime F2P");
    assert_eq!(game_name("XX"), "Unknown");
    assert_eq!(login::Frontend::Wrayth.as_str(), "stormfront");
    assert_eq!(login::Frontend::from_str("avalon"), login::Frontend::Avalon);
    assert_eq!(login::Frontend::from_str("other"), login::Frontend::Wrayth);
    assert_eq!(login::Frontend::Wizard.display_name(), "Wizard");
    assert_eq!(launch_cmd_suggestions(Os::Other).len(), 2);
    assert_eq!(launch_cmd_suggestions(Os::Linux)[2], "/usr/bin/warlock --host localhost --port %port% --key %key%");
    assert_eq!(launch_dir_suggestions(), vec!["../wizard", "../StormFront"]);
}

#[test]
fn config_defaults() {
    let c = Config::default();
    assert_eq!(c.listen, "127.0.0.1:4900");
    assert_eq!(c.game, "GS3");
    assert_eq!(c.reconnect_delay, 30);
    assert!(c.session.is_none());
}

#[test]
fn test_type_data_parse() {
    let xml = r#"<?xml version="1.0"?>
<data>
  <type name="gem">
    <noun>ruby</noun>
    <noun>emerald</noun>
    <name>star ruby</name>
  </type>
  <type name="herb,forageable">
    <noun>acantha</noun>
  </type>
  <sellable name="gemshop">
    <noun>ruby</noun>
  </sellable>
</data>"#;

    let td = TypeData::parse(xml).unwrap();
    assert_eq!(td.get_type("ruby", "a shimmering ruby"), Some("gem"));
    assert_eq!(td.get_type("emerald", "a green emerald"), Some("gem"));
    assert_eq!(td.get_type("acantha", "some acantha leaf"), Some("herb,forageable"));
    assert!(td.is_type("ruby", "", "gem"));
    assert!(td.is_type("acantha", "", "herb"));
    assert!(td.is_type("acantha", "", "forageable"));
    assert!(!td.is_type("ruby", "", "herb"));
    assert_eq!(td.get_sellable("ruby", ""), Some("gemshop"));
    assert_eq!(td.get_sellable("sword", ""), None);
    assert_eq!(td.get_type("xxx", "star ruby"), Some("gem"));
}
