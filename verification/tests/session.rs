use revenant::game_obj::{GameObjRegistry, ObjCategory};
use revenant::session::{
    apply_registry_event, autostart_path, data_file_path, data_game_dir, handshake_lines, push_game_log,
    take_line, terminate_line, CLIENT_STRING,
};
use revenant::xml_parser::{ObjHand, XmlEvent};

#[test]
fn handshake_order() {
    let h = handshake_lines();
    assert_eq!(h[0], format!("{}\n", CLIENT_STRING));
    assert_eq!(h[1], "<c>\n");
    assert_eq!(h[3], "<c>_injury 2\n");
    assert_eq!(h.len(), 6);
}

#[test]
fn data_paths() {
    assert_eq!(data_game_dir("DRF"), "dr");
    assert_eq!(data_game_dir("GS4"), "gs");
    assert_eq!(data_file_path("./scripts", "GS3", "effect-list.xml"), "./scripts/data/gs/effect-list.xml");
    assert_eq!(autostart_path("s"), "s/autostart.lua");
}

#[test]
fn registry_follows_events() {
    let mut go = GameObjRegistry::new();
    apply_registry_event(&mut go, &XmlEvent::GameObjCreate {
        id: "1".to_string(),
        noun: "kobold".to_string(),
        name: "kobold".to_string(),
        category: ObjCategory::Npc,
        status: None,
    });
    apply_registry_event(&mut go, &XmlEvent::GameObjHandUpdate {
        hand: ObjHand::Left,
        id: "2".to_string(),
        noun: "shield".to_string(),
        name: "shield".to_string(),
    });
    assert!(go.find("kobold").is_some());
    apply_registry_event(&mut go, &XmlEvent::ComponentClear { component_id: "room objs".to_string() });
    assert!(go.find("kobold").is_none());
    assert!(go.left_hand.is_some());
    apply_registry_event(&mut go, &XmlEvent::GameObjHandClear { hand: ObjHand::Left });
    assert!(go.left_hand.is_none());
}

#[test]
fn lines_are_cut_at_newlines() {
    let mut buf = "look\nsay hi\npart".to_string();
    assert_eq!(take_line(&mut buf), Some("look\n".to_string()));
    assert_eq!(take_line(&mut buf), Some("say hi\n".to_string()));
    assert_eq!(take_line(&mut buf), None);
    assert_eq!(buf, "part");
    assert_eq!(terminate_line("look"), "look\n");
    assert_eq!(terminate_line("look\n"), "look\n");
}

#[test]
fn game_log_is_capped() {
    let mut log: Vec<String> = Vec::new();
    for i in 0..2005 {
        push_game_log(&mut log, format!("{i}"));
    }
    assert_eq!(log.len(), 2000);
    assert_eq!(log[0], "5");
    assert_eq!(log[1999], "2004");
}
