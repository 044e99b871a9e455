use revenant::game_state::{BodyInjuries, EncumbranceState, Game, GameState, MindState, Stance};
use revenant::xml_parser::XmlEvent;

#[test]
fn game_from_code_and_names() {
    assert_eq!(Game::from_code("DR"), Game::DragonRealms);
    assert_eq!(Game::from_code("DRF"), Game::DragonRealms);
    assert_eq!(Game::from_code("GS3"), Game::GemStone);
    assert_eq!(Game::default(), Game::GemStone);
}

#[test]
fn stance_mind_encumbrance_values() {
    assert_eq!(Stance::Offensive.to_value(), Some(100));
    assert_eq!(Stance::Defensive.to_value(), Some(0));
    assert_eq!(Stance::Unset.to_value(), None);
    assert_eq!(Stance::Guarded.as_str(), Some("guarded"));
    assert_eq!(MindState::BecomingFuzzy.as_str(), "becoming fuzzy");
    assert_eq!(MindState::Stunned.to_value(), 100);
    assert_eq!(EncumbranceState::VeryHeavy.as_str(), "very heavy");
    assert_eq!(EncumbranceState::Overburdened.to_value(), 5);
}

#[test]
fn body_injuries_set_then_get() {
    let mut b = BodyInjuries::new();
    assert!(b.set("leftArm", 2));
    assert_eq!(b.get("left_arm"), Some(2));
    assert_eq!(b.get("larm"), Some(2));
    assert_eq!(b.get("leftArm"), Some(2));
    assert!(!b.set("tail", 3));
    assert_eq!(b.get("tail"), None);
}

#[test]
fn apply_vitals_and_room() {
    let mut gs = GameState::default();
    gs.apply(XmlEvent::Health { value: 80, max: Some(120) });
    assert_eq!(gs.health, 80);
    assert_eq!(gs.max_health, 120);
    gs.apply(XmlEvent::Mana { value: 5, max: None });
    assert_eq!(gs.mana, 5);
    assert_eq!(gs.max_mana, 0);
    gs.apply(XmlEvent::RoomName { name: "Town Square".to_string() });
    assert_eq!(gs.room_name, "Town Square");
    gs.apply(XmlEvent::RoomId { id: 7 });
    gs.apply(XmlEvent::RoomId { id: 8 });
    assert_eq!(gs.room_id, Some(8));
    assert_eq!(gs.room_count, 2);
}

#[test]
fn apply_indicators_and_spells() {
    let mut gs = GameState::default();
    gs.apply(XmlEvent::Indicator { name: "IconHIDDEN".to_string(), visible: true });
    assert!(gs.hidden);
    gs.apply(XmlEvent::Indicator { name: "IconHIDDEN".to_string(), visible: false });
    assert!(!gs.hidden);
    gs.apply(XmlEvent::PreparedSpell { name: "Spirit Warding I".to_string() });
    assert_eq!(gs.prepared_spell.as_deref(), Some("Spirit Warding I"));
    gs.apply(XmlEvent::SpellCleared);
    assert_eq!(gs.prepared_spell, None);
    gs.apply(XmlEvent::ActiveSpell { name: "Haste".to_string(), duration: Some(60) });
    assert_eq!(gs.active_spells.len(), 1);
    assert_eq!(gs.active_spells[0].name, "Haste");
}

#[test]
fn past_roundtime_is_dropped() {
    let mut gs = GameState::default();
    gs.apply(XmlEvent::RoundTime { end_epoch: 1 });
    assert_eq!(gs.roundtime_end, None);
}

#[test]
fn body_injuries_get_reads_every_alias_of_what_set_stored() {
    let mut b = BodyInjuries::new();
    assert!(b.set("leftEye", 2));
    assert_eq!(b.get("leftEye"), Some(2));
    assert_eq!(b.get("left_eye"), Some(2));
    assert_eq!(b.get("leye"), Some(2));
    assert_eq!(b.get("right_eye"), Some(0));
    assert!(b.set("abdomen", 1));
    assert_eq!(b.get("abs"), b.get("abdomen"));
    assert!(b.set("nsys", 3));
    assert_eq!(b.get("nerves"), b.get("nsys"));
    assert_eq!(b.get("nerves"), Some(3));
    assert_eq!(b.get("tail"), None);
}
