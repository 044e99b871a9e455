use revenant::game_obj::{GameObj, GameObjRegistry};

#[test]
fn full_name_joins_parts() {
    let o = GameObj::new("1", "sword", "sword", Some("a steel"), Some("with a hilt"));
    assert_eq!(o.full_name(), "a steel sword with a hilt");
}

#[test]
fn registry_find_by_id_noun_and_name() {
    let mut r = GameObjRegistry::new();
    r.new_npc("10", "kobold", "big kobold", Some("dead"));
    r.new_loot("11", "chest", "wooden chest");
    assert_eq!(r.find("10").unwrap().noun, "kobold");
    assert_eq!(r.find("chest").unwrap().id, "11");
    assert_eq!(r.find("wooden").unwrap().id, "11");
    assert!(r.find("dragon").is_none());
    assert_eq!(r.status("10"), "dead");
    assert_eq!(r.status("11"), "gone");
    assert_eq!(r.dead_npcs().len(), 1);
}

#[test]
fn registry_room_transition_keeps_inventory() {
    let mut r = GameObjRegistry::new();
    r.new_npc("10", "kobold", "kobold", None);
    r.new_inv("20", "pack", "pack", None, None, None);
    r.new_right_hand("30", "sword", "sword");
    r.clear_for_room_transition();
    assert!(r.find("10").is_none());
    assert_eq!(r.find("20").unwrap().noun, "pack");
    assert_eq!(r.find("30").unwrap().noun, "sword");
}

#[test]
fn registry_status_only_for_known_ids() {
    let mut r = GameObjRegistry::new();
    r.set_status("99", "dead");
    assert_eq!(r.status("99"), "gone");
    r.new_pc("5", "Gandalf", "Gandalf", None);
    r.set_status("5", "sitting");
    assert_eq!(r.status("5"), "sitting");
}

#[test]
fn new_npc_registers_the_object_for_its_key() {
    let mut reg = GameObjRegistry::new();
    reg.new_npc("1", "Hammer of Kai", "the Hammer of Kai", None);
    assert_eq!(reg.npcs.len(), 1);
    assert_eq!(reg.npcs[0].id, "1");
    assert_eq!(reg.npcs[0].name, "the Hammer of Kai");
    assert_eq!(reg.npcs[0].noun, "hammer");
    reg.new_npc("1", "Hammer of Kai", "the Hammer of Kai", Some("dead"));
    assert_eq!(reg.npcs.len(), 1);
}
