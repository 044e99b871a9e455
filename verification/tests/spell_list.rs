use revenant::spell_list::{DurationDef, SpellDef, SpellList, SpellListError};

fn inner<'a>(m: &'a [(String, Vec<(String, String)>)], k: &str) -> Option<&'a Vec<(String, String)>> {
    m.iter().find(|(x, _)| x == k).map(|(_, v)| v)
}

fn pair<'a>(m: &'a [(String, String)], k: &str) -> Option<&'a str> {
    m.iter().find(|(x, _)| x == k).map(|(_, v)| v.as_str())
}

fn dur<'a>(m: &'a [(String, DurationDef)], k: &str) -> Option<&'a DurationDef> {
    m.iter().find(|(x, _)| x == k).map(|(_, v)| v)
}

fn plain(formula: &str) -> DurationDef {
    DurationDef {
        formula: formula.to_string(),
        stackable: false,
        refreshable: true,
        multicastable: false,
        max_duration: String::new(),
        real_time: false,
    }
}

#[test]
fn test_parse_xml_old_format() {
    let xml = r#"<?xml version="1.0" encoding="UTF-8"?>
<effects>
  <effect num="101" name="Spirit Warding I" type="defense" circle="1"
          availability="all" stackable="false" refreshable="true"
          persist_on_death="false">
    <msgup>The dim aura fades from around you.</msgup>
    <msgdn>The bright aura fades from around you.</msgdn>
  </effect>
  <effect num="901" name="Wizard Shield" type="defense" circle="9"
          availability="self-cast" stackable="false" refreshable="true"
          persist_on_death="false">
  </effect>
</effects>"#;

    let sl = SpellList::parse(xml).unwrap();
    assert_eq!(sl.len(), 2);

    let s101 = sl.get_by_num(101).unwrap();
    assert_eq!(s101.name, "Spirit Warding I");
    assert_eq!(s101.spell_type, "defense");
    assert!(s101.msgup.is_some());

    let s901 = sl.get_by_name("Wizard Shield").unwrap();
    assert_eq!(s901.num, 901);
}

#[test]
fn test_parse_xml_old_format_costs_and_durations() {
    let xml = r#"<?xml version="1.0" encoding="UTF-8"?>
<effects>
  <effect num="101" name="Spirit Warding I" type="defense" circle="1"
          availability="all" stackable="false" refreshable="true"
          persist_on_death="false">
    <mana_cost>1</mana_cost>
    <duration_self>1200</duration_self>
    <duration_target>600</duration_target>
    <msgup>You feel warded.</msgup>
    <msgdn>The ward fades.</msgdn>
  </effect>
</effects>"#;

    let sl = SpellList::parse(xml).unwrap();
    let s = sl.get_by_num(101).unwrap();
    assert_eq!(s.mana_cost(), Some("1"));
    assert_eq!(s.spirit_cost(), None);
    assert_eq!(s.duration_self(), Some("1200"));
    assert_eq!(s.duration_target(), Some("600"));
}

#[test]
fn test_parse_xml_lich5_format() {
    let xml = r#"<?xml version="1.0" encoding="UTF-8"?>
<list>
  <spell availability='all' name='Spirit Warding I' number='101' type='defense'>
    <duration cast-type='self' span='stackable' multicastable='yes'>1200</duration>
    <duration cast-type='target' span='stackable' multicastable='yes'>600</duration>
    <cost type='mana'>1</cost>
    <cost type='mana' cast-type='target'>2</cost>
    <bonus type='bolt-ds'>10</bonus>
    <bonus type='spiritual-td'>5</bonus>
    <message type='start'>You feel warded.</message>
    <message type='end'>The ward fades.</message>
    <cast-proc>some_proc</cast-proc>
  </spell>
  <spell availability='self-cast' name='Wizard Shield' number='901' type='defense'>
    <duration span='refreshable' persist-on-death='yes' real-time='yes' max='3600'>900</duration>
    <cost type='mana'>9</cost>
  </spell>
</list>"#;

    let sl = SpellList::parse(xml).unwrap();
    assert_eq!(sl.len(), 2);

    let s101 = sl.get_by_num(101).unwrap();
    assert_eq!(s101.name, "Spirit Warding I");
    assert_eq!(s101.spell_type, "defense");
    assert_eq!(s101.availability, "all");

    // Costs
    assert_eq!(s101.mana_cost(), Some("1"));
    assert_eq!(pair(inner(&s101.cost, "mana").unwrap(), "target"), Some("2"));

    // Durations
    assert_eq!(s101.duration_self(), Some("1200"));
    assert_eq!(s101.duration_target(), Some("600"));
    let dur_self = dur(&s101.duration, "self").unwrap();
    assert!(dur_self.stackable);
    assert!(dur_self.multicastable);

    // Top-level flags from first duration
    assert!(s101.stackable);
    assert!(s101.multicastable);

    // Bonuses
    assert_eq!(pair(&s101.bonus, "bolt-ds"), Some("10"));
    assert_eq!(pair(&s101.bonus, "spiritual-td"), Some("5"));

    // Messages
    assert_eq!(s101.msgup.as_deref(), Some("You feel warded."));
    assert_eq!(s101.msgdn.as_deref(), Some("The ward fades."));

    // Cast proc
    assert_eq!(s101.cast_proc.as_deref(), Some("some_proc"));

    // Spell 901 — duration with no cast-type defaults to "self"
    let s901 = sl.get_by_num(901).unwrap();
    assert_eq!(s901.name, "Wizard Shield");
    assert_eq!(s901.mana_cost(), Some("9"));
    assert_eq!(s901.duration_self(), Some("900"));
    let d = dur(&s901.duration, "self").unwrap();
    assert!(!d.stackable);
    assert!(d.refreshable);
    assert!(d.real_time);
    assert_eq!(d.max_duration.parse::<f64>().unwrap(), 3600.0);
    // Top-level flags
    assert!(s901.persist_on_death);
    assert!(s901.real_time);
    assert_eq!(s901.max_duration.parse::<f64>().unwrap(), 3600.0);
}

#[test]
fn test_convenience_methods() {
    let mut spell = SpellDef::new();
    spell.cost.push(("mana".to_string(), vec![("self".to_string(), "5".to_string())]));
    spell.cost.push(("spirit".to_string(), vec![("self".to_string(), "2".to_string())]));
    spell.duration.push(("self".to_string(), plain("1200")));
    spell.duration.push(("target".to_string(), plain("600")));

    assert_eq!(spell.mana_cost(), Some("5"));
    assert_eq!(spell.spirit_cost(), Some("2"));
    assert_eq!(spell.stamina_cost(), None);
    assert_eq!(spell.duration_self(), Some("1200"));
    assert_eq!(spell.duration_target(), Some("600"));
}

#[test]
fn later_spell_wins_lookup_by_number_and_name() {
    let xml = "<list><spell number='5' name='Alpha'/><spell number='5' name='BETA'/>\
               <spell number='7' name='beta'/></list>";
    let sl = SpellList::parse(xml).unwrap();
    assert_eq!(sl.len(), 3);
    assert!(!sl.is_empty());
    assert_eq!(sl.get_by_num(5).unwrap().name, "BETA");
    assert_eq!(sl.get_by_name("Beta").unwrap().num, 7);
    assert_eq!(sl.get_by_name("ALPHA").unwrap().num, 5);
    assert!(sl.get_by_num(6).is_none());
    assert!(sl.get_by_name("gamma").is_none());
    let names: Vec<&str> = sl.all().iter().map(|s| s.name.as_str()).collect();
    assert_eq!(names, vec!["Alpha", "BETA", "beta"]);
}

#[test]
fn empty_document_has_no_spells() {
    let sl = SpellList::parse("").unwrap();
    assert!(sl.is_empty());
    assert_eq!(sl.len(), 0);
}

#[test]
fn bad_attribute_escape_is_an_error() {
    let r = SpellList::parse("<list><spell number='1' name='a&bogus;b'/></list>");
    assert_eq!(r.err(), Some(SpellListError::BadAttribute));
}

#[test]
fn old_duration_keeps_first_and_spell_flags() {
    let xml = "<effects><effect num='3' stackable='yes' refreshable='true'>\
               <duration>10</duration><duration_self>20</duration_self>\
               <stamina_cost>4</stamina_cost></effect></effects>";
    let sl = SpellList::parse(xml).unwrap();
    let s = sl.get_by_num(3).unwrap();
    assert_eq!(s.duration_self(), Some("10"));
    let d = dur(&s.duration, "self").unwrap();
    assert!(d.stackable && d.refreshable && !d.multicastable);
    assert_eq!(s.stamina_cost(), Some("4"));
    assert_eq!(s.duration_target(), None);
}

#[test]
fn text_outside_spells_and_unknown_children_ignored() {
    let xml = "<list>stray<spell number='2'><note>hi</note><msgup>up</msgup></spell>after</list>";
    let sl = SpellList::parse(xml).unwrap();
    let s = sl.get_by_num(2).unwrap();
    assert_eq!(s.msgup.as_deref(), Some("up"));
    assert_eq!(s.msgdn, None);
    assert_eq!(s.name, "");
}
