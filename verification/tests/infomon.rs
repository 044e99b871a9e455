use revenant::infomon::normalize_key;

#[test]
fn test_normalize_key() {
    assert_eq!(normalize_key("Edged Weapons"), "edged_weapons");
    assert_eq!(normalize_key("Two Weapon Combat"), "two_weapon_combat");
    assert_eq!(normalize_key("Stalking and Hiding"), "stalking_and_hiding");
    assert_eq!(normalize_key("Minor Elemental"), "minor_elemental");
}

#[test]
fn normalize_key_hyphens_and_doubles() {
    assert_eq!(normalize_key("  Spirit - Lore "), "spirit__lore");
    assert_eq!(normalize_key("Multi-Opponent Combat"), "multi_opponent_combat");
}

use revenant::infomon::{Infomon, ParserState};

fn test_infomon() -> Infomon {
    Infomon::new("Ondreian", "GS3", vec![])
}

#[test]
fn test_parse_info_output() {
    let mut im = test_infomon();
    im.parse("Name: Ondreian O'Something   Race: Human   Profession: Wizard");
    assert_eq!(im.state, ParserState::InStats);
    im.parse("Gender: male   Age: 247");
    im.parse("  Strength (STR):                    87  (12) ...   92  (16)");
    im.parse("  Constitution (CON):                80  (10) ...   85  (12)");
    im.parse("Mana: 150   Silver: 1234");
    assert_eq!(im.state, ParserState::Ready);
    assert_eq!(im.get("stat.race"), Some("Human"));
    assert_eq!(im.get("stat.profession"), Some("Wizard"));
    assert_eq!(im.get("stat.gender"), Some("male"));
    assert_eq!(im.get("stat.age"), Some("247"));
    assert_eq!(im.get_i64("stat.strength"), 87);
    assert_eq!(im.get_i64("stat.strength_bonus"), 12);
    assert_eq!(im.get_i64("stat.strength.enhanced"), 92);
    assert_eq!(im.get_i64("stat.strength.enhanced_bonus"), 16);
}

#[test]
fn test_parse_info_full_output() {
    let mut im = test_infomon();
    im.parse("Name: Ondreian   Race: Human   Profession: Wizard");
    im.parse("  Strength (STR):   80  (10) ...   87  (12) ...   92  (16)");
    im.parse("Mana: 150   Silver: 1234");
    assert_eq!(im.get_i64("stat.strength"), 87);
    assert_eq!(im.get_i64("stat.strength_bonus"), 12);
    assert_eq!(im.get_i64("stat.strength.base"), 80);
    assert_eq!(im.get_i64("stat.strength.base_bonus"), 10);
    assert_eq!(im.get_i64("stat.strength.enhanced"), 92);
    assert_eq!(im.get_i64("stat.strength.enhanced_bonus"), 16);
}

#[test]
fn test_parse_skills_output() {
    let mut im = test_infomon();
    im.parse(" Ondreian (at level 100) has earned 87,654,321 experience and has skill bonuses and ranks as follows:");
    assert_eq!(im.state, ParserState::InSkills);
    im.parse("   Armor Use....................|  140   30");
    im.parse("   Shield Use...................|   60   12");
    im.parse("   Edged Weapons................|  140   30");
    im.parse("   Two Weapon Combat............|  162   62");
    im.parse("   Stalking and Hiding..........|  162   62");
    im.parse("   Minor Elemental..............|   30");
    im.parse("   Major Elemental..............|   25");
    im.parse("Training Points: 0 Phy 0 Mnt");
    assert_eq!(im.state, ParserState::Ready);
    assert_eq!(im.get_i64("skill.armor_use"), 30);
    assert_eq!(im.get_i64("skill.armor_use_bonus"), 140);
    assert_eq!(im.get_i64("skill.edged_weapons"), 30);
    assert_eq!(im.get_i64("skill.two_weapon_combat"), 62);
    assert_eq!(im.get_i64("skill.stalking_and_hiding"), 62);
    assert_eq!(im.get_i64("spell.minor_elemental"), 30);
    assert_eq!(im.get_i64("spell.major_elemental"), 25);
}

#[test]
fn test_parse_standalone_spell() {
    let mut im = test_infomon();
    im.parse("Minor Elemental Base..............30");
    assert_eq!(im.get_i64("spell.minor_elemental"), 30);
    im.parse("Wizard Base.......................50");
    assert_eq!(im.get_i64("spell.wizard"), 50);
    im.parse("Major Spiritual...................15");
    assert_eq!(im.get_i64("spell.major_spiritual"), 15);
}

#[test]
fn test_cache_persistence() {
    let mut im = test_infomon();
    im.parse("Minor Elemental Base..............30");
    let stored = im.take_writes();
    let im2 = Infomon::new("Ondreian", "GS3", stored);
    assert_eq!(im2.get_i64("spell.minor_elemental"), 30);
}

#[test]
fn test_unrelated_lines_ignored() {
    let mut im = test_infomon();
    im.parse("You attack the kobold!");
    im.parse("A kobold swings at you with a rusty sword!");
    im.parse("");
    im.parse("Obvious exits: north, south");
    assert_eq!(im.state, ParserState::Ready);
    assert!(im.cache.is_empty());
}

#[test]
fn test_get_prefix() {
    let mut im = test_infomon();
    im.parse("Minor Elemental Base..............30");
    im.parse("Wizard Base.......................50");
    let spells = im.get_prefix("spell.");
    assert_eq!(spells.len(), 2);
}

#[test]
fn test_parse_experience() {
    let mut im = test_infomon();
    im.parse("                  Level: 100                         Fame: 4,804,958");
    assert_eq!(im.state, ParserState::InExperience);
    im.parse("             Experience: 37,136,999             Field Exp: 1,350/1,010");
    im.parse("          Ascension Exp: 4,170,132          Recent Deaths: 0");
    im.parse("              Total Exp: 41,307,131         Death's Sting: None");
    im.parse("          Long-Term Exp: 26,266                     Deeds: 20");
    im.parse("          Exp until lvl: 30,000");
    assert_eq!(im.state, ParserState::Ready);
    assert_eq!(im.get("experience.fame"), Some("4804958"));
    assert_eq!(im.get("experience.field_experience_current"), Some("1350"));
    assert_eq!(im.get("experience.field_experience_max"), Some("1010"));
    assert_eq!(im.get("experience.ascension_experience"), Some("4170132"));
    assert_eq!(im.get("experience.total_experience"), Some("41307131"));
    assert_eq!(im.get("experience.deaths_sting"), Some("None"));
    assert_eq!(im.get("experience.long_term_experience"), Some("26266"));
    assert_eq!(im.get("experience.deeds"), Some("20"));
}

#[test]
fn test_parse_society_member() {
    let mut im = test_infomon();
    im.parse("   You are a member in the Order of Voln at step 13.");
    assert_eq!(im.get("society.status"), Some("Order of Voln"));
    assert_eq!(im.get("society.rank"), Some("13"));
}

#[test]
fn test_parse_society_master() {
    let mut im = test_infomon();
    im.parse("   You are a Master of the Order of Voln.");
    assert_eq!(im.get("society.status"), Some("Order of Voln"));
    assert_eq!(im.get("society.rank"), Some("26"));
}

#[test]
fn test_parse_society_none() {
    let mut im = test_infomon();
    im.parse("   You are not a member of any society at this time.");
    assert_eq!(im.get("society.status"), Some("None"));
    assert_eq!(im.get("society.rank"), Some("0"));
}

#[test]
fn test_parse_citizenship() {
    let mut im = test_infomon();
    im.parse("You currently have full citizenship in Wehnimer's Landing.");
    assert_eq!(im.get("citizenship"), Some("Wehnimer's Landing"));
}

#[test]
fn test_parse_no_citizenship() {
    let mut im = test_infomon();
    im.parse("You don't seem to have citizenship.");
    assert_eq!(im.get("citizenship"), Some("None"));
}

#[test]
fn infomon_writes_follow_block_end() {
    let mut im = test_infomon();
    im.parse("Name: X   Race: Elf   Profession: Rogue");
    assert!(im.take_writes().is_empty());
    im.parse("Mana: 0   Silver: 5");
    let w = im.take_writes();
    assert_eq!(w.len(), 2);
    assert_eq!(w[0], ("stat.race".to_string(), "Elf".to_string()));
}
