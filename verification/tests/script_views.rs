use revenant::digests::{md5_hex, sha1_base64, sha1_hex, sha256_hex, to_hex};
use revenant::hook_chain::{HookChain, HookOutcome};
use revenant::version::{
    normalize_constraint, normalize_version, version_compare, version_parse, version_satisfies, VersionError,
    VersionInfo,
};
use revenant::infomon::Infomon;
use revenant::skills::{skill_alias, skill_bonus, skill_bonus_of, skill_ranks};
use revenant::spell_list::SpellList;
use revenant::spell_ranks::{circle_key_of, circle_rank, circle_ranks, known_spells};
use revenant::stats::{
    full_stat, is_stat_name, resolve_alias, short_stat, stat_age, stat_query_of, variant_stat, StatPair,
    StatQuery,
};

fn mon(pairs: &[(&str, &str)]) -> Infomon {
    Infomon::new(
        "Test",
        "GS3",
        pairs.iter().map(|(k, v)| (k.to_string(), v.to_string())).collect(),
    )
}

#[test]
fn test_skill_bonus_formula() {
    assert_eq!(skill_bonus(0), 0);
    assert_eq!(skill_bonus(1), 5);
    assert_eq!(skill_bonus(10), 50);
    assert_eq!(skill_bonus(20), 90);
    assert_eq!(skill_bonus(30), 120);
    assert_eq!(skill_bonus(40), 140);
    assert_eq!(skill_bonus(50), 150);
    assert_eq!(skill_bonus(100), 200);
}

#[test]
fn skill_bonus_between_steps_and_negative() {
    assert_eq!(skill_bonus(-5), 0);
    assert_eq!(skill_bonus(15), 70);
    assert_eq!(skill_bonus(25), 105);
    assert_eq!(skill_bonus(35), 130);
}

#[test]
fn skill_aliases_and_lookup() {
    assert_eq!(skill_alias("twoweaponcombat"), Some("two_weapon_combat"));
    assert_eq!(skill_alias("emc"), Some("elemental_mana_control"));
    assert_eq!(skill_alias("edged_weapons"), None);
    let im = mon(&[
        ("skill.edged_weapons", "30"),
        ("skill.edged_weapons_bonus", "140"),
        ("skill.two_weapon_combat", "62"),
        ("skill.armor_use", "lots"),
    ]);
    assert_eq!(skill_ranks(&im, "edged_weapons"), 30);
    assert_eq!(skill_ranks(&im, "twoweaponcombat"), 62);
    assert_eq!(skill_ranks(&im, "armor_use"), 0);
    assert_eq!(skill_ranks(&im, "climbing"), 0);
    assert_eq!(skill_bonus_of(&im, "edged_weapons"), 140);
    assert_eq!(skill_bonus_of(&im, "two_weapon_combat"), 0);
}

#[test]
fn stat_names_resolve_in_order() {
    assert_eq!(stat_query_of("race"), StatQuery::Race);
    assert_eq!(stat_query_of("prof"), StatQuery::Profession);
    assert_eq!(stat_query_of("exp"), StatQuery::Experience);
    assert_eq!(stat_query_of("level"), StatQuery::Level);
    assert_eq!(stat_query_of("strength"), StatQuery::Full("strength".to_string()));
    assert_eq!(stat_query_of("str"), StatQuery::Short("strength".to_string()));
    assert_eq!(stat_query_of("base_str"), StatQuery::Base("strength".to_string()));
    assert_eq!(stat_query_of("base_wisdom"), StatQuery::Base("wisdom".to_string()));
    assert_eq!(stat_query_of("enhanced_dex"), StatQuery::Enhanced("dexterity".to_string()));
    assert_eq!(stat_query_of("base_prof"), StatQuery::Missing);
    assert_eq!(stat_query_of("mana"), StatQuery::Missing);
    assert!(is_stat_name("aura"));
    assert!(!is_stat_name("str"));
    assert_eq!(resolve_alias("int"), Some("intuition"));
    assert_eq!(resolve_alias("xyz"), None);
}

#[test]
fn stat_figures_from_cache() {
    let im = mon(&[
        ("stat.race", "Human"),
        ("stat.age", "247"),
        ("stat.strength", "87"),
        ("stat.strength_bonus", "12"),
        ("stat.strength.enhanced", "92"),
        ("stat.strength.enhanced_bonus", "16"),
        ("stat.strength.base", "80"),
        ("stat.strength.base_bonus", "10"),
    ]);
    let s = full_stat(&im, "strength");
    assert_eq!(s.value, 87);
    assert_eq!(s.bonus, 12);
    assert_eq!(s.base, StatPair { value: 80, bonus: 10 });
    assert_eq!(s.enhanced.bonus, 16);
    assert_eq!(short_stat(&im, "strength"), StatPair { value: 87, bonus: 12 });
    assert_eq!(variant_stat(&im, "strength", "base"), StatPair { value: 80, bonus: 10 });
    assert_eq!(short_stat(&im, "logic"), StatPair { value: 0, bonus: 0 });
    assert_eq!(stat_age(&im), Some(247));
    assert_eq!(stat_age(&mon(&[])), None);
}

#[test]
fn circle_ranks_and_known_spells() {
    let im = mon(&[
        ("spell.minor_spiritual", "20"),
        ("spell.wizard", "50"),
        ("spell.bard", "n/a"),
        ("skill.edged_weapons", "30"),
    ]);
    assert_eq!(circle_key_of("minorspiritual"), "minor_spiritual");
    assert_eq!(circle_key_of("wizard"), "wizard");
    assert_eq!(circle_rank(&im, "minorspiritual"), 20);
    assert_eq!(circle_rank(&im, "wizard"), 50);
    assert_eq!(circle_rank(&im, "cleric"), 0);
    let ranks = circle_ranks(&im);
    assert_eq!(
        ranks,
        vec![("minor_spiritual".to_string(), 20), ("wizard".to_string(), 50)]
    );
    let xml = "<list><spell number='101' name='A'/><spell number='125' name='B'/>\
               <spell number='901' name='C'/><spell number='1005' name='D'/></list>";
    let sl = SpellList::parse(xml).unwrap();
    assert_eq!(known_spells(&sl, &im, 100), vec![0, 2]);
    assert_eq!(known_spells(&sl, &im, 0), Vec::<usize>::new());
}

type SyncHook = Box<dyn Fn(&str) -> Option<String>>;

fn run_sync(h: &SyncHook, s: &str) -> HookOutcome {
    match h(s) {
        Some(t) => HookOutcome::Replace(t),
        None => HookOutcome::Drop,
    }
}

#[test]
fn hooks_run_in_order_and_names_are_replaced() {
    let mut chain: HookChain<SyncHook> = HookChain::new();
    chain.add("upper", Box::new(|s: &str| Some(s.to_uppercase())));
    chain.add("bang", Box::new(|s: &str| Some(format!("{s}!"))));
    assert_eq!(chain.hook_names(), vec!["upper".to_string(), "bang".to_string()]);
    assert_eq!(chain.process("hi", run_sync), Ok(Some("HI!".to_string())));
    // Re-adding a name moves it to the end with the new hook.
    chain.add("upper", Box::new(|s: &str| Some(s.to_lowercase())));
    assert_eq!(chain.hook_names(), vec!["bang".to_string(), "upper".to_string()]);
    assert_eq!(chain.len(), 2);
    assert_eq!(chain.process("Hi", run_sync), Ok(Some("hi!".to_string())));
    chain.remove("bang");
    assert_eq!(chain.hook_names(), vec!["upper".to_string()]);
    chain.remove("missing");
    assert_eq!(chain.len(), 1);
    assert_eq!(chain.entry(0).0, "upper");
}

#[test]
fn hook_can_swallow_or_fail() {
    let mut chain: HookChain<SyncHook> = HookChain::new();
    chain.add("drop_secret", Box::new(|s: &str| if s.contains("secret") { None } else { Some(s.to_string()) }));
    chain.add("tag", Box::new(|s: &str| Some(format!("[{s}]"))));
    assert_eq!(chain.process("a secret", run_sync), Ok(None));
    assert_eq!(chain.process("plain", run_sync), Ok(Some("[plain]".to_string())));
    let failing = |_: &SyncHook, _: &str| HookOutcome::Fail("boom".to_string());
    assert_eq!(chain.process("x", failing), Err("boom".to_string()));
    let keep = |_: &SyncHook, _: &str| HookOutcome::Keep;
    assert_eq!(chain.process("same", keep), Ok(Some("same".to_string())));
    let empty: HookChain<SyncHook> = HookChain::new();
    assert_eq!(empty.process("line", run_sync), Ok(Some("line".to_string())));
}

#[test]
fn digests_in_hex_and_base64() {
    assert_eq!(md5_hex(b""), "d41d8cd98f00b204e9800998ecf8427e");
    assert_eq!(sha1_hex(b"abc"), "a9993e364706816aba3e25717850c26c9cd0d89d");
    assert_eq!(
        sha256_hex(b"abc"),
        "ba7816bf8f01cfea414140de5dae2223b00361a396177a9cb410ff61f20015ad"
    );
    assert_eq!(sha1_base64(b"abc"), "qZk+NkcGgWq6PiVxeFDCbJzQ2J0=");
    assert_eq!(to_hex(&[0x00, 0x0f, 0xa0, 0xff]), "000fa0ff");
}

#[test]
fn versions_are_filled_in_and_parsed() {
    assert_eq!(normalize_version("1.0"), "1.0.0");
    assert_eq!(normalize_version("2"), "2.0.0");
    assert_eq!(normalize_version("1.2-beta"), "1.2.0-beta");
    assert_eq!(normalize_version("1.2.3.4"), "1.2.3.4");
    assert_eq!(normalize_constraint(">= 1.0, < 2"), ">= 1.0.0, < 2.0.0");
    assert_eq!(normalize_constraint("*"), "*");
    assert_eq!(
        version_parse("1.2-rc.1"),
        Ok(VersionInfo { major: 1, minor: 2, patch: 0, pre: Some("rc.1".to_string()) })
    );
    assert_eq!(version_parse("3"), Ok(VersionInfo { major: 3, minor: 0, patch: 0, pre: None }));
    match version_parse("abc") {
        Err(e @ VersionError::InvalidVersion { .. }) => {
            assert!(e.message().starts_with("invalid version 'abc': "));
        }
        other => panic!("unexpected {other:?}"),
    }
}

#[test]
fn versions_compare_and_satisfy() {
    assert_eq!(version_compare("1.0", "1.0.0"), Ok(0));
    assert_eq!(version_compare("1.2", "1.10"), Ok(-1));
    assert_eq!(version_compare("2.0.0", "2.0.0-beta"), Ok(1));
    assert!(matches!(version_compare("x", "1"), Err(VersionError::InvalidVersion { .. })));
    assert_eq!(version_satisfies("1.5", ">= 1.0, < 2.0"), Ok(true));
    assert_eq!(version_satisfies("2.0", ">=1.0, <2"), Ok(false));
    match version_satisfies("1.5", ">= 1.0 < 2.0") {
        Err(VersionError::InvalidConstraint { text, .. }) => assert_eq!(text, ">= 1.0 < 2.0"),
        other => panic!("unexpected {other:?}"),
    }
}
