//! The skill figures that scripts read: the bonus that a number of ranks
//! gives, the legacy spellings of skill names, and the ranks and bonus of a
//! skill as the character's cached data holds them.
use vstd::prelude::*;
use crate::text;
use crate::game_obj::{assoc_find, assoc_get, lemma_assoc_find};
use crate::infomon::Infomon;

verus! {

/// The bonus of `r` ranks: 5 for each of the first ten, 4 for each of the
/// next ten, then 3, then 2, and 1 for each rank past forty.
pub open spec fn skill_bonus_spec(r: int) -> int {
    if r <= 0 {
        0
    } else if r <= 10 {
        5 * r
    } else if r <= 20 {
        50 + 4 * (r - 10)
    } else if r <= 30 {
        90 + 3 * (r - 20)
    } else if r <= 40 {
        120 + 2 * (r - 30)
    } else {
        140 + (r - 40)
    }
}

/// The bonus that `ranks` ranks in a skill give. Past `i64::MAX - 100`
/// ranks the bonus no longer fits.
pub fn skill_bonus(ranks: i64) -> (b: i64)
    requires
        ranks <= i64::MAX - 100,
    ensures
        b == skill_bonus_spec(ranks as int),
{
    let mut ranks = ranks;
    let ghost r0 = ranks as int;
    let mut bonus: i64 = 0;
    while ranks > 0
        invariant
            ranks <= r0,
            r0 <= i64::MAX - 100,
            ranks <= 0 ==> bonus == skill_bonus_spec(r0),
            ranks > 0 ==> bonus + skill_bonus_spec(ranks as int) == skill_bonus_spec(r0),
            0 <= bonus,
            ranks > 40 ==> bonus == 0,
            ranks > 0 ==> bonus <= skill_bonus_spec(r0) - skill_bonus_spec(ranks as int),
        decreases ranks,
    {
        if ranks > 40 {
            bonus += ranks - 40;
            ranks = 40;
        } else if ranks > 30 {
            bonus += (ranks - 30) * 2;
            ranks = 30;
        } else if ranks > 20 {
            bonus += (ranks - 20) * 3;
            ranks = 20;
        } else if ranks > 10 {
            bonus += (ranks - 10) * 4;
            ranks = 10;
        } else {
            bonus += ranks * 5;
            ranks = 0;
        }
    }
    bonus
}

/// Legacy skill names written without underscores (and a few short
/// forms), each with the name the data is kept under.
pub open spec fn skill_alias_table() -> Seq<(Seq<char>, Seq<char>)> {
    seq![
        ("twoweaponcombat"@, "two_weapon_combat"@),
        ("armoruse"@, "armor_use"@),
        ("shielduse"@, "shield_use"@),
        ("combatmaneuvers"@, "combat_maneuvers"@),
        ("edgedweapons"@, "edged_weapons"@),
        ("bluntweapons"@, "blunt_weapons"@),
        ("twohandedweapons"@, "two_handed_weapons"@),
        ("rangedweapons"@, "ranged_weapons"@),
        ("thrownweapons"@, "thrown_weapons"@),
        ("polearmweapons"@, "polearm_weapons"@),
        ("multiopponentcombat"@, "multi_opponent_combat"@),
        ("physicalfitness"@, "physical_fitness"@),
        ("arcanesymbols"@, "arcane_symbols"@),
        ("magicitemuse"@, "magic_item_use"@),
        ("spellaiming"@, "spell_aiming"@),
        ("harnesspower"@, "harness_power"@),
        ("disarmingtraps"@, "disarming_traps"@),
        ("pickinglocks"@, "picking_locks"@),
        ("stalkingandhiding"@, "stalking_and_hiding"@),
        ("firstaid"@, "first_aid"@),
        ("emc"@, "elemental_mana_control"@),
        ("mmc"@, "mental_mana_control"@),
        ("smc"@, "spirit_mana_control"@),
        ("elair"@, "elemental_lore_air"@),
        ("elearth"@, "elemental_lore_earth"@),
        ("elfire"@, "elemental_lore_fire"@),
        ("elwater"@, "elemental_lore_water"@),
        ("slblessings"@, "spiritual_lore_blessings"@),
        ("slreligion"@, "spiritual_lore_religion"@),
        ("slsummoning"@, "spiritual_lore_summoning"@),
        ("sldemonology"@, "sorcerous_lore_demonology"@),
        ("slnecromancy"@, "sorcerous_lore_necromancy"@),
        ("mldivination"@, "mental_lore_divination"@),
        ("mlmanipulation"@, "mental_lore_manipulation"@),
        ("mltelepathy"@, "mental_lore_telepathy"@),
        ("mltransference"@, "mental_lore_transference"@),
        ("mltransformation"@, "mental_lore_transformation"@)
    ]
}

pub open spec fn lit_pairs_view(v: Seq<(&str, &str)>) -> Seq<(Seq<char>, Seq<char>)> {
    v.map_values(|p: (&str, &str)| (p.0@, p.1@))
}

fn skill_alias_pairs() -> (r: Vec<(&'static str, &'static str)>)
    ensures
        lit_pairs_view(r@) == skill_alias_table(),
{
    let r = vec![
        ("twoweaponcombat", "two_weapon_combat"),
        ("armoruse", "armor_use"),
        ("shielduse", "shield_use"),
        ("combatmaneuvers", "combat_maneuvers"),
        ("edgedweapons", "edged_weapons"),
        ("bluntweapons", "blunt_weapons"),
        ("twohandedweapons", "two_handed_weapons"),
        ("rangedweapons", "ranged_weapons"),
        ("thrownweapons", "thrown_weapons"),
        ("polearmweapons", "polearm_weapons"),
        ("multiopponentcombat", "multi_opponent_combat"),
        ("physicalfitness", "physical_fitness"),
        ("arcanesymbols", "arcane_symbols"),
        ("magicitemuse", "magic_item_use"),
        ("spellaiming", "spell_aiming"),
        ("harnesspower", "harness_power"),
        ("disarmingtraps", "disarming_traps"),
        ("pickinglocks", "picking_locks"),
        ("stalkingandhiding", "stalking_and_hiding"),
        ("firstaid", "first_aid"),
        ("emc", "elemental_mana_control"),
        ("mmc", "mental_mana_control"),
        ("smc", "spirit_mana_control"),
        ("elair", "elemental_lore_air"),
        ("elearth", "elemental_lore_earth"),
        ("elfire", "elemental_lore_fire"),
        ("elwater", "elemental_lore_water"),
        ("slblessings", "spiritual_lore_blessings"),
        ("slreligion", "spiritual_lore_religion"),
        ("slsummoning", "spiritual_lore_summoning"),
        ("sldemonology", "sorcerous_lore_demonology"),
        ("slnecromancy", "sorcerous_lore_necromancy"),
        ("mldivination", "mental_lore_divination"),
        ("mlmanipulation", "mental_lore_manipulation"),
        ("mltelepathy", "mental_lore_telepathy"),
        ("mltransference", "mental_lore_transference"),
        ("mltransformation", "mental_lore_transformation")
    ];
    assert(lit_pairs_view(r@) =~= skill_alias_table());
    r
}

/// The name that the legacy spelling `key` stands for.
pub fn skill_alias(key: &str) -> (r: Option<&'static str>)
    ensures
        match r {
            Some(c) => assoc_get(skill_alias_table(), key@) == Some(c@),
            None => assoc_get(skill_alias_table(), key@) is None,
        },
{
    let t = skill_alias_pairs();
    let ghost tv = lit_pairs_view(t@);
    proof {
        lemma_assoc_find(tv, key@, 0);
    }
    let mut i: usize = 0;
    while i < t.len()
        invariant
            i <= t.len(),
            tv == lit_pairs_view(t@),
            tv == skill_alias_table(),
            assoc_find(tv, key@, 0) == assoc_find(tv, key@, i as int),
        decreases t.len() - i,
    {
        if text::str_eq(t[i].0, key) {
            return Some(t[i].1);
        }
        i += 1;
    }
    None
}

/// The number cached under `k`, when there is one and it reads as an i64.
pub open spec fn cached_num(cache: Seq<(Seq<char>, Seq<char>)>, k: Seq<char>) -> Option<int> {
    match assoc_get(cache, k) {
        Some(v) => text::parse_i64_spec(v),
        None => None,
    }
}

/// The ranks of skill `key` as scripts see them: `skill.<key>` when it
/// holds a number; else, when `key` is a legacy spelling, `skill.<name>`
/// for the name it stands for; else 0.
pub open spec fn skill_ranks_spec(cache: Seq<(Seq<char>, Seq<char>)>, key: Seq<char>) -> int {
    match cached_num(cache, "skill."@ + key) {
        Some(n) => n,
        None => match assoc_get(skill_alias_table(), key) {
            Some(c) => match cached_num(cache, "skill."@ + c) {
                Some(n) => n,
                None => 0,
            },
            None => 0,
        },
    }
}

fn cached_i64(im: &Infomon, k: &str) -> (r: Option<i64>)
    ensures
        match r {
            Some(n) => cached_num(im@.cache, k@) == Some(n as int),
            None => cached_num(im@.cache, k@) is None,
        },
{
    match im.get(k) {
        Some(v) => text::parse_i64(&text::chars_of(v)),
        None => None,
    }
}

/// The ranks of skill `key` in the cached data (0 when unknown).
pub fn skill_ranks(im: &Infomon, key: &str) -> (r: i64)
    ensures
        r == skill_ranks_spec(im@.cache, key@),
{
    let k = text::join3("skill.", key, "");
    proof {
        assert(k@ == "skill."@ + key@) by {
            reveal_strlit("");
        }
    }
    match cached_i64(im, k.as_str()) {
        Some(n) => n,
        None => match skill_alias(key) {
            Some(c) => {
                let k2 = text::join3("skill.", c, "");
                proof {
                    assert(k2@ == "skill."@ + c@) by {
                        reveal_strlit("");
                    }
                }
                match cached_i64(im, k2.as_str()) {
                    Some(n) => n,
                    None => 0,
                }
            },
            None => 0,
        },
    }
}

/// The bonus of the skill named `name` as the cached data holds it,
/// `skill.<name>_bonus` (0 when missing or not a number).
pub fn skill_bonus_of(im: &Infomon, name: &str) -> (r: i64)
    ensures
        r == match cached_num(im@.cache, "skill."@ + name@ + "_bonus"@) {
            Some(n) => n,
            None => 0,
        },
{
    let k = text::join3("skill.", name, "_bonus");
    im.get_i64(k.as_str())
}

} // verus!
