//! How scripts name a character's statistics (`Stats.race`, `Stats.str`,
//! `Stats.base_dex`, …) and the figures each name reads from the cached
//! data.
use vstd::prelude::*;
use crate::text;
use crate::game_obj::{assoc_find, assoc_get, lemma_assoc_find};
use crate::skills::{cached_num, lit_pairs_view};
use crate::infomon::Infomon;

verus! {

/// Short names of statistics and other properties, with their full names.
pub open spec fn stat_alias_table() -> Seq<(Seq<char>, Seq<char>)> {
    seq![
        ("str"@, "strength"@),
        ("con"@, "constitution"@),
        ("dex"@, "dexterity"@),
        ("agi"@, "agility"@),
        ("dis"@, "discipline"@),
        ("aur"@, "aura"@),
        ("log"@, "logic"@),
        ("int"@, "intuition"@),
        ("wis"@, "wisdom"@),
        ("inf"@, "influence"@),
        ("prof"@, "profession"@),
        ("exp"@, "experience"@)
    ]
}

/// The ten statistics.
pub open spec fn stat_names() -> Seq<Seq<char>> {
    seq!["strength"@, "constitution"@, "dexterity"@, "agility"@, "discipline"@, "aura"@, "logic"@, "intuition"@, "wisdom"@, "influence"@]
}

pub open spec fn lits_view(v: Seq<&str>) -> Seq<Seq<char>> {
    v.map_values(|s: &str| s@)
}

fn stat_alias_pairs() -> (r: Vec<(&'static str, &'static str)>)
    ensures
        lit_pairs_view(r@) == stat_alias_table(),
{
    let r = vec![
        ("str", "strength"),
        ("con", "constitution"),
        ("dex", "dexterity"),
        ("agi", "agility"),
        ("dis", "discipline"),
        ("aur", "aura"),
        ("log", "logic"),
        ("int", "intuition"),
        ("wis", "wisdom"),
        ("inf", "influence"),
        ("prof", "profession"),
        ("exp", "experience")
    ];
    assert(lit_pairs_view(r@) =~= stat_alias_table());
    r
}

fn stat_name_list() -> (r: Vec<&'static str>)
    ensures
        lits_view(r@) == stat_names(),
{
    let r = vec!["strength", "constitution", "dexterity", "agility", "discipline", "aura", "logic", "intuition", "wisdom", "influence"];
    assert(lits_view(r@) =~= stat_names());
    r
}

/// Whether `key` is the full name of one of the ten statistics.
pub fn is_stat_name(key: &str) -> (r: bool)
    ensures
        r == stat_names().contains(key@),
{
    let t = stat_name_list();
    let mut i: usize = 0;
    while i < t.len()
        invariant
            i <= t.len(),
            lits_view(t@) == stat_names(),
            forall|j: int| 0 <= j < i ==> stat_names()[j] != key@,
        decreases t.len() - i,
    {
        if text::str_eq(t[i], key) {
            assert(stat_names()[i as int] == key@);
            return true;
        }
        i += 1;
    }
    false
}

/// The full name that the short name `key` stands for.
pub fn resolve_alias(key: &str) -> (r: Option<&'static str>)
    ensures
        match r {
            Some(c) => assoc_get(stat_alias_table(), key@) == Some(c@),
            None => assoc_get(stat_alias_table(), key@) is None,
        },
{
    let t = stat_alias_pairs();
    let ghost tv = lit_pairs_view(t@);
    proof {
        lemma_assoc_find(tv, key@, 0);
    }
    let mut i: usize = 0;
    while i < t.len()
        invariant
            i <= t.len(),
            tv == lit_pairs_view(t@),
            tv == stat_alias_table(),
            assoc_find(tv, key@, 0) == assoc_find(tv, key@, i as int),
        decreases t.len() - i,
    {
        if text::str_eq(t[i].0, key) {
            return Some(t[i].1);
        }
        i += 1;
    }
    None
}

/// What a script's statistic name asks for.
#[derive(Debug, Clone, PartialEq, Eq)]
pub enum StatQuery {
    Race,
    Profession,
    Gender,
    Age,
    Level,
    Experience,
    /// The whole record of a statistic: value, bonus, base and enhanced.
    Full(String),
    /// Value and bonus of a statistic named by its short form.
    Short(String),
    /// Value and bonus before enhancement.
    Base(String),
    /// Value and bonus with enhancement.
    Enhanced(String),
    /// Not a name of anything.
    Missing,
}

pub enum StatQueryV {
    Race,
    Profession,
    Gender,
    Age,
    Level,
    Experience,
    Full(Seq<char>),
    Short(Seq<char>),
    Base(Seq<char>),
    Enhanced(Seq<char>),
    Missing,
}

impl View for StatQuery {
    type V = StatQueryV;

    open spec fn view(&self) -> StatQueryV {
        match self {
            StatQuery::Race => StatQueryV::Race,
            StatQuery::Profession => StatQueryV::Profession,
            StatQuery::Gender => StatQueryV::Gender,
            StatQuery::Age => StatQueryV::Age,
            StatQuery::Level => StatQueryV::Level,
            StatQuery::Experience => StatQueryV::Experience,
            StatQuery::Full(n) => StatQueryV::Full(n@),
            StatQuery::Short(n) => StatQueryV::Short(n@),
            StatQuery::Base(n) => StatQueryV::Base(n@),
            StatQuery::Enhanced(n) => StatQueryV::Enhanced(n@),
            StatQuery::Missing => StatQueryV::Missing,
        }
    }
}

/// The statistic that `rest` (after `base_` or `enhanced_`) names: its
/// full name when it is a short form, else itself.
pub open spec fn variant_target(rest: Seq<char>) -> Seq<char> {
    match assoc_get(stat_alias_table(), rest) {
        Some(f) => f,
        None => rest,
    }
}

pub open spec fn short_target(key: Seq<char>) -> Option<Seq<char>> {
    match assoc_get(stat_alias_table(), key) {
        Some(f) => if stat_names().contains(f) {
            Some(f)
        } else {
            None
        },
        None => None,
    }
}

/// What `key` asks for, tried in this order: the plain properties, a full
/// statistic name, a short one, then `base_…` and `enhanced_…` with either
/// form after the prefix.
pub open spec fn stat_query(key: Seq<char>) -> StatQueryV {
    if key == "race"@ {
        StatQueryV::Race
    } else if key == "profession"@ || key == "prof"@ {
        StatQueryV::Profession
    } else if key == "gender"@ {
        StatQueryV::Gender
    } else if key == "age"@ {
        StatQueryV::Age
    } else if key == "level"@ {
        StatQueryV::Level
    } else if key == "experience"@ || key == "exp"@ {
        StatQueryV::Experience
    } else if stat_names().contains(key) {
        StatQueryV::Full(key)
    } else if short_target(key) is Some {
        StatQueryV::Short(short_target(key).unwrap())
    } else if text::starts_with(key, "base_"@) && stat_names().contains(
        variant_target(key.skip("base_"@.len() as int)),
    ) {
        StatQueryV::Base(variant_target(key.skip("base_"@.len() as int)))
    } else if text::starts_with(key, "enhanced_"@) && stat_names().contains(
        variant_target(key.skip("enhanced_"@.len() as int)),
    ) {
        StatQueryV::Enhanced(variant_target(key.skip("enhanced_"@.len() as int)))
    } else {
        StatQueryV::Missing
    }
}

fn variant_target_exec(rest: &[char]) -> (r: String)
    ensures
        r@ == variant_target(rest@),
{
    proof {
        reveal_strlit("");
    }
    let rs = text::string_of(rest);
    match resolve_alias(rs.as_str()) {
        Some(f) => text::join3(f, "", ""),
        None => rs,
    }
}

/// What the statistic name `key` asks for.
pub fn stat_query_of(key: &str) -> (r: StatQuery)
    ensures
        r@ == stat_query(key@),
{
    proof {
        reveal_strlit("");
        reveal_strlit("base_");
        reveal_strlit("enhanced_");
    }
    let k = text::chars_of(key);
    if text::eq_lit(&k, "race") {
        StatQuery::Race
    } else if text::eq_lit(&k, "profession") || text::eq_lit(&k, "prof") {
        StatQuery::Profession
    } else if text::eq_lit(&k, "gender") {
        StatQuery::Gender
    } else if text::eq_lit(&k, "age") {
        StatQuery::Age
    } else if text::eq_lit(&k, "level") {
        StatQuery::Level
    } else if text::eq_lit(&k, "experience") || text::eq_lit(&k, "exp") {
        StatQuery::Experience
    } else if is_stat_name(key) {
        StatQuery::Full(key.to_owned())
    } else {
        let short = match resolve_alias(key) {
            Some(f) => if is_stat_name(f) {
                Some(f)
            } else {
                None
            },
            None => None,
        };
        match short {
            Some(f) => StatQuery::Short(text::join3(f, "", "")),
            None => {
                if text::starts_with_lit(&k, "base_") {
                    let t = variant_target_exec(&text::slice_of(&k, 5, k.len()));
                    assert(k@.subrange(5, k@.len() as int) =~= key@.skip(5));
                    if is_stat_name(t.as_str()) {
                        return StatQuery::Base(t);
                    }
                }
                if text::starts_with_lit(&k, "enhanced_") {
                    let t = variant_target_exec(&text::slice_of(&k, 9, k.len()));
                    assert(k@.subrange(9, k@.len() as int) =~= key@.skip(9));
                    if is_stat_name(t.as_str()) {
                        return StatQuery::Enhanced(t);
                    }
                }
                StatQuery::Missing
            },
        }
    }
}

/// The number cached under `k`, 0 when missing or not a number.
pub open spec fn num_or_zero(cache: Seq<(Seq<char>, Seq<char>)>, k: Seq<char>) -> int {
    match cached_num(cache, k) {
        Some(n) => n,
        None => 0,
    }
}

/// A statistic's value with its bonus.
#[derive(Debug, Clone, Copy, PartialEq, Eq, Structural)]
pub struct StatPair {
    pub value: i64,
    pub bonus: i64,
}

/// `stat.<name>` and `stat.<name>_bonus`.
pub fn short_stat(im: &Infomon, name: &str) -> (r: StatPair)
    ensures
        r.value == num_or_zero(im@.cache, "stat."@ + name@),
        r.bonus == num_or_zero(im@.cache, "stat."@ + name@ + "_bonus"@),
{
    let k = text::join3("stat.", name, "");
    let kb = text::join3("stat.", name, "_bonus");
    proof {
        reveal_strlit("");
        assert(k@ =~= "stat."@ + name@);
    }
    StatPair { value: im.get_i64(k.as_str()), bonus: im.get_i64(kb.as_str()) }
}

/// `stat.<name>.<variant>` and `stat.<name>.<variant>_bonus`.
pub fn variant_stat(im: &Infomon, name: &str, variant: &str) -> (r: StatPair)
    ensures
        r.value == num_or_zero(im@.cache, "stat."@ + name@ + "."@ + variant@),
        r.bonus == num_or_zero(im@.cache, "stat."@ + name@ + "."@ + variant@ + "_bonus"@),
{
    let head = text::join3("stat.", name, ".");
    let k = text::join3(head.as_str(), variant, "");
    let kb = text::join3(head.as_str(), variant, "_bonus");
    proof {
        reveal_strlit("");
        assert(k@ =~= "stat."@ + name@ + "."@ + variant@);
    }
    StatPair { value: im.get_i64(k.as_str()), bonus: im.get_i64(kb.as_str()) }
}

/// The whole record of a statistic.
#[derive(Debug, Clone, Copy, PartialEq, Eq, Structural)]
pub struct FullStat {
    pub value: i64,
    pub bonus: i64,
    pub base: StatPair,
    pub enhanced: StatPair,
}

/// Value and bonus, and those of the base and enhanced figures (0 where
/// the cached data has none).
pub fn full_stat(im: &Infomon, name: &str) -> (r: FullStat)
    ensures
        r.value == num_or_zero(im@.cache, "stat."@ + name@),
        r.bonus == num_or_zero(im@.cache, "stat."@ + name@ + "_bonus"@),
        r.base.value == num_or_zero(im@.cache, "stat."@ + name@ + "."@ + "base"@),
        r.base.bonus == num_or_zero(im@.cache, "stat."@ + name@ + "."@ + "base"@ + "_bonus"@),
        r.enhanced.value == num_or_zero(im@.cache, "stat."@ + name@ + "."@ + "enhanced"@),
        r.enhanced.bonus == num_or_zero(im@.cache, "stat."@ + name@ + "."@ + "enhanced"@ + "_bonus"@),
{
    let s = short_stat(im, name);
    FullStat {
        value: s.value,
        bonus: s.bonus,
        base: variant_stat(im, name, "base"),
        enhanced: variant_stat(im, name, "enhanced"),
    }
}

/// The character's age as cached, when it is a number.
pub fn stat_age(im: &Infomon) -> (r: Option<i64>)
    ensures
        match r {
            Some(n) => cached_num(im@.cache, "stat.age"@) == Some(n as int),
            None => cached_num(im@.cache, "stat.age"@) is None,
        },
{
    match im.get("stat.age") {
        Some(v) => text::parse_i64(&text::chars_of(v)),
        None => None,
    }
}

} // verus!
