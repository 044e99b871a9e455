//! Spell circles: the circle a spell number belongs to, its name, the key its
//! ranks are stored under, and whether a character knows a spell.
use vstd::prelude::*;
use crate::game_obj::{assoc_find, assoc_get, lemma_assoc_find};

verus! {

/// Compute spell circle number from spell number.
/// 3-digit (100-999): circle = num / 100 (e.g., 101 -> 1, 901 -> 9)
/// 4-digit (1000-9999): circle = num / 100 (e.g., 1700 -> 17, 1005 -> 10)
pub fn spell_circle(num: u32) -> (r: u32)
    ensures
        r == num / 100,
{
    num / 100
}

pub open spec fn circle_name_spec(circle: u32) -> Seq<char> {
    if circle == 1 {
        "Minor Spirit"@
    } else if circle == 2 {
        "Major Spirit"@
    } else if circle == 3 {
        "Cleric"@
    } else if circle == 4 {
        "Minor Elemental"@
    } else if circle == 5 {
        "Major Elemental"@
    } else if circle == 6 {
        "Ranger"@
    } else if circle == 7 {
        "Sorcerer"@
    } else if circle == 9 {
        "Wizard"@
    } else if circle == 10 {
        "Bard"@
    } else if circle == 11 {
        "Empath"@
    } else if circle == 12 {
        "Minor Mental"@
    } else if circle == 16 {
        "Paladin"@
    } else if circle == 17 {
        "Arcane"@
    } else {
        "Unknown"@
    }
}

/// Circle number -> human-readable name.
pub fn circle_name(circle: u32) -> (r: &'static str)
    ensures
        r@ == circle_name_spec(circle),
{
    match circle {
        1 => "Minor Spirit",
        2 => "Major Spirit",
        3 => "Cleric",
        4 => "Minor Elemental",
        5 => "Major Elemental",
        6 => "Ranger",
        7 => "Sorcerer",
        9 => "Wizard",
        10 => "Bard",
        11 => "Empath",
        12 => "Minor Mental",
        16 => "Paladin",
        17 => "Arcane",
        _ => "Unknown",
    }
}

pub open spec fn circle_key_spec(circle: u32) -> Option<Seq<char>> {
    if circle == 1 {
        Some("minor_spiritual"@)
    } else if circle == 2 {
        Some("major_spiritual"@)
    } else if circle == 3 {
        Some("cleric"@)
    } else if circle == 4 {
        Some("minor_elemental"@)
    } else if circle == 5 {
        Some("major_elemental"@)
    } else if circle == 6 {
        Some("ranger"@)
    } else if circle == 7 {
        Some("sorcerer"@)
    } else if circle == 9 {
        Some("wizard"@)
    } else if circle == 10 {
        Some("bard"@)
    } else if circle == 11 {
        Some("empath"@)
    } else if circle == 12 {
        Some("minor_mental"@)
    } else if circle == 16 {
        Some("paladin"@)
    } else {
        None
    }
}

pub open spec fn opt_static(o: Option<&'static str>) -> Option<Seq<char>> {
    match o {
        Some(s) => Some(s@),
        None => None,
    }
}

/// Circle number -> char_data key suffix for spell ranks.
pub fn circle_data_key(circle: u32) -> (r: Option<&'static str>)
    ensures
        opt_static(r) == circle_key_spec(circle),
{
    match circle {
        1 => Some("minor_spiritual"),
        2 => Some("major_spiritual"),
        3 => Some("cleric"),
        4 => Some("minor_elemental"),
        5 => Some("major_elemental"),
        6 => Some("ranger"),
        7 => Some("sorcerer"),
        9 => Some("wizard"),
        10 => Some("bard"),
        11 => Some("empath"),
        12 => Some("minor_mental"),
        16 => Some("paladin"),
        _ => None,
    }
}

pub open spec fn ranks_view(v: Seq<(String, i64)>) -> Seq<(Seq<char>, i64)> {
    v.map_values(|p: (String, i64)| (p.0@, p.1))
}

/// The ranks held in the circle of spell `num` (0 when none are recorded).
pub open spec fn circle_ranks_of(num: u32, ranks: Seq<(Seq<char>, i64)>) -> int {
    match circle_key_spec(num / 100) {
        Some(k) => match assoc_get(ranks, k) {
            Some(v) => v as int,
            None => 0,
        },
        None => 0,
    }
}

/// A spell is known when its circle has a ranks key and its position in the
/// circle is at most the smaller of those ranks and the character's level.
pub open spec fn is_known_spec(num: u32, ranks: Seq<(Seq<char>, i64)>, level: u32) -> bool {
    match circle_key_spec(num / 100) {
        Some(_) => {
            let r = circle_ranks_of(num, ranks);
            let effective = if r < level as int {
                r
            } else {
                level as int
            };
            (num % 100) as int <= effective
        },
        None => false,
    }
}

/// Check if a spell is known based on circle ranks and character level.
/// The ranks are listed by circle key; the first entry for a key counts.
pub fn is_known(spell_num: u32, circle_ranks: &Vec<(String, i64)>, level: u32) -> (r: bool)
    ensures
        r == is_known_spec(spell_num, ranks_view(circle_ranks@), level),
{
    let circle = spell_circle(spell_num);
    let key = match circle_data_key(circle) {
        Some(k) => k,
        None => return false,
    };
    let ghost rv = ranks_view(circle_ranks@);
    proof {
        lemma_assoc_find(rv, key@, 0);
    }
    let mut ranks: i64 = 0;
    let mut i: usize = 0;
    while i < circle_ranks.len()
        invariant_except_break
            i <= circle_ranks.len(),
            rv == ranks_view(circle_ranks@),
            assoc_find(rv, key@, 0) == assoc_find(rv, key@, i as int),
            ranks == 0,
        ensures
            ranks as int == match assoc_get(rv, key@) {
                Some(v) => v as int,
                None => 0,
            },
        decreases circle_ranks.len() - i,
    {
        if crate::text::str_eq(circle_ranks[i].0.as_str(), key) {
            ranks = circle_ranks[i].1;
            assert(rv[i as int].0 == key@);
            break;
        }
        i += 1;
    }
    let effective: i64 = if ranks < level as i64 {
        ranks
    } else {
        level as i64
    };
    ((spell_num % 100) as i64) <= effective
}

/// More levels never make a known spell unknown.
pub proof fn lemma_known_monotone_in_level(
    num: u32,
    ranks: Seq<(Seq<char>, i64)>,
    l1: u32,
    l2: u32,
)
    requires
        l1 <= l2,
        is_known_spec(num, ranks, l1),
    ensures
        is_known_spec(num, ranks, l2),
{
}

/// The smaller of two numbers.
pub open spec fn min_int(a: int, b: int) -> int {
    if a < b {
        a
    } else {
        b
    }
}

/// Whether a spell is known is decided by the ranks recorded under the key
/// of the spell's own circle (its number divided by a hundred): a spell of a
/// circle with no ranks key is never known; otherwise it is known exactly
/// when its place in the circle is at most the first ranks recorded under
/// that key (none counting as 0), capped by the level.
pub proof fn lemma_known_by_circle_ranks(n: u32, ranks: Seq<(Seq<char>, i64)>, level: u32)
    ensures
        circle_key_spec(n / 100) is None ==> !is_known_spec(n, ranks, level),
        circle_key_spec(n / 100) matches Some(k) ==> is_known_spec(n, ranks, level) == ((n % 100) as int
            <= min_int(
            match assoc_get(ranks, k) {
                Some(v) => v as int,
                None => 0,
            },
            level as int,
        )),
{
}

/// Bard spells (1000 to 1099) are decided by the Bard ranks: with ranks
/// recorded under `bard` only, spell `n` is known exactly when `n - 1000` is
/// at most those ranks and at most the level.
pub proof fn lemma_bard_spells(n: u32, r: i64, level: u32)
    requires
        1000 <= n < 1100,
    ensures
        is_known_spec(n, seq![("bard"@, r)], level) == ((n - 1000) as int <= r && (n - 1000) as int <= level),
{
    reveal_strlit("bard");
    assert(n / 100 == 10);
    assert(n % 100 == n - 1000);
    lemma_assoc_find(seq![("bard"@, r)], "bard"@, 0);
}

} // verus!
