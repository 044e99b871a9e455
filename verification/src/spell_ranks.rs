//! Spell ranks as scripts read them: ranks by circle, with the legacy
//! spellings of circle names, and which of the listed spells the character
//! knows.
use vstd::prelude::*;
use crate::text;
use crate::game_obj::{assoc_find, assoc_get, assoc_insert, lemma_assoc_find};
use crate::skills::lit_pairs_view;
use crate::stats::num_or_zero;
use crate::infomon::Infomon;
use crate::spell_data::{is_known, is_known_spec, ranks_view};
use crate::spell_list::SpellList;

verus! {

/// Circle names written without underscores, with the names the ranks are
/// kept under.
pub open spec fn circle_alias_table() -> Seq<(Seq<char>, Seq<char>)> {
    seq![
        ("minorelemental"@, "minor_elemental"@),
        ("majorelemental"@, "major_elemental"@),
        ("minorspiritual"@, "minor_spiritual"@),
        ("majorspiritual"@, "major_spiritual"@),
        ("minormental"@, "minor_mental"@),
        ("majormental"@, "major_mental"@)
    ]
}

fn circle_alias_pairs() -> (r: Vec<(&'static str, &'static str)>)
    ensures
        lit_pairs_view(r@) == circle_alias_table(),
{
    let r = vec![
        ("minorelemental", "minor_elemental"),
        ("majorelemental", "major_elemental"),
        ("minorspiritual", "minor_spiritual"),
        ("majorspiritual", "major_spiritual"),
        ("minormental", "minor_mental"),
        ("majormental", "major_mental")
    ];
    assert(lit_pairs_view(r@) =~= circle_alias_table());
    r
}

/// The name a circle's ranks are kept under: the canonical name for a
/// legacy spelling, else `key` itself.
pub open spec fn circle_key(key: Seq<char>) -> Seq<char> {
    match assoc_get(circle_alias_table(), key) {
        Some(c) => c,
        None => key,
    }
}

pub fn circle_key_of(key: &str) -> (r: String)
    ensures
        r@ == circle_key(key@),
{
    let t = circle_alias_pairs();
    let ghost tv = lit_pairs_view(t@);
    proof {
        lemma_assoc_find(tv, key@, 0);
        reveal_strlit("");
    }
    let mut i: usize = 0;
    while i < t.len()
        invariant
            i <= t.len(),
            tv == lit_pairs_view(t@),
            tv == circle_alias_table(),
            assoc_find(tv, key@, 0) == assoc_find(tv, key@, i as int),
        decreases t.len() - i,
    {
        if text::str_eq(t[i].0, key) {
            proof {
                reveal_strlit("");
            }
            assert(assoc_find(tv, key@, i as int) == Some(i as int));
            return text::join3(t[i].1, "", "");
        }
        i += 1;
    }
    text::join3(key, "", "")
}

/// The ranks held in the circle named `key` (0 when none are recorded).
pub fn circle_rank(im: &Infomon, key: &str) -> (r: i64)
    ensures
        r == num_or_zero(im@.cache, "spell."@ + circle_key(key@)),
{
    let c = circle_key_of(key);
    let k = text::join3("spell.", c.as_str(), "");
    proof {
        reveal_strlit("");
        assert(k@ =~= "spell."@ + c@);
    }
    im.get_i64(k.as_str())
}

/// `k` without its leading `spell.`.
pub open spec fn circle_of_key(k: Seq<char>) -> Seq<char> {
    if text::starts_with(k, "spell."@) {
        k.skip("spell."@.len() as int)
    } else {
        k
    }
}

/// The ranks by circle read from the first `n` cached pairs, in the order
/// they come; a later pair for a circle replaces an earlier one, and values
/// that are not numbers are passed over.
pub open spec fn ranks_from(pairs: Seq<(Seq<char>, Seq<char>)>, n: int) -> Seq<(Seq<char>, i64)>
    decreases n,
{
    if n <= 0 || n > pairs.len() {
        seq![]
    } else {
        let m = ranks_from(pairs, n - 1);
        match text::parse_i64_spec(pairs[n - 1].1) {
            Some(x) => assoc_insert(m, circle_of_key(pairs[n - 1].0), x as i64),
            None => m,
        }
    }
}

/// The cached pairs about spell circles (keys starting `spell.`).
pub open spec fn spell_pairs(cache: Seq<(Seq<char>, Seq<char>)>) -> Seq<(Seq<char>, Seq<char>)> {
    cache.filter(|p: (Seq<char>, Seq<char>)| text::starts_with(p.0, "spell."@))
}

/// The ranks by circle that the cached data holds.
pub open spec fn circle_ranks_spec(cache: Seq<(Seq<char>, Seq<char>)>) -> Seq<(Seq<char>, i64)> {
    ranks_from(spell_pairs(cache), spell_pairs(cache).len() as int)
}

fn insert_rank(m: &mut Vec<(String, i64)>, k: String, v: i64)
    ensures
        ranks_view(final(m)@) == assoc_insert(ranks_view(old(m)@), k@, v),
{
    let ghost before = ranks_view(m@);
    proof {
        lemma_assoc_find(before, k@, 0);
    }
    let mut i: usize = 0;
    while i < m.len()
        invariant
            i <= m.len(),
            m@ == old(m)@,
            before == ranks_view(m@),
            assoc_find(before, k@, 0) == assoc_find(before, k@, i as int),
        decreases m.len() - i,
    {
        if text::str_eq(m[i].0.as_str(), k.as_str()) {
            assert(assoc_find(before, k@, i as int) == Some(i as int));
            m.set(i, (k, v));
            assert(ranks_view(m@) =~= before.update(i as int, (before[i as int].0, v)));
            return;
        }
        i += 1;
    }
    m.push((k, v));
    assert(ranks_view(m@) =~= before.push((k@, v)));
}

/// The ranks by circle that the cached data holds: every `spell.<circle>`
/// pair whose value is a number, keyed by circle.
pub fn circle_ranks(im: &Infomon) -> (r: Vec<(String, i64)>)
    ensures
        ranks_view(r@) == circle_ranks_spec(im@.cache),
{
    let pairs = im.get_prefix("spell.");
    let ghost pv = crate::game_obj::pairs_view(pairs@);
    assert(pv == spell_pairs(im@.cache));
    proof {
        reveal_strlit("spell.");
    }
    let mut out: Vec<(String, i64)> = Vec::new();
    assert(ranks_view(out@) =~= seq![]);
    let mut i: usize = 0;
    while i < pairs.len()
        invariant
            i <= pairs.len(),
            pv == crate::game_obj::pairs_view(pairs@),
            "spell."@.len() == 6,
            ranks_view(out@) == ranks_from(pv, i as int),
        decreases pairs.len() - i,
    {
        let kc = text::chars_of(pairs[i].0.as_str());
        let name = if text::starts_with_lit(&kc, "spell.") {
            text::string_of(&text::slice_of(&kc, 6, kc.len()))
        } else {
            text::string_of(&kc)
        };
        assert(name@ == circle_of_key(pv[i as int].0)) by {
            if text::starts_with(kc@, "spell."@) {
                assert(kc@.subrange(6, kc@.len() as int) =~= kc@.skip(6));
            }
        }
        match text::parse_i64(&text::chars_of(pairs[i].1.as_str())) {
            Some(x) => {
                insert_rank(&mut out, name, x);
            },
            None => {},
        }
        i += 1;
    }
    out
}

/// The positions in `sl` of the spells the character knows at `level`,
/// in list order.
pub open spec fn known_positions(spells: Seq<crate::spell_list::SpellV>, ranks: Seq<(Seq<char>, i64)>, level: u32, n: int) -> Seq<int>
    decreases n,
{
    if n <= 0 || n > spells.len() {
        seq![]
    } else if is_known_spec(spells[n - 1].num, ranks, level) {
        known_positions(spells, ranks, level, n - 1).push(n - 1)
    } else {
        known_positions(spells, ranks, level, n - 1)
    }
}

pub open spec fn usizes_view(v: Seq<usize>) -> Seq<int> {
    v.map_values(|i: usize| i as int)
}

/// The positions in the spell list of the spells that the character knows
/// at `level`, judged by the ranks the cached data holds.
pub fn known_spells(sl: &SpellList, im: &Infomon, level: u32) -> (r: Vec<usize>)
    ensures
        usizes_view(r@) == known_positions(sl@, circle_ranks_spec(im@.cache), level, sl@.len() as int),
{
    let ranks = circle_ranks(im);
    let all = sl.all();
    let mut out: Vec<usize> = Vec::new();
    assert(usizes_view(out@) =~= seq![]);
    let mut i: usize = 0;
    while i < all.len()
        invariant
            i <= all.len(),
            crate::spell_list::spells_view(all@) == sl@,
            ranks_view(ranks@) == circle_ranks_spec(im@.cache),
            usizes_view(out@) == known_positions(sl@, circle_ranks_spec(im@.cache), level, i as int),
        decreases all.len() - i,
    {
        if is_known(all[i].num, &ranks, level) {
            out.push(i);
            assert(usizes_view(out@) =~= known_positions(sl@, circle_ranks_spec(im@.cache), level, i as int).push(i as int));
        }
        i += 1;
    }
    out
}

} // verus!
