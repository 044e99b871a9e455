//! Spell definitions read from effect-list.xml, in either of its two
//! layouts (old: elements such as `<mana_cost>`; newer: `<cost type=…>`,
//! `<duration cast-type=…>`, `<message type=…>`), and their lookup by
//! number and by name.
use vstd::prelude::*;
use crate::text;
use crate::game_obj::{assoc_find, assoc_get, assoc_insert, pairs_view, find_pair, insert_pair, lemma_assoc_find};
use crate::xml_events::{XmlEv, XmlEvV, attrs_view, events_view, read_xml_events, xml_tokens};

verus! {

/// How long a spell lasts for one way of casting it. `max_duration` is the
/// `max` attribute as written (empty when absent); its number is for the
/// caller to read.
#[derive(Debug, Clone)]
pub struct DurationDef {
    pub formula: String,
    pub stackable: bool,
    pub refreshable: bool,
    pub multicastable: bool,
    pub max_duration: String,
    pub real_time: bool,
}

pub struct DurationV {
    pub formula: Seq<char>,
    pub stackable: bool,
    pub refreshable: bool,
    pub multicastable: bool,
    pub max_duration: Seq<char>,
    pub real_time: bool,
}

impl View for DurationDef {
    type V = DurationV;

    open spec fn view(&self) -> DurationV {
        DurationV {
            formula: self.formula@,
            stackable: self.stackable,
            refreshable: self.refreshable,
            multicastable: self.multicastable,
            max_duration: self.max_duration@,
            real_time: self.real_time,
        }
    }
}

#[derive(Debug, Clone)]
pub struct SpellDef {
    pub num: u32,
    pub name: String,
    pub spell_type: String,
    pub circle: String,
    pub availability: String,
    pub no_incant: bool,
    pub stance: bool,
    pub channel: bool,
    pub msgup: Option<String>,
    pub msgdn: Option<String>,
    /// Cost formulas: cost type → (cast type → formula).
    pub cost: Vec<(String, Vec<(String, String)>)>,
    /// Durations by cast type.
    pub duration: Vec<(String, DurationDef)>,
    /// Bonus formulas by bonus type.
    pub bonus: Vec<(String, String)>,
    pub cast_proc: Option<String>,
    pub stackable: bool,
    pub refreshable: bool,
    pub multicastable: bool,
    pub real_time: bool,
    /// The `max` of the first duration, as written.
    pub max_duration: String,
    pub persist_on_death: bool,
}

pub struct SpellV {
    pub num: u32,
    pub name: Seq<char>,
    pub spell_type: Seq<char>,
    pub circle: Seq<char>,
    pub availability: Seq<char>,
    pub no_incant: bool,
    pub stance: bool,
    pub channel: bool,
    pub msgup: Option<Seq<char>>,
    pub msgdn: Option<Seq<char>>,
    pub cost: Seq<(Seq<char>, Seq<(Seq<char>, Seq<char>)>)>,
    pub duration: Seq<(Seq<char>, DurationV)>,
    pub bonus: Seq<(Seq<char>, Seq<char>)>,
    pub cast_proc: Option<Seq<char>>,
    pub stackable: bool,
    pub refreshable: bool,
    pub multicastable: bool,
    pub real_time: bool,
    pub max_duration: Seq<char>,
    pub persist_on_death: bool,
}

pub open spec fn opt_view(o: Option<String>) -> Option<Seq<char>> {
    match o {
        Some(s) => Some(s@),
        None => None,
    }
}

pub open spec fn costs_view(c: Seq<(String, Vec<(String, String)>)>) -> Seq<(Seq<char>, Seq<(Seq<char>, Seq<char>)>)> {
    c.map_values(|p: (String, Vec<(String, String)>)| (p.0@, pairs_view(p.1@)))
}

pub open spec fn durations_view(d: Seq<(String, DurationDef)>) -> Seq<(Seq<char>, DurationV)> {
    d.map_values(|p: (String, DurationDef)| (p.0@, p.1@))
}

impl View for SpellDef {
    type V = SpellV;

    open spec fn view(&self) -> SpellV {
        SpellV {
            num: self.num,
            name: self.name@,
            spell_type: self.spell_type@,
            circle: self.circle@,
            availability: self.availability@,
            no_incant: self.no_incant,
            stance: self.stance,
            channel: self.channel,
            msgup: opt_view(self.msgup),
            msgdn: opt_view(self.msgdn),
            cost: costs_view(self.cost@),
            duration: durations_view(self.duration@),
            bonus: pairs_view(self.bonus@),
            cast_proc: opt_view(self.cast_proc),
            stackable: self.stackable,
            refreshable: self.refreshable,
            multicastable: self.multicastable,
            real_time: self.real_time,
            max_duration: self.max_duration@,
            persist_on_death: self.persist_on_death,
        }
    }
}

pub open spec fn spells_view(s: Seq<SpellDef>) -> Seq<SpellV> {
    s.map_values(|d: SpellDef| d@)
}

pub open spec fn blank_spell() -> SpellV {
    SpellV {
        num: 0,
        name: seq![],
        spell_type: seq![],
        circle: seq![],
        availability: seq![],
        no_incant: false,
        stance: false,
        channel: false,
        msgup: None,
        msgdn: None,
        cost: seq![],
        duration: seq![],
        bonus: seq![],
        cast_proc: None,
        stackable: false,
        refreshable: false,
        multicastable: false,
        real_time: false,
        max_duration: seq![],
        persist_on_death: false,
    }
}

/// The formula of `inner` under `cast` in the map of `outer`.
pub open spec fn formula_of(m: Seq<(Seq<char>, Seq<(Seq<char>, Seq<char>)>)>, outer: Seq<char>, cast: Seq<char>) -> Option<Seq<char>> {
    match assoc_get(m, outer) {
        Some(inner) => assoc_get(inner, cast),
        None => None,
    }
}

pub open spec fn opt_ref_str(o: Option<&str>) -> Option<Seq<char>> {
    match o {
        Some(s) => Some(s@),
        None => None,
    }
}

impl SpellDef {
    pub fn new() -> (r: SpellDef)
        ensures
            r@ == blank_spell(),
    {
        let r = SpellDef {
            num: 0,
            name: String::new(),
            spell_type: String::new(),
            circle: String::new(),
            availability: String::new(),
            no_incant: false,
            stance: false,
            channel: false,
            msgup: None,
            msgdn: None,
            cost: Vec::new(),
            duration: Vec::new(),
            bonus: Vec::new(),
            cast_proc: None,
            stackable: false,
            refreshable: false,
            multicastable: false,
            real_time: false,
            max_duration: String::new(),
            persist_on_death: false,
        };
        assert(costs_view(r.cost@) =~= seq![]);
        assert(durations_view(r.duration@) =~= seq![]);
        assert(pairs_view(r.bonus@) =~= seq![]);
        r
    }

    fn cost_formula(&self, cost_type: &str) -> (r: Option<&str>)
        ensures
            opt_ref_str(r) == formula_of(self@.cost, cost_type@, "self"@),
    {
        let ghost cv = costs_view(self.cost@);
        proof {
            lemma_assoc_find(cv, cost_type@, 0);
        }
        let mut i: usize = 0;
        while i < self.cost.len()
            invariant
                i <= self.cost.len(),
                cv == costs_view(self.cost@),
                assoc_find(cv, cost_type@, 0) == assoc_find(cv, cost_type@, i as int),
            decreases self.cost.len() - i,
        {
            if text::str_eq(self.cost[i].0.as_str(), cost_type) {
                let inner = &self.cost[i].1;
                proof {
                    lemma_assoc_find(pairs_view(inner@), "self"@, 0);
                }
                return match find_pair(inner, "self") {
                    Some(j) => Some(inner[j].1.as_str()),
                    None => None,
                };
            }
            i += 1;
        }
        None
    }

    /// Mana cost formula for a self-cast.
    pub fn mana_cost(&self) -> (r: Option<&str>)
        ensures
            opt_ref_str(r) == formula_of(self@.cost, "mana"@, "self"@),
    {
        self.cost_formula("mana")
    }

    pub fn spirit_cost(&self) -> (r: Option<&str>)
        ensures
            opt_ref_str(r) == formula_of(self@.cost, "spirit"@, "self"@),
    {
        self.cost_formula("spirit")
    }

    pub fn stamina_cost(&self) -> (r: Option<&str>)
        ensures
            opt_ref_str(r) == formula_of(self@.cost, "stamina"@, "self"@),
    {
        self.cost_formula("stamina")
    }

    fn duration_formula(&self, cast: &str) -> (r: Option<&str>)
        ensures
            opt_ref_str(r) == match assoc_get(self@.duration, cast@) {
                Some(d) => Some(d.formula),
                None => None,
            },
    {
        let ghost dv = durations_view(self.duration@);
        proof {
            lemma_assoc_find(dv, cast@, 0);
        }
        let mut i: usize = 0;
        while i < self.duration.len()
            invariant
                i <= self.duration.len(),
                dv == durations_view(self.duration@),
                assoc_find(dv, cast@, 0) == assoc_find(dv, cast@, i as int),
            decreases self.duration.len() - i,
        {
            if text::str_eq(self.duration[i].0.as_str(), cast) {
                return Some(self.duration[i].1.formula.as_str());
            }
            i += 1;
        }
        None
    }

    pub fn duration_self(&self) -> (r: Option<&str>)
        ensures
            opt_ref_str(r) == match assoc_get(self@.duration, "self"@) {
                Some(d) => Some(d.formula),
                None => None,
            },
    {
        self.duration_formula("self")
    }

    pub fn duration_target(&self) -> (r: Option<&str>)
        ensures
            opt_ref_str(r) == match assoc_get(self@.duration, "target"@) {
                Some(d) => Some(d.formula),
                None => None,
            },
    {
        self.duration_formula("target")
    }
}

// ── Reading the definitions ─────────────────────────────────────────────────

/// A yes/no attribute value: `true` or `yes`.
pub open spec fn flag(v: Seq<char>) -> bool {
    v == "true"@ || v == "yes"@
}

fn flag_exec(v: &[char]) -> (r: bool)
    ensures
        r == flag(v@),
{
    text::eq_lit(v, "true") || text::eq_lit(v, "yes")
}

/// One attribute of an `<effect>` or `<spell>` tag.
pub open spec fn spell_attr(s: SpellV, key: Seq<char>, v: Seq<char>) -> SpellV {
    if key == "num"@ || key == "number"@ {
        SpellV { num: text::u32_or(v, 0), ..s }
    } else if key == "name"@ {
        SpellV { name: v, ..s }
    } else if key == "type"@ {
        SpellV { spell_type: v, ..s }
    } else if key == "circle"@ {
        SpellV { circle: v, ..s }
    } else if key == "availability"@ {
        SpellV { availability: v, ..s }
    } else if key == "no_incant"@ || key == "noincant"@ {
        SpellV { no_incant: flag(v), ..s }
    } else if key == "stance"@ {
        SpellV { stance: flag(v), ..s }
    } else if key == "channel"@ {
        SpellV { channel: flag(v), ..s }
    } else if key == "stackable"@ {
        SpellV { stackable: flag(v), ..s }
    } else if key == "refreshable"@ {
        SpellV { refreshable: flag(v), ..s }
    } else if key == "persist_on_death"@ {
        SpellV { persist_on_death: flag(v), ..s }
    } else {
        s
    }
}

/// The spell the first `n` attributes describe; none when a value could not
/// be unescaped.
pub open spec fn spell_from_attrs(a: Seq<(Seq<char>, Option<Seq<char>>)>, n: int) -> Option<SpellV>
    decreases n,
{
    if n <= 0 || n > a.len() {
        Some(blank_spell())
    } else {
        match spell_from_attrs(a, n - 1) {
            None => None,
            Some(s) => match a[n - 1].1 {
                None => None,
                Some(v) => Some(spell_attr(s, a[n - 1].0, v)),
            },
        }
    }
}

/// The attributes of a tag as a map (a later value for a key wins); none
/// when a value could not be unescaped.
pub open spec fn collect_attrs(a: Seq<(Seq<char>, Option<Seq<char>>)>, n: int) -> Option<Seq<(Seq<char>, Seq<char>)>>
    decreases n,
{
    if n <= 0 || n > a.len() {
        Some(seq![])
    } else {
        match collect_attrs(a, n - 1) {
            None => None,
            Some(m) => match a[n - 1].1 {
                None => None,
                Some(v) => Some(assoc_insert(m, a[n - 1].0, v)),
            },
        }
    }
}

pub open spec fn attr_or(m: Seq<(Seq<char>, Seq<char>)>, k: Seq<char>, dflt: Seq<char>) -> Seq<char> {
    match assoc_get(m, k) {
        Some(v) => v,
        None => dflt,
    }
}

/// A yes/no attribute that is false when absent.
pub open spec fn attr_flag(m: Seq<(Seq<char>, Seq<char>)>, k: Seq<char>) -> bool {
    match assoc_get(m, k) {
        Some(v) => flag(v),
        None => false,
    }
}

/// The cost map with `f` recorded for `outer` and `cast`.
pub open spec fn set_formula(
    c: Seq<(Seq<char>, Seq<(Seq<char>, Seq<char>)>)>,
    outer: Seq<char>,
    cast: Seq<char>,
    f: Seq<char>,
) -> Seq<(Seq<char>, Seq<(Seq<char>, Seq<char>)>)> {
    let inner = match assoc_get(c, outer) {
        Some(i) => i,
        None => seq![],
    };
    assoc_insert(c, outer, assoc_insert(inner, cast, f))
}

/// The durations with `d` added under `k` unless `k` already has one.
pub open spec fn or_insert(m: Seq<(Seq<char>, DurationV)>, k: Seq<char>, d: DurationV) -> Seq<(Seq<char>, DurationV)> {
    match assoc_find(m, k, 0) {
        Some(_) => m,
        None => m.push((k, d)),
    }
}

pub open spec fn plain_duration(s: SpellV, t: Seq<char>) -> DurationV {
    DurationV {
        formula: t,
        stackable: s.stackable,
        refreshable: s.refreshable,
        multicastable: false,
        max_duration: seq![],
        real_time: false,
    }
}

/// The text `t` of a child element `tag` of a spell.
pub open spec fn child_text(s: SpellV, tag: Seq<char>, attrs: Seq<(Seq<char>, Seq<char>)>, t: Seq<char>) -> SpellV {
    if tag == "msgup"@ {
        SpellV { msgup: Some(t), ..s }
    } else if tag == "msgdn"@ {
        SpellV { msgdn: Some(t), ..s }
    } else if tag == "duration"@ || tag == "duration_self"@ {
        SpellV { duration: or_insert(s.duration, "self"@, plain_duration(s, t)), ..s }
    } else if tag == "duration_target"@ {
        SpellV { duration: or_insert(s.duration, "target"@, plain_duration(s, t)), ..s }
    } else if tag == "mana_cost"@ {
        SpellV { cost: set_formula(s.cost, "mana"@, "self"@, t), ..s }
    } else if tag == "spirit_cost"@ {
        SpellV { cost: set_formula(s.cost, "spirit"@, "self"@, t), ..s }
    } else if tag == "stamina_cost"@ {
        SpellV { cost: set_formula(s.cost, "stamina"@, "self"@, t), ..s }
    } else if tag == "message"@ {
        let ty = attr_or(attrs, "type"@, ""@);
        if ty == "start"@ {
            SpellV { msgup: Some(t), ..s }
        } else if ty == "end"@ {
            SpellV { msgdn: Some(t), ..s }
        } else {
            s
        }
    } else if tag == "cost"@ {
        let ct = attr_or(attrs, "type"@, ""@);
        if ct.len() > 0 {
            SpellV { cost: set_formula(s.cost, ct, attr_or(attrs, "cast-type"@, "self"@), t), ..s }
        } else {
            s
        }
    } else if tag == "bonus"@ {
        let bt = attr_or(attrs, "type"@, ""@);
        if bt.len() > 0 {
            SpellV { bonus: assoc_insert(s.bonus, bt, t), ..s }
        } else {
            s
        }
    } else if tag == "cast-proc"@ {
        SpellV { cast_proc: Some(t), ..s }
    } else {
        s
    }
}

/// The text `t` of a `<duration>` element with attributes; the first
/// duration of a spell also sets the spell's own flags.
pub open spec fn duration_text(s: SpellV, attrs: Seq<(Seq<char>, Seq<char>)>, t: Seq<char>) -> SpellV {
    let span = attr_or(attrs, "span"@, ""@);
    let d = DurationV {
        formula: t,
        stackable: span == "stackable"@,
        refreshable: span == "refreshable"@,
        multicastable: attr_flag(attrs, "multicastable"@),
        max_duration: attr_or(attrs, "max"@, ""@),
        real_time: attr_flag(attrs, "real-time"@),
    };
    let s2 = SpellV { duration: assoc_insert(s.duration, attr_or(attrs, "cast-type"@, "self"@), d), ..s };
    if s.duration.len() == 0 {
        SpellV {
            stackable: d.stackable,
            refreshable: d.refreshable,
            multicastable: d.multicastable,
            persist_on_death: attr_flag(attrs, "persist-on-death"@),
            real_time: d.real_time,
            max_duration: d.max_duration,
            ..s2
        }
    } else {
        s2
    }
}

fn apply_spell_attr(sp: &mut SpellDef, key: &str, v: &str)
    ensures
        final(sp)@ == spell_attr(old(sp)@, key@, v@),
{
    let k = text::chars_of(key);
    let vc = text::chars_of(v);
    if text::eq_lit(&k, "num") || text::eq_lit(&k, "number") {
        sp.num = text::parse_u32_or(&vc, 0);
    } else if text::eq_lit(&k, "name") {
        sp.name = v.to_owned();
    } else if text::eq_lit(&k, "type") {
        sp.spell_type = v.to_owned();
    } else if text::eq_lit(&k, "circle") {
        sp.circle = v.to_owned();
    } else if text::eq_lit(&k, "availability") {
        sp.availability = v.to_owned();
    } else if text::eq_lit(&k, "no_incant") || text::eq_lit(&k, "noincant") {
        sp.no_incant = flag_exec(&vc);
    } else if text::eq_lit(&k, "stance") {
        sp.stance = flag_exec(&vc);
    } else if text::eq_lit(&k, "channel") {
        sp.channel = flag_exec(&vc);
    } else if text::eq_lit(&k, "stackable") {
        sp.stackable = flag_exec(&vc);
    } else if text::eq_lit(&k, "refreshable") {
        sp.refreshable = flag_exec(&vc);
    } else if text::eq_lit(&k, "persist_on_death") {
        sp.persist_on_death = flag_exec(&vc);
    }
}

fn spell_from_attrs_exec(a: &Vec<(String, Option<String>)>) -> (r: Option<SpellDef>)
    ensures
        match r {
            Some(sp) => spell_from_attrs(attrs_view(a@), a@.len() as int) == Some(sp@),
            None => spell_from_attrs(attrs_view(a@), a@.len() as int) is None,
        },
{
    let ghost av = attrs_view(a@);
    let mut sp = SpellDef::new();
    let mut i: usize = 0;
    while i < a.len()
        invariant
            i <= a.len(),
            av == attrs_view(a@),
            spell_from_attrs(av, i as int) == Some(sp@),
        decreases a.len() - i,
    {
        let v = match &a[i].1 {
            Some(v) => v,
            None => {
                proof {
                    lemma_attrs_none_sticks(av, i + 1, av.len() as int);
                }
                return None;
            },
        };
        apply_spell_attr(&mut sp, a[i].0.as_str(), v.as_str());
        i += 1;
    }
    Some(sp)
}

proof fn lemma_attrs_none_sticks(a: Seq<(Seq<char>, Option<Seq<char>>)>, j: int, n: int)
    requires
        0 < j <= n <= a.len(),
        a[j - 1].1 is None,
    ensures
        spell_from_attrs(a, n) is None,
        collect_attrs(a, n) is None,
    decreases n - j,
{
    if j < n {
        lemma_attrs_none_sticks(a, j, n - 1);
    }
}

fn collect_attrs_exec(a: &Vec<(String, Option<String>)>) -> (r: Option<Vec<(String, String)>>)
    ensures
        match r {
            Some(m) => collect_attrs(attrs_view(a@), a@.len() as int) == Some(pairs_view(m@)),
            None => collect_attrs(attrs_view(a@), a@.len() as int) is None,
        },
{
    let ghost av = attrs_view(a@);
    let mut m: Vec<(String, String)> = Vec::new();
    assert(pairs_view(m@) =~= seq![]);
    let mut i: usize = 0;
    while i < a.len()
        invariant
            i <= a.len(),
            av == attrs_view(a@),
            collect_attrs(av, i as int) == Some(pairs_view(m@)),
        decreases a.len() - i,
    {
        match &a[i].1 {
            Some(v) => {
                insert_pair(&mut m, a[i].0.as_str(), v.as_str());
            },
            None => {
                proof {
                    lemma_attrs_none_sticks(av, i + 1, av.len() as int);
                }
                return None;
            },
        }
        i += 1;
    }
    Some(m)
}

fn attr_or_exec(m: &Vec<(String, String)>, k: &str, dflt: &str) -> (r: Vec<char>)
    ensures
        r@ == attr_or(pairs_view(m@), k@, dflt@),
{
    proof {
        lemma_assoc_find(pairs_view(m@), k@, 0);
    }
    match find_pair(m, k) {
        Some(i) => text::chars_of(m[i].1.as_str()),
        None => text::chars_of(dflt),
    }
}

fn attr_flag_exec(m: &Vec<(String, String)>, k: &str) -> (r: bool)
    ensures
        r == attr_flag(pairs_view(m@), k@),
{
    proof {
        lemma_assoc_find(pairs_view(m@), k@, 0);
    }
    match find_pair(m, k) {
        Some(i) => flag_exec(&text::chars_of(m[i].1.as_str())),
        None => false,
    }
}

fn set_formula_exec(c: &mut Vec<(String, Vec<(String, String)>)>, outer: &str, cast: &str, f: &str)
    ensures
        costs_view(final(c)@) == set_formula(costs_view(old(c)@), outer@, cast@, f@),
{
    let ghost cv = costs_view(c@);
    proof {
        lemma_assoc_find(cv, outer@, 0);
    }
    let mut i: usize = 0;
    while i < c.len()
        invariant
            i <= c.len(),
            cv == costs_view(c@),
            c@ == old(c)@,
            assoc_find(cv, outer@, 0) == assoc_find(cv, outer@, i as int),
        decreases c.len() - i,
    {
        if text::str_eq(c[i].0.as_str(), outer) {
            assert(cv[i as int].0 == outer@);
            assert(assoc_find(cv, outer@, i as int) == Some(i as int));
            let (k, mut inner) = c.remove(i);
            insert_pair(&mut inner, cast, f);
            c.insert(i, (k, inner));
            assert(costs_view(c@) =~= cv.update(i as int, (outer@, assoc_insert(cv[i as int].1, cast@, f@))));
            assert(assoc_get(cv, outer@) == Some(cv[i as int].1));
            assert(set_formula(cv, outer@, cast@, f@) == cv.update(i as int, (outer@, assoc_insert(cv[i as int].1, cast@, f@))));
            return;
        }
        i += 1;
    }
    let mut inner: Vec<(String, String)> = Vec::new();
    assert(pairs_view(inner@) =~= seq![]);
    insert_pair(&mut inner, cast, f);
    c.push((outer.to_owned(), inner));
    assert(costs_view(c@) =~= cv.push((outer@, assoc_insert(seq![], cast@, f@))));
}

fn duration_index(d: &Vec<(String, DurationDef)>, k: &str) -> (r: Option<usize>)
    ensures
        text::opt_int(r) == assoc_find(durations_view(d@), k@, 0),
{
    let ghost dv = durations_view(d@);
    let mut i: usize = 0;
    while i < d.len()
        invariant
            i <= d.len(),
            dv == durations_view(d@),
            assoc_find(dv, k@, 0) == assoc_find(dv, k@, i as int),
        decreases d.len() - i,
    {
        if text::str_eq(d[i].0.as_str(), k) {
            return Some(i);
        }
        i += 1;
    }
    None
}

fn plain_duration_exec(sp: &SpellDef, t: &str) -> (r: DurationDef)
    ensures
        r@ == plain_duration(sp@, t@),
{
    DurationDef {
        formula: t.to_owned(),
        stackable: sp.stackable,
        refreshable: sp.refreshable,
        multicastable: false,
        max_duration: String::new(),
        real_time: false,
    }
}

fn or_insert_exec(d: &mut Vec<(String, DurationDef)>, k: &str, v: DurationDef)
    ensures
        durations_view(final(d)@) == or_insert(durations_view(old(d)@), k@, v@),
{
    match duration_index(d, k) {
        Some(_) => {},
        None => {
            let ghost before = durations_view(d@);
            d.push((k.to_owned(), v));
            assert(durations_view(d@) =~= before.push((k@, v@)));
        },
    }
}

fn insert_duration(d: &mut Vec<(String, DurationDef)>, k: &[char], v: DurationDef)
    ensures
        durations_view(final(d)@) == assoc_insert(durations_view(old(d)@), k@, v@),
{
    let ks = text::string_of(k);
    let ghost before = durations_view(d@);
    proof {
        lemma_assoc_find(before, k@, 0);
    }
    match duration_index(d, ks.as_str()) {
        Some(i) => {
            d.set(i, (ks, v));
            assert(durations_view(d@) =~= before.update(i as int, (k@, v@)));
        },
        None => {
            d.push((ks, v));
            assert(durations_view(d@) =~= before.push((k@, v@)));
        },
    }
}

fn child_text_exec(sp: &mut SpellDef, tag: &str, attrs: &Vec<(String, String)>, t: &str)
    ensures
        final(sp)@ == child_text(old(sp)@, tag@, pairs_view(attrs@), t@),
{
    proof {
        reveal_strlit("");
    }
    let tg = text::chars_of(tag);
    if text::eq_lit(&tg, "msgup") {
        sp.msgup = Some(t.to_owned());
    } else if text::eq_lit(&tg, "msgdn") {
        sp.msgdn = Some(t.to_owned());
    } else if text::eq_lit(&tg, "duration") || text::eq_lit(&tg, "duration_self") {
        let d = plain_duration_exec(sp, t);
        or_insert_exec(&mut sp.duration, "self", d);
    } else if text::eq_lit(&tg, "duration_target") {
        let d = plain_duration_exec(sp, t);
        or_insert_exec(&mut sp.duration, "target", d);
    } else if text::eq_lit(&tg, "mana_cost") {
        set_formula_exec(&mut sp.cost, "mana", "self", t);
    } else if text::eq_lit(&tg, "spirit_cost") {
        set_formula_exec(&mut sp.cost, "spirit", "self", t);
    } else if text::eq_lit(&tg, "stamina_cost") {
        set_formula_exec(&mut sp.cost, "stamina", "self", t);
    } else if text::eq_lit(&tg, "message") {
        let ty = attr_or_exec(attrs, "type", "");
        if text::eq_lit(&ty, "start") {
            sp.msgup = Some(t.to_owned());
        } else if text::eq_lit(&ty, "end") {
            sp.msgdn = Some(t.to_owned());
        }
    } else if text::eq_lit(&tg, "cost") {
        let ct = attr_or_exec(attrs, "type", "");
        if ct.len() > 0 {
            let cast = attr_or_exec(attrs, "cast-type", "self");
            let cts = text::string_of(&ct);
            let casts = text::string_of(&cast);
            set_formula_exec(&mut sp.cost, cts.as_str(), casts.as_str(), t);
        }
    } else if text::eq_lit(&tg, "bonus") {
        let bt = attr_or_exec(attrs, "type", "");
        if bt.len() > 0 {
            let bts = text::string_of(&bt);
            insert_pair(&mut sp.bonus, bts.as_str(), t);
        }
    } else if text::eq_lit(&tg, "cast-proc") {
        sp.cast_proc = Some(t.to_owned());
    }
}

fn duration_text_exec(sp: &mut SpellDef, attrs: &Vec<(String, String)>, t: &str)
    ensures
        final(sp)@ == duration_text(old(sp)@, pairs_view(attrs@), t@),
{
    proof {
        reveal_strlit("");
    }
    let span = attr_or_exec(attrs, "span", "");
    let d = DurationDef {
        formula: t.to_owned(),
        stackable: text::eq_lit(&span, "stackable"),
        refreshable: text::eq_lit(&span, "refreshable"),
        multicastable: attr_flag_exec(attrs, "multicastable"),
        max_duration: text::string_of(&attr_or_exec(attrs, "max", "")),
        real_time: attr_flag_exec(attrs, "real-time"),
    };
    let persist = attr_flag_exec(attrs, "persist-on-death");
    let cast = attr_or_exec(attrs, "cast-type", "self");
    let is_first = sp.duration.len() == 0;
    let (st, rf, mc, rt) = (d.stackable, d.refreshable, d.multicastable, d.real_time);
    let mx = d.max_duration.clone();
    insert_duration(&mut sp.duration, &cast, d);
    if is_first {
        sp.stackable = st;
        sp.refreshable = rf;
        sp.multicastable = mc;
        sp.persist_on_death = persist;
        sp.real_time = rt;
        sp.max_duration = mx;
    }
}

/// Why effect-list.xml could not be read.
#[derive(Debug, Clone, Copy, PartialEq, Eq, Structural)]
pub enum SpellListError {
    /// An attribute value whose escapes could not be resolved.
    BadAttribute,
    /// Element text that is not UTF-8.
    BadText,
}

/// What has been read of effect-list.xml after some of its tokens: the
/// finished spells, the spell being read, the child element whose text is
/// awaited (its tag and attributes), whether reading has stopped, and why
/// it failed if it did.
pub struct SlRead {
    pub spells: Seq<SpellV>,
    pub cur: Option<SpellV>,
    pub child: Option<(Seq<char>, Seq<(Seq<char>, Seq<char>)>)>,
    pub done: bool,
    pub fail: Option<SpellListError>,
}

pub open spec fn sl_initial() -> SlRead {
    SlRead { spells: seq![], cur: None, child: None, done: false, fail: None }
}

pub open spec fn is_spell_tag(t: Seq<char>) -> bool {
    t == "effect"@ || t == "spell"@
}

pub open spec fn sl_fail(s: SlRead, k: SpellListError) -> SlRead {
    SlRead { done: true, fail: Some(k), ..s }
}

/// The text `t` of the awaited child element applied to the current spell:
/// a `<duration>` with attributes goes by them, every other element by its
/// tag.
pub open spec fn sl_text(s: SlRead, t: Seq<char>) -> SlRead {
    match (s.cur, s.child) {
        (Some(sp), Some((tag, attrs))) => if tag == "duration"@ && attrs.len() > 0 {
            SlRead { cur: Some(duration_text(sp, attrs, t)), ..s }
        } else {
            SlRead { cur: Some(child_text(sp, tag, attrs, t)), ..s }
        },
        _ => s,
    }
}

/// One token of effect-list.xml. Reading stops at the end of the document
/// or at a syntax error; an attribute that cannot be unescaped, or text
/// that is not UTF-8, fails the whole read.
pub open spec fn sl_step(s: SlRead, e: XmlEvV) -> SlRead {
    if s.done {
        s
    } else {
        match e {
            XmlEvV::Start(tag, attrs) => if is_spell_tag(tag) {
                match spell_from_attrs(attrs, attrs.len() as int) {
                    None => sl_fail(s, SpellListError::BadAttribute),
                    Some(sp) => SlRead { cur: Some(sp), ..s },
                }
            } else if s.cur is Some {
                match collect_attrs(attrs, attrs.len() as int) {
                    None => sl_fail(s, SpellListError::BadAttribute),
                    Some(m) => SlRead { child: Some((tag, m)), ..s },
                }
            } else {
                s
            },
            XmlEvV::Empty(tag, attrs) => if is_spell_tag(tag) {
                match spell_from_attrs(attrs, attrs.len() as int) {
                    None => sl_fail(s, SpellListError::BadAttribute),
                    Some(sp) => SlRead { spells: s.spells.push(sp), ..s },
                }
            } else {
                s
            },
            XmlEvV::Text(t) => if s.cur is Some && s.child is Some {
                match t {
                    None => sl_fail(s, SpellListError::BadText),
                    Some(x) => sl_text(s, x),
                }
            } else {
                s
            },
            XmlEvV::End(tag) => if is_spell_tag(tag) {
                SlRead {
                    spells: match s.cur {
                        Some(sp) => s.spells.push(sp),
                        None => s.spells,
                    },
                    cur: None,
                    child: None,
                    ..s
                }
            } else {
                SlRead { child: None, ..s }
            },
            XmlEvV::Eof | XmlEvV::Error => SlRead { done: true, ..s },
            XmlEvV::Other => s,
        }
    }
}

pub open spec fn sl_run(evs: Seq<XmlEvV>, n: int) -> SlRead
    decreases n,
{
    if n <= 0 {
        sl_initial()
    } else {
        sl_step(sl_run(evs, n - 1), evs[n - 1])
    }
}

pub open spec fn opt_spell(o: Option<SpellDef>) -> Option<SpellV> {
    match o {
        Some(d) => Some(d@),
        None => None,
    }
}

pub open spec fn child_view(o: Option<(String, Vec<(String, String)>)>) -> Option<(Seq<char>, Seq<(Seq<char>, Seq<char>)>)> {
    match o {
        Some(c) => Some((c.0@, pairs_view(c.1@))),
        None => None,
    }
}

struct SlState {
    spells: Vec<SpellDef>,
    cur: Option<SpellDef>,
    child: Option<(String, Vec<(String, String)>)>,
    done: bool,
}

impl View for SlState {
    type V = SlRead;

    closed spec fn view(&self) -> SlRead {
        SlRead {
            spells: spells_view(self.spells@),
            cur: opt_spell(self.cur),
            child: child_view(self.child),
            done: self.done,
            fail: None,
        }
    }
}

fn sl_step_exec(st: &mut SlState, e: &XmlEv) -> (r: Result<(), SpellListError>)
    requires
        !old(st)@.done,
    ensures
        match r {
            Ok(()) => sl_step(old(st)@, e@) == final(st)@,
            Err(k) => sl_step(old(st)@, e@) == sl_fail(old(st)@, k),
        },
{
    match e {
        XmlEv::Start(tag, attrs) => {
            let t = text::chars_of(tag.as_str());
            if text::eq_lit(&t, "effect") || text::eq_lit(&t, "spell") {
                match spell_from_attrs_exec(attrs) {
                    None => return Err(SpellListError::BadAttribute),
                    Some(sp) => {
                        st.cur = Some(sp);
                    },
                }
            } else if st.cur.is_some() {
                match collect_attrs_exec(attrs) {
                    None => return Err(SpellListError::BadAttribute),
                    Some(m) => {
                        st.child = Some((tag.clone(), m));
                    },
                }
            }
        },
        XmlEv::Empty(tag, attrs) => {
            let t = text::chars_of(tag.as_str());
            if text::eq_lit(&t, "effect") || text::eq_lit(&t, "spell") {
                match spell_from_attrs_exec(attrs) {
                    None => return Err(SpellListError::BadAttribute),
                    Some(sp) => {
                        let ghost before = spells_view(st.spells@);
                        st.spells.push(sp);
                        assert(spells_view(st.spells@) =~= before.push(sp@));
                    },
                }
            }
        },
        XmlEv::Text(t) => {
            if st.cur.is_some() && st.child.is_some() {
                match t {
                    None => return Err(SpellListError::BadText),
                    Some(x) => {
                        sl_text_exec(st, x.as_str());
                    },
                }
            }
        },
        XmlEv::End(tag) => {
            let t = text::chars_of(tag.as_str());
            if text::eq_lit(&t, "effect") || text::eq_lit(&t, "spell") {
                let ghost before = spells_view(st.spells@);
                match st.cur.take() {
                    Some(sp) => {
                        st.spells.push(sp);
                        assert(spells_view(st.spells@) =~= before.push(sp@));
                    },
                    None => {},
                }
                st.child = None;
            } else {
                st.child = None;
            }
        },
        XmlEv::Eof | XmlEv::Error => {
            st.done = true;
        },
        XmlEv::Other => {},
    }
    Ok(())
}

fn sl_text_exec(st: &mut SlState, t: &str)
    requires
        old(st).cur is Some,
        old(st).child is Some,
    ensures
        final(st)@ == sl_text(old(st)@, t@),
{
    let mut sp = st.cur.take().unwrap();
    match &st.child {
        Some((tag, attrs)) => {
            let tg = text::chars_of(tag.as_str());
            if text::eq_lit(&tg, "duration") && attrs.len() > 0 {
                duration_text_exec(&mut sp, attrs, t);
            } else {
                child_text_exec(&mut sp, tag.as_str(), attrs, t);
            }
        },
        None => {},
    }
    st.cur = Some(sp);
}

proof fn lemma_sl_done_sticks(evs: Seq<XmlEvV>, j: int, n: int)
    requires
        0 <= j <= n,
        sl_run(evs, j).done,
    ensures
        sl_run(evs, n) == sl_run(evs, j),
    decreases n - j,
{
    if j < n {
        lemma_sl_done_sticks(evs, j, n - 1);
    }
}

/// The index of the last spell numbered `num` among the first `n`.
pub open spec fn last_num(s: Seq<SpellV>, num: u32, n: int) -> Option<int>
    decreases n,
{
    if n <= 0 || n > s.len() {
        None
    } else if s[n - 1].num == num {
        Some(n - 1)
    } else {
        last_num(s, num, n - 1)
    }
}

/// The index of the last spell among the first `n` whose lowercased name
/// is `lname`.
pub open spec fn last_name(s: Seq<SpellV>, lname: Seq<char>, n: int) -> Option<int>
    decreases n,
{
    if n <= 0 || n > s.len() {
        None
    } else if text::unicode_lowercase(s[n - 1].name) == lname {
        Some(n - 1)
    } else {
        last_name(s, lname, n - 1)
    }
}

/// The spells of effect-list.xml in document order. Where two spells share
/// a number, or a name up to case, the later one is the one found.
pub struct SpellList {
    spells: Vec<SpellDef>,
}

impl View for SpellList {
    type V = Seq<SpellV>;

    closed spec fn view(&self) -> Seq<SpellV> {
        spells_view(self.spells@)
    }
}

impl SpellList {
    /// The spells described by the tokens of effect-list.xml.
    pub fn from_events(events: &Vec<XmlEv>) -> (r: Result<SpellList, SpellListError>)
        ensures
            ({
                let st = sl_run(events_view(events@), events@.len() as int);
                match r {
                    Ok(sl) => st.fail is None && sl@ == st.spells,
                    Err(k) => st.fail == Some(k),
                }
            }),
    {
        let ghost ev = events_view(events@);
        let mut st = SlState { spells: Vec::new(), cur: None, child: None, done: false };
        assert(st@.spells =~= seq![]);
        assert(st@ == sl_initial());
        let mut i: usize = 0;
        while i < events.len()
            invariant
                i <= events.len(),
                ev == events_view(events@),
                sl_run(ev, i as int) == st@,
            decreases events.len() - i,
        {
            if !st.done {
                match sl_step_exec(&mut st, &events[i]) {
                    Ok(()) => {},
                    Err(k) => {
                        proof {
                            lemma_sl_done_sticks(ev, i + 1, ev.len() as int);
                        }
                        return Err(k);
                    },
                }
            }
            i += 1;
        }
        Ok(SpellList { spells: st.spells })
    }

    /// Reads effect-list.xml (text trimmed around tags): the spells are
    /// those that `from_events` gives for the tokens quick-xml reads from it.
    pub fn parse(xml: &str) -> (r: Result<SpellList, SpellListError>)
        ensures
            ({
                let evs = xml_tokens(xml@, true);
                match r {
                    Ok(sl) => sl_run(evs, evs.len() as int).fail is None && sl@ == sl_run(evs, evs.len() as int).spells,
                    Err(k) => sl_run(evs, evs.len() as int).fail == Some(k),
                }
            }),
    {
        let evs = read_xml_events(xml, true);
        let r = Self::from_events(&evs);
        proof {
            let w = events_view(evs@);
            assert(match r {
                Ok(sl) => sl_run(w, w.len() as int).fail is None && sl@ == sl_run(w, w.len() as int).spells,
                Err(k) => sl_run(w, w.len() as int).fail == Some(k),
            });
        }
        r
    }

    /// The last spell numbered `num`.
    pub fn get_by_num(&self, num: u32) -> (r: Option<&SpellDef>)
        ensures
            match last_num(self@, num, self@.len() as int) {
                Some(i) => r matches Some(sp) && sp@ == self@[i],
                None => r is None,
            },
    {
        let mut i: usize = self.spells.len();
        while i > 0
            invariant
                i <= self.spells.len(),
                last_num(self@, num, self@.len() as int) == last_num(self@, num, i as int),
            decreases i,
        {
            if self.spells[i - 1].num == num {
                return Some(&self.spells[i - 1]);
            }
            i -= 1;
        }
        None
    }

    /// The last spell whose name is `name` up to case (both lowercased).
    pub fn get_by_name(&self, name: &str) -> (r: Option<&SpellDef>)
        ensures
            match last_name(self@, text::unicode_lowercase(name@), self@.len() as int) {
                Some(i) => r matches Some(sp) && sp@ == self@[i],
                None => r is None,
            },
    {
        let lname = text::to_lowercase(name);
        let mut i: usize = self.spells.len();
        while i > 0
            invariant
                i <= self.spells.len(),
                lname@ == text::unicode_lowercase(name@),
                last_name(self@, lname@, self@.len() as int) == last_name(self@, lname@, i as int),
            decreases i,
        {
            let n = text::to_lowercase(self.spells[i - 1].name.as_str());
            if text::str_eq(n.as_str(), lname.as_str()) {
                return Some(&self.spells[i - 1]);
            }
            i -= 1;
        }
        None
    }

    /// All spells in document order.
    pub fn all(&self) -> (r: &[SpellDef])
        ensures
            spells_view(r@) == self@,
    {
        self.spells.as_slice()
    }

    pub fn len(&self) -> (r: usize)
        ensures
            r == self@.len(),
    {
        self.spells.len()
    }

    pub fn is_empty(&self) -> (r: bool)
        ensures
            r == (self@.len() == 0),
    {
        self.spells.len() == 0
    }
}

} // verus!
