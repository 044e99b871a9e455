//! The registry of game objects (NPCs, loot, players, inventory) seen in the
//! XML stream.
use vstd::prelude::*;
use crate::text;

verus! {

/// Object category used when creating entries from the XML stream.
#[derive(Debug, Clone, PartialEq)]
pub enum ObjCategory {
    Loot,
    Npc,
    Pc,
    /// Inventory item; `container` is the ID of the enclosing container, or `None` for top-level.
    Inv { container: Option<String> },
    RoomDesc,
}

/// The view of an [`ObjCategory`], with the container id as characters.
pub enum ObjCategoryV {
    Loot,
    Npc,
    Pc,
    Inv { container: Option<Seq<char>> },
    RoomDesc,
}

pub open spec fn opt_view(o: Option<String>) -> Option<Seq<char>> {
    match o {
        Some(s) => Some(s@),
        None => None,
    }
}

impl View for ObjCategory {
    type V = ObjCategoryV;

    open spec fn view(&self) -> ObjCategoryV {
        match self {
            ObjCategory::Loot => ObjCategoryV::Loot,
            ObjCategory::Npc => ObjCategoryV::Npc,
            ObjCategory::Pc => ObjCategoryV::Pc,
            ObjCategory::Inv { container } => ObjCategoryV::Inv { container: opt_view(*container) },
            ObjCategory::RoomDesc => ObjCategoryV::RoomDesc,
        }
    }
}

} // verus!

verus! {

/// A single game object (NPC, loot, PC, inventory item, etc.)
#[derive(Debug)]
pub struct GameObj {
    pub id: String,
    pub noun: String,
    pub name: String,
    pub before_name: Option<String>,
    pub after_name: Option<String>,
}

/// The view of a [`GameObj`].
pub struct GameObjV {
    pub id: Seq<char>,
    pub noun: Seq<char>,
    pub name: Seq<char>,
    pub before: Option<Seq<char>>,
    pub after: Option<Seq<char>>,
}

impl View for GameObj {
    type V = GameObjV;

    open spec fn view(&self) -> GameObjV {
        GameObjV {
            id: self.id@,
            noun: self.noun@,
            name: self.name@,
            before: opt_view(self.before_name),
            after: opt_view(self.after_name),
        }
    }
}

pub fn clone_opt_string(o: &Option<String>) -> (r: Option<String>)
    ensures
        opt_view(r) == opt_view(*o),
{
    match o {
        Some(s) => Some(s.clone()),
        None => None,
    }
}

impl GameObj {
    /// A copy of the object.
    pub fn copy(&self) -> (r: GameObj)
        ensures
            r@ == self@,
    {
        GameObj {
            id: self.id.clone(),
            noun: self.noun.clone(),
            name: self.name.clone(),
            before_name: clone_opt_string(&self.before_name),
            after_name: clone_opt_string(&self.after_name),
        }
    }

    pub open spec fn full_name_spec(o: GameObjV) -> Seq<char> {
        let head = match o.before {
            Some(b) => b + seq![' '] + o.name,
            None => o.name,
        };
        match o.after {
            Some(a) => head + seq![' '] + a,
            None => head,
        }
    }

    /// The name with its before/after words, joined by single spaces.
    pub fn full_name(&self) -> (r: String)
        ensures
            r@ == GameObj::full_name_spec(self@),
    {
        let mut v: Vec<char> = Vec::new();
        match &self.before_name {
            Some(b) => {
                text::push_str(&mut v, b.as_str());
                v.push(' ');
            },
            None => {},
        }
        text::push_str(&mut v, self.name.as_str());
        match &self.after_name {
            Some(a) => {
                v.push(' ');
                text::push_str(&mut v, a.as_str());
            },
            None => {},
        }
        proof {
            let o = self@;
            match o.before {
                Some(b) => {
                    assert(v@ =~= GameObj::full_name_spec(o));
                },
                None => {
                    assert(v@ =~= GameObj::full_name_spec(o));
                },
            }
        }
        text::string_of(&v)
    }
}

/// Several special nouns are normalized for reliable lookup: long-form
/// nouns map to short lookup keys.
pub open spec fn norm_noun(noun: Seq<char>, name: Seq<char>) -> Seq<char> {
    if noun == "lapis lazuli"@ {
        "lapis"@
    } else if noun == "Hammer of Kai"@ {
        "hammer"@
    } else if noun == "ball and chain"@ {
        "ball"@
    } else if noun == "pearl"@ && text::contains_sub(name, "mother-of-pearl"@) {
        "mother-of-pearl"@
    } else {
        noun
    }
}

pub fn normalize_noun(noun: &str, name: &str) -> (r: String)
    ensures
        r@ == norm_noun(noun@, name@),
{
    let n = text::chars_of(noun);
    let nm = text::chars_of(name);
    if text::eq_lit(&n, "lapis lazuli") {
        text::string_of(&text::chars_of("lapis"))
    } else if text::eq_lit(&n, "Hammer of Kai") {
        text::string_of(&text::chars_of("hammer"))
    } else if text::eq_lit(&n, "ball and chain") {
        text::string_of(&text::chars_of("ball"))
    } else if text::eq_lit(&n, "pearl") && text::contains_lit(&nm, "mother-of-pearl") {
        text::string_of(&text::chars_of("mother-of-pearl"))
    } else {
        text::string_of(&n)
    }
}

/// The deduplication key `id|noun|name`.
pub open spec fn key_of(id: Seq<char>, noun: Seq<char>, name: Seq<char>) -> Seq<char> {
    id + seq!['|'] + noun + seq!['|'] + name
}

pub fn index_key(id: &str, noun: &str, name: &str) -> (r: String)
    ensures
        r@ == key_of(id@, noun@, name@),
{
    let mut v: Vec<char> = Vec::new();
    text::push_str(&mut v, id);
    v.push('|');
    text::push_str(&mut v, noun);
    v.push('|');
    text::push_str(&mut v, name);
    assert(v@ =~= key_of(id@, noun@, name@));
    text::string_of(&v)
}

impl GameObj {
    /// A fresh object; its noun normalized.
    pub fn new(id: &str, noun: &str, name: &str, before: Option<&str>, after: Option<&str>) -> (r: GameObj)
        ensures
            r@ == (GameObjV {
                id: id@,
                noun: norm_noun(noun@, name@),
                name: name@,
                before: opt_str(before),
                after: opt_str(after),
            }),
    {
        GameObj {
            id: text::string_of(&text::chars_of(id)),
            noun: normalize_noun(noun, name),
            name: text::string_of(&text::chars_of(name)),
            before_name: str_to_opt(before),
            after_name: str_to_opt(after),
        }
    }
}

pub open spec fn opt_str(o: Option<&str>) -> Option<Seq<char>> {
    match o {
        Some(s) => Some(s@),
        None => None,
    }
}

pub fn str_to_opt(o: Option<&str>) -> (r: Option<String>)
    ensures
        opt_view(r) == opt_str(o),
{
    match o {
        Some(s) => Some(text::string_of(&text::chars_of(s))),
        None => None,
    }
}

} // verus!

verus! {

use vstd::pervasive::VecAdditionalExecFns;

pub open spec fn objs(v: Seq<GameObj>) -> Seq<GameObjV> {
    v.map_values(|o: GameObj| o@)
}

pub open spec fn pairs_view(v: Seq<(String, String)>) -> Seq<(Seq<char>, Seq<char>)> {
    v.map_values(|p: (String, String)| (p.0@, p.1@))
}

pub open spec fn contents_view(v: Seq<(String, Vec<GameObj>)>) -> Seq<(Seq<char>, Seq<GameObjV>)> {
    v.map_values(|p: (String, Vec<GameObj>)| (p.0@, objs(p.1@)))
}

pub open spec fn index_view(v: Seq<(String, GameObj)>) -> Seq<(Seq<char>, GameObjV)> {
    v.map_values(|p: (String, GameObj)| (p.0@, p.1@))
}

pub open spec fn opt_obj(o: Option<GameObj>) -> Option<GameObjV> {
    match o {
        Some(x) => Some(x@),
        None => None,
    }
}

/// First position at or after `i` of an entry with key `k`.
pub open spec fn assoc_find<V>(m: Seq<(Seq<char>, V)>, k: Seq<char>, i: int) -> Option<int>
    decreases m.len() - i,
{
    if i < 0 || i >= m.len() {
        None
    } else if m[i].0 == k {
        Some(i)
    } else {
        assoc_find(m, k, i + 1)
    }
}

/// The value stored under `k`.
pub open spec fn assoc_get<V>(m: Seq<(Seq<char>, V)>, k: Seq<char>) -> Option<V> {
    match assoc_find(m, k, 0) {
        Some(i) => Some(m[i].1),
        None => None,
    }
}

/// `m` with `k` mapped to `v`: the entry replaced in place, or appended.
pub open spec fn assoc_insert<V>(m: Seq<(Seq<char>, V)>, k: Seq<char>, v: V) -> Seq<(Seq<char>, V)> {
    match assoc_find(m, k, 0) {
        Some(i) => m.update(i, (k, v)),
        None => m.push((k, v)),
    }
}

/// No key occurs twice.
pub open spec fn unique_keys<V>(m: Seq<(Seq<char>, V)>) -> bool {
    forall|i: int, j: int| 0 <= i < j < m.len() ==> m[i].0 != m[j].0
}

pub proof fn lemma_assoc_find<V>(m: Seq<(Seq<char>, V)>, k: Seq<char>, i: int)
    requires
        0 <= i,
    ensures
        assoc_find(m, k, i) matches Some(j) ==> i <= j < m.len() && m[j].0 == k && forall|l: int|
            i <= l < j ==> m[l].0 != k,
        assoc_find(m, k, i) is None ==> forall|j: int| i <= j < m.len() ==> m[j].0 != k,
    decreases m.len() - i,
{
    if i < m.len() && m[i].0 != k {
        lemma_assoc_find(m, k, i + 1);
    }
}

pub proof fn lemma_assoc_insert_unique<V>(m: Seq<(Seq<char>, V)>, k: Seq<char>, v: V)
    requires
        unique_keys(m),
    ensures
        unique_keys(assoc_insert(m, k, v)),
        assoc_get(assoc_insert(m, k, v), k) == Some(v),
{
    lemma_assoc_find(m, k, 0);
    let r = assoc_insert(m, k, v);
    lemma_assoc_find(r, k, 0);
    match assoc_find(m, k, 0) {
        Some(i) => {
            assert forall|a: int, b: int| 0 <= a < b < r.len() implies r[a].0 != r[b].0 by {
                if a != i && b != i {
                    assert(r[a] == m[a] && r[b] == m[b]);
                }
            }
            match assoc_find(r, k, 0) {
                Some(j) => {
                    if j < i {
                        assert(r[j] == m[j]);
                    } else if j > i {
                        assert(r[i].0 == k);
                    }
                },
                None => {
                    assert(r[i].0 == k);
                },
            }
        },
        None => {
            assert forall|a: int, b: int| 0 <= a < b < r.len() implies r[a].0 != r[b].0 by {
                if b < m.len() {
                    assert(r[a] == m[a] && r[b] == m[b]);
                }
            }
            match assoc_find(r, k, 0) {
                Some(j) => {
                    if j < m.len() {
                        assert(r[j] == m[j]);
                    }
                },
                None => {
                    assert(r[m.len() as int].0 == k);
                },
            }
        },
    }
}

/// First position at or after `i` of an object with id `id`.
pub open spec fn id_find(l: Seq<GameObjV>, id: Seq<char>, i: int) -> Option<int>
    decreases l.len() - i,
{
    if i < 0 || i >= l.len() {
        None
    } else if l[i].id == id {
        Some(i)
    } else {
        id_find(l, id, i + 1)
    }
}

/// `l` with the first object with id `id` replaced by `o`, or `o` appended.
pub open spec fn upsert(l: Seq<GameObjV>, id: Seq<char>, o: GameObjV) -> Seq<GameObjV> {
    match id_find(l, id, 0) {
        Some(i) => l.update(i, o),
        None => l.push(o),
    }
}

/// The deduplication step: the canonical object for `(id, noun, name)` with
/// missing before/after names filled in, or a fresh one that is recorded.
pub open spec fn foc(
    idx: Seq<(Seq<char>, GameObjV)>,
    id: Seq<char>,
    noun: Seq<char>,
    name: Seq<char>,
    before: Option<Seq<char>>,
    after: Option<Seq<char>>,
) -> (Seq<(Seq<char>, GameObjV)>, GameObjV) {
    let k = key_of(id, noun, name);
    match assoc_find(idx, k, 0) {
        Some(i) => {
            let o = idx[i].1;
            let o2 = GameObjV {
                before: if o.before is None {
                    before
                } else {
                    o.before
                },
                after: if o.after is None {
                    after
                } else {
                    o.after
                },
                ..o
            };
            (idx.update(i, (k, o2)), o2)
        },
        None => {
            let o = GameObjV { id, noun: norm_noun(noun, name), name, before, after };
            (idx.push((k, o)), o)
        },
    }
}

/// Whether `o` is the object built for the key `k`: its id and name, with
/// some noun, spell `k`, and its noun is that noun normalized.
pub open spec fn fits_key(k: Seq<char>, o: GameObjV) -> bool {
    exists|n: Seq<char>| key_of(o.id, n, o.name) == k && #[trigger] norm_noun(n, o.name) == o.noun
}

proof fn lemma_fits_intro(k: Seq<char>, o: GameObjV, n: Seq<char>)
    requires
        key_of(o.id, n, o.name) == k,
        norm_noun(n, o.name) == o.noun,
    ensures
        fits_key(k, o),
{
}

/// Every index entry holds the object built for its key.
pub open spec fn index_fits(idx: Seq<(Seq<char>, GameObjV)>) -> bool {
    forall|i: int| 0 <= i < idx.len() ==> #[trigger] fits_key(idx[i].0, idx[i].1)
}

pub open spec fn no_bar(s: Seq<char>) -> bool {
    !s.contains('|')
}

/// `o` is the object for `(id, noun, name)`: it fits their key, and where
/// none of the three holds a `|` (so that the key names them alone) it has
/// that id and name and the noun normalized.
pub open spec fn made_for(o: GameObjV, id: Seq<char>, noun: Seq<char>, name: Seq<char>) -> bool {
    &&& fits_key(key_of(id, noun, name), o)
    &&& no_bar(id) && no_bar(noun) && no_bar(name) ==> o.id == id && o.name == name && o.noun == norm_noun(noun, name)
}

/// A key built from parts without `|` is built from those parts only.
pub proof fn lemma_key_parts(id: Seq<char>, noun: Seq<char>, name: Seq<char>, a: Seq<char>, n: Seq<char>, b: Seq<char>)
    requires
        no_bar(id),
        no_bar(noun),
        no_bar(name),
        key_of(a, n, b) == key_of(id, noun, name),
    ensures
        a == id,
        n == noun,
        b == name,
{
    let k = key_of(id, noun, name);
    let p1 = id.len() as int;
    let p2 = (id.len() + 1 + noun.len()) as int;
    assert forall|j: int| 0 <= j < k.len() && k[j] == '|' implies j == p1 || j == p2 by {
        if j < p1 {
            assert(k[j] == id[j]);
            assert(id.contains(id[j]));
        } else if p1 < j < p2 {
            assert(k[j] == noun[j - p1 - 1]);
            assert(noun.contains(noun[j - p1 - 1]));
        } else if j > p2 {
            assert(k[j] == name[j - p2 - 1]);
            assert(name.contains(name[j - p2 - 1]));
        }
    }
    let q1 = a.len() as int;
    let q2 = (a.len() + 1 + n.len()) as int;
    assert(key_of(a, n, b)[q1] == '|');
    assert(key_of(a, n, b)[q2] == '|');
    assert(q1 == p1 && q2 == p2);
    assert(a =~= k.subrange(0, p1));
    assert(id =~= k.subrange(0, p1));
    assert(n =~= k.subrange(p1 + 1, p2));
    assert(noun =~= k.subrange(p1 + 1, p2));
    assert(b =~= k.subrange(p2 + 1, k.len() as int));
    assert(name =~= k.subrange(p2 + 1, k.len() as int));
}

/// The deduplication step keeps every index entry fitting its key, and
/// gives the object for `(id, noun, name)`.
pub proof fn lemma_foc_made_for(
    idx: Seq<(Seq<char>, GameObjV)>,
    id: Seq<char>,
    noun: Seq<char>,
    name: Seq<char>,
    before: Option<Seq<char>>,
    after: Option<Seq<char>>,
)
    requires
        index_fits(idx),
    ensures
        index_fits(foc(idx, id, noun, name, before, after).0),
        made_for(foc(idx, id, noun, name, before, after).1, id, noun, name),
{
    let k = key_of(id, noun, name);
    let f = foc(idx, id, noun, name, before, after);
    lemma_assoc_find(idx, k, 0);
    match assoc_find(idx, k, 0) {
        Some(i) => {
            let o = idx[i].1;
            assert(fits_key(idx[i].0, idx[i].1));
            let w = choose|w: Seq<char>|
                key_of(idx[i].1.id, w, idx[i].1.name) == idx[i].0 && #[trigger] norm_noun(w, idx[i].1.name) == idx[i].1.noun;
            assert(f.1.id == o.id && f.1.name == o.name && f.1.noun == o.noun);
            assert(key_of(f.1.id, w, f.1.name) == k);
            lemma_fits_intro(k, f.1, w);
            assert forall|j: int| 0 <= j < f.0.len() implies #[trigger] fits_key(f.0[j].0, f.0[j].1) by {
                if j != i {
                    assert(f.0[j] == idx[j]);
                }
            }
            if no_bar(id) && no_bar(noun) && no_bar(name) {
                lemma_key_parts(id, noun, name, o.id, w, o.name);
            }
        },
        None => {
            lemma_fits_intro(k, f.1, noun);
            assert forall|j: int| 0 <= j < f.0.len() implies #[trigger] fits_key(f.0[j].0, f.0[j].1) by {
                if j < idx.len() {
                    assert(f.0[j] == idx[j]);
                }
            }
        },
    }
}

/// The registry's contents, as views.
pub struct RegView {
    pub loot: Seq<GameObjV>,
    pub npcs: Seq<GameObjV>,
    pub npc_status: Seq<(Seq<char>, Seq<char>)>,
    pub pcs: Seq<GameObjV>,
    pub pc_status: Seq<(Seq<char>, Seq<char>)>,
    pub inv: Seq<GameObjV>,
    pub contents: Seq<(Seq<char>, Seq<GameObjV>)>,
    pub right_hand: Option<GameObjV>,
    pub left_hand: Option<GameObjV>,
    pub room_desc: Seq<GameObjV>,
    pub index: Seq<(Seq<char>, GameObjV)>,
}

/// All live game objects for the current room/session.
pub struct GameObjRegistry {
    pub loot: Vec<GameObj>,
    pub npcs: Vec<GameObj>,
    /// NPC status by object id.
    pub npc_status: Vec<(String, String)>,
    pub pcs: Vec<GameObj>,
    /// Player status by object id.
    pub pc_status: Vec<(String, String)>,
    pub inv: Vec<GameObj>,
    /// Items of each container, by container id, in the order containers appeared.
    pub contents: Vec<(String, Vec<GameObj>)>,
    pub right_hand: Option<GameObj>,
    pub left_hand: Option<GameObj>,
    pub room_desc: Vec<GameObj>,
    /// Deduplication index: composite key → canonical GameObj instance.
    /// Persists across room transitions so the same object reuses the same instance.
    index: Vec<(String, GameObj)>,
}

impl View for GameObjRegistry {
    type V = RegView;

    closed spec fn view(&self) -> RegView {
        RegView {
            loot: objs(self.loot@),
            npcs: objs(self.npcs@),
            npc_status: pairs_view(self.npc_status@),
            pcs: objs(self.pcs@),
            pc_status: pairs_view(self.pc_status@),
            inv: objs(self.inv@),
            contents: contents_view(self.contents@),
            right_hand: opt_obj(self.right_hand),
            left_hand: opt_obj(self.left_hand),
            room_desc: objs(self.room_desc@),
            index: index_view(self.index@),
        }
    }
}

impl RegView {
    /// Status maps, containers and the index each hold every key once.
    pub open spec fn wf(self) -> bool {
        &&& unique_keys(self.npc_status)
        &&& unique_keys(self.pc_status)
        &&& unique_keys(self.contents)
        &&& unique_keys(self.index)
        &&& index_fits(self.index)
    }
}

} // verus!

verus! {

pub(crate) fn find_pair(m: &Vec<(String, String)>, k: &str) -> (r: Option<usize>)
    ensures
        text::opt_int(r) == assoc_find(pairs_view(m@), k@, 0),
{
    let ghost mv = pairs_view(m@);
    let mut i: usize = 0;
    while i < m.len()
        invariant
            i <= m.len(),
            mv == pairs_view(m@),
            assoc_find(mv, k@, 0) == assoc_find(mv, k@, i as int),
        decreases m.len() - i,
    {
        if text::str_eq(m[i].0.as_str(), k) {
            return Some(i);
        }
        i += 1;
    }
    None
}

pub(crate) fn insert_pair(m: &mut Vec<(String, String)>, k: &str, v: &str)
    ensures
        pairs_view(final(m)@) == assoc_insert(pairs_view(old(m)@), k@, v@),
{
    let ks = text::string_of(&text::chars_of(k));
    let vs = text::string_of(&text::chars_of(v));
    let ghost m0 = m@;
    match find_pair(m, k) {
        Some(i) => {
            proof {
                lemma_assoc_find(pairs_view(m@), k@, 0);
            }
            m.set(i, (ks, vs));
            assert(pairs_view(m@) =~= pairs_view(m0).update(i as int, (k@, v@)));
        },
        None => {
            m.push((ks, vs));
            assert(pairs_view(m@) =~= pairs_view(m0).push((k@, v@)));
        },
    }
}

fn find_container(m: &Vec<(String, Vec<GameObj>)>, k: &str) -> (r: Option<usize>)
    ensures
        text::opt_int(r) == assoc_find(contents_view(m@), k@, 0),
{
    let ghost mv = contents_view(m@);
    let mut i: usize = 0;
    while i < m.len()
        invariant
            i <= m.len(),
            mv == contents_view(m@),
            assoc_find(mv, k@, 0) == assoc_find(mv, k@, i as int),
        decreases m.len() - i,
    {
        if text::str_eq(m[i].0.as_str(), k) {
            return Some(i);
        }
        i += 1;
    }
    None
}

fn find_indexed(m: &Vec<(String, GameObj)>, k: &str) -> (r: Option<usize>)
    ensures
        text::opt_int(r) == assoc_find(index_view(m@), k@, 0),
{
    let ghost mv = index_view(m@);
    let mut i: usize = 0;
    while i < m.len()
        invariant
            i <= m.len(),
            mv == index_view(m@),
            assoc_find(mv, k@, 0) == assoc_find(mv, k@, i as int),
        decreases m.len() - i,
    {
        if text::str_eq(m[i].0.as_str(), k) {
            return Some(i);
        }
        i += 1;
    }
    None
}

fn find_id(l: &Vec<GameObj>, id: &str) -> (r: Option<usize>)
    ensures
        text::opt_int(r) == id_find(objs(l@), id@, 0),
{
    let ghost lv = objs(l@);
    let mut i: usize = 0;
    while i < l.len()
        invariant
            i <= l.len(),
            lv == objs(l@),
            id_find(lv, id@, 0) == id_find(lv, id@, i as int),
        decreases l.len() - i,
    {
        if text::str_eq(l[i].id.as_str(), id) {
            return Some(i);
        }
        i += 1;
    }
    None
}

pub proof fn lemma_id_find(l: Seq<GameObjV>, id: Seq<char>, i: int)
    requires
        0 <= i,
    ensures
        id_find(l, id, i) matches Some(j) ==> i <= j < l.len() && l[j].id == id,
    decreases l.len() - i,
{
    if i < l.len() && l[i].id != id {
        lemma_id_find(l, id, i + 1);
    }
}

fn upsert_obj(l: &mut Vec<GameObj>, id: &str, o: GameObj)
    ensures
        objs(final(l)@) == upsert(objs(old(l)@), id@, o@),
{
    let ghost l0 = l@;
    let ghost ov = o@;
    match find_id(l, id) {
        Some(i) => {
            proof {
                lemma_id_find(objs(l@), id@, 0);
            }
            l.set(i, o);
            assert(objs(l@) =~= objs(l0).update(i as int, ov));
        },
        None => {
            l.push(o);
            assert(objs(l@) =~= objs(l0).push(ov));
        },
    }
}

impl GameObjRegistry {
    pub fn new() -> (r: GameObjRegistry)
        ensures
            r@ == (RegView {
                loot: seq![],
                npcs: seq![],
                npc_status: seq![],
                pcs: seq![],
                pc_status: seq![],
                inv: seq![],
                contents: seq![],
                right_hand: None,
                left_hand: None,
                room_desc: seq![],
                index: seq![],
            }),
            r@.wf(),
    {
        let r = GameObjRegistry {
            loot: Vec::new(),
            npcs: Vec::new(),
            npc_status: Vec::new(),
            pcs: Vec::new(),
            pc_status: Vec::new(),
            inv: Vec::new(),
            contents: Vec::new(),
            right_hand: None,
            left_hand: None,
            room_desc: Vec::new(),
            index: Vec::new(),
        };
        assert(objs(r.loot@) =~= seq![]);
        assert(objs(r.npcs@) =~= seq![]);
        assert(pairs_view(r.npc_status@) =~= seq![]);
        assert(objs(r.pcs@) =~= seq![]);
        assert(pairs_view(r.pc_status@) =~= seq![]);
        assert(objs(r.inv@) =~= seq![]);
        assert(contents_view(r.contents@) =~= seq![]);
        assert(objs(r.room_desc@) =~= seq![]);
        assert(index_view(r.index@) =~= seq![]);
        r
    }

    /// The canonical object for `(id, noun, name)`: the indexed one, with
    /// missing before/after names filled in, or a new one that is indexed.
    fn find_or_create(
        &mut self,
        id: &str,
        noun: &str,
        name: &str,
        before: Option<&str>,
        after: Option<&str>,
    ) -> (r: GameObj)
        requires
            old(self)@.wf(),
        ensures
            (final(self)@.index, r@) == foc(old(self)@.index, id@, noun@, name@, opt_str(before), opt_str(after)),
            final(self)@ == (RegView { index: final(self)@.index, ..old(self)@ }),
            final(self)@.wf(),
            made_for(r@, id@, noun@, name@),
    {
        let key = index_key(id, noun, name);
        let ghost iv = index_view(self.index@);
        let ghost s0 = self@;
        proof {
            lemma_assoc_find(iv, key@, 0);
            lemma_foc_made_for(iv, id@, noun@, name@, opt_str(before), opt_str(after));
        }
        match find_indexed(&self.index, key.as_str()) {
            Some(i) => {
                let existing = &self.index[i].1;
                let before_name = match &existing.before_name {
                    None => str_to_opt(before),
                    Some(b) => Some(b.clone()),
                };
                let after_name = match &existing.after_name {
                    None => str_to_opt(after),
                    Some(a) => Some(a.clone()),
                };
                let o2 = GameObj {
                    id: existing.id.clone(),
                    noun: existing.noun.clone(),
                    name: existing.name.clone(),
                    before_name,
                    after_name,
                };
                let r = o2.copy();
                let ghost o2v = o2@;
                self.index.set(i, (key, o2));
                proof {
                    assert(index_view(self.index@) =~= iv.update(i as int, (key_of(id@, noun@, name@), o2v)));
                    lemma_assoc_insert_unique(iv, key_of(id@, noun@, name@), o2v);
                    assert(assoc_insert(iv, key_of(id@, noun@, name@), o2v) == iv.update(i as int, (key_of(id@, noun@, name@), o2v)));
                }
                r
            },
            None => {
                let o = GameObj::new(id, noun, name, before, after);
                let r = o.copy();
                let ghost ov = o@;
                self.index.push((key, o));
                proof {
                    assert(index_view(self.index@) =~= iv.push((key_of(id@, noun@, name@), ov)));
                    lemma_assoc_insert_unique(iv, key_of(id@, noun@, name@), ov);
                }
                r
            },
        }
    }
}

} // verus!

verus! {

/// The items of container `cid` after `o` was filed under id `id`.
pub open spec fn file_in_container(
    contents: Seq<(Seq<char>, Seq<GameObjV>)>,
    cid: Seq<char>,
    id: Seq<char>,
    o: GameObjV,
) -> Seq<(Seq<char>, Seq<GameObjV>)> {
    let items = match assoc_get(contents, cid) {
        Some(l) => l,
        None => seq![],
    };
    assoc_insert(contents, cid, upsert(items, id, o))
}

pub open spec fn status_after(st: Seq<(Seq<char>, Seq<char>)>, id: Seq<char>, status: Option<&str>) -> Seq<(Seq<char>, Seq<char>)> {
    match status {
        Some(s) => assoc_insert(st, id, s@),
        None => st,
    }
}

impl GameObjRegistry {
    pub fn new_npc(&mut self, id: &str, noun: &str, name: &str, status: Option<&str>)
        requires
            old(self)@.wf(),
        ensures
            ({
                let f = foc(old(self)@.index, id@, noun@, name@, None, None);
                final(self)@ == (RegView {
                    npc_status: status_after(old(self)@.npc_status, id@, status),
                    index: f.0,
                    npcs: upsert(old(self)@.npcs, id@, f.1),
                    ..old(self)@
                })
            }),
            made_for(foc(old(self)@.index, id@, noun@, name@, None, None).1, id@, noun@, name@),
            final(self)@.wf(),
    {
        if let Some(s) = status {
            proof {
                lemma_assoc_insert_unique(self@.npc_status, id@, s@);
            }
            insert_pair(&mut self.npc_status, id, s);
        }
        let obj = self.find_or_create(id, noun, name, None, None);
        upsert_obj(&mut self.npcs, id, obj);
    }

    pub fn new_loot(&mut self, id: &str, noun: &str, name: &str)
        requires
            old(self)@.wf(),
        ensures
            ({
                let f = foc(old(self)@.index, id@, noun@, name@, None, None);
                final(self)@ == (RegView { index: f.0, loot: upsert(old(self)@.loot, id@, f.1), ..old(self)@ })
            }),
            made_for(foc(old(self)@.index, id@, noun@, name@, None, None).1, id@, noun@, name@),
            final(self)@.wf(),
    {
        let obj = self.find_or_create(id, noun, name, None, None);
        upsert_obj(&mut self.loot, id, obj);
    }

    pub fn new_pc(&mut self, id: &str, noun: &str, name: &str, status: Option<&str>)
        requires
            old(self)@.wf(),
        ensures
            ({
                let f = foc(old(self)@.index, id@, noun@, name@, None, None);
                final(self)@ == (RegView {
                    pc_status: status_after(old(self)@.pc_status, id@, status),
                    index: f.0,
                    pcs: upsert(old(self)@.pcs, id@, f.1),
                    ..old(self)@
                })
            }),
            made_for(foc(old(self)@.index, id@, noun@, name@, None, None).1, id@, noun@, name@),
            final(self)@.wf(),
    {
        if let Some(s) = status {
            proof {
                lemma_assoc_insert_unique(self@.pc_status, id@, s@);
            }
            insert_pair(&mut self.pc_status, id, s);
        }
        let obj = self.find_or_create(id, noun, name, None, None);
        upsert_obj(&mut self.pcs, id, obj);
    }

    pub fn new_inv(
        &mut self,
        id: &str,
        noun: &str,
        name: &str,
        container: Option<&str>,
        before: Option<&str>,
        after: Option<&str>,
    )
        requires
            old(self)@.wf(),
        ensures
            ({
                let f = foc(old(self)@.index, id@, noun@, name@, opt_str(before), opt_str(after));
                match container {
                    Some(cid) => final(self)@ == (RegView {
                        index: f.0,
                        contents: file_in_container(old(self)@.contents, cid@, id@, f.1),
                        ..old(self)@
                    }),
                    None => final(self)@ == (RegView {
                        index: f.0,
                        inv: upsert(old(self)@.inv, id@, f.1),
                        ..old(self)@
                    }),
                }
            }),
            made_for(foc(old(self)@.index, id@, noun@, name@, opt_str(before), opt_str(after)).1, id@, noun@, name@),
            final(self)@.wf(),
    {
        let obj = self.find_or_create(id, noun, name, before, after);
        match container {
            Some(cid) => {
                let ghost c0 = self@.contents;
                let ghost ov = obj@;
                proof {
                    lemma_assoc_find(c0, cid@, 0);
                }
                let ci = match find_container(&self.contents, cid) {
                    Some(ci) => ci,
                    None => {
                        let k = text::string_of(&text::chars_of(cid));
                        let empty: Vec<GameObj> = Vec::new();
                        assert(objs(empty@) =~= seq![]);
                        self.contents.push((k, empty));
                        assert(contents_view(self.contents@) =~= c0.push((cid@, seq![])));
                        self.contents.len() - 1
                    },
                };
                let ghost items0: Seq<GameObjV> = match assoc_get(c0, cid@) {
                    Some(l) => l,
                    None => seq![],
                };
                assert(contents_view(self.contents@)[ci as int] == (cid@, items0));
                let ghost c1 = self.contents@;
                let mut slot: (String, Vec<GameObj>) = (String::new(), Vec::new());
                self.contents.set_and_swap(ci, &mut slot);
                upsert_obj(&mut slot.1, id, obj);
                let ghost newv = (cid@, upsert(items0, id@, ov));
                assert((slot.0@, objs(slot.1@)) == newv);
                self.contents.set_and_swap(ci, &mut slot);
                proof {
                    lemma_assoc_insert_unique(c0, cid@, upsert(items0, id@, ov));
                    match assoc_find(c0, cid@, 0) {
                        Some(j) => {
                            assert(contents_view(self.contents@) =~= c0.update(j, newv));
                        },
                        None => {
                            assert(contents_view(self.contents@) =~= c0.push(newv));
                        },
                    }
                }
            },
            None => {
                upsert_obj(&mut self.inv, id, obj);
            },
        }
    }

    pub fn new_right_hand(&mut self, id: &str, noun: &str, name: &str)
        requires
            old(self)@.wf(),
        ensures
            ({
                let f = foc(old(self)@.index, id@, noun@, name@, None, None);
                final(self)@ == (RegView { index: f.0, right_hand: Some(f.1), ..old(self)@ })
            }),
            made_for(foc(old(self)@.index, id@, noun@, name@, None, None).1, id@, noun@, name@),
            final(self)@.wf(),
    {
        let obj = self.find_or_create(id, noun, name, None, None);
        self.right_hand = Some(obj);
    }

    pub fn new_left_hand(&mut self, id: &str, noun: &str, name: &str)
        requires
            old(self)@.wf(),
        ensures
            ({
                let f = foc(old(self)@.index, id@, noun@, name@, None, None);
                final(self)@ == (RegView { index: f.0, left_hand: Some(f.1), ..old(self)@ })
            }),
            made_for(foc(old(self)@.index, id@, noun@, name@, None, None).1, id@, noun@, name@),
            final(self)@.wf(),
    {
        let obj = self.find_or_create(id, noun, name, None, None);
        self.left_hand = Some(obj);
    }

    pub fn new_room_desc(&mut self, id: &str, noun: &str, name: &str)
        requires
            old(self)@.wf(),
        ensures
            ({
                let f = foc(old(self)@.index, id@, noun@, name@, None, None);
                final(self)@ == (RegView {
                    index: f.0,
                    room_desc: upsert(old(self)@.room_desc, id@, f.1),
                    ..old(self)@
                })
            }),
            made_for(foc(old(self)@.index, id@, noun@, name@, None, None).1, id@, noun@, name@),
            final(self)@.wf(),
    {
        let obj = self.find_or_create(id, noun, name, None, None);
        upsert_obj(&mut self.room_desc, id, obj);
    }

    // ── Clear methods ────────────────────────────────────────────────────────

    pub fn clear_loot(&mut self)
        ensures
            final(self)@ == (RegView { loot: seq![], ..old(self)@ }),
    {
        self.loot = Vec::new();
        assert(objs(self.loot@) =~= seq![]);
    }

    pub fn clear_npcs(&mut self)
        ensures
            final(self)@ == (RegView { npcs: seq![], npc_status: seq![], ..old(self)@ }),
    {
        self.npcs = Vec::new();
        self.npc_status = Vec::new();
        assert(objs(self.npcs@) =~= seq![]);
        assert(pairs_view(self.npc_status@) =~= seq![]);
    }

    pub fn clear_pcs(&mut self)
        ensures
            final(self)@ == (RegView { pcs: seq![], pc_status: seq![], ..old(self)@ }),
    {
        self.pcs = Vec::new();
        self.pc_status = Vec::new();
        assert(objs(self.pcs@) =~= seq![]);
        assert(pairs_view(self.pc_status@) =~= seq![]);
    }

    pub fn clear_inv(&mut self)
        ensures
            final(self)@ == (RegView { inv: seq![], ..old(self)@ }),
    {
        self.inv = Vec::new();
        assert(objs(self.inv@) =~= seq![]);
    }

    pub fn clear_room_desc(&mut self)
        ensures
            final(self)@ == (RegView { room_desc: seq![], ..old(self)@ }),
    {
        self.room_desc = Vec::new();
        assert(objs(self.room_desc@) =~= seq![]);
    }

    pub fn clear_all_containers(&mut self)
        ensures
            final(self)@ == (RegView { contents: seq![], ..old(self)@ }),
    {
        self.contents = Vec::new();
        assert(contents_view(self.contents@) =~= seq![]);
    }

    /// Called on `<nav rm="...">` — clears all room-scoped registries.
    /// The deduplication index is intentionally preserved so re-encountered
    /// objects reuse existing instances; inventory, containers and hands stay.
    pub fn clear_right_hand(&mut self)
        ensures
            final(self)@ == (RegView { right_hand: None, ..old(self)@ }),
    {
        self.right_hand = None;
    }

    pub fn clear_left_hand(&mut self)
        ensures
            final(self)@ == (RegView { left_hand: None, ..old(self)@ }),
    {
        self.left_hand = None;
    }

    pub fn clear_for_room_transition(&mut self)
        ensures
            final(self)@ == (RegView {
                loot: seq![],
                npcs: seq![],
                npc_status: seq![],
                pcs: seq![],
                pc_status: seq![],
                room_desc: seq![],
                ..old(self)@
            }),
    {
        self.clear_loot();
        self.clear_npcs();
        self.clear_pcs();
        self.clear_room_desc();
    }
}

} // verus!

verus! {

/// The status reported for `id`: its NPC status, else its player status,
/// else `gone`.
pub open spec fn status_spec(r: RegView, id: Seq<char>) -> Seq<char> {
    match assoc_get(r.npc_status, id) {
        Some(v) => v,
        None => match assoc_get(r.pc_status, id) {
            Some(v) => v,
            None => "gone"@,
        },
    }
}

pub open spec fn opt_seq(o: Option<GameObjV>) -> Seq<GameObjV> {
    match o {
        Some(x) => seq![x],
        None => seq![],
    }
}

/// The collections in lookup order: inventory, loot, NPCs, players, right
/// hand, left hand, room description, then each container's items.
pub open spec fn groups(r: RegView) -> Seq<Seq<GameObjV>> {
    seq![r.inv, r.loot, r.npcs, r.pcs, opt_seq(r.right_hand), opt_seq(r.left_hand), r.room_desc]
        + r.contents.map_values(|p: (Seq<char>, Seq<GameObjV>)| p.1)
}

/// Lookup by exact id (mode 0), exact noun (mode 1) or name substring (mode 2).
pub open spec fn obj_matches(o: GameObjV, val: Seq<char>, mode: int) -> bool {
    if mode == 0 {
        o.id == val
    } else if mode == 1 {
        o.noun == val
    } else {
        text::contains_sub(o.name, val)
    }
}

pub open spec fn first_in(l: Seq<GameObjV>, val: Seq<char>, mode: int, i: int) -> Option<GameObjV>
    decreases l.len() - i,
{
    if i < 0 || i >= l.len() {
        None
    } else if obj_matches(l[i], val, mode) {
        Some(l[i])
    } else {
        first_in(l, val, mode, i + 1)
    }
}

pub open spec fn first_in_groups(gs: Seq<Seq<GameObjV>>, val: Seq<char>, mode: int, g: int) -> Option<GameObjV>
    decreases gs.len() - g,
{
    if g < 0 || g >= gs.len() {
        None
    } else {
        match first_in(gs[g], val, mode, 0) {
            Some(o) => Some(o),
            None => first_in_groups(gs, val, mode, g + 1),
        }
    }
}

/// What `find` returns: the first object by id, else by noun, else by name
/// substring, each searched in lookup order.
pub open spec fn find_spec(r: RegView, val: Seq<char>) -> Option<GameObjV> {
    match first_in_groups(groups(r), val, 0, 0) {
        Some(o) => Some(o),
        None => match first_in_groups(groups(r), val, 1, 0) {
            Some(o) => Some(o),
            None => first_in_groups(groups(r), val, 2, 0),
        },
    }
}

pub open spec fn is_dead(st: Seq<(Seq<char>, Seq<char>)>, o: GameObjV) -> bool {
    assoc_get(st, o.id) == Some("dead"@)
}

/// The objects among the first `n` of `l` whose status is `dead`.
pub open spec fn dead_prefix(l: Seq<GameObjV>, st: Seq<(Seq<char>, Seq<char>)>, n: int) -> Seq<GameObjV>
    decreases n,
{
    if n <= 0 || n > l.len() {
        seq![]
    } else if is_dead(st, l[n - 1]) {
        dead_prefix(l, st, n - 1).push(l[n - 1])
    } else {
        dead_prefix(l, st, n - 1)
    }
}

pub open spec fn opt_ref(o: Option<&GameObj>) -> Option<GameObjV> {
    match o {
        Some(x) => Some(x@),
        None => None,
    }
}

fn obj_matches_exec(o: &GameObj, val: &[char], mode: u8) -> (r: bool)
    requires
        mode <= 2,
    ensures
        r == obj_matches(o@, val@, mode as int),
{
    if mode == 0 {
        let c = text::chars_of(o.id.as_str());
        text::seq_eq(&c, val)
    } else if mode == 1 {
        let c = text::chars_of(o.noun.as_str());
        text::seq_eq(&c, val)
    } else {
        let c = text::chars_of(o.name.as_str());
        text::find_sub_at(&c, val, 0).is_some()
    }
}

fn first_in_exec<'a>(l: &'a Vec<GameObj>, val: &[char], mode: u8) -> (r: Option<&'a GameObj>)
    requires
        mode <= 2,
    ensures
        opt_ref(r) == first_in(objs(l@), val@, mode as int, 0),
{
    let ghost lv = objs(l@);
    let mut i: usize = 0;
    while i < l.len()
        invariant
            i <= l.len(),
            mode <= 2,
            lv == objs(l@),
            first_in(lv, val@, mode as int, 0) == first_in(lv, val@, mode as int, i as int),
        decreases l.len() - i,
    {
        if obj_matches_exec(&l[i], val, mode) {
            return Some(&l[i]);
        }
        i += 1;
    }
    None
}

fn first_in_opt<'a>(o: &'a Option<GameObj>, val: &[char], mode: u8) -> (r: Option<&'a GameObj>)
    requires
        mode <= 2,
    ensures
        opt_ref(r) == first_in(opt_seq(opt_obj(*o)), val@, mode as int, 0),
{
    match o {
        Some(x) => {
            if obj_matches_exec(x, val, mode) {
                Some(x)
            } else {
                assert(first_in(opt_seq(opt_obj(*o)), val@, mode as int, 1) is None);
                None
            }
        },
        None => None,
    }
}

impl GameObjRegistry {
    /// The status of an object: its NPC status, else its player status, else `gone`.
    pub fn status(&self, id: &str) -> (r: &str)
        ensures
            r@ == status_spec(self@, id@),
    {
        proof {
            lemma_assoc_find(self@.npc_status, id@, 0);
            lemma_assoc_find(self@.pc_status, id@, 0);
        }
        match find_pair(&self.npc_status, id) {
            Some(i) => self.npc_status[i].1.as_str(),
            None => match find_pair(&self.pc_status, id) {
                Some(i) => self.pc_status[i].1.as_str(),
                None => "gone",
            },
        }
    }

    /// Update status; silently ignores IDs not in any known registry.
    pub fn set_status(&mut self, id: &str, status: &str)
        requires
            old(self)@.wf(),
        ensures
            id_find(old(self)@.npcs, id@, 0) is Some ==> final(self)@ == (RegView {
                npc_status: assoc_insert(old(self)@.npc_status, id@, status@),
                ..old(self)@
            }),
            id_find(old(self)@.npcs, id@, 0) is None && id_find(old(self)@.pcs, id@, 0) is Some
                ==> final(self)@ == (RegView {
                pc_status: assoc_insert(old(self)@.pc_status, id@, status@),
                ..old(self)@
            }),
            id_find(old(self)@.npcs, id@, 0) is None && id_find(old(self)@.pcs, id@, 0) is None
                ==> final(self)@ == old(self)@,
            final(self)@.wf(),
    {
        if find_id(&self.npcs, id).is_some() {
            proof {
                lemma_assoc_insert_unique(self@.npc_status, id@, status@);
            }
            insert_pair(&mut self.npc_status, id, status);
        } else if find_id(&self.pcs, id).is_some() {
            proof {
                lemma_assoc_insert_unique(self@.pc_status, id@, status@);
            }
            insert_pair(&mut self.pc_status, id, status);
        }
    }

    fn find_mode(&self, val: &[char], mode: u8) -> (r: Option<&GameObj>)
        requires
            mode <= 2,
        ensures
            opt_ref(r) == first_in_groups(groups(self@), val@, mode as int, 0),
    {
        let ghost gs = groups(self@);
        let ghost m = mode as int;
        assert(gs[0] == objs(self.inv@));
        assert(gs[1] == objs(self.loot@));
        assert(gs[2] == objs(self.npcs@));
        assert(gs[3] == objs(self.pcs@));
        assert(gs[4] == opt_seq(opt_obj(self.right_hand)));
        assert(gs[5] == opt_seq(opt_obj(self.left_hand)));
        assert(gs[6] == objs(self.room_desc@));
        let r = first_in_exec(&self.inv, val, mode);
        if r.is_some() {
            return r;
        }
        assert(first_in_groups(gs, val@, m, 0) == first_in_groups(gs, val@, m, 1));
        let r = first_in_exec(&self.loot, val, mode);
        if r.is_some() {
            return r;
        }
        assert(first_in_groups(gs, val@, m, 0) == first_in_groups(gs, val@, m, 2));
        let r = first_in_exec(&self.npcs, val, mode);
        if r.is_some() {
            return r;
        }
        assert(first_in_groups(gs, val@, m, 0) == first_in_groups(gs, val@, m, 3));
        let r = first_in_exec(&self.pcs, val, mode);
        if r.is_some() {
            return r;
        }
        assert(first_in_groups(gs, val@, m, 0) == first_in_groups(gs, val@, m, 4));
        let r = first_in_opt(&self.right_hand, val, mode);
        if r.is_some() {
            return r;
        }
        assert(first_in_groups(gs, val@, m, 0) == first_in_groups(gs, val@, m, 5));
        let r = first_in_opt(&self.left_hand, val, mode);
        if r.is_some() {
            return r;
        }
        assert(first_in_groups(gs, val@, m, 0) == first_in_groups(gs, val@, m, 6));
        let r = first_in_exec(&self.room_desc, val, mode);
        if r.is_some() {
            return r;
        }
        assert(first_in_groups(gs, val@, m, 0) == first_in_groups(gs, val@, m, 7));
        let mut c: usize = 0;
        while c < self.contents.len()
            invariant
                c <= self.contents.len(),
                mode <= 2,
                m == mode as int,
                gs == groups(self@),
                gs.len() == 7 + self.contents.len(),
                first_in_groups(gs, val@, m, 0) == first_in_groups(gs, val@, m, 7 + c),
            decreases self.contents.len() - c,
        {
            assert(gs[7 + c] == objs(self.contents@[c as int].1@));
            let r = first_in_exec(&self.contents[c].1, val, mode);
            if r.is_some() {
                return r;
            }
            c += 1;
        }
        None
    }

    /// Find by exact ID, then noun, then name substring.
    /// Search order: inv → loot → npcs → pcs → hands → room_desc → container contents.
    pub fn find(&self, val: &str) -> (r: Option<&GameObj>)
        ensures
            opt_ref(r) == find_spec(self@, val@),
    {
        let v = text::chars_of(val);
        let r = self.find_mode(&v, 0);
        if r.is_some() {
            return r;
        }
        let r = self.find_mode(&v, 1);
        if r.is_some() {
            return r;
        }
        self.find_mode(&v, 2)
    }

    /// NPCs whose status is "dead".
    pub fn dead_npcs(&self) -> (r: Vec<&GameObj>)
        ensures
            r@.map_values(|o: &GameObj| o@) == dead_prefix(
                self@.npcs,
                self@.npc_status,
                self@.npcs.len() as int,
            ),
    {
        let ghost nv = self@.npcs;
        let ghost st = self@.npc_status;
        let mut out: Vec<&GameObj> = Vec::new();
        let mut i: usize = 0;
        while i < self.npcs.len()
            invariant
                i <= self.npcs.len(),
                nv == self@.npcs,
                nv == objs(self.npcs@),
                st == self@.npc_status,
                out@.map_values(|o: &GameObj| o@) == dead_prefix(nv, st, i as int),
            decreases self.npcs.len() - i,
        {
            let o = &self.npcs[i];
            proof {
                lemma_assoc_find(st, o.id@, 0);
            }
            let dead = match find_pair(&self.npc_status, o.id.as_str()) {
                Some(k) => text::str_eq(self.npc_status[k].1.as_str(), "dead"),
                None => false,
            };
            let ghost old_out = out@;
            if dead {
                out.push(o);
                assert(out@.map_values(|o: &GameObj| o@) =~= old_out.map_values(|o: &GameObj| o@).push(
                    nv[i as int],
                ));
            }
            i += 1;
        }
        out
    }
}

/// Deduplication law: asking again for the object just found or created,
/// with the same before/after names, gives the same object and leaves the
/// index as it was.
pub proof fn lemma_find_or_create_stable(
    idx: Seq<(Seq<char>, GameObjV)>,
    id: Seq<char>,
    noun: Seq<char>,
    name: Seq<char>,
    before: Option<Seq<char>>,
    after: Option<Seq<char>>,
)
    ensures
        ({
            let f1 = foc(idx, id, noun, name, before, after);
            let f2 = foc(f1.0, id, noun, name, before, after);
            f2.1 == f1.1 && f2.0 == f1.0
        }),
{
    let k = key_of(id, noun, name);
    lemma_assoc_find(idx, k, 0);
    let f1 = foc(idx, id, noun, name, before, after);
    lemma_assoc_find(f1.0, k, 0);
    match assoc_find(idx, k, 0) {
        Some(i) => {
            match assoc_find(f1.0, k, 0) {
                Some(j) => {
                    if j < i {
                        assert(f1.0[j] == idx[j]);
                    } else if j > i {
                        assert(f1.0[i].0 == k);
                    }
                },
                None => {
                    assert(f1.0[i].0 == k);
                },
            }
            assert(f1.0.update(i, (k, f1.1)) =~= f1.0);
        },
        None => {
            let n = idx.len() as int;
            match assoc_find(f1.0, k, 0) {
                Some(j) => {
                    if j < n {
                        assert(f1.0[j] == idx[j]);
                    }
                },
                None => {
                    assert(f1.0[n].0 == k);
                },
            }
            assert(f1.0.update(n, (k, f1.1)) =~= f1.0);
        },
    }
}

// ── Lookup laws ─────────────────────────────────────────────────────────────

/// `o` is held somewhere in the registry: in the inventory, loot, NPCs,
/// players, either hand, the room description, or a container.
pub open spec fn held(r: RegView, o: GameObjV) -> bool {
    ||| r.inv.contains(o)
    ||| r.loot.contains(o)
    ||| r.npcs.contains(o)
    ||| r.pcs.contains(o)
    ||| r.right_hand == Some(o)
    ||| r.left_hand == Some(o)
    ||| r.room_desc.contains(o)
    ||| exists|k: int| 0 <= k < r.contents.len() && (#[trigger] r.contents[k]).1.contains(o)
}

/// `o` answers to `val`: by id, by noun, or by a name containing it.
pub open spec fn answers_to(o: GameObjV, val: Seq<char>) -> bool {
    o.id == val || o.noun == val || text::contains_sub(o.name, val)
}

proof fn lemma_first_in_found(l: Seq<GameObjV>, val: Seq<char>, mode: int, i: int, j: int)
    requires
        0 <= i <= j < l.len(),
        obj_matches(l[j], val, mode),
    ensures
        first_in(l, val, mode, i) is Some,
    decreases j - i,
{
    if i < j && !obj_matches(l[i], val, mode) {
        lemma_first_in_found(l, val, mode, i + 1, j);
    }
}

proof fn lemma_first_in_sound(l: Seq<GameObjV>, val: Seq<char>, mode: int, i: int)
    requires
        0 <= i,
    ensures
        first_in(l, val, mode, i) matches Some(x) ==> l.contains(x) && obj_matches(x, val, mode),
    decreases l.len() - i,
{
    if 0 <= i < l.len() {
        if obj_matches(l[i], val, mode) {
            assert(l[i] == l[i]);
        } else {
            lemma_first_in_sound(l, val, mode, i + 1);
        }
    }
}

proof fn lemma_groups_found(gs: Seq<Seq<GameObjV>>, val: Seq<char>, mode: int, g: int, h: int, o: GameObjV)
    requires
        0 <= g <= h < gs.len(),
        gs[h].contains(o),
        obj_matches(o, val, mode),
    ensures
        first_in_groups(gs, val, mode, g) is Some,
    decreases h - g,
{
    if first_in(gs[g], val, mode, 0) is None {
        if g == h {
            let j = choose|j: int| 0 <= j < gs[h].len() && gs[h][j] == o;
            lemma_first_in_found(gs[h], val, mode, 0, j);
        } else {
            lemma_groups_found(gs, val, mode, g + 1, h, o);
        }
    }
}

proof fn lemma_groups_sound(gs: Seq<Seq<GameObjV>>, val: Seq<char>, mode: int, g: int)
    requires
        0 <= g,
    ensures
        first_in_groups(gs, val, mode, g) matches Some(x) ==> obj_matches(x, val, mode) && exists|h: int|
            0 <= h < gs.len() && (#[trigger] gs[h]).contains(x),
    decreases gs.len() - g,
{
    if 0 <= g < gs.len() {
        lemma_first_in_sound(gs[g], val, mode, 0);
        if first_in(gs[g], val, mode, 0) is None {
            lemma_groups_sound(gs, val, mode, g + 1);
        }
    }
}

/// `find` misses nothing and makes nothing up: it finds an object exactly
/// when some object held in the registry (in either hand too) answers to
/// `val` by id, noun or name, and what it finds is such an object. An
/// object answering by id is preferred to one answering only by noun or
/// name.
pub proof fn lemma_find_held(r: RegView, val: Seq<char>, o: GameObjV)
    ensures
        held(r, o) && answers_to(o, val) ==> find_spec(r, val) is Some,
        held(r, o) && o.id == val ==> (find_spec(r, val) matches Some(x) && x.id == val),
        find_spec(r, val) matches Some(x) ==> held(r, x) && answers_to(x, val),
{
    let gs = groups(r);
    assert(gs[0] == r.inv && gs[1] == r.loot && gs[2] == r.npcs && gs[3] == r.pcs);
    assert(gs[4] == opt_seq(r.right_hand) && gs[5] == opt_seq(r.left_hand) && gs[6] == r.room_desc);
    assert forall|k: int| 0 <= k < r.contents.len() implies gs[7 + k] == (#[trigger] r.contents[k]).1 by {}
    if held(r, o) {
        let h: int = if r.inv.contains(o) {
            0
        } else if r.loot.contains(o) {
            1
        } else if r.npcs.contains(o) {
            2
        } else if r.pcs.contains(o) {
            3
        } else if r.right_hand == Some(o) {
            assert(opt_seq(r.right_hand)[0] == o);
            4
        } else if r.left_hand == Some(o) {
            assert(opt_seq(r.left_hand)[0] == o);
            5
        } else if r.room_desc.contains(o) {
            6
        } else {
            let k = choose|k: int| 0 <= k < r.contents.len() && (#[trigger] r.contents[k]).1.contains(o);
            7 + k
        };
        assert(gs[h].contains(o));
        if o.id == val {
            lemma_groups_found(gs, val, 0, 0, h, o);
        } else if o.noun == val {
            lemma_groups_found(gs, val, 1, 0, h, o);
        } else if text::contains_sub(o.name, val) {
            lemma_groups_found(gs, val, 2, 0, h, o);
        }
    }
    lemma_groups_sound(gs, val, 0, 0);
    lemma_groups_sound(gs, val, 1, 0);
    lemma_groups_sound(gs, val, 2, 0);
    if let Some(x) = find_spec(r, val) {
        let m: int = if first_in_groups(gs, val, 0, 0) is Some {
            0
        } else if first_in_groups(gs, val, 1, 0) is Some {
            1
        } else {
            2
        };
        let h = choose|h: int| 0 <= h < gs.len() && (#[trigger] gs[h]).contains(x);
        if h >= 7 {
            assert(r.contents[h - 7].1 == gs[h]);
        } else if h == 4 {
            assert(r.right_hand == Some(x));
        } else if h == 5 {
            assert(r.left_hand == Some(x));
        }
    }
}

} // verus!
