//! Game-object type and sellable classification, looked up by noun first and
//! then by full name, both lowercased.
use vstd::prelude::*;
use crate::text;
use crate::xml_events::{XmlEv, XmlEvV, attr_value, attr_value_exec, events_view, read_xml_events, xml_tokens};
use crate::game_obj::{assoc_get, assoc_insert, pairs_view, find_pair, insert_pair, lemma_assoc_find};

verus! {

/// Type/sellable classification data loaded from gameobj-data.xml.
pub struct TypeData {
    noun_types: Vec<(String, String)>,
    name_types: Vec<(String, String)>,
    noun_sellable: Vec<(String, String)>,
    name_sellable: Vec<(String, String)>,
}

pub struct TypeDataV {
    pub noun_types: Seq<(Seq<char>, Seq<char>)>,
    pub name_types: Seq<(Seq<char>, Seq<char>)>,
    pub noun_sellable: Seq<(Seq<char>, Seq<char>)>,
    pub name_sellable: Seq<(Seq<char>, Seq<char>)>,
}

impl View for TypeData {
    type V = TypeDataV;

    closed spec fn view(&self) -> TypeDataV {
        TypeDataV {
            noun_types: pairs_view(self.noun_types@),
            name_types: pairs_view(self.name_types@),
            noun_sellable: pairs_view(self.noun_sellable@),
            name_sellable: pairs_view(self.name_sellable@),
        }
    }
}

/// Which of the four tables an entry goes to.
#[derive(Clone, Copy, PartialEq, Eq, Structural)]
pub enum Table {
    NounType,
    NameType,
    NounSellable,
    NameSellable,
}

/// Lookup by the lowercased noun, then by the lowercased name.
pub open spec fn lookup2(
    by_noun: Seq<(Seq<char>, Seq<char>)>,
    by_name: Seq<(Seq<char>, Seq<char>)>,
    noun: Seq<char>,
    name: Seq<char>,
) -> Option<Seq<char>> {
    match assoc_get(by_noun, text::unicode_lowercase(noun)) {
        Some(v) => Some(v),
        None => assoc_get(by_name, text::unicode_lowercase(name)),
    }
}

/// Whether one of the comma-separated tags in `types`, trimmed, is `tag`.
pub open spec fn has_tag(types: Seq<char>, tag: Seq<char>) -> bool {
    exists|i: int| 0 <= i < text::split_char(types, ',').len() && text::trim(
        #[trigger] text::split_char(types, ',')[i],
    ) == tag
}

pub open spec fn opt_ref_str(o: Option<&str>) -> Option<Seq<char>> {
    match o {
        Some(s) => Some(s@),
        None => None,
    }
}

fn lookup_exec<'a>(m: &'a Vec<(String, String)>, key: &str) -> (r: Option<&'a str>)
    ensures
        opt_ref_str(r) == assoc_get(pairs_view(m@), key@),
{
    proof {
        lemma_assoc_find(pairs_view(m@), key@, 0);
    }
    match find_pair(m, key) {
        Some(i) => Some(m[i].1.as_str()),
        None => None,
    }
}

impl TypeData {
    pub fn new() -> (r: Self)
        ensures
            r@.noun_types.len() == 0,
            r@.name_types.len() == 0,
            r@.noun_sellable.len() == 0,
            r@.name_sellable.len() == 0,
    {
        let r = TypeData {
            noun_types: Vec::new(),
            name_types: Vec::new(),
            noun_sellable: Vec::new(),
            name_sellable: Vec::new(),
        };
        assert(pairs_view(r.noun_types@) =~= seq![]);
        assert(pairs_view(r.name_types@) =~= seq![]);
        assert(pairs_view(r.noun_sellable@) =~= seq![]);
        assert(pairs_view(r.name_sellable@) =~= seq![]);
        r
    }

    /// Records `value` under the lowercased `key` in one table; a later
    /// entry for the same key replaces the earlier one.
    pub fn insert(&mut self, table: Table, key: &str, value: &str)
        ensures
            final(self)@.noun_types == (if table == Table::NounType {
                assoc_insert(old(self)@.noun_types, text::unicode_lowercase(key@), value@)
            } else {
                old(self)@.noun_types
            }),
            final(self)@.name_types == (if table == Table::NameType {
                assoc_insert(old(self)@.name_types, text::unicode_lowercase(key@), value@)
            } else {
                old(self)@.name_types
            }),
            final(self)@.noun_sellable == (if table == Table::NounSellable {
                assoc_insert(old(self)@.noun_sellable, text::unicode_lowercase(key@), value@)
            } else {
                old(self)@.noun_sellable
            }),
            final(self)@.name_sellable == (if table == Table::NameSellable {
                assoc_insert(old(self)@.name_sellable, text::unicode_lowercase(key@), value@)
            } else {
                old(self)@.name_sellable
            }),
    {
        let k = text::to_lowercase(key);
        match table {
            Table::NounType => insert_pair(&mut self.noun_types, k.as_str(), value),
            Table::NameType => insert_pair(&mut self.name_types, k.as_str(), value),
            Table::NounSellable => insert_pair(&mut self.noun_sellable, k.as_str(), value),
            Table::NameSellable => insert_pair(&mut self.name_sellable, k.as_str(), value),
        }
    }

    /// Get comma-separated type tags for a game object by noun and name.
    /// Checks noun first, then full name.
    pub fn get_type(&self, noun: &str, name: &str) -> (r: Option<&str>)
        ensures
            opt_ref_str(r) == lookup2(self@.noun_types, self@.name_types, noun@, name@),
    {
        let noun_lower = text::to_lowercase(noun);
        let name_lower = text::to_lowercase(name);
        match lookup_exec(&self.noun_types, noun_lower.as_str()) {
            Some(v) => Some(v),
            None => lookup_exec(&self.name_types, name_lower.as_str()),
        }
    }

    /// Check if a game object matches a specific type tag.
    pub fn is_type(&self, noun: &str, name: &str, type_tag: &str) -> (r: bool)
        ensures
            r == match lookup2(self@.noun_types, self@.name_types, noun@, name@) {
                Some(types) => has_tag(types, type_tag@),
                None => false,
            },
    {
        match self.get_type(noun, name) {
            Some(types) => {
                let tc = text::chars_of(types);
                let parts = text::split_char_exec(&tc, ',');
                let ghost pv = text::views(parts@);
                let mut i: usize = 0;
                while i < parts.len()
                    invariant
                        i <= parts.len(),
                        pv == text::views(parts@),
                        pv == text::split_char(types@, ','),
                        lookup2(self@.noun_types, self@.name_types, noun@, name@) == Some(types@),
                        forall|k: int| 0 <= k < i ==> text::trim(#[trigger] pv[k]) != type_tag@,
                    decreases parts.len() - i,
                {
                    let t = text::trim_exec(&parts[i]);
                    if text::eq_lit(&t, type_tag) {
                        assert(text::trim(text::split_char(types@, ',')[i as int]) == type_tag@);
                        return true;
                    }
                    i += 1;
                }
                false
            },
            None => false,
        }
    }

    /// Get the sellable category for a game object.
    pub fn get_sellable(&self, noun: &str, name: &str) -> (r: Option<&str>)
        ensures
            opt_ref_str(r) == lookup2(self@.noun_sellable, self@.name_sellable, noun@, name@),
    {
        let noun_lower = text::to_lowercase(noun);
        let name_lower = text::to_lowercase(name);
        match lookup_exec(&self.noun_sellable, noun_lower.as_str()) {
            Some(v) => Some(v),
            None => lookup_exec(&self.name_sellable, name_lower.as_str()),
        }
    }
}

// ── Reading gameobj-data.xml ────────────────────────────────────────────────

/// The block being read: a `<type name=…>` or a `<sellable name=…>`.
pub enum TdCtx {
    Outside,
    Type(Seq<char>),
    Sellable(Seq<char>),
}

/// Where the reading of the token stream stands.
pub struct TdRead {
    pub ctx: TdCtx,
    pub elem: Option<Seq<char>>,
    pub td: TypeDataV,
    pub done: bool,
    pub failed: bool,
}

pub open spec fn td_initial() -> TdRead {
    TdRead {
        ctx: TdCtx::Outside,
        elem: None,
        td: TypeDataV { noun_types: seq![], name_types: seq![], noun_sellable: seq![], name_sellable: seq![] },
        done: false,
        failed: false,
    }
}

/// The tables after the text `k` (already lowercased) of a `<noun>` or
/// `<name>` element inside a block.
pub open spec fn td_record(t: TypeDataV, ctx: TdCtx, elem: Seq<char>, k: Seq<char>) -> TypeDataV {
    match ctx {
        TdCtx::Type(n) => if elem == "noun"@ {
            TypeDataV { noun_types: assoc_insert(t.noun_types, k, n), ..t }
        } else if elem == "name"@ {
            TypeDataV { name_types: assoc_insert(t.name_types, k, n), ..t }
        } else {
            t
        },
        TdCtx::Sellable(n) => if elem == "noun"@ {
            TypeDataV { noun_sellable: assoc_insert(t.noun_sellable, k, n), ..t }
        } else if elem == "name"@ {
            TypeDataV { name_sellable: assoc_insert(t.name_sellable, k, n), ..t }
        } else {
            t
        },
        TdCtx::Outside => t,
    }
}

/// One token of gameobj-data.xml. Reading stops at the end of the document
/// or at a syntax error; text that is not UTF-8 fails the whole read.
pub open spec fn td_step(s: TdRead, e: XmlEvV) -> TdRead {
    if s.done {
        s
    } else {
        match e {
            XmlEvV::Start(tag, attrs) => if tag == "type"@ {
                TdRead { ctx: TdCtx::Type(attr_value(attrs, "name"@, 0)), ..s }
            } else if tag == "sellable"@ {
                TdRead { ctx: TdCtx::Sellable(attr_value(attrs, "name"@, 0)), ..s }
            } else if tag == "noun"@ || tag == "name"@ {
                TdRead { elem: Some(tag), ..s }
            } else {
                s
            },
            XmlEvV::Text(t) => match s.elem {
                None => s,
                Some(el) => match t {
                    None => TdRead { done: true, failed: true, ..s },
                    Some(x) => TdRead { td: td_record(s.td, s.ctx, el, text::unicode_lowercase(x)), ..s },
                },
            },
            XmlEvV::End(tag) => if tag == "type"@ || tag == "sellable"@ {
                TdRead { ctx: TdCtx::Outside, ..s }
            } else if tag == "noun"@ || tag == "name"@ {
                TdRead { elem: None, ..s }
            } else {
                s
            },
            XmlEvV::Eof | XmlEvV::Error => TdRead { done: true, ..s },
            _ => s,
        }
    }
}

pub open spec fn td_run(evs: Seq<XmlEvV>, n: int) -> TdRead
    decreases n,
{
    if n <= 0 {
        td_initial()
    } else {
        td_step(td_run(evs, n - 1), evs[n - 1])
    }
}

/// Why gameobj-data.xml could not be read.
#[derive(Debug, Clone, Copy, PartialEq, Eq, Structural)]
pub enum TypeDataError {
    /// Element text that is not UTF-8.
    BadText,
}

enum Ctx {
    Outside,
    Type(String),
    Sellable(String),
}

impl TypeData {
    /// The classification tables described by the tokens of gameobj-data.xml.
    pub fn from_events(events: &Vec<XmlEv>) -> (r: Result<TypeData, TypeDataError>)
        ensures
            match r {
                Ok(td) => !td_run(events_view(events@), events@.len() as int).failed && td@ == td_run(
                    events_view(events@),
                    events@.len() as int,
                ).td,
                Err(_) => td_run(events_view(events@), events@.len() as int).failed,
            },
    {
        let ghost ev = events_view(events@);
        let mut td = TypeData::new();
        let mut ctx = Ctx::Outside;
        let mut elem: Option<String> = None;
        let mut done = false;
        assert(td@.noun_types =~= seq![]);
        assert(td@.name_types =~= seq![]);
        assert(td@.noun_sellable =~= seq![]);
        assert(td@.name_sellable =~= seq![]);
        assert(td@ == td_initial().td);
        let mut i: usize = 0;
        while i < events.len()
            invariant
                i <= events.len(),
                ev == events_view(events@),
                ({
                    let st = td_run(ev, i as int);
                    &&& !st.failed
                    &&& st.done == done
                    &&& st.td == td@
                    &&& st.elem == match elem {
                        Some(e) => Some(e@),
                        None => None,
                    }
                    &&& st.ctx == match ctx {
                        Ctx::Outside => TdCtx::Outside,
                        Ctx::Type(n) => TdCtx::Type(n@),
                        Ctx::Sellable(n) => TdCtx::Sellable(n@),
                    }
                }),
            decreases events.len() - i,
        {
            if !done {
                match &events[i] {
                    XmlEv::Start(tag, attrs) => {
                        let t = text::chars_of(tag.as_str());
                        if text::eq_lit(&t, "type") {
                            ctx = Ctx::Type(text::string_of(&attr_value_exec(attrs, "name")));
                        } else if text::eq_lit(&t, "sellable") {
                            ctx = Ctx::Sellable(text::string_of(&attr_value_exec(attrs, "name")));
                        } else if text::eq_lit(&t, "noun") || text::eq_lit(&t, "name") {
                            elem = Some(tag.clone());
                        }
                    },
                    XmlEv::Text(t) => {
                        match &elem {
                            None => {},
                            Some(el) => match t {
                                None => {
                                    assert(td_run(ev, i + 1).failed);
                                    proof {
                                        lemma_td_failed_sticks(ev, i + 1, ev.len() as int);
                                    }
                                    return Err(TypeDataError::BadText);
                                },
                                Some(x) => {
                                    let k = text::to_lowercase(x.as_str());
                                    let e = text::chars_of(el.as_str());
                                    match &ctx {
                                        Ctx::Type(n) => {
                                            if text::eq_lit(&e, "noun") {
                                                insert_pair(&mut td.noun_types, k.as_str(), n.as_str());
                                            } else if text::eq_lit(&e, "name") {
                                                insert_pair(&mut td.name_types, k.as_str(), n.as_str());
                                            }
                                        },
                                        Ctx::Sellable(n) => {
                                            if text::eq_lit(&e, "noun") {
                                                insert_pair(&mut td.noun_sellable, k.as_str(), n.as_str());
                                            } else if text::eq_lit(&e, "name") {
                                                insert_pair(&mut td.name_sellable, k.as_str(), n.as_str());
                                            }
                                        },
                                        Ctx::Outside => {},
                                    }
                                },
                            },
                        }
                    },
                    XmlEv::End(tag) => {
                        let t = text::chars_of(tag.as_str());
                        if text::eq_lit(&t, "type") || text::eq_lit(&t, "sellable") {
                            ctx = Ctx::Outside;
                        } else if text::eq_lit(&t, "noun") || text::eq_lit(&t, "name") {
                            elem = None;
                        }
                    },
                    XmlEv::Eof | XmlEv::Error => {
                        done = true;
                    },
                    _ => {},
                }
            }
            i += 1;
        }
        Ok(td)
    }

    /// Reads gameobj-data.xml (text trimmed around tags): the tables are
    /// those that `from_events` gives for the tokens quick-xml reads from it.
    pub fn parse(xml: &str) -> (r: Result<TypeData, TypeDataError>)
        ensures
            ({
                let evs = xml_tokens(xml@, true);
                match r {
                    Ok(td) => !td_run(evs, evs.len() as int).failed && td@ == td_run(evs, evs.len() as int).td,
                    Err(_) => td_run(evs, evs.len() as int).failed,
                }
            }),
    {
        let evs = read_xml_events(xml, true);
        let r = Self::from_events(&evs);
        proof {
            let w = events_view(evs@);
            assert(match r {
                Ok(td) => !td_run(w, w.len() as int).failed && td@ == td_run(w, w.len() as int).td,
                Err(_) => td_run(w, w.len() as int).failed,
            });
        }
        r
    }
}

proof fn lemma_td_failed_sticks(evs: Seq<XmlEvV>, j: int, n: int)
    requires
        0 <= j <= n,
        td_run(evs, j).failed,
        td_run(evs, j).done,
    ensures
        td_run(evs, n).failed,
    decreases n - j,
{
    if j < n {
        lemma_td_failed_sticks(evs, j, n - 1);
        assert(td_run(evs, n - 1).done) by {
            lemma_td_done_sticks(evs, j, n - 1);
        }
    }
}

proof fn lemma_td_done_sticks(evs: Seq<XmlEvV>, j: int, n: int)
    requires
        0 <= j <= n,
        td_run(evs, j).done,
    ensures
        td_run(evs, n).done,
    decreases n - j,
{
    if j < n {
        lemma_td_done_sticks(evs, j, n - 1);
    }
}

} // verus!
