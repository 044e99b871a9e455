//! Character information read from the game's output: the INFO, SKILLS,
//! SPELL, EXPERIENCE, SOCIETY and CITIZENSHIP replies become key/value
//! pairs, kept in a cache and handed out for storage.
use vstd::prelude::*;
use crate::text;
use crate::pattern::{captures, first_match, group, groups_view, group_present, group_text, has_group, is_match};
use crate::game_obj::{assoc_get, assoc_insert, pairs_view, find_pair, insert_pair, lemma_assoc_find};

verus! {

pub open spec fn underscore(c: char) -> char {
    if c == ' ' || c == '-' {
        '_'
    } else {
        c
    }
}

/// The key for a printed name: trimmed, lowercased, spaces and hyphens
/// turned into underscores, then each `__` pair into one `_`.
pub open spec fn normalize_key_spec(raw: Seq<char>) -> Seq<char> {
    text::replace_all(
        text::unicode_lowercase(text::trim(raw)).map_values(|c: char| underscore(c)),
        "__"@,
        "_"@,
    )
}

pub fn normalize_key(raw: &str) -> (r: String)
    ensures
        r@ == normalize_key_spec(raw@),
        text::all_ascii(raw@) ==> r@ == text::replace_all(
            text::trim(raw@).map_values(|c: char| underscore(text::ascii_lower(c))),
            "__"@,
            "_"@,
        ),
{
    let rc = text::chars_of(raw);
    let t = text::trim_exec(&rc);
    let ts = text::string_of(&t);
    let lower = text::to_lowercase(ts.as_str());
    let l = text::chars_of(lower.as_str());
    proof {
        if text::all_ascii(raw@) {
            text::lemma_trim_ascii(raw@);
            assert(lower@.map_values(|c: char| underscore(c)) =~= text::trim(raw@).map_values(
                |c: char| underscore(text::ascii_lower(c)),
            ));
        }
    }
    let mut u: Vec<char> = Vec::new();
    let mut i: usize = 0;
    while i < l.len()
        invariant
            i <= l.len(),
            u@ == l@.take(i as int).map_values(|c: char| underscore(c)),
        decreases l.len() - i,
    {
        let c = l[i];
        u.push(if c == ' ' || c == '-' { '_' } else { c });
        assert(l@.take(i + 1) == l@.take(i as int).push(c));
        i += 1;
    }
    assert(l@.take(l.len() as int) == l@);
    proof {
        reveal_strlit("__");
    }
    let r = text::replace_lit(&u, "__", "_");
    text::string_of(&r)
}

// ── Patterns ────────────────────────────────────────────────────────────────

pub const CHAR_RACE_PROF: &'static str = r"^Name:\s+[\w\s'-]+\s+Race:\s+([\w -]+)\s+Profession:\s+([-\w]+)";
pub const CHAR_GENDER_AGE: &'static str = r"^Gender:\s+(\w+)\s+Age:\s+([\d,]+)";
pub const STAT_LINE: &'static str = r"^\s*(\w+)\s\((?:STR|CON|DEX|AGI|DIS|AUR|LOG|INT|WIS|INF)\):(?:\s+(\d+)\s+\((-?\d+)\)\s+\.{3})?\s+(\d+)\s+\((-?\d+)\)\s+\.{3}\s+(\d+)\s+\((-?\d+)\)";
pub const STAT_END: &'static str = r"^Mana:\s+-?\d+\s+Silver:";
pub const SKILL_START: &'static str = r"^\s\w+\s\(at level \d+\).*skill bonuses and ranks";
pub const SKILL_LINE: &'static str = r"^\s+([\w\s\-']+?)\.+\|\s+(\d+)\s+(\d+)";
pub const SPELL_RANK_LINE: &'static str = r"^\s+([\w\s\-']+?)\.+\|\s+(\d+)\s*$";
pub const SKILL_END: &'static str = r"^Training Points:\s+\d+\s+Phy\s+\d+\s+Mnt";
pub const SPELL_SOLO: &'static str = r"^(Bard|Cleric|Empath|Minor (?:Elemental|Mental|Spiritual)|Major (?:Elemental|Mental|Spiritual)|Paladin|Ranger|Savant|Sorcerer|Wizard)(?: Base)?\.+(\d+)";
pub const EXP_START: &'static str = r"^\s+Level: \d+\s+Fame: (-?[\d,]+)$";
pub const EXP_FIELD: &'static str = r"^\s+Experience: [\d,]+\s+Field Exp: ([\d,]+)/([\d,]+)$";
pub const EXP_ASCENSION: &'static str = r"^\s+Ascension Exp: ([\d,]+)\s+Recent Deaths: [\d,]+";
pub const EXP_TOTAL: &'static str = r"^\s+Total Exp: ([\d,]+)\s+Death's Sting: (\w[\w\s]*\w)";
pub const EXP_LTE: &'static str = r"^\s+Long-Term Exp: ([\d,]+)\s+Deeds: (\d+)";
pub const EXP_END: &'static str = r"^\s+Exp (?:until lvl|to next TP): -?[\d,]+";
pub const SOCIETY_MEMBER: &'static str = r"^\s+You are a (Master|member) (?:in|of) the (Order of Voln|Council of Light|Guardians of Sunfist)(?: at (?:rank|step) (\d+))?\.";
pub const SOCIETY_NONE: &'static str = r"^\s+You are not a member of any society";
pub const CITIZENSHIP_YES: &'static str = r"^You currently have .*? citizenship in (.*)\.(?:\s|$)";
pub const CITIZENSHIP_NONE: &'static str = r"^You don't seem to have citizenship";

// ── Values ──────────────────────────────────────────────────────────────────

proof fn lemma_filter_push<A>(t: Seq<A>, p: spec_fn(A) -> bool, x: A)
    ensures
        t.push(x).filter(p) == (if p(x) {
            t.filter(p).push(x)
        } else {
            t.filter(p)
        }),
{
    reveal(Seq::filter);
    assert(t.push(x).drop_last() =~= t);
}

/// The text without its commas (`4,804,958` → `4804958`).
pub open spec fn no_commas(s: Seq<char>) -> Seq<char> {
    s.filter(|c: char| c != ',')
}

fn no_commas_exec(s: &[char]) -> (r: Vec<char>)
    ensures
        r@ == no_commas(s@),
{
    let mut out: Vec<char> = Vec::new();
    let mut i: usize = 0;
    while i < s.len()
        invariant
            i <= s.len(),
            out@ == no_commas(s@.take(i as int)),
        decreases s.len() - i,
    {
        let ghost t = s@.take(i as int);
        assert(s@.take(i + 1) =~= t.push(s@[i as int]));
        proof {
            lemma_filter_push(t, |c: char| c != ',', s@[i as int]);
        }
        if s[i] != ',' {
            out.push(s[i]);
        }
        i += 1;
    }
    assert(s@.take(s.len() as int) =~= s@);
    out
}

/// Group `k` of a match, or `dflt` when it took no part.
pub open spec fn group_or(g: Seq<Option<Seq<char>>>, k: int, dflt: Seq<char>) -> Seq<char> {
    if has_group(g, k) {
        group(g, k)
    } else {
        dflt
    }
}

fn group_or_exec(g: &Vec<Option<String>>, k: usize, dflt: &str) -> (r: Vec<char>)
    ensures
        r@ == group_or(groups_view(*g), k as int, dflt@),
{
    if group_present(g, k) {
        group_text(g, k)
    } else {
        text::chars_of(dflt)
    }
}

// ── Parser state ────────────────────────────────────────────────────────────

#[derive(Debug, Clone, PartialEq, Eq)]
pub enum ParserState {
    Ready,
    InStats,
    InSkills,
    InExperience,
    InPSM { prefix: String },
    InResource { had_data: bool },
    InWarcry,
    InProfile { verified: bool },
}

/// Which reply block the parser is reading; the blocks it does not read yet
/// are treated as no block.
#[derive(PartialEq, Eq, Structural)]
pub enum Block {
    Ready,
    Stats,
    Skills,
    Experience,
}

pub open spec fn block_of(s: ParserState) -> Block {
    match s {
        ParserState::InStats => Block::Stats,
        ParserState::InSkills => Block::Skills,
        ParserState::InExperience => Block::Experience,
        _ => Block::Ready,
    }
}

/// Infomon-style verb output parser: reads the game's replies line by line
/// and keeps what they say about the character as key/value pairs. Values
/// written are also queued in `writes`, in order, for the caller to store.
pub struct Infomon {
    pub character: String,
    pub game: String,
    pub state: ParserState,
    pub batch: Vec<(String, String)>,
    pub cache: Vec<(String, String)>,
    pub writes: Vec<(String, String)>,
}

pub struct InfomonV {
    pub character: Seq<char>,
    pub game: Seq<char>,
    pub block: Block,
    pub batch: Seq<(Seq<char>, Seq<char>)>,
    pub cache: Seq<(Seq<char>, Seq<char>)>,
    pub writes: Seq<(Seq<char>, Seq<char>)>,
}

impl View for Infomon {
    type V = InfomonV;

    open spec fn view(&self) -> InfomonV {
        InfomonV {
            character: self.character@,
            game: self.game@,
            block: block_of(self.state),
            batch: pairs_view(self.batch@),
            cache: pairs_view(self.cache@),
            writes: pairs_view(self.writes@),
        }
    }
}

/// The cache after storing `pairs` in order (a later value for a key wins).
pub open spec fn store_all(cache: Seq<(Seq<char>, Seq<char>)>, pairs: Seq<(Seq<char>, Seq<char>)>) -> Seq<(Seq<char>, Seq<char>)>
    decreases pairs.len(),
{
    if pairs.len() == 0 {
        cache
    } else {
        store_all(assoc_insert(cache, pairs[0].0, pairs[0].1), pairs.drop_first())
    }
}

/// A value written at once: cached and queued for storage.
pub open spec fn put(m: InfomonV, k: Seq<char>, v: Seq<char>) -> InfomonV {
    InfomonV { cache: assoc_insert(m.cache, k, v), writes: m.writes.push((k, v)), ..m }
}

/// The end of a block: the gathered pairs are cached and queued, and the
/// parser is ready again.
pub open spec fn flush(m: InfomonV) -> InfomonV {
    InfomonV {
        block: Block::Ready,
        batch: seq![],
        cache: store_all(m.cache, m.batch),
        writes: m.writes + m.batch,
        ..m
    }
}

pub open spec fn start_block(m: InfomonV, b: Block, first: Seq<(Seq<char>, Seq<char>)>) -> InfomonV {
    InfomonV { block: b, batch: first, ..m }
}

pub open spec fn gather(m: InfomonV, pairs: Seq<(Seq<char>, Seq<char>)>) -> InfomonV {
    InfomonV { batch: m.batch + pairs, ..m }
}

/// A line read outside any block.
pub open spec fn ready_step(m: InfomonV, line: Seq<char>) -> InfomonV {
    match first_match(CHAR_RACE_PROF@, line) {
        Some(g) => start_block(
            m,
            Block::Stats,
            seq![("stat.race"@, text::trim(group(g, 1))), ("stat.profession"@, text::trim(group(g, 2)))],
        ),
        None => if first_match(SKILL_START@, line) is Some {
            start_block(m, Block::Skills, seq![])
        } else {
            match first_match(SPELL_SOLO@, line) {
                Some(g) => put(m, "spell."@ + normalize_key_spec(group_or(g, 1, ""@)), group_or(g, 2, "0"@)),
                None => match first_match(EXP_START@, line) {
                    Some(g) => start_block(m, Block::Experience, seq![("experience.fame"@, no_commas(group(g, 1)))]),
                    None => match first_match(SOCIETY_MEMBER@, line) {
                        Some(g) => {
                            let society = group_or(g, 2, ""@);
                            let rank = if group_or(g, 1, ""@) == "Master"@ {
                                if society == "Order of Voln"@ {
                                    "26"@
                                } else {
                                    "20"@
                                }
                            } else {
                                group_or(g, 3, "0"@)
                            };
                            put(put(m, "society.status"@, society), "society.rank"@, rank)
                        },
                        None => if first_match(SOCIETY_NONE@, line) is Some {
                            put(put(m, "society.status"@, "None"@), "society.rank"@, "0"@)
                        } else {
                            match first_match(CITIZENSHIP_YES@, line) {
                                Some(g) => put(m, "citizenship"@, group_or(g, 1, ""@)),
                                None => if first_match(CITIZENSHIP_NONE@, line) is Some {
                                    put(m, "citizenship"@, "None"@)
                                } else {
                                    m
                                },
                            }
                        },
                    },
                },
            }
        },
    }
}

/// The pairs a stat line gives for the stat `name`.
pub open spec fn stat_pairs(g: Seq<Option<Seq<char>>>) -> Seq<(Seq<char>, Seq<char>)> {
    let name = normalize_key_spec(group_or(g, 1, ""@));
    let k = "stat."@ + name;
    let main = seq![
        (k, group_or(g, 4, "0"@)),
        (k + "_bonus"@, group_or(g, 5, "0"@)),
        (k + ".enhanced"@, group_or(g, 6, "0"@)),
        (k + ".enhanced_bonus"@, group_or(g, 7, "0"@)),
    ];
    if has_group(g, 2) && has_group(g, 3) {
        main + seq![(k + ".base"@, group(g, 2)), (k + ".base_bonus"@, group(g, 3))]
    } else {
        main
    }
}

/// A line read inside the INFO block.
pub open spec fn stats_step(m: InfomonV, line: Seq<char>) -> InfomonV {
    match first_match(CHAR_GENDER_AGE@, line) {
        Some(g) => gather(m, seq![("stat.gender"@, group_or(g, 1, ""@)), ("stat.age"@, no_commas(group(g, 2)))]),
        None => match first_match(STAT_LINE@, line) {
            Some(g) => gather(m, stat_pairs(g)),
            None => if first_match(STAT_END@, line) is Some {
                flush(m)
            } else {
                m
            },
        },
    }
}

/// A line read inside the SKILLS block.
pub open spec fn skills_step(m: InfomonV, line: Seq<char>) -> InfomonV {
    match first_match(SKILL_LINE@, line) {
        Some(g) => {
            let name = normalize_key_spec(group_or(g, 1, ""@));
            gather(
                m,
                seq![("skill."@ + name, group_or(g, 3, "0"@)), ("skill."@ + name + "_bonus"@, group_or(g, 2, "0"@))],
            )
        },
        None => match first_match(SPELL_RANK_LINE@, line) {
            Some(g) => gather(
                m,
                seq![("spell."@ + normalize_key_spec(group_or(g, 1, ""@)), group_or(g, 2, "0"@))],
            ),
            None => if first_match(SKILL_END@, line) is Some {
                flush(m)
            } else {
                m
            },
        },
    }
}

/// A line read inside the EXPERIENCE block.
pub open spec fn experience_step(m: InfomonV, line: Seq<char>) -> InfomonV {
    match first_match(EXP_FIELD@, line) {
        Some(g) => gather(
            m,
            seq![
                ("experience.field_experience_current"@, no_commas(group(g, 1))),
                ("experience.field_experience_max"@, no_commas(group(g, 2))),
            ],
        ),
        None => match first_match(EXP_ASCENSION@, line) {
            Some(g) => gather(m, seq![("experience.ascension_experience"@, no_commas(group(g, 1)))]),
            None => match first_match(EXP_TOTAL@, line) {
                Some(g) => gather(
                    m,
                    seq![
                        ("experience.total_experience"@, no_commas(group(g, 1))),
                        ("experience.deaths_sting"@, group(g, 2)),
                    ],
                ),
                None => match first_match(EXP_LTE@, line) {
                    Some(g) => gather(
                        m,
                        seq![
                            ("experience.long_term_experience"@, no_commas(group(g, 1))),
                            ("experience.deeds"@, group(g, 2)),
                        ],
                    ),
                    None => if first_match(EXP_END@, line) is Some {
                        flush(m)
                    } else {
                        m
                    },
                },
            },
        },
    }
}

/// One line of game output.
pub open spec fn parse_spec(m: InfomonV, line: Seq<char>) -> InfomonV {
    match m.block {
        Block::Ready => ready_step(m, line),
        Block::Stats => stats_step(m, line),
        Block::Skills => skills_step(m, line),
        Block::Experience => experience_step(m, line),
    }
}

pub open spec fn opt_ref_str(o: Option<&str>) -> Option<Seq<char>> {
    match o {
        Some(s) => Some(s@),
        None => None,
    }
}

fn key_of(prefix: &str, name: &[char], suffix: &str) -> (r: String)
    ensures
        r@ == prefix@ + name@ + suffix@,
        suffix@.len() == 0 ==> r@ == prefix@ + name@,
{
    let mut k = text::chars_of(prefix);
    text::push_all(&mut k, name);
    text::push_str(&mut k, suffix);
    assert(suffix@.len() == 0 ==> prefix@ + name@ + suffix@ =~= prefix@ + name@);
    text::string_of(&k)
}

fn pair(k: &str, v: &[char]) -> (r: (String, String))
    ensures
        r.0@ == k@,
        r.1@ == v@,
{
    (k.to_owned(), text::string_of(v))
}

impl Infomon {
    /// A parser whose cache holds what was stored before (a later pair for
    /// a key wins), ready for a new block.
    pub fn new(character: &str, game: &str, stored: Vec<(String, String)>) -> (r: Infomon)
        ensures
            r@.character == character@,
            r@.game == game@,
            r@.block == Block::Ready,
            r@.batch.len() == 0,
            r@.writes.len() == 0,
            r@.cache == store_all(seq![], pairs_view(stored@)),
    {
        let mut cache: Vec<(String, String)> = Vec::new();
        Self::store_pairs(&mut cache, &stored);
        let r = Infomon {
            character: character.to_owned(),
            game: game.to_owned(),
            state: ParserState::Ready,
            batch: Vec::new(),
            cache,
            writes: Vec::new(),
        };
        assert(pairs_view(r.batch@) =~= seq![]);
        assert(pairs_view(r.writes@) =~= seq![]);
        r
    }

    fn store_pairs(cache: &mut Vec<(String, String)>, pairs: &Vec<(String, String)>)
        ensures
            pairs_view(final(cache)@) == store_all(pairs_view(old(cache)@), pairs_view(pairs@)),
    {
        let ghost pv = pairs_view(pairs@);
        let ghost c0 = pairs_view(cache@);
        assert(pv.subrange(0, pv.len() as int) =~= pv);
        let mut i: usize = 0;
        while i < pairs.len()
            invariant
                i <= pairs.len(),
                pv == pairs_view(pairs@),
                store_all(c0, pv) == store_all(pairs_view(cache@), pv.subrange(i as int, pv.len() as int)),
            decreases pairs.len() - i,
        {
            let ghost rest = pv.subrange(i as int, pv.len() as int);
            assert(rest.drop_first() =~= pv.subrange(i + 1, pv.len() as int));
            insert_pair(cache, pairs[i].0.as_str(), pairs[i].1.as_str());
            i += 1;
        }
        assert(pv.subrange(i as int, pv.len() as int) =~= seq![]);
    }

    /// Read a cached value by key.
    pub fn get(&self, key: &str) -> (r: Option<&str>)
        ensures
            opt_ref_str(r) == assoc_get(self@.cache, key@),
    {
        proof {
            lemma_assoc_find(self@.cache, key@, 0);
        }
        match find_pair(&self.cache, key) {
            Some(i) => Some(self.cache[i].1.as_str()),
            None => None,
        }
    }

    /// Read a cached value as i64; 0 when missing or not a number.
    pub fn get_i64(&self, key: &str) -> (r: i64)
        ensures
            r == match assoc_get(self@.cache, key@) {
                Some(v) => match text::parse_i64_spec(v) {
                    Some(n) => n,
                    None => 0,
                },
                None => 0,
            },
    {
        match self.get(key) {
            Some(v) => {
                let c = text::chars_of(v);
                match text::parse_i64(&c) {
                    Some(n) => n,
                    None => 0,
                }
            },
            None => 0,
        }
    }

    /// The cached pairs whose key starts with `prefix`, in cache order.
    pub fn get_prefix(&self, prefix: &str) -> (r: Vec<(String, String)>)
        ensures
            pairs_view(r@) == self@.cache.filter(|p: (Seq<char>, Seq<char>)| text::starts_with(p.0, prefix@)),
    {
        let ghost cv = self@.cache;
        let pc = text::chars_of(prefix);
        let mut out: Vec<(String, String)> = Vec::new();
        let mut i: usize = 0;
        while i < self.cache.len()
            invariant
                i <= self.cache.len(),
                cv == pairs_view(self.cache@),
                pc@ == prefix@,
                pairs_view(out@) == cv.take(i as int).filter(
                    |p: (Seq<char>, Seq<char>)| text::starts_with(p.0, prefix@),
                ),
            decreases self.cache.len() - i,
        {
            let ghost t = cv.take(i as int);
            assert(cv.take(i + 1) =~= t.push(cv[i as int]));
            proof {
                lemma_filter_push(
                    t,
                    |p: (Seq<char>, Seq<char>)| text::starts_with(p.0, prefix@),
                    cv[i as int],
                );
            }
            let k = text::chars_of(self.cache[i].0.as_str());
            if text::matches_at_exec(&k, &pc, 0) {
                let ghost before = pairs_view(out@);
                out.push((self.cache[i].0.clone(), self.cache[i].1.clone()));
                assert(pairs_view(out@) =~= before.push(cv[i as int]));
            }
            i += 1;
        }
        assert(cv.take(self.cache.len() as int) =~= cv);
        out
    }

    /// Hands out the pairs written since the last call, in order.
    pub fn take_writes(&mut self) -> (r: Vec<(String, String)>)
        ensures
            pairs_view(r@) == old(self)@.writes,
            final(self)@ == (InfomonV { writes: seq![], ..old(self)@ }),
    {
        let mut w: Vec<(String, String)> = Vec::new();
        std::mem::swap(&mut w, &mut self.writes);
        assert(pairs_view(self.writes@) =~= seq![]);
        w
    }

    fn put_value(&mut self, k: &str, v: &[char])
        ensures
            final(self)@ == put(old(self)@, k@, v@),
            final(self).state == old(self).state,
    {
        let p = pair(k, v);
        insert_pair(&mut self.cache, k, p.1.as_str());
        let ghost before = pairs_view(self.writes@);
        self.writes.push(p);
        assert(pairs_view(self.writes@) =~= before.push((k@, v@)));
    }

    fn gather_pairs(&mut self, pairs: Vec<(String, String)>)
        ensures
            final(self)@ == gather(old(self)@, pairs_view(pairs@)),
            final(self).state == old(self).state,
    {
        let ghost b0 = pairs_view(self.batch@);
        let ghost m0 = self@;
        let ghost st0 = self.state;
        let mut i: usize = 0;
        while i < pairs.len()
            invariant
                i <= pairs.len(),
                self.state == st0,
                self@.block == m0.block,
                self@.cache == m0.cache,
                self@.writes == m0.writes,
                self@.character == m0.character,
                self@.game == m0.game,
                pairs_view(self.batch@) == b0 + pairs_view(pairs@).take(i as int),
            decreases pairs.len() - i,
        {
            let ghost before = pairs_view(self.batch@);
            self.batch.push((pairs[i].0.clone(), pairs[i].1.clone()));
            assert(pairs_view(self.batch@) =~= before.push(pairs_view(pairs@)[i as int]));
            assert(pairs_view(pairs@).take(i + 1) =~= pairs_view(pairs@).take(i as int).push(
                pairs_view(pairs@)[i as int],
            ));
            i += 1;
        }
        assert(pairs_view(pairs@).take(pairs.len() as int) =~= pairs_view(pairs@));
    }

    fn start(&mut self, st: ParserState, first: Vec<(String, String)>)
        ensures
            final(self)@ == start_block(old(self)@, block_of(st), pairs_view(first@)),
            final(self).state == st,
    {
        self.state = st;
        self.batch = first;
    }

    /// Flush accumulated batch to the cache and the write queue.
    fn flush_batch(&mut self)
        ensures
            final(self)@ == flush(old(self)@),
            final(self).state == ParserState::Ready,
    {
        let ghost m0 = self@;
        if self.batch.len() > 0 {
            Self::store_pairs(&mut self.cache, &self.batch);
            let mut b: Vec<(String, String)> = Vec::new();
            std::mem::swap(&mut b, &mut self.batch);
            let ghost w0 = pairs_view(self.writes@);
            let ghost c1 = self@.cache;
            let mut i: usize = 0;
            while i < b.len()
                invariant
                    i <= b.len(),
                    self.batch@.len() == 0,
                    self@.cache == c1,
                    self@.character == m0.character,
                    self@.game == m0.game,
                    c1 == store_all(m0.cache, m0.batch),
                    pairs_view(b@) == m0.batch,
                    w0 == m0.writes,
                    pairs_view(self.writes@) == w0 + pairs_view(b@).take(i as int),
                decreases b.len() - i,
            {
                let ghost before = pairs_view(self.writes@);
                self.writes.push((b[i].0.clone(), b[i].1.clone()));
                assert(pairs_view(self.writes@) =~= before.push(pairs_view(b@)[i as int]));
                assert(pairs_view(b@).take(i + 1) =~= pairs_view(b@).take(i as int).push(
                    pairs_view(b@)[i as int],
                ));
                i += 1;
            }
            assert(pairs_view(b@).take(b.len() as int) =~= pairs_view(b@));
            assert(pairs_view(self.batch@) =~= seq![]);
        } else {
            assert(m0.writes + m0.batch =~= m0.writes);
            assert(m0.batch =~= seq![]);
            assert(store_all(m0.cache, m0.batch) == m0.cache);
        }
        self.state = ParserState::Ready;
    }
}

impl Infomon {
    /// Parse a single line of game output.
    pub fn parse(&mut self, line: &str)
        ensures
            final(self)@ == parse_spec(old(self)@, line@),
    {
        match self.state {
            ParserState::InStats => self.parse_in_stats(line),
            ParserState::InSkills => self.parse_in_skills(line),
            ParserState::InExperience => self.parse_in_experience(line),
            _ => self.parse_ready(line),
        }
    }

    fn parse_ready(&mut self, line: &str)
        requires
            old(self)@.block == Block::Ready,
        ensures
            final(self)@ == ready_step(old(self)@, line@),
    {
        proof {
            reveal_strlit("");
        }
        match captures(CHAR_RACE_PROF, line) {
            Some(g) => {
                let race = text::trim_exec(&group_text(&g, 1));
                let prof = text::trim_exec(&group_text(&g, 2));
                let first = vec![pair("stat.race", &race), pair("stat.profession", &prof)];
                let ghost fv = pairs_view(first@);
                assert(fv =~= seq![("stat.race"@, race@), ("stat.profession"@, prof@)]);
                self.start(ParserState::InStats, first);
                return;
            },
            None => {},
        }
        if is_match(SKILL_START, line) {
            let empty: Vec<(String, String)> = Vec::new();
            assert(pairs_view(empty@) =~= seq![]);
            self.start(ParserState::InSkills, empty);
            return;
        }
        match captures(SPELL_SOLO, line) {
            Some(g) => {
                let circle = group_or_exec(&g, 1, "");
                let ranks = group_or_exec(&g, 2, "0");
                let cs = text::string_of(&circle);
                let name = normalize_key(cs.as_str());
                let nc = text::chars_of(name.as_str());
                let key = key_of("spell.", &nc, "");
                self.put_value(key.as_str(), &ranks);
                return;
            },
            None => {},
        }
        match captures(EXP_START, line) {
            Some(g) => {
                let fame = no_commas_exec(&group_text(&g, 1));
                let first = vec![pair("experience.fame", &fame)];
                assert(pairs_view(first@) =~= seq![("experience.fame"@, fame@)]);
                self.start(ParserState::InExperience, first);
                return;
            },
            None => {},
        }
        match captures(SOCIETY_MEMBER, line) {
            Some(g) => {
                let standing = group_or_exec(&g, 1, "");
                let society = group_or_exec(&g, 2, "");
                let rank = if text::eq_lit(&standing, "Master") {
                    if text::eq_lit(&society, "Order of Voln") {
                        text::chars_of("26")
                    } else {
                        text::chars_of("20")
                    }
                } else {
                    group_or_exec(&g, 3, "0")
                };
                self.put_value("society.status", &society);
                self.put_value("society.rank", &rank);
                return;
            },
            None => {},
        }
        if is_match(SOCIETY_NONE, line) {
            self.put_value("society.status", &text::chars_of("None"));
            self.put_value("society.rank", &text::chars_of("0"));
            return;
        }
        match captures(CITIZENSHIP_YES, line) {
            Some(g) => {
                let town = group_or_exec(&g, 1, "");
                self.put_value("citizenship", &town);
                return;
            },
            None => {},
        }
        if is_match(CITIZENSHIP_NONE, line) {
            self.put_value("citizenship", &text::chars_of("None"));
        }
    }

    fn parse_in_stats(&mut self, line: &str)
        requires
            old(self)@.block == Block::Stats,
        ensures
            final(self)@ == stats_step(old(self)@, line@),
    {
        match captures(CHAR_GENDER_AGE, line) {
            Some(g) => {
                let gender = group_or_exec(&g, 1, "");
                let age = no_commas_exec(&group_text(&g, 2));
                let ps = vec![pair("stat.gender", &gender), pair("stat.age", &age)];
                assert(pairs_view(ps@) =~= seq![("stat.gender"@, gender@), ("stat.age"@, age@)]);
                self.gather_pairs(ps);
                return;
            },
            None => {},
        }
        match captures(STAT_LINE, line) {
            Some(g) => {
                let ps = stat_pairs_exec(&g);
                self.gather_pairs(ps);
                return;
            },
            None => {},
        }
        if is_match(STAT_END, line) {
            self.flush_batch();
        }
    }

    fn parse_in_skills(&mut self, line: &str)
        requires
            old(self)@.block == Block::Skills,
        ensures
            final(self)@ == skills_step(old(self)@, line@),
    {
        proof {
            reveal_strlit("");
        }
        match captures(SKILL_LINE, line) {
            Some(g) => {
                let raw = group_or_exec(&g, 1, "");
                let rs = text::string_of(&raw);
                let name = normalize_key(rs.as_str());
                let nc = text::chars_of(name.as_str());
                let bonus = group_or_exec(&g, 2, "0");
                let ranks = group_or_exec(&g, 3, "0");
                let k1 = key_of("skill.", &nc, "");
                let k2 = key_of("skill.", &nc, "_bonus");
                let ps = vec![pair(k1.as_str(), &ranks), pair(k2.as_str(), &bonus)];
                assert(pairs_view(ps@) =~= seq![(k1@, ranks@), (k2@, bonus@)]);
                self.gather_pairs(ps);
                return;
            },
            None => {},
        }
        match captures(SPELL_RANK_LINE, line) {
            Some(g) => {
                let raw = group_or_exec(&g, 1, "");
                let rs = text::string_of(&raw);
                let name = normalize_key(rs.as_str());
                let nc = text::chars_of(name.as_str());
                let ranks = group_or_exec(&g, 2, "0");
                let k = key_of("spell.", &nc, "");
                let ps = vec![pair(k.as_str(), &ranks)];
                assert(pairs_view(ps@) =~= seq![(k@, ranks@)]);
                self.gather_pairs(ps);
                return;
            },
            None => {},
        }
        if is_match(SKILL_END, line) {
            self.flush_batch();
        }
    }

    fn parse_in_experience(&mut self, line: &str)
        requires
            old(self)@.block == Block::Experience,
        ensures
            final(self)@ == experience_step(old(self)@, line@),
    {
        match captures(EXP_FIELD, line) {
            Some(g) => {
                let cur = no_commas_exec(&group_text(&g, 1));
                let max = no_commas_exec(&group_text(&g, 2));
                let ps = vec![
                    pair("experience.field_experience_current", &cur),
                    pair("experience.field_experience_max", &max),
                ];
                assert(pairs_view(ps@) =~= seq![
                    ("experience.field_experience_current"@, cur@),
                    ("experience.field_experience_max"@, max@),
                ]);
                self.gather_pairs(ps);
                return;
            },
            None => {},
        }
        match captures(EXP_ASCENSION, line) {
            Some(g) => {
                let asc = no_commas_exec(&group_text(&g, 1));
                let ps = vec![pair("experience.ascension_experience", &asc)];
                assert(pairs_view(ps@) =~= seq![("experience.ascension_experience"@, asc@)]);
                self.gather_pairs(ps);
                return;
            },
            None => {},
        }
        match captures(EXP_TOTAL, line) {
            Some(g) => {
                let total = no_commas_exec(&group_text(&g, 1));
                let sting = group_text(&g, 2);
                let ps = vec![pair("experience.total_experience", &total), pair("experience.deaths_sting", &sting)];
                assert(pairs_view(ps@) =~= seq![
                    ("experience.total_experience"@, total@),
                    ("experience.deaths_sting"@, sting@),
                ]);
                self.gather_pairs(ps);
                return;
            },
            None => {},
        }
        match captures(EXP_LTE, line) {
            Some(g) => {
                let lte = no_commas_exec(&group_text(&g, 1));
                let deeds = group_text(&g, 2);
                let ps = vec![pair("experience.long_term_experience", &lte), pair("experience.deeds", &deeds)];
                assert(pairs_view(ps@) =~= seq![
                    ("experience.long_term_experience"@, lte@),
                    ("experience.deeds"@, deeds@),
                ]);
                self.gather_pairs(ps);
                return;
            },
            None => {},
        }
        if is_match(EXP_END, line) {
            self.flush_batch();
        }
    }
}

fn stat_pairs_exec(g: &Vec<Option<String>>) -> (r: Vec<(String, String)>)
    ensures
        pairs_view(r@) == stat_pairs(groups_view(*g)),
{
    proof {
        reveal_strlit("");
    }
    let raw = group_or_exec(g, 1, "");
    let rs = text::string_of(&raw);
    let name = normalize_key(rs.as_str());
    let nc = text::chars_of(name.as_str());
    let k = key_of("stat.", &nc, "");
    let kb = key_of("stat.", &nc, "_bonus");
    let ke = key_of("stat.", &nc, ".enhanced");
    let keb = key_of("stat.", &nc, ".enhanced_bonus");
    let v4 = group_or_exec(g, 4, "0");
    let v5 = group_or_exec(g, 5, "0");
    let v6 = group_or_exec(g, 6, "0");
    let v7 = group_or_exec(g, 7, "0");
    assert(k@ =~= "stat."@ + nc@);
    let mut r = vec![pair(k.as_str(), &v4), pair(kb.as_str(), &v5), pair(ke.as_str(), &v6), pair(keb.as_str(), &v7)];
    let ghost kk = "stat."@ + nc@;
    assert(kb@ =~= kk + "_bonus"@);
    assert(ke@ =~= kk + ".enhanced"@);
    assert(keb@ =~= kk + ".enhanced_bonus"@);
    assert(pairs_view(r@) =~= seq![(kk, v4@), (kk + "_bonus"@, v5@), (kk + ".enhanced"@, v6@), (kk + ".enhanced_bonus"@, v7@)]);
    if group_present(g, 2) && group_present(g, 3) {
        let kbase = key_of("stat.", &nc, ".base");
        let kbb = key_of("stat.", &nc, ".base_bonus");
        let v2 = group_text(g, 2);
        let v3 = group_text(g, 3);
        let ghost before = pairs_view(r@);
        r.push(pair(kbase.as_str(), &v2));
        r.push(pair(kbb.as_str(), &v3));
        assert(kbase@ =~= kk + ".base"@);
        assert(kbb@ =~= kk + ".base_bonus"@);
        assert(pairs_view(r@) =~= before + seq![(kk + ".base"@, v2@), (kk + ".base_bonus"@, v3@)]);
    }
    r
}

// ── The cache and the write queue ───────────────────────────────────────────

proof fn lemma_store_all_concat(
    c: Seq<(Seq<char>, Seq<char>)>,
    a: Seq<(Seq<char>, Seq<char>)>,
    b: Seq<(Seq<char>, Seq<char>)>,
)
    ensures
        store_all(c, a + b) == store_all(store_all(c, a), b),
    decreases a.len(),
{
    if a.len() == 0 {
        assert(a + b =~= b);
    } else {
        assert((a + b).drop_first() =~= a.drop_first() + b);
        lemma_store_all_concat(assoc_insert(c, a[0].0, a[0].1), a.drop_first(), b);
    }
}

/// The cache is what was stored before with everything queued since applied.
pub open spec fn cache_follows_writes(m: InfomonV, c0: Seq<(Seq<char>, Seq<char>)>) -> bool {
    m.cache == store_all(c0, m.writes)
}

proof fn lemma_put_keeps(m: InfomonV, c0: Seq<(Seq<char>, Seq<char>)>, k: Seq<char>, v: Seq<char>)
    requires
        cache_follows_writes(m, c0),
    ensures
        cache_follows_writes(put(m, k, v), c0),
{
    lemma_store_all_concat(c0, m.writes, seq![(k, v)]);
    assert(m.writes.push((k, v)) =~= m.writes + seq![(k, v)]);
    let x = store_all(c0, m.writes);
    let e = Seq::<(Seq<char>, Seq<char>)>::empty();
    assert(seq![(k, v)].drop_first() =~= e);
    assert(store_all(assoc_insert(x, k, v), e) == assoc_insert(x, k, v));
    assert(store_all(x, seq![(k, v)]) == store_all(assoc_insert(x, k, v), seq![(k, v)].drop_first()));
}

proof fn lemma_flush_keeps(m: InfomonV, c0: Seq<(Seq<char>, Seq<char>)>)
    requires
        cache_follows_writes(m, c0),
    ensures
        cache_follows_writes(flush(m), c0),
{
    lemma_store_all_concat(c0, m.writes, m.batch);
}

/// Whatever line is read, the cache stays equal to what was stored before
/// with every value queued for storage since applied in order: the cache
/// and the stored data never disagree.
pub proof fn lemma_cache_follows_writes(m: InfomonV, c0: Seq<(Seq<char>, Seq<char>)>, line: Seq<char>)
    requires
        cache_follows_writes(m, c0),
    ensures
        cache_follows_writes(parse_spec(m, line), c0),
{
    match m.block {
        Block::Ready => {
            if first_match(CHAR_RACE_PROF@, line) is None && first_match(SKILL_START@, line) is None {
                match first_match(SPELL_SOLO@, line) {
                    Some(g) => {
                        lemma_put_keeps(m, c0, "spell."@ + normalize_key_spec(group_or(g, 1, ""@)), group_or(g, 2, "0"@));
                    },
                    None => if first_match(EXP_START@, line) is None {
                        match first_match(SOCIETY_MEMBER@, line) {
                            Some(g) => {
                                let society = group_or(g, 2, ""@);
                                let rank = if group_or(g, 1, ""@) == "Master"@ {
                                    if society == "Order of Voln"@ {
                                        "26"@
                                    } else {
                                        "20"@
                                    }
                                } else {
                                    group_or(g, 3, "0"@)
                                };
                                lemma_put_keeps(m, c0, "society.status"@, society);
                                lemma_put_keeps(put(m, "society.status"@, society), c0, "society.rank"@, rank);
                            },
                            None => if first_match(SOCIETY_NONE@, line) is Some {
                                lemma_put_keeps(m, c0, "society.status"@, "None"@);
                                lemma_put_keeps(put(m, "society.status"@, "None"@), c0, "society.rank"@, "0"@);
                            } else {
                                match first_match(CITIZENSHIP_YES@, line) {
                                    Some(g) => {
                                        lemma_put_keeps(m, c0, "citizenship"@, group_or(g, 1, ""@));
                                    },
                                    None => {
                                        lemma_put_keeps(m, c0, "citizenship"@, "None"@);
                                    },
                                }
                            },
                        }
                    },
                }
            }
        },
        _ => {
            lemma_flush_keeps(m, c0);
        },
    }
}

} // verus!
