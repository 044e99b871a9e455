//! StormFront XML → GSL (Game Script Language) conversion for the Wizard and
//! Avalon frontends, which understand GSL marker codes (introduced by the
//! escape character 0x1C) instead of the XML protocol.
//!
//! Matching is done by the `regex` crate; what is put in place of each match,
//! and the order of the steps, is verified here.
use vstd::prelude::*;
use crate::text;
use crate::pattern::{regex_scan, scan, group, groups_view, group_text, opt_str_view, weave};

verus! {

// ── Patterns ────────────────────────────────────────────────────────────────

pub const PUSH_STREAM: &'static str = r"<pushStream[^>]*/>";
pub const POP_STREAM: &'static str = r"<popStream[^>]*/>";
pub const STYLE_OPEN: &'static str = r#"<style id="\w+"[^>]*/>"#;
pub const STYLE_RESET: &'static str = r#"<style id=""[^>]*/>"#;
pub const LAUNCH_URL: &'static str = r#"<LaunchURL src="(.*?)" />"#;
pub const SPEECH_PRESET: &'static str = r#"(?s)<preset id='speech'>(.*?)</preset>"#;
pub const THOUGHTS_PUSH: &'static str = r#"(?s)<pushStream id="thoughts"[^>]*>\[([^\]]+?)\]\s*(.*?)<popStream/>"#;
pub const VOLN_PUSH: &'static str = r#"(?s)<pushStream id="voln"[^>]*>\[Voln - (?:<a[^>]*>)?([A-Z][a-z]+)(?:</a>)?\]\s*(".*?")[\r\n]*<popStream/>"#;
pub const THOUGHTS_STREAM: &'static str = r#"(?s)<stream id="thoughts"[^>]*>([^:]+): (.*?)</stream>"#;
pub const FAMILIAR_PUSH: &'static str = r#"(?s)<pushStream id="familiar"[^>]*>(.*)<popStream/>"#;
pub const DEATH_PUSH: &'static str = r#"(?s)<pushStream id="death"/>(.*?)<popStream/>"#;
pub const ROOM_NAME_STYLE: &'static str = r#"(?s)<style id="roomName" />(.*?)<style id=""/>"#;
pub const ROOM_DESC_EMPTY: &'static str = r#"<style id="roomDesc"/><style id=""/>\r?\n"#;
pub const ROOM_DESC_STYLE: &'static str = r#"(?s)<style id="roomDesc"/>(.*?)<style id=""/>"#;
pub const LINK_OPEN: &'static str = r#"<a[^>]*>"#;
pub const SUPPRESSED_STREAMS: &'static str = r#"(?s)<pushStream id=["'](?:spellfront|inv|bounty|society|speech|talk)["'][^>]*/>(.*?)<popStream[^>]*/>"#;
pub const SPELLS_STREAM: &'static str = r#"(?s)<stream id="Spells">.*?</stream>"#;
pub const CONTENT_TAGS: &'static str = r#"(?s)(?:<compDef[^>]*>.*?</compDef>|<inv[^>]*>.*?</inv>|<component[^>]*>.*?</component>|<right[^>]*>.*?</right>|<left[^>]*>.*?</left>|<spell[^>]*>.*?</spell>|<prompt[^>]*>.*?</prompt>)"#;
pub const ALL_TAGS: &'static str = r"<[^>]+>";

// ── Replacements ────────────────────────────────────────────────────────────

/// The number of matches of `pattern` in `text` (none when it does not compile).
pub open spec fn count_of(pattern: Seq<char>, text: Seq<char>) -> nat {
    match regex_scan(pattern, text) {
        Some((_, caps)) => caps.len(),
        None => 0,
    }
}

/// `text` with every match of `pattern` replaced by `c` (unchanged when the
/// pattern does not compile).
pub open spec fn replaced_const(pattern: Seq<char>, text: Seq<char>, c: Seq<char>) -> Seq<char> {
    match regex_scan(pattern, text) {
        Some((pieces, caps)) => weave(pieces, Seq::new(caps.len(), |i: int| c), caps.len() as int),
        None => text,
    }
}

/// What a match is replaced by, per conversion step.
#[derive(Clone, Copy, PartialEq, Eq, Structural)]
pub enum Rep {
    Launch,
    Group1,
    Thoughts,
    Voln,
    ThoughtsStream,
    Familiar,
    Death,
    RoomName,
    RoomDesc,
}

/// Room-description text with link openings and closings highlighted.
pub open spec fn highlight_links(desc: Seq<char>) -> Seq<char> {
    text::replace_all(replaced_const(LINK_OPEN@, desc, "\x1cGSA"@), "</a>"@, "\x1cGSa"@)
}

pub open spec fn rep_spec(k: Rep, g: Seq<Option<Seq<char>>>) -> Seq<char> {
    match k {
        Rep::Launch => "\x1cGSw00005\r\nhttps://www.play.net"@ + group(g, 1) + "\r\n"@,
        Rep::Group1 => group(g, 1),
        Rep::Thoughts => "You hear the faint thoughts of ["@ + text::replace_all(group(g, 1), " "@, "-"@)
            + "]-ESP echo in your mind:\r\n"@ + text::replace_all(
            text::replace_all(group(g, 2), "<pushBold/>"@, ""@),
            "<popBold/>"@,
            ""@,
        ),
        Rep::Voln => "The Symbol of Thought begins to burn in your mind and you hear "@ + group(g, 1)
            + " thinking, "@ + group(g, 2) + "\r\n"@,
        Rep::ThoughtsStream => "You hear the faint thoughts of "@ + group(g, 1) + " echo in your mind:\r\n"@
            + group(g, 2),
        Rep::Familiar => "\x1cGSe\r\n"@ + group(g, 1) + "\x1cGSf\r\n"@,
        Rep::Death => "\x1cGSw00003\r\n"@ + group(g, 1) + "\x1cGSw00004\r\n"@,
        Rep::RoomName => "\x1cGSo\r\n"@ + group(g, 1) + "\x1cGSp\r\n"@,
        Rep::RoomDesc => "\x1cGSH\r\n"@ + highlight_links(group(g, 1)) + "\x1cGSI\r\n"@,
    }
}

/// The replacement for match number `i`: a launch URL replaces only the
/// first match, every other step replaces all of them.
pub open spec fn rep_at(k: Rep, i: int, g: Seq<Option<Seq<char>>>) -> Seq<char> {
    if k == Rep::Launch && i > 0 {
        group(g, 0)
    } else {
        rep_spec(k, g)
    }
}

/// `text` with the matches of `pattern` replaced as step `k` says
/// (unchanged when the pattern does not compile).
pub open spec fn replaced_by(pattern: Seq<char>, text: Seq<char>, k: Rep) -> Seq<char> {
    match regex_scan(pattern, text) {
        Some((pieces, caps)) => weave(
            pieces,
            caps.map(|i: int, g: Seq<Option<Seq<char>>>| rep_at(k, i, g)),
            caps.len() as int,
        ),
        None => text,
    }
}

/// The conversion steps applied, in order, to a complete line.
pub open spec fn pipeline(line: Seq<char>) -> Seq<char> {
    let a = replaced_by(LAUNCH_URL@, line, Rep::Launch);
    let b = replaced_by(SPEECH_PRESET@, a, Rep::Group1);
    let c = replaced_by(THOUGHTS_PUSH@, b, Rep::Thoughts);
    let d = replaced_by(VOLN_PUSH@, c, Rep::Voln);
    let e = replaced_by(THOUGHTS_STREAM@, d, Rep::ThoughtsStream);
    let f = replaced_by(FAMILIAR_PUSH@, e, Rep::Familiar);
    let g = replaced_by(DEATH_PUSH@, f, Rep::Death);
    let h = replaced_by(ROOM_NAME_STYLE@, g, Rep::RoomName);
    let i = replaced_const(ROOM_DESC_EMPTY@, h, ""@);
    let j = replaced_by(ROOM_DESC_STYLE@, i, Rep::RoomDesc);
    let k = text::replace_all(j, "</prompt>\r\n"@, "</prompt>"@);
    let l = text::replace_all(k, "</prompt>\n"@, "</prompt>"@);
    let m = text::replace_all(l, "<pushBold/>"@, "\x1cGSL\r\n"@);
    let n = text::replace_all(m, "<popBold/>"@, "\x1cGSM\r\n"@);
    let o = replaced_const(SUPPRESSED_STREAMS@, n, ""@);
    let p = replaced_const(SPELLS_STREAM@, o, ""@);
    let q = replaced_const(CONTENT_TAGS@, p, ""@);
    let r = replaced_const(ALL_TAGS@, q, ""@);
    let s = text::replace_all(r, "&gt;"@, ">"@);
    let t = text::replace_all(s, "&lt;"@, "<"@);
    text::replace_all(t, "&amp;"@, "&"@)
}

/// Nothing is left once line breaks are removed.
pub open spec fn is_blank(s: Seq<char>) -> bool {
    text::replace_all(text::replace_all(s, "\r\n"@, ""@), "\n"@, ""@).len() == 0
}

/// One call of `convert`: from the buffered partial line and the new input,
/// the new buffer and the output.
pub open spec fn convert_spec(buf: Option<Seq<char>>, xml: Seq<char>) -> (Option<Seq<char>>, Option<Seq<char>>) {
    if xml == "\r\n"@ || xml == "\n"@ {
        (buf, Some(xml))
    } else {
        let line = match buf {
            Some(b) => b + xml,
            None => xml,
        };
        if count_of(PUSH_STREAM@, line) > count_of(POP_STREAM@, line) {
            (Some(line), None)
        } else if count_of(STYLE_OPEN@, line) > count_of(STYLE_RESET@, line) {
            (Some(line), None)
        } else {
            let out = pipeline(line);
            if is_blank(out) {
                (None, None)
            } else {
                (None, Some(out))
            }
        }
    }
}

// ── Executable steps ────────────────────────────────────────────────────────

/// Counts the matches of `pattern` in `text`.
pub fn count_occurrences(text: &str, pattern: &str) -> (r: usize)
    ensures
        r == count_of(pattern@, text@),
{
    match scan(pattern, text) {
        Some((_, caps)) => caps.len(),
        None => 0,
    }
}

/// Replaces every match of `pattern` in `text` by `c`.
fn replace_const(pattern: &str, text: &[char], c: &str) -> (r: Vec<char>)
    ensures
        r@ == replaced_const(pattern@, text@, c@),
{
    let s = text::string_of(text);
    match scan(pattern, s.as_str()) {
        Some((pieces, caps)) => {
            let ghost pv = pieces@.map_values(|s: String| s@);
            let ghost reps = Seq::new(caps@.len(), |i: int| c@);
            assert(pv.len() == caps@.len() + 1);
            let mut out = text::chars_of(pieces[0].as_str());
            let mut i: usize = 0;
            while i < caps.len()
                invariant
                    i <= caps.len(),
                    pieces.len() == caps.len() + 1,
                    pv == pieces@.map_values(|s: String| s@),
                    reps == Seq::new(caps@.len(), |i: int| c@),
                    out@ == weave(pv, reps, i as int),
                decreases caps.len() - i,
            {
                text::push_str(&mut out, c);
                text::push_str(&mut out, pieces[i + 1].as_str());
                i += 1;
            }
            out
        },
        None => text::slice_of(text, 0, text.len()),
    }
}

fn rep_exec(k: Rep, g: &Vec<Option<String>>) -> (r: Vec<char>)
    ensures
        r@ == rep_spec(k, groups_view(*g)),
{
    let mut out: Vec<char> = Vec::new();
    match k {
        Rep::Launch => {
            let g1 = group_text(g, 1);
            text::push_str(&mut out, "\x1cGSw00005\r\nhttps://www.play.net");
            text::push_all(&mut out, &g1);
            text::push_str(&mut out, "\r\n");
        },
        Rep::Group1 => {
            out = group_text(g, 1);
        },
        Rep::Thoughts => {
            proof {
                reveal_strlit(" ");
                reveal_strlit("<pushBold/>");
                reveal_strlit("<popBold/>");
            }
            let g1 = group_text(g, 1);
            let g2 = group_text(g, 2);
            let channel = text::replace_lit(&g1, " ", "-");
            let m1 = text::replace_lit(&g2, "<pushBold/>", "");
            let msg = text::replace_lit(&m1, "<popBold/>", "");
            text::push_str(&mut out, "You hear the faint thoughts of [");
            text::push_all(&mut out, &channel);
            text::push_str(&mut out, "]-ESP echo in your mind:\r\n");
            text::push_all(&mut out, &msg);
        },
        Rep::Voln => {
            let g1 = group_text(g, 1);
            let g2 = group_text(g, 2);
            text::push_str(&mut out, "The Symbol of Thought begins to burn in your mind and you hear ");
            text::push_all(&mut out, &g1);
            text::push_str(&mut out, " thinking, ");
            text::push_all(&mut out, &g2);
            text::push_str(&mut out, "\r\n");
        },
        Rep::ThoughtsStream => {
            let g1 = group_text(g, 1);
            let g2 = group_text(g, 2);
            text::push_str(&mut out, "You hear the faint thoughts of ");
            text::push_all(&mut out, &g1);
            text::push_str(&mut out, " echo in your mind:\r\n");
            text::push_all(&mut out, &g2);
        },
        Rep::Familiar => {
            let g1 = group_text(g, 1);
            text::push_str(&mut out, "\x1cGSe\r\n");
            text::push_all(&mut out, &g1);
            text::push_str(&mut out, "\x1cGSf\r\n");
        },
        Rep::Death => {
            let g1 = group_text(g, 1);
            text::push_str(&mut out, "\x1cGSw00003\r\n");
            text::push_all(&mut out, &g1);
            text::push_str(&mut out, "\x1cGSw00004\r\n");
        },
        Rep::RoomName => {
            let g1 = group_text(g, 1);
            text::push_str(&mut out, "\x1cGSo\r\n");
            text::push_all(&mut out, &g1);
            text::push_str(&mut out, "\x1cGSp\r\n");
        },
        Rep::RoomDesc => {
            proof {
                reveal_strlit("</a>");
            }
            let g1 = group_text(g, 1);
            let marked = replace_const(LINK_OPEN, &g1, "\x1cGSA");
            let desc = text::replace_lit(&marked, "</a>", "\x1cGSa");
            text::push_str(&mut out, "\x1cGSH\r\n");
            text::push_all(&mut out, &desc);
            text::push_str(&mut out, "\x1cGSI\r\n");
        },
    }
    out
}

fn rep_at_exec(k: Rep, i: usize, g: &Vec<Option<String>>) -> (r: Vec<char>)
    ensures
        r@ == rep_at(k, i as int, groups_view(*g)),
{
    if k == Rep::Launch && i > 0 {
        group_text(g, 0)
    } else {
        rep_exec(k, g)
    }
}

/// Replaces the matches of `pattern` in `text` as step `k` says.
fn replace_by(pattern: &str, text: &[char], k: Rep) -> (r: Vec<char>)
    ensures
        r@ == replaced_by(pattern@, text@, k),
{
    let s = text::string_of(text);
    match scan(pattern, s.as_str()) {
        Some((pieces, caps)) => {
            let ghost pv = pieces@.map_values(|s: String| s@);
            let ghost cv = caps@.map_values(|g: Vec<Option<String>>| groups_view(g));
            let ghost reps = cv.map(|i: int, g: Seq<Option<Seq<char>>>| rep_at(k, i, g));
            assert(pv.len() == caps@.len() + 1);
            let mut out = text::chars_of(pieces[0].as_str());
            let mut i: usize = 0;
            while i < caps.len()
                invariant
                    i <= caps.len(),
                    pieces.len() == caps.len() + 1,
                    pv == pieces@.map_values(|s: String| s@),
                    cv == caps@.map_values(|g: Vec<Option<String>>| groups_view(g)),
                    reps == cv.map(|i: int, g: Seq<Option<Seq<char>>>| rep_at(k, i, g)),
                    out@ == weave(pv, reps, i as int),
                decreases caps.len() - i,
            {
                let r = rep_at_exec(k, i, &caps[i]);
                assert(reps[i as int] == r@);
                text::push_all(&mut out, &r);
                text::push_str(&mut out, pieces[i + 1].as_str());
                i += 1;
            }
            out
        },
        None => text::slice_of(text, 0, text.len()),
    }
}

fn pipeline_exec(line: &[char]) -> (r: Vec<char>)
    ensures
        r@ == pipeline(line@),
{
    proof {
        reveal_strlit("</prompt>\r\n");
        reveal_strlit("</prompt>\n");
        reveal_strlit("<pushBold/>");
        reveal_strlit("<popBold/>");
        reveal_strlit("&gt;");
        reveal_strlit("&lt;");
        reveal_strlit("&amp;");
    }
    let a = replace_by(LAUNCH_URL, line, Rep::Launch);
    let b = replace_by(SPEECH_PRESET, &a, Rep::Group1);
    let c = replace_by(THOUGHTS_PUSH, &b, Rep::Thoughts);
    let d = replace_by(VOLN_PUSH, &c, Rep::Voln);
    let e = replace_by(THOUGHTS_STREAM, &d, Rep::ThoughtsStream);
    let f = replace_by(FAMILIAR_PUSH, &e, Rep::Familiar);
    let g = replace_by(DEATH_PUSH, &f, Rep::Death);
    let h = replace_by(ROOM_NAME_STYLE, &g, Rep::RoomName);
    let i = replace_const(ROOM_DESC_EMPTY, &h, "");
    let j = replace_by(ROOM_DESC_STYLE, &i, Rep::RoomDesc);
    let k = text::replace_lit(&j, "</prompt>\r\n", "</prompt>");
    let l = text::replace_lit(&k, "</prompt>\n", "</prompt>");
    let m = text::replace_lit(&l, "<pushBold/>", "\x1cGSL\r\n");
    let n = text::replace_lit(&m, "<popBold/>", "\x1cGSM\r\n");
    let o = replace_const(SUPPRESSED_STREAMS, &n, "");
    let p = replace_const(SPELLS_STREAM, &o, "");
    let q = replace_const(CONTENT_TAGS, &p, "");
    let r = replace_const(ALL_TAGS, &q, "");
    let s = text::replace_lit(&r, "&gt;", ">");
    let t = text::replace_lit(&s, "&lt;", "<");
    text::replace_lit(&t, "&amp;", "&")
}

/// Stateful converter from XML output lines to GSL.
pub struct GslConverter {
    /// A partial line waiting for the rest of a stream or style block.
    multiline_buf: Option<String>,
}

impl View for GslConverter {
    type V = Option<Seq<char>>;

    closed spec fn view(&self) -> Option<Seq<char>> {
        opt_str_view(self.multiline_buf)
    }
}

impl GslConverter {
    pub fn new() -> (r: Self)
        ensures
            r@ is None,
    {
        GslConverter { multiline_buf: None }
    }

    /// Convert an XML line to GSL.
    ///
    /// Returns `None` when the output is suppressed: empty after conversion,
    /// or a partial line buffered until its stream or style block closes.
    pub fn convert(&mut self, xml_line: &str) -> (r: Option<String>)
        ensures
            (final(self)@, opt_str_view(r)) == convert_spec(old(self)@, xml_line@),
    {
        proof {
            reveal_strlit("\r\n");
            reveal_strlit("\n");
        }
        let x = text::chars_of(xml_line);
        if text::eq_lit(&x, "\r\n") || text::eq_lit(&x, "\n") {
            return Some(xml_line.to_owned());
        }
        let mut line: Vec<char> = match &self.multiline_buf {
            Some(b) => text::chars_of(b.as_str()),
            None => Vec::new(),
        };
        text::push_all(&mut line, &x);
        self.multiline_buf = None;
        let ls = text::string_of(&line);
        let push_count = count_occurrences(ls.as_str(), PUSH_STREAM);
        let pop_count = count_occurrences(ls.as_str(), POP_STREAM);
        if push_count > pop_count {
            self.multiline_buf = Some(ls);
            return None;
        }
        let style_open = count_occurrences(ls.as_str(), STYLE_OPEN);
        let style_reset = count_occurrences(ls.as_str(), STYLE_RESET);
        if style_open > style_reset {
            self.multiline_buf = Some(ls);
            return None;
        }
        let out = pipeline_exec(&line);
        let t1 = text::replace_lit(&out, "\r\n", "");
        let t2 = text::replace_lit(&t1, "\n", "");
        if t2.len() == 0 {
            None
        } else {
            Some(text::string_of(&out))
        }
    }
}

impl Default for GslConverter {
    fn default() -> (r: Self)
        ensures
            r@ is None,
    {
        Self::new()
    }
}

/// The regex crate finds no match of `pattern` in `s`: either the pattern
/// does not compile, or the split leaves `s` whole with no match.
pub open spec fn finds_nothing(pattern: Seq<char>, s: Seq<char>) -> bool {
    ||| regex_scan(pattern, s) is None
    ||| regex_scan(pattern, s) == Some((seq![s], Seq::<Seq<Option<Seq<char>>>>::empty()))
}

/// None of the conversion's patterns matches anywhere in `s`.
pub open spec fn no_pattern_matches(s: Seq<char>) -> bool {
    &&& finds_nothing(PUSH_STREAM@, s)
    &&& finds_nothing(POP_STREAM@, s)
    &&& finds_nothing(STYLE_OPEN@, s)
    &&& finds_nothing(STYLE_RESET@, s)
    &&& finds_nothing(LAUNCH_URL@, s)
    &&& finds_nothing(SPEECH_PRESET@, s)
    &&& finds_nothing(THOUGHTS_PUSH@, s)
    &&& finds_nothing(VOLN_PUSH@, s)
    &&& finds_nothing(THOUGHTS_STREAM@, s)
    &&& finds_nothing(FAMILIAR_PUSH@, s)
    &&& finds_nothing(DEATH_PUSH@, s)
    &&& finds_nothing(ROOM_NAME_STYLE@, s)
    &&& finds_nothing(ROOM_DESC_EMPTY@, s)
    &&& finds_nothing(ROOM_DESC_STYLE@, s)
    &&& finds_nothing(SUPPRESSED_STREAMS@, s)
    &&& finds_nothing(SPELLS_STREAM@, s)
    &&& finds_nothing(CONTENT_TAGS@, s)
    &&& finds_nothing(ALL_TAGS@, s)
}

proof fn lemma_replace_from_absent(s: Seq<char>, from: Seq<char>, to: Seq<char>, i: int)
    requires
        from.len() > 0,
        !s.contains(from[0]),
        0 <= i <= s.len(),
    ensures
        replace_from_is(s, from, to, i),
    decreases s.len() - i,
{
    if i < s.len() {
        if text::matches_at(s, from, i) {
            assert(s.subrange(i, i + from.len())[0] == from[0]);
            assert(s.contains(s[i]));
        }
        lemma_replace_from_absent(s, from, to, i + 1);
        assert(text::replace_from(s, from, to, i) == seq![s[i]] + text::replace_from(s, from, to, i + 1));
        assert(seq![s[i]] + s.subrange(i + 1, s.len() as int) =~= s.subrange(i, s.len() as int));
    } else {
        assert(s.subrange(i, s.len() as int) =~= seq![]);
    }
}

spec fn replace_from_is(s: Seq<char>, from: Seq<char>, to: Seq<char>, i: int) -> bool {
    text::replace_from(s, from, to, i) == s.subrange(i, s.len() as int)
}

/// Replacing a text whose first character does not occur in `s` leaves `s`
/// as it is.
proof fn lemma_replace_absent(s: Seq<char>, from: Seq<char>, to: Seq<char>)
    requires
        from.len() > 0,
        !s.contains(from[0]),
    ensures
        text::replace_all(s, from, to) == s,
{
    lemma_replace_from_absent(s, from, to, 0);
    assert(s.subrange(0, s.len() as int) =~= s);
}

/// Plain text passes through: a line with no `<` and no `&` that is not
/// blank, handed to a converter with nothing buffered, comes out unchanged,
/// wherever the regex crate finds no match of the conversion's patterns in
/// it (which holds of every such line, as each pattern needs a `<`).
pub proof fn lemma_plain_text_passes(s: Seq<char>)
    requires
        !s.contains('<'),
        !s.contains('&'),
        !is_blank(s),
        no_pattern_matches(s),
    ensures
        convert_spec(None, s) == (None::<Seq<char>>, Some(s)),
{
    reveal_strlit("\r\n");
    reveal_strlit("\n");
    reveal_strlit("</prompt>\r\n");
    reveal_strlit("</prompt>\n");
    reveal_strlit("<pushBold/>");
    reveal_strlit("<popBold/>");
    reveal_strlit("&gt;");
    reveal_strlit("&lt;");
    reveal_strlit("&amp;");
    if s == "\r\n"@ || s == "\n"@ {
        assert(s.contains(s[0]));
        assert(false) by {
            lemma_blank_newline(s);
        }
    }
    lemma_replace_absent(s, "</prompt>\r\n"@, "</prompt>"@);
    lemma_replace_absent(s, "</prompt>\n"@, "</prompt>"@);
    lemma_replace_absent(s, "<pushBold/>"@, "\x1cGSL\r\n"@);
    lemma_replace_absent(s, "<popBold/>"@, "\x1cGSM\r\n"@);
    lemma_replace_absent(s, "&gt;"@, ">"@);
    lemma_replace_absent(s, "&lt;"@, "<"@);
    lemma_replace_absent(s, "&amp;"@, "&"@);
    lemma_nothing_found(PUSH_STREAM@, s);
    lemma_nothing_found(POP_STREAM@, s);
    lemma_nothing_found(STYLE_OPEN@, s);
    lemma_nothing_found(STYLE_RESET@, s);
    lemma_nothing_found(LAUNCH_URL@, s);
    lemma_nothing_found(SPEECH_PRESET@, s);
    lemma_nothing_found(THOUGHTS_PUSH@, s);
    lemma_nothing_found(VOLN_PUSH@, s);
    lemma_nothing_found(THOUGHTS_STREAM@, s);
    lemma_nothing_found(FAMILIAR_PUSH@, s);
    lemma_nothing_found(DEATH_PUSH@, s);
    lemma_nothing_found(ROOM_NAME_STYLE@, s);
    lemma_nothing_found(ROOM_DESC_EMPTY@, s);
    lemma_nothing_found(ROOM_DESC_STYLE@, s);
    lemma_nothing_found(SUPPRESSED_STREAMS@, s);
    lemma_nothing_found(SPELLS_STREAM@, s);
    lemma_nothing_found(CONTENT_TAGS@, s);
    lemma_nothing_found(ALL_TAGS@, s);
    assert(pipeline(s) == s);
}

/// Where nothing is found, replacing leaves the text as it is.
proof fn lemma_nothing_found(p: Seq<char>, s: Seq<char>)
    requires
        finds_nothing(p, s),
    ensures
        count_of(p, s) == 0,
        forall|k: Rep| #[trigger] replaced_by(p, s, k) == s,
        forall|c: Seq<char>| #[trigger] replaced_const(p, s, c) == s,
{
}

proof fn lemma_blank_newline(s: Seq<char>)
    requires
        s == "\r\n"@ || s == "\n"@,
    ensures
        is_blank(s),
{
    reveal_strlit("\r\n");
    reveal_strlit("\n");
    reveal_strlit("");
    let e: Seq<char> = seq![];
    assert(text::replace_all(e, "\n"@, ""@) == e);
    if s == "\r\n"@ {
        assert(text::matches_at(s, "\r\n"@, 0)) by {
            assert(s.subrange(0, 2) =~= "\r\n"@);
        }
        assert(text::replace_from(s, "\r\n"@, ""@, 2) == e);
        assert(text::replace_all(s, "\r\n"@, ""@) =~= e);
    } else {
        assert(!text::matches_at(s, "\r\n"@, 0));
        assert(text::matches_at(s, "\n"@, 0)) by {
            assert(s.subrange(0, 1) =~= "\n"@);
        }
        assert(text::replace_from(s, "\r\n"@, ""@, 1) == e);
        assert(text::replace_all(s, "\r\n"@, ""@) =~= s);
        assert(text::replace_from(s, "\n"@, ""@, 1) == e);
        assert(text::replace_all(s, "\n"@, ""@) =~= e);
    }
}

/// A thoughts stream `<stream id="thoughts">WHO: MSG</stream>` becomes the
/// telepathy line: wherever the regex crate finds the block once in a line
/// (speaker WHO, message MSG) and nothing else of the conversion's
/// patterns, the line converts to the text before the block, then
/// `You hear the faint thoughts of WHO echo in your mind:` and a line break,
/// then MSG, then the text after the block.
pub proof fn lemma_thoughts_stream(
    line: Seq<char>,
    pre: Seq<char>,
    whole: Seq<char>,
    who: Seq<char>,
    msg: Seq<char>,
    post: Seq<char>,
)
    requires
        line != "\r\n"@,
        line != "\n"@,
        finds_nothing(PUSH_STREAM@, line),
        finds_nothing(POP_STREAM@, line),
        finds_nothing(STYLE_OPEN@, line),
        finds_nothing(STYLE_RESET@, line),
        finds_nothing(LAUNCH_URL@, line),
        finds_nothing(SPEECH_PRESET@, line),
        finds_nothing(THOUGHTS_PUSH@, line),
        finds_nothing(VOLN_PUSH@, line),
        regex_scan(THOUGHTS_STREAM@, line) == Some(
            (seq![pre, post], seq![seq![Some(whole), Some(who), Some(msg)]]),
        ),
        ({
            let out = pre + "You hear the faint thoughts of "@ + who + " echo in your mind:\r\n"@ + msg + post;
            &&& !out.contains('<')
            &&& !out.contains('&')
            &&& !is_blank(out)
            &&& no_pattern_matches(out)
        }),
    ensures
        convert_spec(None, line) == (None::<Seq<char>>, Some(
            pre + "You hear the faint thoughts of "@ + who + " echo in your mind:\r\n"@ + msg + post,
        )),
{
    let out = pre + "You hear the faint thoughts of "@ + who + " echo in your mind:\r\n"@ + msg + post;
    let g = seq![Some(whole), Some(who), Some(msg)];
    lemma_nothing_found(PUSH_STREAM@, line);
    lemma_nothing_found(POP_STREAM@, line);
    lemma_nothing_found(STYLE_OPEN@, line);
    lemma_nothing_found(STYLE_RESET@, line);
    lemma_nothing_found(LAUNCH_URL@, line);
    lemma_nothing_found(SPEECH_PRESET@, line);
    lemma_nothing_found(THOUGHTS_PUSH@, line);
    lemma_nothing_found(VOLN_PUSH@, line);
    assert(group(g, 1) == who);
    assert(group(g, 2) == msg);
    let caps = seq![g];
    let reps = caps.map(|i: int, h: Seq<Option<Seq<char>>>| rep_at(Rep::ThoughtsStream, i, h));
    assert(reps[0] == rep_spec(Rep::ThoughtsStream, g));
    assert(weave(seq![pre, post], reps, 0) == pre);
    assert(weave(seq![pre, post], reps, 1) == pre + reps[0] + post);
    assert(weave(seq![pre, post], reps, 1) =~= out);
    assert(replaced_by(THOUGHTS_STREAM@, line, Rep::ThoughtsStream) == out);
    reveal_strlit("</prompt>\r\n");
    reveal_strlit("</prompt>\n");
    reveal_strlit("<pushBold/>");
    reveal_strlit("<popBold/>");
    reveal_strlit("&gt;");
    reveal_strlit("&lt;");
    reveal_strlit("&amp;");
    lemma_replace_absent(out, "</prompt>\r\n"@, "</prompt>"@);
    lemma_replace_absent(out, "</prompt>\n"@, "</prompt>"@);
    lemma_replace_absent(out, "<pushBold/>"@, "\x1cGSL\r\n"@);
    lemma_replace_absent(out, "<popBold/>"@, "\x1cGSM\r\n"@);
    lemma_replace_absent(out, "&gt;"@, ">"@);
    lemma_replace_absent(out, "&lt;"@, "<"@);
    lemma_replace_absent(out, "&amp;"@, "&"@);
    lemma_nothing_found(FAMILIAR_PUSH@, out);
    lemma_nothing_found(DEATH_PUSH@, out);
    lemma_nothing_found(ROOM_NAME_STYLE@, out);
    lemma_nothing_found(ROOM_DESC_EMPTY@, out);
    lemma_nothing_found(ROOM_DESC_STYLE@, out);
    lemma_nothing_found(SUPPRESSED_STREAMS@, out);
    lemma_nothing_found(SPELLS_STREAM@, out);
    lemma_nothing_found(CONTENT_TAGS@, out);
    lemma_nothing_found(ALL_TAGS@, out);
    assert(pipeline(line) == out);
}

} // verus!
