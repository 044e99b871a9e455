//! Why a read boundary that falls inside a tag loses nothing: parsing a
//! buffer that ends inside a tag stops before that tag, and what follows it
//! neither changes the steps taken before nor where they stop.
use vstd::prelude::*;
use crate::text;
use crate::xml_tags;
use crate::xml_parser::{Ev, PState, PView, drain_from, feed_spec, link_step, start_step, tag_step, end_tag, text_step};

verus! {

pub open spec fn shift_opt(o: Option<int>, k: int) -> Option<int> {
    match o {
        Some(v) => Some(v + k),
        None => None,
    }
}

pub open spec fn shift_res(o: Option<(PState, int, Seq<Ev>)>, k: int) -> Option<(PState, int, Seq<Ev>)> {
    match o {
        Some(t) => Some((t.0, t.1 + k, t.2)),
        None => None,
    }
}

// ── Searches ────────────────────────────────────────────────────────────────

proof fn lemma_fc_ext(b: Seq<char>, x: Seq<char>, c: char, i: int)
    requires
        0 <= i,
        text::find_char_from(b, c, i) is Some,
    ensures
        text::find_char_from(b + x, c, i) == text::find_char_from(b, c, i),
    decreases b.len() - i,
{
    if i < b.len() && b[i] != c {
        assert((b + x)[i] == b[i]);
        lemma_fc_ext(b, x, c, i + 1);
    } else if i < b.len() {
        assert((b + x)[i] == b[i]);
    }
}

proof fn lemma_fc_shift(b: Seq<char>, k: int, c: char, i: int)
    requires
        0 <= k <= i,
        k <= b.len(),
    ensures
        text::find_char_from(b, c, i) == shift_opt(text::find_char_from(b.subrange(k, b.len() as int), c, i - k), k),
    decreases b.len() - i,
{
    let s = b.subrange(k, b.len() as int);
    if i < b.len() {
        assert(s[i - k] == b[i]);
        if b[i] != c {
            lemma_fc_shift(b, k, c, i + 1);
        }
    }
}

proof fn lemma_gt_ext(b: Seq<char>, x: Seq<char>, i: int, q: Option<char>)
    requires
        0 <= i,
        xml_tags::gt_from(b, i, q) is Some,
    ensures
        xml_tags::gt_from(b + x, i, q) == xml_tags::gt_from(b, i, q),
    decreases b.len() - i,
{
    if i < b.len() {
        assert((b + x)[i] == b[i]);
        match q {
            None => if b[i] == '"' {
                lemma_gt_ext(b, x, i + 1, Some('"'));
            } else if b[i] == '\'' {
                lemma_gt_ext(b, x, i + 1, Some('\''));
            } else if b[i] != '>' {
                lemma_gt_ext(b, x, i + 1, None);
            },
            Some(c) => if b[i] == c {
                lemma_gt_ext(b, x, i + 1, None);
            } else {
                lemma_gt_ext(b, x, i + 1, q);
            },
        }
    }
}

proof fn lemma_gt_shift(b: Seq<char>, k: int, i: int, q: Option<char>)
    requires
        0 <= k <= i,
        k <= b.len(),
    ensures
        xml_tags::gt_from(b, i, q) == shift_opt(xml_tags::gt_from(b.subrange(k, b.len() as int), i - k, q), k),
    decreases b.len() - i,
{
    let s = b.subrange(k, b.len() as int);
    if i < b.len() {
        assert(s[i - k] == b[i]);
        match q {
            None => if b[i] == '"' {
                lemma_gt_shift(b, k, i + 1, Some('"'));
            } else if b[i] == '\'' {
                lemma_gt_shift(b, k, i + 1, Some('\''));
            } else if b[i] != '>' {
                lemma_gt_shift(b, k, i + 1, None);
            },
            Some(c) => if b[i] == c {
                lemma_gt_shift(b, k, i + 1, None);
            } else {
                lemma_gt_shift(b, k, i + 1, q);
            },
        }
    }
}

proof fn lemma_fs_ext(b: Seq<char>, x: Seq<char>, p: Seq<char>, i: int)
    requires
        0 <= i,
        text::find_sub_from(b, p, i) is Some,
    ensures
        text::find_sub_from(b + x, p, i) == text::find_sub_from(b, p, i),
    decreases b.len() + 1 - i,
{
    if i + p.len() <= b.len() {
        assert((b + x).subrange(i, i + p.len()) =~= b.subrange(i, i + p.len()));
        if !text::matches_at(b, p, i) {
            lemma_fs_ext(b, x, p, i + 1);
        }
    }
}

proof fn lemma_fs_shift(b: Seq<char>, k: int, p: Seq<char>, i: int)
    requires
        0 <= k <= i,
        k <= b.len(),
    ensures
        text::find_sub_from(b, p, i) == shift_opt(text::find_sub_from(b.subrange(k, b.len() as int), p, i - k), k),
    decreases b.len() + 1 - i,
{
    let s = b.subrange(k, b.len() as int);
    if i + p.len() <= b.len() {
        assert(s.subrange(i - k, i - k + p.len()) =~= b.subrange(i, i + p.len()));
        if !text::matches_at(b, p, i) {
            lemma_fs_shift(b, k, p, i + 1);
        }
    }
}

// ── Tags ────────────────────────────────────────────────────────────────────

proof fn lemma_link_np(st: PState, inner: Seq<char>, raw: Seq<char>, np: int)
    ensures
        link_step(st, inner, raw, np) == (link_step(st, inner, raw, 0).0, np, link_step(st, inner, raw, 0).2),
{
    reveal(link_step);
}

/// A search that succeeds in `b` succeeds alike in `b + x`, and the text it
/// skipped over is the same.
proof fn lemma_sub_ext(b: Seq<char>, x: Seq<char>, p: Seq<char>, after: int)
    requires
        0 <= after,
    ensures
        text::find_sub_from(b, p, after) matches Some(o) ==> text::find_sub_from(b + x, p, after) == Some(o)
            && (b + x).subrange(after, o) == b.subrange(after, o),
{
    text::lemma_find_sub_from(b, p, after);
    if let Some(o) = text::find_sub_from(b, p, after) {
        lemma_fs_ext(b, x, p, after);
        assert((b + x).subrange(after, o) =~= b.subrange(after, o));
    }
}

/// A search in `b` from `after` is the search in `b` with its first `k`
/// characters dropped, moved by `k`, and skips over the same text.
proof fn lemma_sub_shift(b: Seq<char>, k: int, p: Seq<char>, after: int)
    requires
        0 <= k <= after,
        k <= b.len(),
    ensures
        text::find_sub_from(b, p, after) == shift_opt(text::find_sub_from(b.subrange(k, b.len() as int), p, after - k), k),
        text::find_sub_from(b.subrange(k, b.len() as int), p, after - k) matches Some(o) ==> b.subrange(after, o + k)
            == b.subrange(k, b.len() as int).subrange(after - k, o),
{
    let s = b.subrange(k, b.len() as int);
    lemma_fs_shift(b, k, p, after);
    text::lemma_find_sub_from(s, p, after - k);
    if let Some(o) = text::find_sub_from(s, p, after - k) {
        assert(b.subrange(after, o + k) =~= s.subrange(after - k, o));
    }
}

/// A search that succeeds ends with the pattern's last character.
proof fn lemma_sub_ends(b: Seq<char>, p: Seq<char>, after: int)
    requires
        0 <= after,
        p.len() > 0,
    ensures
        text::find_sub_from(b, p, after) matches Some(o) ==> after <= o && o + p.len() <= b.len() && b[o + p.len() - 1]
            == p[p.len() - 1],
{
    text::lemma_find_sub_from(b, p, after);
    if let Some(o) = text::find_sub_from(b, p, after) {
        assert(b.subrange(o, o + p.len())[p.len() - 1] == b[o + p.len() - 1]);
    }
}

proof fn lemma_start_ext(st: PState, inner: Seq<char>, b: Seq<char>, x: Seq<char>, after: int)
    requires
        0 <= after,
        start_step(st, inner, b, after) is Some,
    ensures
        start_step(st, inner, b + x, after) == start_step(st, inner, b, after),
{
    reveal(start_step);
    let name = text::first_token(inner);
    lemma_sub_ext(b, x, "</settingsInfo>"@, after);
    lemma_sub_ext(b, x, end_tag(name), after);
    lemma_sub_ext(b, x, "</component>"@, after);
    lemma_sub_ext(b, x, "</a>"@, after);
}

proof fn lemma_start_shape(st: PState, inner: Seq<char>, b: Seq<char>, after: int)
    requires
        0 <= after <= b.len(),
        start_step(st, inner, b, after) is Some,
    ensures
        ({
            let t = start_step(st, inner, b, after)->0;
            t.1 == after || (after < t.1 <= b.len() && b[t.1 - 1] == '>')
        }),
{
    reveal(start_step);
    reveal_strlit("</settingsInfo>");
    reveal_strlit("</component>");
    reveal_strlit("</a>");
    let name = text::first_token(inner);
    lemma_sub_ends(b, "</settingsInfo>"@, after);
    lemma_sub_ends(b, end_tag(name), after);
    lemma_sub_ends(b, "</component>"@, after);
    lemma_sub_ends(b, "</a>"@, after);
    if let Some(o) = text::find_sub_from(b, "</a>"@, after) {
        lemma_link_np(st, inner, b.subrange(after, o), o + 4);
    }
}

proof fn lemma_start_shift(st: PState, inner: Seq<char>, b: Seq<char>, k: int, after: int)
    requires
        0 <= k <= after,
        k <= b.len(),
    ensures
        start_step(st, inner, b, after) == shift_res(start_step(st, inner, b.subrange(k, b.len() as int), after - k), k),
{
    reveal(start_step);
    reveal_strlit("</a>");
    let s = b.subrange(k, b.len() as int);
    let name = text::first_token(inner);
    lemma_sub_shift(b, k, "</settingsInfo>"@, after);
    lemma_sub_shift(b, k, end_tag(name), after);
    lemma_sub_shift(b, k, "</component>"@, after);
    lemma_sub_shift(b, k, "</a>"@, after);
    if let Some(o) = text::find_sub_from(s, "</a>"@, after - k) {
        lemma_link_np(st, inner, s.subrange(after - k, o), o + 4);
        lemma_link_np(st, inner, s.subrange(after - k, o), o + k + 4);
    }
}

proof fn lemma_tag_ext(st: PState, inner: Seq<char>, b: Seq<char>, x: Seq<char>, after: int)
    requires
        0 <= after,
        tag_step(st, inner, b, after) is Some,
    ensures
        tag_step(st, inner, b + x, after) == tag_step(st, inner, b, after),
{
    reveal(tag_step);
    if !(inner.len() > 0 && (inner[0] == '/' || inner[0] == '!' || inner[0] == '?' || inner[inner.len() - 1] == '/')) {
        lemma_start_ext(st, inner, b, x, after);
    }
}

proof fn lemma_tag_shape(st: PState, inner: Seq<char>, b: Seq<char>, after: int)
    requires
        0 <= after <= b.len(),
        tag_step(st, inner, b, after) is Some,
    ensures
        ({
            let t = tag_step(st, inner, b, after)->0;
            t.1 == after || (after < t.1 <= b.len() && b[t.1 - 1] == '>')
        }),
{
    reveal(tag_step);
    if !(inner.len() > 0 && (inner[0] == '/' || inner[0] == '!' || inner[0] == '?' || inner[inner.len() - 1] == '/')) {
        lemma_start_shape(st, inner, b, after);
    }
}

proof fn lemma_tag_shift(st: PState, inner: Seq<char>, b: Seq<char>, k: int, after: int)
    requires
        0 <= k <= after,
        k <= b.len(),
    ensures
        tag_step(st, inner, b, after) == shift_res(tag_step(st, inner, b.subrange(k, b.len() as int), after - k), k),
{
    reveal(tag_step);
    lemma_start_shift(st, inner, b, k, after);
}

// ── Draining ────────────────────────────────────────────────────────────────

proof fn lemma_drain_range(st: PState, b: Seq<char>, pos: int)
    requires
        0 <= pos <= b.len(),
    ensures
        pos <= drain_from(st, b, pos).1 <= b.len(),
    decreases b.len() - pos,
{
    text::lemma_find_char_from(b, '<', pos);
    if let Some(lt) = text::find_char_from(b, '<', pos) {
        if lt == pos {
            xml_tags::lemma_gt_from(b, pos + 1, None);
            if let Some(gt) = xml_tags::find_gt(b, pos) {
                if pos < gt < b.len() {
                    let inner = b.subrange(pos + 1, gt);
                    if let Some(t) = tag_step(st, inner, b, gt + 1) {
                        lemma_tag_shape(st, inner, b, gt + 1);
                        lemma_drain_range(t.0, b, t.1);
                    }
                }
            }
        } else {
            let t = crate::xml_parser::text_step(st, b.subrange(pos, lt));
            lemma_drain_range(t.0, b, lt);
        }
    }
}

proof fn lemma_drain_shift(st: PState, c: Seq<char>, k: int, pos: int)
    requires
        0 <= k <= pos,
        k <= c.len(),
    ensures
        ({
            let q = drain_from(st, c.subrange(k, c.len() as int), pos - k);
            drain_from(st, c, pos) == (q.0, q.1 + k, q.2)
        }),
    decreases c.len() - pos,
{
    let s = c.subrange(k, c.len() as int);
    if pos <= c.len() {
        lemma_fc_shift(c, k, '<', pos);
        text::lemma_find_char_from(c, '<', pos);
        match text::find_char_from(c, '<', pos) {
            None => {
                assert(c.subrange(pos, c.len() as int) =~= s.subrange(pos - k, s.len() as int));
            },
            Some(lt) => {
                if lt == pos {
                    lemma_gt_shift(c, k, pos + 1, None);
                    xml_tags::lemma_gt_from(c, pos + 1, None);
                    if let Some(gt) = xml_tags::find_gt(c, pos) {
                        if pos < gt < c.len() {
                            let inner = c.subrange(pos + 1, gt);
                            assert(inner =~= s.subrange(pos + 1 - k, gt - k));
                            lemma_tag_shift(st, inner, c, k, gt + 1);
                            if let Some(t) = tag_step(st, inner, c, gt + 1) {
                                if gt + 1 <= t.1 <= c.len() {
                                    lemma_drain_shift(t.0, c, k, t.1);
                                }
                            }
                        }
                    }
                } else {
                    assert(c.subrange(pos, lt) =~= s.subrange(pos - k, lt - k));
                    let t = crate::xml_parser::text_step(st, c.subrange(pos, lt));
                    lemma_drain_shift(t.0, c, k, lt);
                }
            },
        }
    }
}

proof fn lemma_drain_ext(st: PState, b: Seq<char>, x: Seq<char>, pos: int, l: int)
    requires
        0 <= pos <= l < b.len(),
        b[l] == '<',
        forall|j: int| l < j < b.len() ==> b[j] != '>',
    ensures
        ({
            let r = drain_from(st, b, pos);
            let q = drain_from(r.0, b + x, r.1);
            r.1 <= l && drain_from(st, b + x, pos) == (q.0, q.1, r.2 + q.2)
        }),
    decreases b.len() - pos,
{
    text::lemma_find_char_from(b, '<', pos);
    let lt = text::find_char_from(b, '<', pos)->0;
    lemma_fc_ext(b, x, '<', pos);
    if lt == pos {
        xml_tags::lemma_gt_from(b, pos + 1, None);
        match xml_tags::find_gt(b, pos) {
            None => {
                let q = drain_from(st, b + x, pos);
                assert(seq![] + q.2 =~= q.2);
            },
            Some(gt) => {
                lemma_gt_ext(b, x, pos + 1, None);
                let inner = b.subrange(pos + 1, gt);
                assert((b + x).subrange(pos + 1, gt) =~= inner);
                match tag_step(st, inner, b, gt + 1) {
                    None => {
                        let q = drain_from(st, b + x, pos);
                        assert(seq![] + q.2 =~= q.2);
                    },
                    Some(t) => {
                        lemma_tag_shape(st, inner, b, gt + 1);
                        lemma_tag_ext(st, inner, b, x, gt + 1);
                        lemma_drain_ext(t.0, b, x, t.1, l);
                        let r1 = drain_from(t.0, b, t.1);
                        let q = drain_from(r1.0, b + x, r1.1);
                        assert(t.2 + (r1.2 + q.2) =~= (t.2 + r1.2) + q.2);
                    },
                }
            },
        }
    } else {
        assert((b + x).subrange(pos, lt) =~= b.subrange(pos, lt));
        let t = crate::xml_parser::text_step(st, b.subrange(pos, lt));
        lemma_drain_ext(t.0, b, x, lt, l);
        let r1 = drain_from(t.0, b, lt);
        let q = drain_from(r1.0, b + x, r1.1);
        assert(t.1 + (r1.2 + q.2) =~= (t.1 + r1.2) + q.2);
    }
}

/// A read boundary inside a tag loses nothing: when `a` holds a `<` with no
/// `>` after it, feeding `a` and then `b` gives the same events, in the same
/// order, and leaves the parser as feeding `a` and `b` at once.
pub proof fn lemma_feed_split(p: PView, a: Seq<char>, b: Seq<char>)
    requires
        exists|l: int| 0 <= l < a.len() && a[l] == '<' && forall|j: int| l < j < a.len() ==> a[j] != '>',
    ensures
        ({
            let f1 = feed_spec(p, a);
            let f2 = feed_spec(f1.0, b);
            let g = feed_spec(p, a + b);
            g.0 == f2.0 && g.1 == f1.1 + f2.1
        }),
{
    let l = choose|l: int| 0 <= l < a.len() && a[l] == '<' && forall|j: int| l < j < a.len() ==> a[j] != '>';
    let bb = p.buf + a;
    let ll = p.buf.len() + l;
    assert forall|j: int| ll < j < bb.len() implies bb[j] != '>' by {
        assert(bb[j] == a[j - p.buf.len()]);
    }
    let r = drain_from(p.st, bb, 0);
    lemma_drain_ext(p.st, bb, b, 0, ll);
    lemma_drain_range(p.st, bb, 0);
    let c = bb + b;
    assert(p.buf + (a + b) =~= c);
    let cs = bb.subrange(r.1, bb.len() as int) + b;
    assert(c.subrange(r.1, c.len() as int) =~= cs);
    lemma_drain_shift(r.0, c, r.1, r.1);
    lemma_drain_range(r.0, cs, 0);
    let rr = drain_from(r.0, cs, 0);
    assert(c.subrange(rr.1 + r.1, c.len() as int) =~= cs.subrange(rr.1, cs.len() as int));
}

// ── Room text ───────────────────────────────────────────────────────────────

/// Outside any stream, text styled as the room description is reported as
/// the room description: fed with nothing buffered, text without a tag
/// gives exactly one `RoomDescription` event carrying that text, and
/// nothing stays buffered.
pub proof fn lemma_styled_room_description(p: PView, s: Seq<char>)
    requires
        p.buf.len() == 0,
        p.st.stream is None,
        p.st.style == Some("roomDesc"@),
        s.len() > 0,
        !s.contains('<'),
    ensures
        feed_spec(p, s).1 == seq![Ev::RoomDescription { text: s }],
        feed_spec(p, s).0.buf.len() == 0,
{
    let b = p.buf + s;
    assert(b =~= s);
    text::lemma_find_char_from(b, '<', 0);
    if let Some(k) = text::find_char_from(b, '<', 0) {
        assert(s.contains(s[k]));
    }
    assert(b.subrange(0, b.len() as int) =~= s);
    reveal(text_step);
    reveal_strlit("roomName");
    reveal_strlit("roomDesc");
    assert("roomDesc"@[4] != "roomName"@[4]);
    assert(b.subrange(b.len() as int, b.len() as int) =~= seq![]);
}

} // verus!
