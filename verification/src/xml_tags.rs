//! Tag-level helpers of the XML parser: attributes, entity decoding, the
//! self-closing and element tags, and the small value formats inside them.
use vstd::prelude::*;
use crate::text;
use crate::text::{views, opt_int};

verus! {

// ── Attributes (read by quick-xml) ──────────────────────────────────────────

/// What quick-xml's `Reader` makes of the text `xml`: when the first event is
/// an empty element `<name …/>`, its name and, for each attribute in order,
/// `Some((key, unescaped value))` or `None` where quick-xml reported an error.
pub uninterp spec fn xml_empty_element(xml: Seq<char>) -> Option<(Seq<char>, Seq<Option<(Seq<char>, Seq<char>)>>)>;

pub open spec fn raw_attrs_view(v: Seq<Option<(String, String)>>) -> Seq<Option<(Seq<char>, Seq<char>)>> {
    v.map_values(|o: Option<(String, String)>| match o {
        Some(p) => Some((p.0@, p.1@)),
        None => None,
    })
}

pub open spec fn element_view(r: Option<(String, Vec<Option<(String, String)>>)>) -> Option<(Seq<char>, Seq<Option<(Seq<char>, Seq<char>)>>)> {
    match r {
        Some(p) => Some((p.0@, raw_attrs_view(p.1@))),
        None => None,
    }
}

/// quick-xml `Reader::from_str` (its default configuration does not trim
/// text), one `read_event`, and for
/// an `Event::Empty` its name and its attributes (`Attribute::unescape_value`).
/// The contract names the result; it states nothing about how quick-xml reads
/// the text.
#[verifier::external_body]
fn read_empty_element(xml: &str) -> (r: Option<(String, Vec<Option<(String, String)>>)>)
    ensures
        element_view(r) == xml_empty_element(xml@),
{
    let mut reader = quick_xml::Reader::from_str(xml);
    match reader.read_event() {
        Ok(quick_xml::events::Event::Empty(e)) => {
            let name = std::str::from_utf8(e.name().as_ref()).unwrap_or("").to_string();
            let attrs = e.attributes().map(|a| match a {
                Ok(a) => match (std::str::from_utf8(a.key.as_ref()), a.unescape_value()) {
                    (Ok(k), Ok(v)) => Some((k.to_string(), v.into_owned())),
                    _ => None,
                },
                Err(_) => None,
            }).collect();
            Some((name, attrs))
        },
        _ => None,
    }
}

/// What `quick_xml::escape::unescape` returns for `s` (`None` for an error).
pub uninterp spec fn xml_unescape(s: Seq<char>) -> Option<Seq<char>>;

/// `quick_xml::escape::unescape`. Besides naming the result, the contract
/// states what its source shows: text without `&` comes back unchanged.
#[verifier::external_body]
fn unescape(s: &str) -> (r: Option<String>)
    ensures
        crate::game_obj::opt_view(r) == xml_unescape(s@),
        !s@.contains('&') ==> crate::game_obj::opt_view(r) == Some(s@),
{
    match quick_xml::escape::unescape(s) {
        Ok(c) => Some(c.into_owned()),
        Err(_) => None,
    }
}

/// Attribute list as characters.
pub type Attrs = Vec<(Vec<char>, Vec<char>)>;

pub open spec fn attrs_view(a: Seq<(Vec<char>, Vec<char>)>) -> Seq<(Seq<char>, Seq<char>)> {
    a.map_values(|p: (Vec<char>, Vec<char>)| (p.0@, p.1@))
}

/// The attributes that quick-xml read without error, in order.
pub open spec fn keep_some(v: Seq<Option<(Seq<char>, Seq<char>)>>) -> Seq<(Seq<char>, Seq<char>)>
    decreases v.len(),
{
    if v.len() == 0 {
        seq![]
    } else {
        match v.last() {
            Some(p) => keep_some(v.drop_last()).push(p),
            None => keep_some(v.drop_last()),
        }
    }
}

/// The attributes of the empty element `xml` (none when it is not one).
pub open spec fn attrs_of(xml: Seq<char>) -> Seq<(Seq<char>, Seq<char>)> {
    match xml_empty_element(xml) {
        Some(p) => keep_some(p.1),
        None => seq![],
    }
}

/// `<body/>` followed by a newline, the text the parser hands quick-xml.
pub open spec fn empty_xml_nl(body: Seq<char>) -> Seq<char> {
    seq!['<'] + body + seq!['/', '>', '\n']
}

/// `<body/>`.
pub open spec fn empty_xml(body: Seq<char>) -> Seq<char> {
    seq!['<'] + body + seq!['/', '>']
}

pub fn make_empty_xml(body: &[char], newline: bool) -> (r: Vec<char>)
    ensures
        r@ == if newline {
            empty_xml_nl(body@)
        } else {
            empty_xml(body@)
        },
{
    let mut v: Vec<char> = Vec::new();
    v.push('<');
    text::push_all(&mut v, body);
    v.push('/');
    v.push('>');
    if newline {
        v.push('\n');
    }
    proof {
        if newline {
            assert(v@ =~= empty_xml_nl(body@));
        } else {
            assert(v@ =~= empty_xml(body@));
        }
    }
    v
}

fn keep_some_exec(raw: &Vec<Option<(String, String)>>) -> (r: Attrs)
    ensures
        attrs_view(r@) == keep_some(raw_attrs_view(raw@)),
{
    let ghost rv = raw_attrs_view(raw@);
    let mut out: Attrs = Vec::new();
    let mut i: usize = 0;
    while i < raw.len()
        invariant
            i <= raw.len(),
            rv == raw_attrs_view(raw@),
            attrs_view(out@) == keep_some(rv.take(i as int)),
        decreases raw.len() - i,
    {
        assert(rv.take(i + 1).drop_last() =~= rv.take(i as int));
        match &raw[i] {
            Some(p) => {
                let k = text::chars_of(p.0.as_str());
                let v = text::chars_of(p.1.as_str());
                let ghost old_out = out@;
                out.push((k, v));
                assert(attrs_view(out@) =~= attrs_view(old_out).push((k@, v@)));
            },
            None => {},
        }
        i += 1;
    }
    assert(rv.take(raw.len() as int) =~= rv);
    out
}

/// Reads the empty element `xml`: its name and the attributes read without error.
pub fn read_element(xml: &[char]) -> (r: Option<(Vec<char>, Attrs)>)
    ensures
        match r {
            Some(p) => xml_empty_element(xml@) matches Some(q) && p.0@ == q.0 && attrs_view(p.1@)
                == keep_some(q.1),
            None => xml_empty_element(xml@) is None,
        },
{
    let s = text::string_of(xml);
    match read_empty_element(s.as_str()) {
        Some(p) => {
            let name = text::chars_of(p.0.as_str());
            let attrs = keep_some_exec(&p.1);
            Some((name, attrs))
        },
        None => None,
    }
}

/// The attributes of the empty element `xml`.
pub fn attrs_from_xml(xml: &[char]) -> (r: Attrs)
    ensures
        attrs_view(r@) == attrs_of(xml@),
{
    match read_element(xml) {
        Some(p) => p.1,
        None => Vec::new(),
    }
}

/// Value of the first attribute at or after `i` whose key is `name`.
pub open spec fn attr_from(a: Seq<(Seq<char>, Seq<char>)>, name: Seq<char>, i: int) -> Option<Seq<char>>
    decreases a.len() - i,
{
    if i < 0 || i >= a.len() {
        None
    } else if a[i].0 == name {
        Some(a[i].1)
    } else {
        attr_from(a, name, i + 1)
    }
}

/// Value of the first attribute whose key is `name`.
pub open spec fn attr(a: Seq<(Seq<char>, Seq<char>)>, name: Seq<char>) -> Option<Seq<char>> {
    attr_from(a, name, 0)
}

/// The value of an attribute, or the empty text when it is absent.
pub open spec fn attr_or_empty(a: Seq<(Seq<char>, Seq<char>)>, name: Seq<char>) -> Seq<char> {
    match attr(a, name) {
        Some(v) => v,
        None => seq![],
    }
}

pub open spec fn opt_chars(o: Option<Vec<char>>) -> Option<Seq<char>> {
    match o {
        Some(v) => Some(v@),
        None => None,
    }
}

pub fn get_attr(a: &Attrs, name: &str) -> (r: Option<Vec<char>>)
    ensures
        opt_chars(r) == attr(attrs_view(a@), name@),
{
    let n = text::chars_of(name);
    let ghost av = attrs_view(a@);
    let mut i: usize = 0;
    while i < a.len()
        invariant
            i <= a.len(),
            n@ == name@,
            av == attrs_view(a@),
            attr(av, n@) == attr_from(av, n@, i as int),
        decreases a.len() - i,
    {
        if text::seq_eq(&a[i].0, &n) {
            return Some(a[i].1.clone());
        }
        i += 1;
    }
    None
}

pub fn get_attr_or_empty(a: &Attrs, name: &str) -> (r: Vec<char>)
    ensures
        r@ == attr_or_empty(attrs_view(a@), name@),
{
    match get_attr(a, name) {
        Some(v) => v,
        None => Vec::new(),
    }
}

// ── Text of elements ────────────────────────────────────────────────────────

/// The characters of `s[i..]` outside `<…>` markup, given whether position
/// `i` lies inside a tag.
pub open spec fn strip_from(s: Seq<char>, i: int, in_tag: bool) -> Seq<char>
    decreases s.len() - i,
{
    if i < 0 || i >= s.len() {
        seq![]
    } else if s[i] == '<' {
        strip_from(s, i + 1, true)
    } else if s[i] == '>' {
        strip_from(s, i + 1, false)
    } else if !in_tag {
        seq![s[i]] + strip_from(s, i + 1, in_tag)
    } else {
        strip_from(s, i + 1, in_tag)
    }
}

/// Plain text of element content: markup removed, then XML entities decoded
/// (the markup-free text itself when decoding fails).
pub open spec fn strip_tags(s: Seq<char>) -> Seq<char> {
    let plain = strip_from(s, 0, false);
    match xml_unescape(plain) {
        Some(u) => u,
        None => plain,
    }
}

pub fn strip_tags_exec(s: &[char]) -> (r: Vec<char>)
    ensures
        r@ == strip_tags(s@),
{
    let mut out: Vec<char> = Vec::new();
    let mut in_tag = false;
    let mut i: usize = 0;
    while i < s.len()
        invariant
            i <= s.len(),
            out@ + strip_from(s@, i as int, in_tag) == strip_from(s@, 0, false),
        decreases s.len() - i,
    {
        let c = s[i];
        if c == '<' {
            in_tag = true;
        } else if c == '>' {
            in_tag = false;
        } else if !in_tag {
            let ghost old_out = out@;
            out.push(c);
            assert(out@ + strip_from(s@, i + 1, in_tag) =~= old_out + (seq![c] + strip_from(
                s@,
                i + 1,
                in_tag,
            )));
        }
        i += 1;
    }
    assert(out@ =~= strip_from(s@, 0, false));
    let plain = text::string_of(&out);
    match unescape(plain.as_str()) {
        Some(u) => text::chars_of(u.as_str()),
        None => out,
    }
}

// ── Finding the end of a tag ────────────────────────────────────────────────

/// Index of the first `>` at or after `i` outside a quoted attribute value;
/// `q` is the quote that is open at `i`, if any.
pub open spec fn gt_from(s: Seq<char>, i: int, q: Option<char>) -> Option<int>
    decreases s.len() - i,
{
    if i < 0 || i >= s.len() {
        None
    } else {
        match q {
            None => if s[i] == '"' {
                gt_from(s, i + 1, Some('"'))
            } else if s[i] == '\'' {
                gt_from(s, i + 1, Some('\''))
            } else if s[i] == '>' {
                Some(i)
            } else {
                gt_from(s, i + 1, None)
            },
            Some(c) => if s[i] == c {
                gt_from(s, i + 1, None)
            } else {
                gt_from(s, i + 1, q)
            },
        }
    }
}

/// The `>` closing the tag whose `<` stands at `start`.
pub open spec fn find_gt(s: Seq<char>, start: int) -> Option<int> {
    gt_from(s, start + 1, None)
}

pub proof fn lemma_gt_from(s: Seq<char>, i: int, q: Option<char>)
    requires
        0 <= i,
    ensures
        gt_from(s, i, q) matches Some(k) ==> i <= k < s.len() && s[k] == '>',
    decreases s.len() - i,
{
    if 0 <= i < s.len() {
        match q {
            None => if s[i] == '"' {
                lemma_gt_from(s, i + 1, Some('"'));
            } else if s[i] == '\'' {
                lemma_gt_from(s, i + 1, Some('\''));
            } else if s[i] != '>' {
                lemma_gt_from(s, i + 1, None);
            },
            Some(c) => if s[i] == c {
                lemma_gt_from(s, i + 1, None);
            } else {
                lemma_gt_from(s, i + 1, q);
            },
        }
    }
}

pub fn find_gt_exec(s: &[char], start: usize) -> (r: Option<usize>)
    requires
        start < s.len(),
    ensures
        opt_int(r) == find_gt(s@, start as int),
        r matches Some(k) ==> start < k < s.len(),
{
    proof {
        lemma_gt_from(s@, start + 1, None);
    }
    let mut q: Option<char> = None;
    let mut i = start + 1;
    while i < s.len()
        invariant
            start < i <= s.len(),
            find_gt(s@, start as int) == gt_from(s@, i as int, q),
        decreases s.len() - i,
    {
        let b = s[i];
        match q {
            None => {
                if b == '"' {
                    q = Some('"');
                } else if b == '\'' {
                    q = Some('\'');
                } else if b == '>' {
                    return Some(i);
                }
            },
            Some(c) => {
                if b == c {
                    q = None;
                }
            },
        }
        i += 1;
    }
    None
}

} // verus!

verus! {

use crate::xml_parser::{XmlEvent, Ev};

// ── Small value formats ─────────────────────────────────────────────────────

/// An attribute parsed as `u32`, when present and well formed.
pub open spec fn attr_u32(a: Seq<(Seq<char>, Seq<char>)>, name: Seq<char>) -> Option<u32> {
    match attr(a, name) {
        Some(v) => match text::parse_unsigned(v, u32::MAX as nat) {
            Some(n) => Some(n as u32),
            None => None,
        },
        None => None,
    }
}

pub fn get_attr_u32(a: &Attrs, name: &str) -> (r: Option<u32>)
    ensures
        r == attr_u32(attrs_view(a@), name@),
{
    match get_attr(a, name) {
        Some(v) => text::parse_u32(&v),
        None => None,
    }
}

/// `(current, max)` of a vital: `value` parsed as the current value (0 when
/// absent or malformed); when the `text` attribute, past its leading
/// non-digits, splits on `/` into at least two parts, the first two give the
/// current value (defaulting to `value`) and the maximum (defaulting to 0).
pub open spec fn vital(a: Seq<(Seq<char>, Seq<char>)>) -> (u32, Option<u32>) {
    let value: u32 = match attr_u32(a, "value"@) {
        Some(v) => v,
        None => 0,
    };
    match attr(a, "text"@) {
        Some(t) => {
            let numeric = t.subrange(text::digit_skip(t, 0), t.len() as int);
            let parts = text::split_char(numeric, '/');
            if parts.len() >= 2 {
                (
                    text::u32_or(text::trim(parts[0]), value),
                    Some(text::u32_or(text::trim(parts[1]), 0)),
                )
            } else {
                (value, None)
            }
        },
        None => (value, None),
    }
}

pub fn parse_vital(a: &Attrs) -> (r: (u32, Option<u32>))
    ensures
        r == vital(attrs_view(a@)),
{
    let value: u32 = match get_attr_u32(a, "value") {
        Some(v) => v,
        None => 0,
    };
    match get_attr(a, "text") {
        Some(t) => {
            let k = text::digit_skip_exec(&t, 0);
            let numeric = text::slice_of(&t, k, t.len());
            let parts = text::split_char_exec(&numeric, '/');
            if parts.len() >= 2 {
                let p0 = text::trim_exec(&parts[0]);
                let p1 = text::trim_exec(&parts[1]);
                (text::parse_u32_or(&p0, value), Some(text::parse_u32_or(&p1, 0)))
            } else {
                (value, None)
            }
        },
        None => (value, None),
    }
}

/// `h*3600 + m*60 + s` in `u32` arithmetic that wraps.
pub open spec fn hms(h: u32, m: u32, s: u32) -> u32 {
    vstd::wrapping::u32_specs::wrapping_add(
        vstd::wrapping::u32_specs::wrapping_add(
            vstd::wrapping::u32_specs::wrapping_mul(h, 3600),
            vstd::wrapping::u32_specs::wrapping_mul(m, 60),
        ),
        s,
    )
}

/// Seconds in `HH:MM:SS` (malformed fields count as 0); `u32::MAX` for
/// `Indefinite` or the empty text; 0 for any other shape.
pub open spec fn time_to_secs(t: Seq<char>) -> u32 {
    if t == "Indefinite"@ || t.len() == 0 {
        u32::MAX
    } else {
        let p = text::split_char(t, ':');
        if p.len() == 3 {
            hms(text::u32_or(p[0], 0), text::u32_or(p[1], 0), text::u32_or(p[2], 0))
        } else {
            0
        }
    }
}

pub fn hms_exec(h: u32, m: u32, s: u32) -> (r: u32)
    ensures
        r == hms(h, m, s),
{
    h.wrapping_mul(3600).wrapping_add(m.wrapping_mul(60)).wrapping_add(s)
}

pub fn parse_time_to_secs(t: &[char]) -> (r: u32)
    ensures
        r == time_to_secs(t@),
{
    if text::eq_lit(t, "Indefinite") || t.len() == 0 {
        return u32::MAX;
    }
    let p = text::split_char_exec(t, ':');
    if p.len() == 3 {
        hms_exec(
            text::parse_u32_or(&p[0], 0),
            text::parse_u32_or(&p[1], 0),
            text::parse_u32_or(&p[2], 0),
        )
    } else {
        0
    }
}

/// What follows the `Obvious exits:` (or `exit`, `paths`, `path`) prefix.
pub open spec fn exits_rest(t: Seq<char>) -> Option<Seq<char>> {
    if text::starts_with(t, "Obvious exits: "@) {
        Some(t.subrange("Obvious exits: "@.len() as int, t.len() as int))
    } else if text::starts_with(t, "Obvious exit: "@) {
        Some(t.subrange("Obvious exit: "@.len() as int, t.len() as int))
    } else if text::starts_with(t, "Obvious paths: "@) {
        Some(t.subrange("Obvious paths: "@.len() as int, t.len() as int))
    } else if text::starts_with(t, "Obvious path: "@) {
        Some(t.subrange("Obvious path: "@.len() as int, t.len() as int))
    } else {
        None
    }
}

/// The exits of a room-exits title: the text after the prefix split on `", "`,
/// each part trimmed; none for an unrecognized title.
pub open spec fn exits(t: Seq<char>) -> Seq<Seq<char>> {
    match exits_rest(t) {
        Some(r) => text::split_sub(r, ", "@).map_values(|x: Seq<char>| text::trim(x)),
        None => seq![],
    }
}

fn strip_lit(t: &[char], lit: &str) -> (r: Option<Vec<char>>)
    ensures
        opt_chars(r) == if text::starts_with(t@, lit@) {
            Some(t@.subrange(lit@.len() as int, t@.len() as int))
        } else {
            None
        },
{
    if text::starts_with_lit(t, lit) {
        let l = text::chars_of(lit);
        Some(text::slice_of(t, l.len(), t.len()))
    } else {
        None
    }
}

pub fn parse_exits(t: &[char]) -> (r: Vec<String>)
    ensures
        crate::xml_parser::strings_view(r@) == exits(t@),
{
    let rest = match strip_lit(t, "Obvious exits: ") {
        Some(r) => Some(r),
        None => match strip_lit(t, "Obvious exit: ") {
            Some(r) => Some(r),
            None => match strip_lit(t, "Obvious paths: ") {
                Some(r) => Some(r),
                None => strip_lit(t, "Obvious path: "),
            },
        },
    };
    match rest {
        None => Vec::new(),
        Some(r) => {
            proof {
                reveal_strlit(", ");
            }
            let parts = text::split_lit_exec(&r, ", ");
            let ghost pv = views(parts@);
            let mut out: Vec<String> = Vec::new();
            let mut i: usize = 0;
            while i < parts.len()
                invariant
                    i <= parts.len(),
                    pv == views(parts@),
                    crate::xml_parser::strings_view(out@) == pv.take(i as int).map_values(
                        |x: Seq<char>| text::trim(x),
                    ),
                decreases parts.len() - i,
            {
                let tr = text::trim_exec(&parts[i]);
                let s = text::string_of(&tr);
                let ghost old_out = out@;
                out.push(s);
                assert(crate::xml_parser::strings_view(out@) =~= crate::xml_parser::strings_view(
                    old_out,
                ).push(text::trim(pv[i as int])));
                assert(pv.take(i + 1).map_values(|x: Seq<char>| text::trim(x)) =~= pv.take(
                    i as int,
                ).map_values(|x: Seq<char>| text::trim(x)).push(text::trim(pv[i as int])));
                i += 1;
            }
            assert(pv.take(parts.len() as int) =~= pv);
            out
        },
    }
}

/// Severity of an injury image name: its first digit, capped at 3, as a wound
/// (`Injury…`, `Nsys…`, either case of the first letter) or a scar (`Scar…`).
pub open spec fn injury(name: Seq<char>) -> (u8, u8) {
    let k = text::digit_skip(name, 0);
    let d: nat = if 0 <= k < name.len() {
        if text::digit_val(name[k]) < 3 {
            text::digit_val(name[k])
        } else {
            3
        }
    } else {
        0
    };
    if d == 0 {
        (0, 0)
    } else if text::starts_with(name, "Injury"@) || text::starts_with(name, "injury"@) {
        (d as u8, 0)
    } else if text::starts_with(name, "Scar"@) || text::starts_with(name, "scar"@) {
        (0, d as u8)
    } else if text::starts_with(name, "Nsys"@) || text::starts_with(name, "nsys"@) {
        (d as u8, 0)
    } else {
        (0, 0)
    }
}

pub fn parse_injury_name(name: &[char]) -> (r: (u8, u8))
    ensures
        r == injury(name@),
{
    let k = text::digit_skip_exec(name, 0);
    proof {
        text::lemma_digit_skip(name@, 0);
    }
    let d: u8 = if k < name.len() {
        let v = (name[k] as u32 - '0' as u32) as u8;
        if v < 3 {
            v
        } else {
            3
        }
    } else {
        0
    };
    if d == 0 {
        (0, 0)
    } else if text::starts_with_lit(name, "Injury") || text::starts_with_lit(name, "injury") {
        (d, 0)
    } else if text::starts_with_lit(name, "Scar") || text::starts_with_lit(name, "scar") {
        (0, d)
    } else if text::starts_with_lit(name, "Nsys") || text::starts_with_lit(name, "nsys") {
        (d, 0)
    } else {
        (0, 0)
    }
}

/// Duration of a DragonRealms spell from the text between its parentheses.
pub open spec fn dr_duration(inside: Seq<char>) -> u32 {
    if text::eq_ignore_ascii_case(inside, "indefinite"@) {
        u32::MAX
    } else if text::eq_ignore_ascii_case(inside, "fading"@) || inside == "OM"@ {
        0
    } else if text::ends_with(inside, "%"@) {
        0
    } else if text::contains_sub(inside, "roisaen"@) {
        vstd::wrapping::u32_specs::wrapping_mul(text::u32_or(text::first_token(inside), 0), 15)
    } else if text::contains_sub(inside, "anlaen"@) {
        vstd::wrapping::u32_specs::wrapping_mul(text::u32_or(text::first_token(inside), 0), 900)
    } else {
        let p = text::split_char(inside, ':');
        if p.len() == 3 {
            hms(text::u32_or(p[0], 0), text::u32_or(p[1], 0), text::u32_or(p[2], 0))
        } else {
            0
        }
    }
}

fn dr_duration_exec(inside: &[char]) -> (r: u32)
    ensures
        r == dr_duration(inside@),
{
    if text::eq_ignore_case_lit(inside, "indefinite") {
        u32::MAX
    } else if text::eq_ignore_case_lit(inside, "fading") || text::eq_lit(inside, "OM") {
        0
    } else if text::ends_with_lit(inside, "%") {
        0
    } else if text::contains_lit(inside, "roisaen") {
        let t = text::first_token_exec(inside);
        text::parse_u32_or(&t, 0).wrapping_mul(15)
    } else if text::contains_lit(inside, "anlaen") {
        let t = text::first_token_exec(inside);
        text::parse_u32_or(&t, 0).wrapping_mul(900)
    } else {
        let p = text::split_char_exec(inside, ':');
        if p.len() == 3 {
            hms_exec(
                text::parse_u32_or(&p[0], 0),
                text::parse_u32_or(&p[1], 0),
                text::parse_u32_or(&p[2], 0),
            )
        } else {
            0
        }
    }
}

/// A DragonRealms active-spell line `Name (duration)`: the trimmed name and
/// its duration; a line without a well-placed pair of parentheses is the
/// whole trimmed line, indefinite (`u32::MAX`); `None` for a blank line or an
/// empty name.
pub open spec fn dr_spell_line(line: Seq<char>) -> Option<(Seq<char>, Option<u32>)> {
    let t = text::trim(line);
    if t.len() == 0 {
        None
    } else {
        match text::rfind_char(t, '(') {
            Some(ps) => match text::rfind_char(t, ')') {
                Some(pe) => if ps + 1 <= pe {
                    let name = text::trim(t.subrange(0, ps));
                    if name.len() == 0 {
                        None
                    } else {
                        Some((name, Some(dr_duration(text::trim(t.subrange(ps + 1, pe))))))
                    }
                } else {
                    Some((t, Some(u32::MAX)))
                },
                None => Some((t, Some(u32::MAX))),
            },
            None => Some((t, Some(u32::MAX))),
        }
    }
}

pub open spec fn opt_line(o: Option<(Vec<char>, Option<u32>)>) -> Option<(Seq<char>, Option<u32>)> {
    match o {
        Some(p) => Some((p.0@, p.1)),
        None => None,
    }
}

pub fn parse_dr_spell_line(line: &[char]) -> (r: Option<(Vec<char>, Option<u32>)>)
    ensures
        opt_line(r) == dr_spell_line(line@),
{
    let t = text::trim_exec(line);
    if t.len() == 0 {
        return None;
    }
    let ps = text::rfind_char_exec(&t, '(');
    let pe = text::rfind_char_exec(&t, ')');
    proof {
        text::lemma_rfind_char(t@, '(', t@.len() as int);
        text::lemma_rfind_char(t@, ')', t@.len() as int);
    }
    match ps {
        Some(ps) => match pe {
            Some(pe) => {
                if ps + 1 <= pe {
                    let head = text::slice_of(&t, 0, ps);
                    let name = text::trim_exec(&head);
                    if name.len() == 0 {
                        return None;
                    }
                    let mid = text::slice_of(&t, ps + 1, pe);
                    let inside = text::trim_exec(&mid);
                    Some((name, Some(dr_duration_exec(&inside))))
                } else {
                    Some((t, Some(u32::MAX)))
                }
            },
            None => Some((t, Some(u32::MAX))),
        },
        None => Some((t, Some(u32::MAX))),
    }
}

} // verus!

verus! {



pub open spec fn opt_ev(o: Option<XmlEvent>) -> Option<Ev> {
    match o {
        Some(e) => Some(e@),
        None => None,
    }
}

/// An attribute that is present and not empty.
pub open spec fn nonempty_attr(a: Seq<(Seq<char>, Seq<char>)>, name: Seq<char>) -> Option<Seq<char>> {
    match attr(a, name) {
        Some(v) => if v.len() > 0 {
            Some(v)
        } else {
            None
        },
        None => None,
    }
}

/// The event of a self-closing tag named `tag` with attributes `a`.
pub open spec fn empty_tag_event(tag: Seq<char>, a: Seq<(Seq<char>, Seq<char>)>) -> Option<Ev> {
    if tag == "progressBar"@ {
        let id = attr_or_empty(a, "id"@);
        let v = vital(a);
        if id == "health"@ {
            Some(Ev::Health { value: v.0, max: v.1 })
        } else if id == "mana"@ {
            Some(Ev::Mana { value: v.0, max: v.1 })
        } else if id == "spirit"@ {
            Some(Ev::Spirit { value: v.0, max: v.1 })
        } else if id == "stamina"@ {
            Some(Ev::Stamina { value: v.0, max: v.1 })
        } else if id == "concentration"@ {
            Some(Ev::Concentration { value: v.0, max: v.1 })
        } else if id == "nextLvlPB"@ {
            match attr(a, "value"@) {
                Some(x) => match text::parse_unsigned(x, u64::MAX as nat) {
                    Some(n) => Some(Ev::Experience { value: n as u64 }),
                    None => None,
                },
                None => None,
            }
        } else {
            None
        }
    } else if tag == "roundTime"@ || tag == "castTime"@ {
        match attr(a, "value"@) {
            Some(x) => match text::parse_i64_spec(x) {
                Some(e) => if tag == "roundTime"@ {
                    Some(Ev::RoundTime { end_epoch: e as i64 })
                } else {
                    Some(Ev::CastTime { end_epoch: e as i64 })
                },
                None => None,
            },
            None => None,
        }
    } else if tag == "streamWindow"@ {
        let id = attr_or_empty(a, "id"@);
        let title = attr_or_empty(a, "title"@);
        if id == "room exits"@ {
            Some(Ev::RoomExits { exits: exits(title), raw: title })
        } else {
            Some(Ev::StreamWindow { id, title })
        }
    } else if tag == "indicator"@ {
        Some(
            Ev::Indicator {
                name: attr_or_empty(a, "id"@),
                visible: match attr(a, "visible"@) {
                    Some(v) => v == "y"@,
                    None => false,
                },
            },
        )
    } else if tag == "mode"@ {
        Some(Ev::Mode { id: attr_or_empty(a, "id"@), room_id: attr_u32(a, "roomId"@) })
    } else if tag == "concentration"@ {
        Some(Ev::Concentration { value: vital(a).0, max: vital(a).1 })
    } else if tag == "rightHand"@ {
        Some(Ev::RightHand { item: nonempty_attr(a, "noun"@) })
    } else if tag == "leftHand"@ {
        Some(Ev::LeftHand { item: nonempty_attr(a, "noun"@) })
    } else if tag == "level"@ {
        Some(
            Ev::Level {
                value: match attr_u32(a, "value"@) {
                    Some(v) => v,
                    None => 0,
                },
            },
        )
    } else if tag == "nav"@ {
        match attr_u32(a, "rm"@) {
            Some(id) => Some(Ev::RoomId { id }),
            None => None,
        }
    } else if tag == "style"@ {
        let id = attr_or_empty(a, "id"@);
        if id.len() == 0 {
            Some(Ev::StylePop)
        } else {
            Some(Ev::StylePush { id })
        }
    } else if tag == "pushStream"@ {
        Some(Ev::PushStream { id: attr_or_empty(a, "id"@) })
    } else if tag == "popStream"@ {
        Some(Ev::PopStream { id: attr_or_empty(a, "id"@) })
    } else if tag == "clearStream"@ {
        Some(Ev::ClearStream { id: attr_or_empty(a, "id"@) })
    } else {
        None
    }
}

fn attr_string(a: &Attrs, name: &str) -> (r: String)
    ensures
        r@ == attr_or_empty(attrs_view(a@), name@),
{
    let v = get_attr_or_empty(a, name);
    text::string_of(&v)
}

fn nonempty_attr_exec(a: &Attrs, name: &str) -> (r: Option<String>)
    ensures
        crate::game_obj::opt_view(r) == nonempty_attr(attrs_view(a@), name@),
{
    match get_attr(a, name) {
        Some(v) => if v.len() > 0 {
            Some(text::string_of(&v))
        } else {
            None
        },
        None => None,
    }
}

pub fn parse_empty_tag(tag: &[char], a: &Attrs) -> (r: Option<XmlEvent>)
    ensures
        opt_ev(r) == empty_tag_event(tag@, attrs_view(a@)),
{
    if text::eq_lit(tag, "progressBar") {
        let id = get_attr_or_empty(a, "id");
        let v = parse_vital(a);
        if text::eq_lit(&id, "health") {
            Some(XmlEvent::Health { value: v.0, max: v.1 })
        } else if text::eq_lit(&id, "mana") {
            Some(XmlEvent::Mana { value: v.0, max: v.1 })
        } else if text::eq_lit(&id, "spirit") {
            Some(XmlEvent::Spirit { value: v.0, max: v.1 })
        } else if text::eq_lit(&id, "stamina") {
            Some(XmlEvent::Stamina { value: v.0, max: v.1 })
        } else if text::eq_lit(&id, "concentration") {
            Some(XmlEvent::Concentration { value: v.0, max: v.1 })
        } else if text::eq_lit(&id, "nextLvlPB") {
            match get_attr(a, "value") {
                Some(x) => match text::parse_u64(&x) {
                    Some(n) => Some(XmlEvent::Experience { value: n }),
                    None => None,
                },
                None => None,
            }
        } else {
            None
        }
    } else if text::eq_lit(tag, "roundTime") || text::eq_lit(tag, "castTime") {
        match get_attr(a, "value") {
            Some(x) => match text::parse_i64(&x) {
                Some(e) => if text::eq_lit(tag, "roundTime") {
                    Some(XmlEvent::RoundTime { end_epoch: e })
                } else {
                    Some(XmlEvent::CastTime { end_epoch: e })
                },
                None => None,
            },
            None => None,
        }
    } else if text::eq_lit(tag, "streamWindow") {
        let id = get_attr_or_empty(a, "id");
        let title = get_attr_or_empty(a, "title");
        if text::eq_lit(&id, "room exits") {
            let ex = parse_exits(&title);
            Some(XmlEvent::RoomExits { exits: ex, raw: text::string_of(&title) })
        } else {
            Some(XmlEvent::StreamWindow { id: text::string_of(&id), title: text::string_of(&title) })
        }
    } else if text::eq_lit(tag, "indicator") {
        let visible = match get_attr(a, "visible") {
            Some(v) => text::eq_lit(&v, "y"),
            None => false,
        };
        Some(XmlEvent::Indicator { name: attr_string(a, "id"), visible })
    } else if text::eq_lit(tag, "mode") {
        Some(XmlEvent::Mode { id: attr_string(a, "id"), room_id: get_attr_u32(a, "roomId") })
    } else if text::eq_lit(tag, "concentration") {
        let v = parse_vital(a);
        Some(XmlEvent::Concentration { value: v.0, max: v.1 })
    } else if text::eq_lit(tag, "rightHand") {
        Some(XmlEvent::RightHand { item: nonempty_attr_exec(a, "noun") })
    } else if text::eq_lit(tag, "leftHand") {
        Some(XmlEvent::LeftHand { item: nonempty_attr_exec(a, "noun") })
    } else if text::eq_lit(tag, "level") {
        let value = match get_attr_u32(a, "value") {
            Some(v) => v,
            None => 0,
        };
        Some(XmlEvent::Level { value })
    } else if text::eq_lit(tag, "nav") {
        match get_attr_u32(a, "rm") {
            Some(id) => Some(XmlEvent::RoomId { id }),
            None => None,
        }
    } else if text::eq_lit(tag, "style") {
        let id = get_attr_or_empty(a, "id");
        if id.len() == 0 {
            Some(XmlEvent::StylePop)
        } else {
            Some(XmlEvent::StylePush { id: text::string_of(&id) })
        }
    } else if text::eq_lit(tag, "pushStream") {
        Some(XmlEvent::PushStream { id: attr_string(a, "id") })
    } else if text::eq_lit(tag, "popStream") {
        Some(XmlEvent::PopStream { id: attr_string(a, "id") })
    } else if text::eq_lit(tag, "clearStream") {
        Some(XmlEvent::ClearStream { id: attr_string(a, "id") })
    } else {
        None
    }
}

/// Whether some attribute has the key `name`.
pub open spec fn has_attr(a: Seq<(Seq<char>, Seq<char>)>, name: Seq<char>) -> bool {
    attr(a, name) is Some
}

/// The event of an element `tag` (with its content `text` already reduced to
/// plain text): prompts, room name/description components and spells.
pub open spec fn start_tag_event(tag: Seq<char>, a: Seq<(Seq<char>, Seq<char>)>, t: Seq<char>) -> Option<Ev> {
    if tag == "prompt"@ {
        Some(
            Ev::Prompt {
                time: match attr(a, "time"@) {
                    Some(x) => match text::parse_i64_spec(x) {
                        Some(v) => v as i64,
                        None => 0,
                    },
                    None => 0,
                },
                text: t,
            },
        )
    } else if tag == "component"@ {
        let id = attr_or_empty(a, "id"@);
        if id == "room desc"@ {
            Some(Ev::RoomDescription { text: t })
        } else if id == "room name"@ {
            Some(Ev::RoomName { name: t })
        } else {
            None
        }
    } else if tag == "spell"@ {
        if has_attr(a, "exist"@) {
            Some(Ev::ActiveSpell { name: t, duration: attr_u32(a, "duration"@) })
        } else if t.len() == 0 {
            Some(Ev::SpellCleared)
        } else {
            Some(Ev::PreparedSpell { name: t })
        }
    } else {
        None
    }
}

pub fn parse_start_tag(tag: &[char], a: &Attrs, t: &[char]) -> (r: Option<XmlEvent>)
    ensures
        opt_ev(r) == start_tag_event(tag@, attrs_view(a@), t@),
{
    if text::eq_lit(tag, "prompt") {
        let time: i64 = match get_attr(a, "time") {
            Some(x) => match text::parse_i64(&x) {
                Some(v) => v,
                None => 0,
            },
            None => 0,
        };
        Some(XmlEvent::Prompt { time, text: text::string_of(t) })
    } else if text::eq_lit(tag, "component") {
        let id = get_attr_or_empty(a, "id");
        if text::eq_lit(&id, "room desc") {
            Some(XmlEvent::RoomDescription { text: text::string_of(t) })
        } else if text::eq_lit(&id, "room name") {
            Some(XmlEvent::RoomName { name: text::string_of(t) })
        } else {
            None
        }
    } else if text::eq_lit(tag, "spell") {
        if get_attr(a, "exist").is_some() {
            Some(XmlEvent::ActiveSpell { name: text::string_of(t), duration: get_attr_u32(a, "duration") })
        } else if t.len() == 0 {
            Some(XmlEvent::SpellCleared)
        } else {
            Some(XmlEvent::PreparedSpell { name: text::string_of(t) })
        }
    } else {
        None
    }
}

} // verus!
