//! Version strings as scripts write them (`1.0`, `2`, `1.2.3-beta`) and
//! constraints on them (`>= 1.0, < 2.0`): filling in the missing numbers,
//! and handing the result to the semver crate to parse, order and match.
use vstd::prelude::*;
use crate::text;
use crate::text::{find_char, find_char_from, opt_int, split_char, trim, views};

verus! {

// ── What the semver crate decides ───────────────────────────────────────────

/// What `semver::Version::parse` makes of `text`: major, minor, patch and
/// pre-release, or the error's message.
pub uninterp spec fn semver_version(text: Seq<char>) -> Result<(u64, u64, u64, Seq<char>), Seq<char>>;

/// The order of two versions that parse: -1, 0 or 1 as `a` comes before,
/// equals or comes after `b`.
pub uninterp spec fn semver_order(a: Seq<char>, b: Seq<char>) -> i8;

/// What `semver::VersionReq::parse` makes of `text`: accepted, or the
/// error's message.
pub uninterp spec fn semver_req(text: Seq<char>) -> Result<(), Seq<char>>;

/// Whether the version `ver` meets the requirement `req` (both parse).
pub uninterp spec fn semver_matches(req: Seq<char>, ver: Seq<char>) -> bool;

/// `semver::Version::parse`, with the parts of the version (the
/// pre-release as written) or the error's text.
#[verifier::external_body]
fn parse_version_text(text: &str) -> (r: Result<(u64, u64, u64, String), String>)
    ensures
        match r {
            Ok(p) => semver_version(text@) == Ok::<(u64, u64, u64, Seq<char>), Seq<char>>((p.0, p.1, p.2, p.3@)),
            Err(m) => semver_version(text@) == Err::<(u64, u64, u64, Seq<char>), Seq<char>>(m@),
        },
{
    match semver::Version::parse(text) {
        Ok(v) => Ok((v.major, v.minor, v.patch, v.pre.as_str().to_string())),
        Err(e) => Err(e.to_string()),
    }
}

/// The `Ord` of `semver::Version` on the two parsed versions (major,
/// minor, patch, pre-release, then build metadata), as -1, 0 or 1.
#[verifier::external_body]
fn order_version_texts(a: &str, b: &str) -> (r: i8)
    requires
        semver_version(a@) is Ok,
        semver_version(b@) is Ok,
    ensures
        r == semver_order(a@, b@),
        -1 <= r <= 1,
{
    match semver::Version::parse(a).unwrap().cmp(&semver::Version::parse(b).unwrap()) {
        std::cmp::Ordering::Less => -1,
        std::cmp::Ordering::Equal => 0,
        std::cmp::Ordering::Greater => 1,
    }
}

/// `semver::VersionReq::parse`: accepted, or the error's text.
#[verifier::external_body]
fn check_requirement_text(text: &str) -> (r: Result<(), String>)
    ensures
        match r {
            Ok(()) => semver_req(text@) == Ok::<(), Seq<char>>(()),
            Err(m) => semver_req(text@) == Err::<(), Seq<char>>(m@),
        },
{
    match semver::VersionReq::parse(text) {
        Ok(_) => Ok(()),
        Err(e) => Err(e.to_string()),
    }
}

/// `semver::VersionReq::matches` on the parsed requirement and version.
#[verifier::external_body]
fn requirement_matches_text(req: &str, ver: &str) -> (r: bool)
    requires
        semver_req(req@) is Ok,
        semver_version(ver@) is Ok,
    ensures
        r == semver_matches(req@, ver@),
{
    semver::VersionReq::parse(req).unwrap().matches(&semver::Version::parse(ver).unwrap())
}

// ── Filling in missing numbers ──────────────────────────────────────────────

/// The part of `s` before its first `-` (all of it when there is none).
pub open spec fn head_len(s: Seq<char>) -> int {
    match find_char(s, '-') {
        Some(i) => i,
        None => s.len() as int,
    }
}

/// `head` with `.0` added until it has three numbers (when it has one or
/// two); with more dots it is left alone.
pub open spec fn three_parts(head: Seq<char>) -> Seq<char> {
    match find_char(head, '.') {
        None => head + ".0.0"@,
        Some(i) => match find_char_from(head, '.', i + 1) {
            None => head + ".0"@,
            Some(_) => head,
        },
    }
}

/// `s` with its version numbers filled in to three: `1.0` → `1.0.0`,
/// `2` → `2.0.0`, `1.2-beta` → `1.2.0-beta`.
pub open spec fn normalized_version(s: Seq<char>) -> Seq<char> {
    three_parts(s.take(head_len(s))) + s.skip(head_len(s))
}

/// `s` with its version numbers filled in to three.
pub fn normalize_version(s: &str) -> (r: String)
    ensures
        r@ == normalized_version(s@),
{
    proof {
        reveal_strlit(".0.0");
        reveal_strlit(".0");
    }
    let c = text::chars_of(s);
    proof {
        text::lemma_find_char_from(c@, '-', 0);
    }
    let h = match text::find_char_at(&c, '-', 0) {
        Some(i) => i,
        None => c.len(),
    };
    let mut out = text::slice_of(&c, 0, h);
    let head = text::slice_of(&c, 0, h);
    assert(head@ =~= s@.take(head_len(s@)));
    proof {
        text::lemma_find_char_from(head@, '.', 0);
    }
    match text::find_char_at(&head, '.', 0) {
        None => text::push_str(&mut out, ".0.0"),
        Some(i) => {
            proof {
                text::lemma_find_char_from(head@, '.', i + 1);
            }
            if text::find_char_at(&head, '.', i + 1).is_none() {
                text::push_str(&mut out, ".0");
            }
        },
    }
    let tail = text::slice_of(&c, h, c.len());
    assert(tail@ =~= s@.skip(head_len(s@)));
    text::push_all(&mut out, &tail);
    text::string_of(&out)
}

/// The first ASCII digit of `s`.
pub open spec fn first_digit_from(s: Seq<char>, i: int) -> Option<int>
    decreases s.len() - i,
{
    if i < 0 || i >= s.len() {
        None
    } else if text::is_digit(s[i]) {
        Some(i)
    } else {
        first_digit_from(s, i + 1)
    }
}

fn first_digit(s: &[char]) -> (r: Option<usize>)
    ensures
        opt_int(r) == first_digit_from(s@, 0),
        r matches Some(k) ==> k < s.len(),
{
    let mut i: usize = 0;
    while i < s.len()
        invariant
            i <= s.len(),
            first_digit_from(s@, 0) == first_digit_from(s@, i as int),
        decreases s.len() - i,
    {
        if '0' <= s[i] && s[i] <= '9' {
            return Some(i);
        }
        i += 1;
    }
    None
}

/// One comparator of a constraint, trimmed, with the version after its
/// operator filled in (`>= 1.0` → `>= 1.0.0`); left as it is when it holds
/// no digit.
pub open spec fn normalized_comparator(p: Seq<char>) -> Seq<char> {
    let t = trim(p);
    match first_digit_from(t, 0) {
        Some(pos) => t.take(pos) + normalized_version(trim(t.skip(pos))),
        None => t,
    }
}

/// The pieces `ps`, each normalized, joined with `, `.
pub open spec fn joined_comparators(ps: Seq<Seq<char>>) -> Seq<char>
    decreases ps.len(),
{
    if ps.len() == 0 {
        seq![]
    } else if ps.len() == 1 {
        normalized_comparator(ps[0])
    } else {
        joined_comparators(ps.drop_last()) + ", "@ + normalized_comparator(ps.last())
    }
}

/// A constraint such as `>= 1.0, < 2` with each comparator's version
/// filled in to three numbers: `>= 1.0.0, < 2.0.0`.
pub open spec fn normalized_constraint(s: Seq<char>) -> Seq<char> {
    joined_comparators(split_char(s, ','))
}

fn normalize_comparator(p: &[char]) -> (r: Vec<char>)
    ensures
        r@ == normalized_comparator(p@),
{
    let t = text::trim_exec(p);
    match first_digit(&t) {
        Some(pos) => {
            let mut out = text::slice_of(&t, 0, pos);
            let ver = text::trim_exec(&text::slice_of(&t, pos, t.len()));
            assert(t@.subrange(pos as int, t@.len() as int) =~= t@.skip(pos as int));
            let v = normalize_version(text::string_of(&ver).as_str());
            text::push_str(&mut out, v.as_str());
            out
        },
        None => t,
    }
}

/// A constraint with each comparator's version filled in to three numbers.
pub fn normalize_constraint(s: &str) -> (r: String)
    ensures
        r@ == normalized_constraint(s@),
{
    proof {
        reveal_strlit(", ");
    }
    let c = text::chars_of(s);
    let parts = text::split_char_exec(&c, ',');
    let ghost ps = views(parts@);
    let mut out = normalize_comparator(&parts[0]);
    let mut i: usize = 1;
    assert(ps.take(1).drop_last() =~= seq![]);
    while i < parts.len()
        invariant
            1 <= i <= parts.len(),
            ps == views(parts@),
            out@ == joined_comparators(ps.take(i as int)),
        decreases parts.len() - i,
    {
        text::push_str(&mut out, ", ");
        let n = normalize_comparator(&parts[i]);
        text::push_all(&mut out, &n);
        assert(ps.take(i + 1).drop_last() =~= ps.take(i as int));
        assert(ps.take(i + 1).last() == ps[i as int]);
        i += 1;
    }
    assert(ps.take(i as int) =~= ps);
    text::string_of(&out)
}

// ── What scripts ask ────────────────────────────────────────────────────────

/// A parsed version: its three numbers, and its pre-release when it has
/// one.
#[derive(Debug, Clone, PartialEq, Eq)]
pub struct VersionInfo {
    pub major: u64,
    pub minor: u64,
    pub patch: u64,
    pub pre: Option<String>,
}

/// A version or a constraint that does not parse, with the text as given
/// and the parser's reason.
#[derive(Debug, Clone, PartialEq, Eq)]
pub enum VersionError {
    InvalidVersion { text: String, reason: String },
    InvalidConstraint { text: String, reason: String },
}

pub enum VersionErrorV {
    InvalidVersion { text: Seq<char>, reason: Seq<char> },
    InvalidConstraint { text: Seq<char>, reason: Seq<char> },
}

impl View for VersionError {
    type V = VersionErrorV;

    open spec fn view(&self) -> VersionErrorV {
        match self {
            VersionError::InvalidVersion { text, reason } => VersionErrorV::InvalidVersion { text: text@, reason: reason@ },
            VersionError::InvalidConstraint { text, reason } => VersionErrorV::InvalidConstraint {
                text: text@,
                reason: reason@,
            },
        }
    }
}

impl VersionError {
    /// `invalid version '<text>': <reason>` or `invalid constraint '<text>':
    /// <reason>`.
    pub fn message(&self) -> (r: String)
        ensures
            r@ == match self@ {
                VersionErrorV::InvalidVersion { text, reason } => "invalid version '"@ + text + "': "@ + reason,
                VersionErrorV::InvalidConstraint { text, reason } => "invalid constraint '"@ + text + "': "@ + reason,
            },
    {
        let (lead, text, reason) = match self {
            VersionError::InvalidVersion { text, reason } => ("invalid version '", text, reason),
            VersionError::InvalidConstraint { text, reason } => ("invalid constraint '", text, reason),
        };
        proof {
            reveal_strlit("");
        }
        let head = text::join3(lead, text.as_str(), "': ");
        let r = text::join3(head.as_str(), reason.as_str(), "");
        assert(r@ =~= lead@ + text@ + "': "@ + reason@);
        r
    }
}

/// What parsing `s` (its numbers filled in) gives a script.
pub open spec fn parsed_version(s: Seq<char>) -> Result<(u64, u64, u64, Seq<char>), VersionErrorV> {
    match semver_version(normalized_version(s)) {
        Ok(p) => Ok(p),
        Err(m) => Err(VersionErrorV::InvalidVersion { text: s, reason: m }),
    }
}

pub open spec fn version_error_view<T>(r: Result<T, VersionError>) -> Option<VersionErrorV> {
    match r {
        Ok(_) => None,
        Err(e) => Some(e@),
    }
}

fn parse_normalized(s: &str) -> (r: Result<((u64, u64, u64, String), String), VersionError>)
    ensures
        match r {
            Ok(x) => x.1@ == normalized_version(s@) && parsed_version(s@) == Ok::<
                (u64, u64, u64, Seq<char>),
                VersionErrorV,
            >((x.0.0, x.0.1, x.0.2, x.0.3@)),
            Err(e) => parsed_version(s@) == Err::<(u64, u64, u64, Seq<char>), VersionErrorV>(e@),
        },
{
    proof {
        reveal_strlit("");
    }
    let n = normalize_version(s);
    match parse_version_text(n.as_str()) {
        Ok(p) => Ok((p, n)),
        Err(m) => Err(VersionError::InvalidVersion { text: text::join3(s, "", ""), reason: m }),
    }
}

/// The version `s`, its numbers filled in to three before parsing.
pub fn version_parse(s: &str) -> (r: Result<VersionInfo, VersionError>)
    ensures
        match parsed_version(s@) {
            Ok(p) => r matches Ok(v) && v.major == p.0 && v.minor == p.1 && v.patch == p.2 && match v.pre {
                Some(t) => p.3.len() > 0 && t@ == p.3,
                None => p.3.len() == 0,
            },
            Err(e) => r matches Err(x) && x@ == e,
        },
{
    proof {
        reveal_strlit("");
    }
    match parse_normalized(s) {
        Ok((p, _)) => {
            let pre = if p.3.as_str().as_bytes().len() == 0 {
                None
            } else {
                Some(p.3)
            };
            Ok(VersionInfo { major: p.0, minor: p.1, patch: p.2, pre })
        },
        Err(e) => Err(e),
    }
}

/// How `a` and `b` (numbers filled in) are ordered: -1, 0 or 1. A version
/// that does not parse is an error, `a` checked first.
pub fn version_compare(a: &str, b: &str) -> (r: Result<i8, VersionError>)
    ensures
        match (parsed_version(a@), parsed_version(b@)) {
            (Err(e), _) => r matches Err(x) && x@ == e,
            (Ok(_), Err(e)) => r matches Err(x) && x@ == e,
            (Ok(_), Ok(_)) => r == Ok::<i8, VersionError>(
                semver_order(normalized_version(a@), normalized_version(b@)),
            ),
        },
{
    let na = match parse_normalized(a) {
        Ok((_, n)) => n,
        Err(e) => return Err(e),
    };
    let nb = match parse_normalized(b) {
        Ok((_, n)) => n,
        Err(e) => return Err(e),
    };
    Ok(order_version_texts(na.as_str(), nb.as_str()))
}

/// Whether `version` meets `constraint`, both with their numbers filled
/// in. The version is checked first, then the constraint.
pub fn version_satisfies(version: &str, constraint: &str) -> (r: Result<bool, VersionError>)
    ensures
        match parsed_version(version@) {
            Err(e) => r matches Err(x) && x@ == e,
            Ok(_) => match semver_req(normalized_constraint(constraint@)) {
                Err(m) => r matches Err(x) && x@ == VersionErrorV::InvalidConstraint { text: constraint@, reason: m },
                Ok(()) => r == Ok::<bool, VersionError>(
                    semver_matches(normalized_constraint(constraint@), normalized_version(version@)),
                ),
            },
        },
{
    proof {
        reveal_strlit("");
    }
    let nv = match parse_normalized(version) {
        Ok((_, n)) => n,
        Err(e) => return Err(e),
    };
    let req = normalize_constraint(constraint);
    match check_requirement_text(req.as_str()) {
        Ok(()) => Ok(requirement_matches_text(req.as_str(), nv.as_str())),
        Err(m) => Err(VersionError::InvalidConstraint { text: text::join3(constraint, "", ""), reason: m }),
    }
}

} // verus!
