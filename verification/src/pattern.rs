//! Regular-expression matching, done by the `regex` crate: the pieces of a
//! text between the matches of a pattern and the capture groups of each match.
use vstd::prelude::*;

verus! {

// ── What the regex crate finds ──────────────────────────────────────────────

/// What the `regex` crate finds for `pattern` in `text`: `None` when the
/// pattern does not compile, else the pieces of `text` between the matches
/// (`Regex::split`) and, for each match in order, its capture groups
/// (`Regex::captures_iter`, group 0 being the whole match).
pub uninterp spec fn regex_scan(pattern: Seq<char>, text: Seq<char>) -> Option<(Seq<Seq<char>>, Seq<Seq<Option<Seq<char>>>>)>;

pub open spec fn opt_str_view(o: Option<String>) -> Option<Seq<char>> {
    match o {
        Some(s) => Some(s@),
        None => None,
    }
}

pub open spec fn groups_view(g: Vec<Option<String>>) -> Seq<Option<Seq<char>>> {
    g@.map_values(|o: Option<String>| opt_str_view(o))
}

pub open spec fn scan_view(r: Option<(Vec<String>, Vec<Vec<Option<String>>>)>) -> Option<(Seq<Seq<char>>, Seq<Seq<Option<Seq<char>>>>)> {
    match r {
        Some((p, c)) => Some(
            (p@.map_values(|s: String| s@), c@.map_values(|g: Vec<Option<String>>| groups_view(g))),
        ),
        None => None,
    }
}

/// The text of group `k`, empty when the group did not take part in the match.
pub open spec fn group(g: Seq<Option<Seq<char>>>, k: int) -> Seq<char> {
    if 0 <= k < g.len() && g[k] is Some {
        g[k]->0
    } else {
        seq![]
    }
}

/// `pieces[0] + reps[0] + pieces[1] + ... + reps[n-1] + pieces[n]`.
pub open spec fn weave(pieces: Seq<Seq<char>>, reps: Seq<Seq<char>>, n: int) -> Seq<char>
    decreases n,
{
    if n <= 0 {
        pieces[0]
    } else {
        weave(pieces, reps, n - 1) + reps[n - 1] + pieces[n]
    }
}

/// What the regex documentation promises of a successful scan: one more
/// piece than matches, group 0 present in every match, and the pieces and
/// whole matches, taken in turn, spelling `text` again.
pub open spec fn scan_facts(text: Seq<char>, s: Option<(Seq<Seq<char>>, Seq<Seq<Option<Seq<char>>>>)>) -> bool {
    match s {
        Some((pieces, caps)) => {
            &&& pieces.len() == caps.len() + 1
            &&& forall|i: int| 0 <= i < caps.len() ==> caps[i].len() > 0 && (#[trigger] caps[i])[0] is Some
            &&& text == weave(pieces, caps.map_values(|g: Seq<Option<Seq<char>>>| group(g, 0)), caps.len() as int)
        },
        None => true,
    }
}

/// Compiles `pattern` with `regex::Regex::new` and collects, for `text`, the
/// pieces between matches (`Regex::split`) and the capture groups of each
/// match (`Regex::captures_iter`). The result is the named `regex_scan`;
/// beyond that it is claimed only that the split has one more piece than
/// there are matches, that group 0 is present in each match, and that pieces
/// and matches interleave to give `text` back.
#[verifier::external_body]
pub(crate) fn scan(pattern: &str, text: &str) -> (r: Option<(Vec<String>, Vec<Vec<Option<String>>>)>)
    ensures
        scan_view(r) == regex_scan(pattern@, text@),
        scan_facts(text@, scan_view(r)),
{
    match regex::Regex::new(pattern) {
        Ok(re) => {
            let pieces: Vec<String> = re.split(text).map(|s| s.to_string()).collect();
            let caps: Vec<Vec<Option<String>>> = re.captures_iter(text).map(
                |c| c.iter().map(|m| m.map(|m| m.as_str().to_string())).collect(),
            ).collect();
            Some((pieces, caps))
        },
        Err(_) => None,
    }
}

/// The capture groups of the first match of `pattern` in `text`, if any.
pub open spec fn first_match(pattern: Seq<char>, text: Seq<char>) -> Option<Seq<Option<Seq<char>>>> {
    match regex_scan(pattern, text) {
        Some((_, caps)) => if caps.len() > 0 {
            Some(caps[0])
        } else {
            None
        },
        None => None,
    }
}

/// The first match of `pattern` in `text` (`Regex::captures`).
pub fn captures(pattern: &str, text: &str) -> (r: Option<Vec<Option<String>>>)
    ensures
        match r {
            Some(g) => first_match(pattern@, text@) == Some(groups_view(g)),
            None => first_match(pattern@, text@) is None,
        },
{
    match scan(pattern, text) {
        Some((_, mut caps)) => {
            if caps.len() > 0 {
                let ghost cv = caps@;
                let g = caps.remove(0);
                assert(groups_view(g) == groups_view(cv[0]));
                Some(g)
            } else {
                None
            }
        },
        None => None,
    }
}

/// Whether `pattern` matches somewhere in `text` (`Regex::is_match`).
pub fn is_match(pattern: &str, text: &str) -> (r: bool)
    ensures
        r == (first_match(pattern@, text@) is Some),
{
    captures(pattern, text).is_some()
}

/// The text of group `k` of a match, empty when it took no part.
pub fn group_text(g: &Vec<Option<String>>, k: usize) -> (r: Vec<char>)
    ensures
        r@ == group(groups_view(*g), k as int),
{
    if k < g.len() {
        match &g[k] {
            Some(s) => crate::text::chars_of(s.as_str()),
            None => Vec::new(),
        }
    } else {
        Vec::new()
    }
}

/// Whether group `k` took part in the match.
pub open spec fn has_group(g: Seq<Option<Seq<char>>>, k: int) -> bool {
    0 <= k < g.len() && g[k] is Some
}

pub fn group_present(g: &Vec<Option<String>>, k: usize) -> (r: bool)
    ensures
        r == has_group(groups_view(*g), k as int),
{
    k < g.len() && g[k].is_some()
}

} // verus!
