//! An ordered chain of named hooks that each line of game text (or of
//! commands) passes through. What a hook is, and how it is run, is the
//! caller's: the chain keeps the order and the names.
use vstd::prelude::*;
use crate::text;

verus! {

/// The entries of `e` whose name is not `x`, in order.
pub open spec fn others<H>(e: Seq<(Seq<char>, H)>, x: Seq<char>) -> Seq<(Seq<char>, H)> {
    e.filter(|p: (Seq<char>, H)| p.0 != x)
}

/// No name occurs twice.
pub open spec fn distinct_names<H>(e: Seq<(Seq<char>, H)>) -> bool {
    forall|i: int, j: int| 0 <= i < j < e.len() ==> e[i].0 != e[j].0
}

pub open spec fn entries_of<H>(v: Seq<(String, H)>) -> Seq<(Seq<char>, H)> {
    v.map_values(|p: (String, H)| (p.0@, p.1))
}

/// The hooks in the order they run, each under its name.
pub struct HookChain<H> {
    hooks: Vec<(String, H)>,
}

impl<H> HookChain<H> {
    /// The hooks with their names, in the order they run.
    pub closed spec fn entries(&self) -> Seq<(Seq<char>, H)> {
        entries_of(self.hooks@)
    }

    pub fn new() -> (r: Self)
        ensures
            r.entries() == Seq::<(Seq<char>, H)>::empty(),
    {
        let r = HookChain { hooks: Vec::new() };
        assert(r.entries() =~= Seq::<(Seq<char>, H)>::empty());
        r
    }

    /// Takes out the hook named `name`, if any; the others keep their
    /// order.
    pub fn remove(&mut self, name: &str)
        ensures
            final(self).entries() == others(old(self).entries(), name@),
    {
        let ghost all = self.entries();
        let mut kept: Vec<(String, H)> = Vec::new();
        let mut rest: Vec<(String, H)> = Vec::new();
        std::mem::swap(&mut rest, &mut self.hooks);
        let total: usize = rest.len();
        let mut idx: usize = 0;
        assert(entries_of(kept@) =~= others(all.take(0), name@)) by {
            reveal(Seq::filter);
        }
        while rest.len() > 0
            invariant
                all.len() == total,
                idx + rest@.len() == total,
                entries_of(rest@) == all.skip(idx as int),
                entries_of(kept@) == others(all.take(idx as int), name@),
            decreases rest@.len(),
        {
            let ghost r0 = rest@;
            let (n, h) = rest.remove(0);
            let ghost prev = kept@;
            assert(entries_of(r0)[0] == all[idx as int]);
            assert(all.take(idx + 1) =~= all.take(idx as int).push((n@, h)));
            assert(all.take(idx + 1).drop_last() =~= all.take(idx as int));
            if text::str_eq(n.as_str(), name) {
                assert(others(all.take(idx + 1), name@) =~= others(all.take(idx as int), name@)) by {
                    reveal(Seq::filter);
                }
            } else {
                kept.push((n, h));
                assert(entries_of(kept@) =~= entries_of(prev).push(all[idx as int]));
                assert(others(all.take(idx + 1), name@) =~= others(all.take(idx as int), name@).push(all[idx as int])) by {
                    reveal(Seq::filter);
                }
            }
            assert(rest@ =~= r0.subrange(1, r0.len() as int));
            assert forall|k: int| 0 <= k < rest@.len() implies #[trigger] entries_of(rest@)[k] == all.skip(idx + 1)[k] by {
                assert(entries_of(r0)[k + 1] == all.skip(idx as int)[k + 1]);
            }
            assert(entries_of(rest@) =~= all.skip(idx + 1));
            idx += 1;
        }
        assert(all.take(idx as int) =~= all);
        self.hooks = kept;
    }

    /// Puts `h` last in the chain under `name`, taking out a hook of that
    /// name first.
    pub fn add(&mut self, name: &str, h: H)
        ensures
            final(self).entries() == others(old(self).entries(), name@).push((name@, h)),
    {
        self.remove(name);
        let ghost before = self.entries();
        self.hooks.push((text::join3(name, "", ""), h));
        proof {
            reveal_strlit("");
        }
        assert(self.entries() =~= before.push((name@, h)));
    }

    /// The names of the hooks, in the order they run.
    pub fn hook_names(&self) -> (r: Vec<String>)
        ensures
            r@.map_values(|s: String| s@) == self.entries().map_values(|p: (Seq<char>, H)| p.0),
    {
        let ghost names = self.entries().map_values(|p: (Seq<char>, H)| p.0);
        let mut out: Vec<String> = Vec::new();
        let mut i: usize = 0;
        while i < self.hooks.len()
            invariant
                i <= self.hooks.len(),
                names == self.entries().map_values(|p: (Seq<char>, H)| p.0),
                out@.map_values(|s: String| s@) == names.take(i as int),
            decreases self.hooks.len() - i,
        {
            let ghost prev = out@;
            let nm = text::join3(self.hooks[i].0.as_str(), "", "");
            proof {
                reveal_strlit("");
            }
            assert(nm@ == names[i as int]);
            out.push(nm);
            assert(out@.map_values(|s: String| s@) =~= prev.map_values(|s: String| s@).push(nm@));
            assert(names.take(i + 1) =~= names.take(i as int).push(nm@));
            i += 1;
        }
        assert(names.take(i as int) =~= names);
        out
    }

    /// The number of hooks.
    pub fn len(&self) -> (r: usize)
        ensures
            r == self.entries().len(),
    {
        self.hooks.len()
    }

    /// The hook at position `i`, with its name.
    pub fn entry(&self, i: usize) -> (r: (&str, &H))
        requires
            i < self.entries().len(),
        ensures
            (r.0@, *r.1) == self.entries()[i as int],
    {
        (self.hooks[i].0.as_str(), &self.hooks[i].1)
    }
}

/// Adding under a name leaves exactly one hook of that name, and no name
/// twice when there was none twice before.
pub proof fn lemma_add_keeps_names_distinct<H>(e: Seq<(Seq<char>, H)>, x: Seq<char>, h: H)
    requires
        distinct_names(e),
    ensures
        distinct_names(others(e, x).push((x, h))),
{
    lemma_others_sub(e, x);
    let o = others(e, x);
    let r = o.push((x, h));
    assert forall|i: int, j: int| 0 <= i < j < r.len() implies r[i].0 != r[j].0 by {
        if j == r.len() - 1 {
            assert(r[i] == o[i]);
        } else {
            lemma_others_order(e, x, i, j);
        }
    }
}

proof fn lemma_others_sub<H>(e: Seq<(Seq<char>, H)>, x: Seq<char>)
    ensures
        forall|i: int| 0 <= i < others(e, x).len() ==> (#[trigger] others(e, x)[i]).0 != x,
    decreases e.len(),
{
    reveal(Seq::filter);
    if e.len() > 0 {
        lemma_others_sub(e.drop_last(), x);
    }
}

/// Two entries left by `others` come from two entries of `e`, in the same
/// order.
proof fn lemma_others_order<H>(e: Seq<(Seq<char>, H)>, x: Seq<char>, i: int, j: int)
    requires
        distinct_names(e),
        0 <= i < j < others(e, x).len(),
    ensures
        others(e, x)[i].0 != others(e, x)[j].0,
    decreases e.len(),
{
    reveal(Seq::filter);
    lemma_others_index(e, x, i);
    lemma_others_index(e, x, j);
    let o = others(e, x);
    let a = choose|a: int| 0 <= a < e.len() && e[a] == o[i] && lemma_others_pos(e, x, i, a);
    let b = choose|b: int| 0 <= b < e.len() && e[b] == o[j] && lemma_others_pos(e, x, j, b);
    lemma_others_mono(e, x, i, j, a, b);
}

pub open spec fn lemma_others_pos<H>(e: Seq<(Seq<char>, H)>, x: Seq<char>, i: int, a: int) -> bool {
    others(e.take(a), x).len() == i
}

proof fn lemma_others_index<H>(e: Seq<(Seq<char>, H)>, x: Seq<char>, i: int)
    requires
        0 <= i < others(e, x).len(),
    ensures
        exists|a: int| 0 <= a < e.len() && e[a] == others(e, x)[i] && lemma_others_pos(e, x, i, a),
    decreases e.len(),
{
    reveal(Seq::filter);
    let d = e.drop_last();
    assert(e.take(e.len() - 1) =~= d);
    if i < others(d, x).len() {
        lemma_others_index(d, x, i);
        let a = choose|a: int| 0 <= a < d.len() && d[a] == others(d, x)[i] && lemma_others_pos(d, x, i, a);
        assert(d.take(a) =~= e.take(a));
        if e.last().0 != x {
            assert(others(e, x) == others(d, x).push(e.last()));
        } else {
            assert(others(e, x) == others(d, x));
        }
        assert(e[a] == others(e, x)[i]);
        assert(lemma_others_pos(e, x, i, a));
    } else {
        assert(e.last().0 != x);
        assert(others(e, x) == others(d, x).push(e.last()));
        assert(e[e.len() - 1] == others(e, x)[i]);
        assert(lemma_others_pos(e, x, i, e.len() - 1));
    }
}

proof fn lemma_others_mono<H>(e: Seq<(Seq<char>, H)>, x: Seq<char>, i: int, j: int, a: int, b: int)
    requires
        distinct_names(e),
        0 <= i < j < others(e, x).len(),
        0 <= a < e.len(),
        0 <= b < e.len(),
        e[a] == others(e, x)[i],
        e[b] == others(e, x)[j],
        lemma_others_pos(e, x, i, a),
        lemma_others_pos(e, x, j, b),
    ensures
        others(e, x)[i].0 != others(e, x)[j].0,
{
    if a == b {
        assert(false);
    }
}

/// What running one hook on a line gave.
#[derive(Debug, Clone, PartialEq, Eq)]
pub enum HookOutcome {
    /// The hook does not touch the line: it goes on unchanged.
    Keep,
    /// The line goes on as this text.
    Replace(String),
    /// The line is swallowed; no later hook sees it.
    Drop,
    /// The hook failed with this message; processing stops.
    Fail(String),
}

pub enum HookOutcomeV {
    Keep,
    Replace(Seq<char>),
    Drop,
    Fail(Seq<char>),
}

impl View for HookOutcome {
    type V = HookOutcomeV;

    open spec fn view(&self) -> HookOutcomeV {
        match self {
            HookOutcome::Keep => HookOutcomeV::Keep,
            HookOutcome::Replace(s) => HookOutcomeV::Replace(s@),
            HookOutcome::Drop => HookOutcomeV::Drop,
            HookOutcome::Fail(m) => HookOutcomeV::Fail(m@),
        }
    }
}

/// Where a line stands after some hooks: still going as some text, dropped,
/// or failed with a message.
pub enum LineState {
    Going(Seq<char>),
    Dropped,
    Failed(Seq<char>),
}

/// The line after the outcomes `outs`, one per hook in order.
pub open spec fn after_hooks(line: Seq<char>, outs: Seq<HookOutcomeV>) -> LineState
    decreases outs.len(),
{
    if outs.len() == 0 {
        LineState::Going(line)
    } else {
        match after_hooks(line, outs.drop_last()) {
            LineState::Going(cur) => match outs.last() {
                HookOutcomeV::Keep => LineState::Going(cur),
                HookOutcomeV::Replace(t) => LineState::Going(t),
                HookOutcomeV::Drop => LineState::Dropped,
                HookOutcomeV::Fail(m) => LineState::Failed(m),
            },
            other => other,
        }
    }
}

/// `run` can give `out` for the hook `h` on the text `input`.
pub open spec fn hook_gave<H, F: Fn(&H, &str) -> HookOutcome>(run: F, h: H, input: Seq<char>, out: HookOutcomeV) -> bool {
    exists|s: &str, o: HookOutcome| s@ == input && o@ == out && #[trigger] call_ensures(run, (&h, s), o)
}

/// The text that the hook at `k` sees, after the outcomes before it.
pub open spec fn input_at(line: Seq<char>, outs: Seq<HookOutcomeV>, k: int) -> Seq<char> {
    match after_hooks(line, outs.take(k)) {
        LineState::Going(c) => c,
        _ => seq![],
    }
}

/// The outcomes `outs` are what `run` gave, hook by hook, each on the text
/// the earlier ones left.
pub open spec fn ran<H, F: Fn(&H, &str) -> HookOutcome>(
    run: F,
    e: Seq<(Seq<char>, H)>,
    line: Seq<char>,
    outs: Seq<HookOutcomeV>,
) -> bool {
    &&& outs.len() <= e.len()
    &&& forall|k: int| #![trigger outs[k]] 0 <= k < outs.len() ==> {
        &&& after_hooks(line, outs.take(k)) is Going
        &&& hook_gave(run, e[k].1, input_at(line, outs, k), outs[k])
    }
}

proof fn lemma_ran_push<H, F: Fn(&H, &str) -> HookOutcome>(
    run: F,
    e: Seq<(Seq<char>, H)>,
    line: Seq<char>,
    prev: Seq<HookOutcomeV>,
    cur: Seq<char>,
    s: &str,
    o: HookOutcome,
)
    requires
        ran(run, e, line, prev),
        prev.len() < e.len(),
        after_hooks(line, prev) == LineState::Going(cur),
        s@ == cur,
        call_ensures(run, (&e[prev.len() as int].1, s), o),
    ensures
        ran(run, e, line, prev.push(o@)),
        after_hooks(line, prev.push(o@)) == match o@ {
            HookOutcomeV::Keep => LineState::Going(cur),
            HookOutcomeV::Replace(t) => LineState::Going(t),
            HookOutcomeV::Drop => LineState::Dropped,
            HookOutcomeV::Fail(m) => LineState::Failed(m),
        },
{
    let outs = prev.push(o@);
    assert(outs.drop_last() =~= prev);
    assert forall|k: int| #![trigger outs[k]] 0 <= k < outs.len() implies {
        &&& after_hooks(line, outs.take(k)) is Going
        &&& hook_gave(run, e[k].1, input_at(line, outs, k), outs[k])
    } by {
        if k < prev.len() {
            assert(outs.take(k) =~= prev.take(k));
            assert(outs[k] == prev[k]);
        } else {
            assert(outs.take(k) =~= prev);
            assert(input_at(line, outs, k) == cur);
            assert(outs[k] == o@);
            assert(call_ensures(run, (&e[k].1, s), o));
        }
    }
}

impl<H> HookChain<H> {
    /// Passes `line` through the hooks in order, `run` running each on the
    /// text the earlier ones left, until one drops the line or fails. The
    /// result is the text that comes out, `None` when a hook dropped it, or
    /// the message of the hook that failed.
    pub fn process<F: Fn(&H, &str) -> HookOutcome>(&self, line: &str, run: F) -> (r: Result<Option<String>, String>)
        requires
            forall|h: &H, s: &str| call_requires(run, (h, s)),
        ensures
            exists|outs: Seq<HookOutcomeV>| #![trigger after_hooks(line@, outs)] {
                &&& ran(run, self.entries(), line@, outs)
                &&& match r {
                    Ok(Some(t)) => outs.len() == self.entries().len() && after_hooks(line@, outs) == LineState::Going(t@),
                    Ok(None) => after_hooks(line@, outs) == LineState::Dropped,
                    Err(m) => after_hooks(line@, outs) == LineState::Failed(m@),
                }
            },
    {
        let ghost e = self.entries();
        let ghost mut outs: Seq<HookOutcomeV> = Seq::empty();
        let mut current = text::join3(line, "", "");
        proof {
            reveal_strlit("");
        }
        let mut i: usize = 0;
        while i < self.hooks.len()
            invariant
                i <= self.hooks.len(),
                e == self.entries(),
                e.len() == self.hooks@.len(),
                forall|h: &H, s: &str| call_requires(run, (h, s)),
                outs.len() == i,
                ran(run, e, line@, outs),
                after_hooks(line@, outs) == LineState::Going(current@),
            decreases self.hooks.len() - i,
        {
            let cs: &str = current.as_str();
            let o = run(&self.hooks[i].1, cs);
            let ghost prev = outs;
            proof {
                assert(e[i as int].1 == self.hooks@[i as int].1);
                lemma_ran_push(run, e, line@, prev, current@, cs, o);
                outs = outs.push(o@);
            }
            match o {
                HookOutcome::Keep => {},
                HookOutcome::Replace(t) => {
                    current = t;
                },
                HookOutcome::Drop => {
                    assert(after_hooks(line@, outs) == LineState::Dropped);
                    return Ok(None);
                },
                HookOutcome::Fail(m) => {
                    assert(after_hooks(line@, outs) == LineState::Failed(m@));
                    return Err(m);
                },
            }
            i += 1;
        }
        Ok(Some(current))
    }
}

} // verus!
