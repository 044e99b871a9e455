//! Client command handling: which lines are `;` script commands, what they
//! ask for, and how script names and arguments are resolved.
use vstd::prelude::*;
use crate::text;
use crate::game_state::Game;

verus! {

/// What happens to a line typed by the client.
pub enum DispatchResult {
    /// Sent on to the game server unchanged.
    Forward(String),
    /// Handled by the proxy.
    Consumed,
}

// ── Argument splitting ──────────────────────────────────────────────────────

/// Tokens found so far, the token being read, and whether a quote is open.
pub type ArgState = (Seq<Seq<char>>, Seq<char>, bool);

/// One character of argument splitting: a double quote toggles quoting and
/// is dropped, a space or tab outside quotes ends the current token, any
/// other character is added to it.
pub open spec fn args_step(st: ArgState, ch: char) -> ArgState {
    if ch == '"' {
        (st.0, st.1, !st.2)
    } else if (ch == ' ' || ch == '\t') && !st.2 {
        if st.1.len() > 0 {
            (st.0.push(st.1), seq![], st.2)
        } else {
            st
        }
    } else {
        (st.0, st.1.push(ch), st.2)
    }
}

/// The state after the first `n` characters of `s`.
pub open spec fn args_scan(s: Seq<char>, n: int) -> ArgState
    decreases n,
{
    if n <= 0 {
        (seq![], seq![], false)
    } else {
        args_step(args_scan(s, n - 1), s[n - 1])
    }
}

/// Script arguments: nothing for an empty string, else the whole string
/// followed by its tokens.
pub open spec fn parse_args_spec(s: Seq<char>) -> Seq<Seq<char>> {
    if s.len() == 0 {
        seq![]
    } else {
        let st = args_scan(s, s.len() as int);
        let last = if st.1.len() > 0 {
            seq![st.1]
        } else {
            seq![]
        };
        seq![s] + st.0 + last
    }
}

pub open spec fn string_views(v: Seq<String>) -> Seq<Seq<char>> {
    v.map_values(|s: String| s@)
}

/// Parse script arguments: index 0 = full string, index 1 = first token, etc.
/// Handles double-quoted strings as single tokens (quotes stripped from value).
pub fn parse_args(rest: &str) -> (r: Vec<String>)
    ensures
        string_views(r@) == parse_args_spec(rest@),
{
    let s = text::chars_of(rest);
    if s.len() == 0 {
        let r: Vec<String> = Vec::new();
        assert(string_views(r@) =~= seq![]);
        return r;
    }
    let mut toks: Vec<Vec<char>> = Vec::new();
    let mut cur: Vec<char> = Vec::new();
    let mut in_quotes = false;
    let mut i: usize = 0;
    while i < s.len()
        invariant
            i <= s.len(),
            (text::views(toks@), cur@, in_quotes) == args_scan(s@, i as int),
        decreases s.len() - i,
    {
        let ch = s[i];
        if ch == '"' {
            in_quotes = !in_quotes;
        } else if (ch == ' ' || ch == '\t') && !in_quotes {
            if cur.len() > 0 {
                let ghost before = toks@;
                toks.push(cur);
                assert(text::views(toks@) =~= text::views(before).push(cur@));
                cur = Vec::new();
            }
        } else {
            cur.push(ch);
        }
        i += 1;
    }
    if cur.len() > 0 {
        let ghost before = toks@;
        toks.push(cur);
        assert(text::views(toks@) =~= text::views(before).push(cur@));
    }
    let mut r: Vec<String> = Vec::new();
    r.push(rest.to_owned());
    let mut k: usize = 0;
    while k < toks.len()
        invariant
            k <= toks.len(),
            string_views(r@) == seq![rest@] + text::views(toks@).take(k as int),
        decreases toks.len() - k,
    {
        let ghost before = r@;
        r.push(text::string_of(&toks[k]));
        assert(string_views(r@) =~= string_views(before).push(toks@[k as int]@));
        assert(text::views(toks@).take(k + 1) =~= text::views(toks@).take(k as int).push(
            toks@[k as int]@,
        ));
        k += 1;
    }
    assert(text::views(toks@).take(toks.len() as int) =~= text::views(toks@));
    r
}

// ── Commands ────────────────────────────────────────────────────────────────

/// What a client line asks of the proxy.
pub enum Command {
    /// Not a `;` command: the line goes to the game as it came.
    Forward,
    /// `;k` / `;kill`, with no name or `all`.
    KillAll,
    Kill(String),
    /// `;p` / `;pause`.
    PauseAll,
    Pause(String),
    /// `;u` / `;unpause`.
    UnpauseAll,
    Unpause(String),
    /// `;l` / `;list`.
    List,
    /// `;e` / `;exec`: run the rest of the line as Lua.
    Exec(String),
    /// `;name args...`: start the script `name`.
    Run { name: String, args: Vec<String> },
}

/// The view of a command: its kind and the text it carries.
pub enum CommandV {
    Forward,
    KillAll,
    Kill(Seq<char>),
    PauseAll,
    Pause(Seq<char>),
    UnpauseAll,
    Unpause(Seq<char>),
    List,
    Exec(Seq<char>),
    Run(Seq<char>, Seq<Seq<char>>),
}

impl View for Command {
    type V = CommandV;

    open spec fn view(&self) -> CommandV {
        match self {
            Command::Forward => CommandV::Forward,
            Command::KillAll => CommandV::KillAll,
            Command::Kill(s) => CommandV::Kill(s@),
            Command::PauseAll => CommandV::PauseAll,
            Command::Pause(s) => CommandV::Pause(s@),
            Command::UnpauseAll => CommandV::UnpauseAll,
            Command::Unpause(s) => CommandV::Unpause(s@),
            Command::List => CommandV::List,
            Command::Exec(s) => CommandV::Exec(s@),
            Command::Run { name, args } => CommandV::Run(name@, string_views(args@)),
        }
    }
}

/// The line without the `<c>` prefix that Stormfront and Wrayth add.
pub open spec fn strip_c(raw: Seq<char>) -> Seq<char> {
    if text::starts_with(raw, "<c>"@) {
        raw.subrange(3, raw.len() as int)
    } else {
        raw
    }
}

/// Index of the first whitespace character at or after `i`.
pub open spec fn first_ws(s: Seq<char>) -> int {
    text::token_end(s, 0)
}

/// The command word after `;` and the trimmed rest of the line.
pub open spec fn cmd_parts(after: Seq<char>) -> (Seq<char>, Seq<char>) {
    let p = first_ws(after);
    if p < after.len() {
        (after.subrange(0, p), text::trim(after.subrange(p + 1, after.len() as int)))
    } else {
        (after, seq![])
    }
}

pub open spec fn is_all(rest: Seq<char>) -> bool {
    rest.len() == 0 || rest == "all"@
}

pub open spec fn command_spec(raw: Seq<char>) -> CommandV {
    let line = strip_c(raw);
    if !text::starts_with(line, ";"@) {
        CommandV::Forward
    } else {
        let (cmd, rest) = cmd_parts(line.subrange(1, line.len() as int));
        if cmd == "k"@ || cmd == "kill"@ {
            if is_all(rest) {
                CommandV::KillAll
            } else {
                CommandV::Kill(rest)
            }
        } else if cmd == "p"@ || cmd == "pause"@ {
            if is_all(rest) {
                CommandV::PauseAll
            } else {
                CommandV::Pause(rest)
            }
        } else if cmd == "u"@ || cmd == "unpause"@ {
            if is_all(rest) {
                CommandV::UnpauseAll
            } else {
                CommandV::Unpause(rest)
            }
        } else if cmd == "l"@ || cmd == "list"@ {
            CommandV::List
        } else if cmd == "e"@ || cmd == "exec"@ {
            CommandV::Exec(rest)
        } else {
            CommandV::Run(cmd, parse_args_spec(rest))
        }
    }
}

fn is_all_exec(rest: &[char]) -> (r: bool)
    ensures
        r == is_all(rest@),
{
    rest.len() == 0 || text::eq_lit(rest, "all")
}

/// What the client line `raw` asks for.
pub fn parse_command(raw: &str) -> (r: Command)
    ensures
        r@ == command_spec(raw@),
{
    proof {
        reveal_strlit("<c>");
    }
    let rc = text::chars_of(raw);
    let line = if text::starts_with_lit(&rc, "<c>") {
        text::slice_of(&rc, 3, rc.len())
    } else {
        rc
    };
    if !text::starts_with_lit(&line, ";") {
        return Command::Forward;
    }
    proof {
        reveal_strlit(";");
    }
    let after = text::slice_of(&line, 1, line.len());
    let mut p: usize = 0;
    while p < after.len() && !text::is_whitespace(after[p])
        invariant
            p <= after.len(),
            text::token_end(after@, 0) == text::token_end(after@, p as int),
        decreases after.len() - p,
    {
        p += 1;
    }
    let (cmd, rest) = if p < after.len() {
        let tail = text::slice_of(&after, p + 1, after.len());
        (text::slice_of(&after, 0, p), text::trim_exec(&tail))
    } else {
        (after, Vec::new())
    };
    if text::eq_lit(&cmd, "k") || text::eq_lit(&cmd, "kill") {
        if is_all_exec(&rest) {
            Command::KillAll
        } else {
            Command::Kill(text::string_of(&rest))
        }
    } else if text::eq_lit(&cmd, "p") || text::eq_lit(&cmd, "pause") {
        if is_all_exec(&rest) {
            Command::PauseAll
        } else {
            Command::Pause(text::string_of(&rest))
        }
    } else if text::eq_lit(&cmd, "u") || text::eq_lit(&cmd, "unpause") {
        if is_all_exec(&rest) {
            Command::UnpauseAll
        } else {
            Command::Unpause(text::string_of(&rest))
        }
    } else if text::eq_lit(&cmd, "l") || text::eq_lit(&cmd, "list") {
        Command::List
    } else if text::eq_lit(&cmd, "e") || text::eq_lit(&cmd, "exec") {
        Command::Exec(text::string_of(&rest))
    } else {
        let rs = text::string_of(&rest);
        Command::Run { name: text::string_of(&cmd), args: parse_args(rs.as_str()) }
    }
}

/// The reply to `;list`: `No scripts running.` or `Running: ` and the
/// names joined by `, `.
pub open spec fn joined(names: Seq<Seq<char>>, n: int) -> Seq<char>
    decreases n,
{
    if n <= 0 {
        seq![]
    } else if n == 1 {
        names[0]
    } else {
        joined(names, n - 1) + ", "@ + names[n - 1]
    }
}

pub open spec fn list_reply_spec(names: Seq<Seq<char>>) -> Seq<char> {
    if names.len() == 0 {
        "No scripts running."@
    } else {
        "Running: "@ + joined(names, names.len() as int)
    }
}

pub fn list_reply(names: &Vec<String>) -> (r: String)
    ensures
        r@ == list_reply_spec(string_views(names@)),
{
    if names.len() == 0 {
        return "No scripts running.".to_owned();
    }
    let ghost nv = string_views(names@);
    let mut out: Vec<char> = Vec::new();
    text::push_str(&mut out, "Running: ");
    text::push_str(&mut out, names[0].as_str());
    let mut i: usize = 1;
    while i < names.len()
        invariant
            1 <= i <= names.len(),
            nv == string_views(names@),
            out@ == "Running: "@ + joined(nv, i as int),
        decreases names.len() - i,
    {
        text::push_str(&mut out, ", ");
        text::push_str(&mut out, names[i].as_str());
        i += 1;
    }
    text::string_of(&out)
}

// ── Script resolution ───────────────────────────────────────────────────────

/// The script directory for a game: `dr` or `gs`.
pub fn game_subdir(g: Game) -> (r: &'static str)
    ensures
        r@ == (if g == Game::DragonRealms {
            "dr"@
        } else {
            "gs"@
        }),
{
    match g {
        Game::DragonRealms => "dr",
        Game::GemStone => "gs",
    }
}

/// The paths tried for a script, in order: `{game}/{name}/init.lua`,
/// `{game}/{name}.lua`, `{name}/init.lua`, `{name}.lua`, all under `dir`.
pub open spec fn candidates_spec(dir: Seq<char>, game: Seq<char>, name: Seq<char>) -> Seq<Seq<char>> {
    seq![
        dir + "/"@ + game + "/"@ + name + "/init.lua"@,
        dir + "/"@ + game + "/"@ + name + ".lua"@,
        dir + "/"@ + name + "/init.lua"@,
        dir + "/"@ + name + ".lua"@,
    ]
}

pub fn script_candidates(scripts_dir: &str, game_sub: &str, name: &str) -> (r: Vec<String>)
    ensures
        string_views(r@) == candidates_spec(scripts_dir@, game_sub@, name@),
{
    let mut a: Vec<char> = Vec::new();
    text::push_str(&mut a, scripts_dir);
    text::push_str(&mut a, "/");
    text::push_str(&mut a, game_sub);
    text::push_str(&mut a, "/");
    text::push_str(&mut a, name);
    let mut b = a.clone();
    text::push_str(&mut a, "/init.lua");
    text::push_str(&mut b, ".lua");
    let mut c: Vec<char> = Vec::new();
    text::push_str(&mut c, scripts_dir);
    text::push_str(&mut c, "/");
    text::push_str(&mut c, name);
    let mut d = c.clone();
    text::push_str(&mut c, "/init.lua");
    text::push_str(&mut d, ".lua");
    let mut r: Vec<String> = Vec::new();
    r.push(text::string_of(&a));
    r.push(text::string_of(&b));
    r.push(text::string_of(&c));
    r.push(text::string_of(&d));
    assert(string_views(r@) =~= candidates_spec(scripts_dir@, game_sub@, name@));
    r
}

/// The first candidate whose flag is set.
pub open spec fn first_flagged(cands: Seq<Seq<char>>, flags: Seq<bool>, i: int) -> Option<Seq<char>>
    decreases cands.len() - i,
{
    if i < 0 || i >= cands.len() || i >= flags.len() {
        None
    } else if flags[i] {
        Some(cands[i])
    } else {
        first_flagged(cands, flags, i + 1)
    }
}

pub open spec fn opt_string(o: Option<String>) -> Option<Seq<char>> {
    match o {
        Some(s) => Some(s@),
        None => None,
    }
}

/// The first of `cands` whose entry in `exists` is true.
pub fn first_existing(cands: &Vec<String>, exists: &Vec<bool>) -> (r: Option<String>)
    ensures
        opt_string(r) == first_flagged(string_views(cands@), exists@, 0),
{
    let ghost cv = string_views(cands@);
    let mut i: usize = 0;
    while i < cands.len() && i < exists.len()
        invariant
            cv == string_views(cands@),
            first_flagged(cv, exists@, 0) == first_flagged(cv, exists@, i as int),
        decreases cands.len() - i,
    {
        if exists[i] {
            return Some(cands[i].clone());
        }
        i += 1;
    }
    None
}

/// Whether a file or directory exists at `path` (`std::path::Path::exists`).
/// What it returns depends on the file system at the time of the call, so
/// nothing is claimed of it.
#[verifier::external_body]
fn path_exists(path: &str) -> (r: bool) {
    std::path::Path::new(path).exists()
}

/// Resolve a script name to a file path, checking game-specific dirs first.
/// Order: {game}/{name}/init.lua → {game}/{name}.lua → {name}/init.lua → {name}.lua.
/// Whichever files exist, the result is the first candidate, in that
/// order, that was found to exist (none when none was).
pub fn resolve_script_path(scripts_dir: &str, game_sub: &str, name: &str) -> (r: Option<String>)
    ensures
        exists|found: Seq<bool>|
            found.len() == 4 && #[trigger] first_flagged(candidates_spec(scripts_dir@, game_sub@, name@), found, 0)
                == opt_string(r),
        r matches Some(p) ==> candidates_spec(scripts_dir@, game_sub@, name@).contains(p@),
{
    let cands = script_candidates(scripts_dir, game_sub, name);
    let mut flags: Vec<bool> = Vec::new();
    let mut i: usize = 0;
    while i < cands.len()
        invariant
            i <= cands.len(),
            flags.len() == i,
        decreases cands.len() - i,
    {
        flags.push(path_exists(cands[i].as_str()));
        i += 1;
    }
    let r = first_existing(&cands, &flags);
    assert(first_flagged(candidates_spec(scripts_dir@, game_sub@, name@), flags@, 0) == opt_string(r));
    proof {
        lemma_first_flagged_in(string_views(cands@), flags@, 0);
    }
    r
}

pub proof fn lemma_first_flagged_in(cands: Seq<Seq<char>>, flags: Seq<bool>, i: int)
    requires
        0 <= i,
    ensures
        first_flagged(cands, flags, i) matches Some(p) ==> cands.contains(p),
    decreases cands.len() - i,
{
    if i < cands.len() && i < flags.len() {
        if flags[i] {
            assert(cands[i] == cands[i]);
        } else {
            lemma_first_flagged_in(cands, flags, i + 1);
        }
    }
}

} // verus!
