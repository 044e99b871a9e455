//! How the game's frontend is started once the login has given a session:
//! which program runs, with which arguments and in which folder, or, for
//! Avalon on macOS, the SAL text that it opens. Reading the registry and
//! spawning the process are the caller's.
use vstd::prelude::*;
use crate::text;
use crate::text::{find_sub, find_sub_from, is_ws, parse_unsigned, replace_all, split_char, trim, views};
use crate::config::Config;
use crate::eaccess::Session;

verus! {

// ── Numbers and words ───────────────────────────────────────────────────────

pub open spec fn digit_char(d: nat) -> char {
    (48 + d) as char
}

/// `n` in decimal, as integers are displayed.
pub open spec fn decimal(n: nat) -> Seq<char>
    decreases n,
{
    if n < 10 {
        seq![digit_char(n)]
    } else {
        decimal(n / 10).push(digit_char(n % 10))
    }
}

/// `n` in decimal.
pub fn decimal_text(n: u64) -> (r: Vec<char>)
    ensures
        r@ == decimal(n as nat),
    decreases n,
{
    if n < 10 {
        vec![((48 + n) as u8) as char]
    } else {
        let mut v = decimal_text(n / 10);
        v.push(((48 + n % 10) as u8) as char);
        v
    }
}

/// The words of the first `n` characters of `s` so far, and the word being
/// read.
pub open spec fn words_state(s: Seq<char>, n: int) -> (Seq<Seq<char>>, Seq<char>)
    decreases n,
{
    if n <= 0 || n > s.len() {
        (seq![], seq![])
    } else {
        let (w, cur) = words_state(s, n - 1);
        if is_ws(s[n - 1]) {
            if cur.len() > 0 {
                (w.push(cur), seq![])
            } else {
                (w, cur)
            }
        } else {
            (w, cur.push(s[n - 1]))
        }
    }
}

/// `str::split_whitespace`: the runs of non-whitespace characters.
pub open spec fn words(s: Seq<char>) -> Seq<Seq<char>> {
    let (w, cur) = words_state(s, s.len() as int);
    if cur.len() > 0 {
        w.push(cur)
    } else {
        w
    }
}

fn words_exec(s: &[char]) -> (r: Vec<String>)
    ensures
        r@.map_values(|x: String| x@) == words(s@),
{
    let mut out: Vec<String> = Vec::new();
    let mut cur: Vec<char> = Vec::new();
    let mut i: usize = 0;
    while i < s.len()
        invariant
            i <= s.len(),
            (out@.map_values(|x: String| x@), cur@) == words_state(s@, i as int),
        decreases s.len() - i,
    {
        if text::is_whitespace(s[i]) {
            if cur.len() > 0 {
                let ghost prev = out@;
                let w = text::string_of(&cur);
                out.push(w);
                assert(out@.map_values(|x: String| x@) =~= prev.map_values(|x: String| x@).push(cur@));
                cur = Vec::new();
                assert(cur@ =~= seq![]);
            }
        } else {
            cur.push(s[i]);
        }
        i += 1;
    }
    if cur.len() > 0 {
        let ghost prev = out@;
        out.push(text::string_of(&cur));
        assert(out@.map_values(|x: String| x@) =~= prev.map_values(|x: String| x@).push(cur@));
    }
    out
}

// ── The listening port ──────────────────────────────────────────────────────

/// The port in a listen address: the text after its last `:` when that is
/// a port number, else 4900.
pub open spec fn listen_port_spec(listen: Seq<char>) -> u16 {
    match parse_unsigned(split_char(listen, ':').last(), 65535) {
        Some(v) => v as u16,
        None => 4900,
    }
}

pub fn listen_port(listen: &str) -> (r: u16)
    ensures
        r == listen_port_spec(listen@),
{
    let c = text::chars_of(listen);
    let parts = text::split_char_exec(&c, ':');
    let last = &parts[parts.len() - 1];
    assert(views(parts@).last() == last@);
    match text::parse_unsigned_exec(last, 65535) {
        Some(v) => v as u16,
        None => 4900,
    }
}

// ── Avalon's SAL text ───────────────────────────────────────────────────────

/// One `key=value` line of the SAL text: the game host becomes this
/// machine and the game port the proxy's port; other values stay.
pub open spec fn sal_line(k: Seq<char>, v: Seq<char>, port: u16) -> Seq<char> {
    let up = text::unicode_uppercase(k);
    let val = if up == "GAMEHOST"@ {
        "127.0.0.1"@
    } else if up == "GAMEPORT"@ {
        decimal(port as nat)
    } else {
        v
    };
    k + "="@ + val
}

/// The SAL lines of the first `n` fields, joined with newlines.
pub open spec fn sal_text(fields: Seq<(Seq<char>, Seq<char>)>, port: u16, n: int) -> Seq<char>
    decreases n,
{
    if n <= 0 || n > fields.len() {
        seq![]
    } else if n == 1 {
        sal_line(fields[0].0, fields[0].1, port)
    } else {
        sal_text(fields, port, n - 1) + "\n"@ + sal_line(fields[n - 1].0, fields[n - 1].1, port)
    }
}

/// The SAL text for Avalon: the session's fields, pointed at the proxy.
pub fn sal_content(fields: &Vec<(String, String)>, port: u16) -> (r: String)
    ensures
        r@ == sal_text(crate::game_obj::pairs_view(fields@), port, fields@.len() as int),
{
    proof {
        reveal_strlit("=");
        reveal_strlit("\n");
    }
    let ghost fv = crate::game_obj::pairs_view(fields@);
    let mut out: Vec<char> = Vec::new();
    let mut i: usize = 0;
    while i < fields.len()
        invariant
            i <= fields.len(),
            fv == crate::game_obj::pairs_view(fields@),
            out@ == sal_text(fv, port, i as int),
        decreases fields.len() - i,
    {
        if i > 0 {
            text::push_str(&mut out, "\n");
        }
        let k = fields[i].0.as_str();
        let up = text::to_uppercase(k);
        let upc = text::chars_of(up.as_str());
        text::push_str(&mut out, k);
        text::push_str(&mut out, "=");
        if text::eq_lit(&upc, "GAMEHOST") {
            text::push_str(&mut out, "127.0.0.1");
        } else if text::eq_lit(&upc, "GAMEPORT") {
            let d = decimal_text(port as u64);
            text::push_all(&mut out, &d);
        } else {
            text::push_str(&mut out, fields[i].1.as_str());
        }
        i += 1;
    }
    text::string_of(&out)
}

// ── The install folder from the registry ────────────────────────────────────

/// `l` without one trailing carriage return.
pub open spec fn strip_cr(l: Seq<char>) -> Seq<char> {
    if l.len() > 0 && l.last() == '\r' {
        l.drop_last()
    } else {
        l
    }
}

/// The lines ended so far among the first `n` characters, and the line
/// being read.
pub open spec fn lines_state(s: Seq<char>, n: int) -> (Seq<Seq<char>>, Seq<char>)
    decreases n,
{
    if n <= 0 || n > s.len() {
        (seq![], seq![])
    } else {
        let (w, cur) = lines_state(s, n - 1);
        if s[n - 1] == '\n' {
            (w.push(strip_cr(cur)), seq![])
        } else {
            (w, cur.push(s[n - 1]))
        }
    }
}

/// `str::lines`: the text between newlines, a carriage return before a
/// newline left out, and no empty last line.
pub open spec fn lines_of(s: Seq<char>) -> Seq<Seq<char>> {
    let (w, cur) = lines_state(s, s.len() as int);
    if cur.len() > 0 {
        w.push(cur)
    } else {
        w
    }
}

/// The folder in one line of `reg query` output, `Directory REG_SZ <dir>`:
/// what follows the one `REG_SZ`, trimmed, when the line has exactly one
/// and something follows it.
pub open spec fn reg_line_dir(line: Seq<char>) -> Option<Seq<char>> {
    match find_sub(line, "REG_SZ"@) {
        Some(i) => if find_sub_from(line, "REG_SZ"@, i + 6) is None && trim(line.skip(i + 6)).len() > 0 {
            Some(trim(line.skip(i + 6)))
        } else {
            None
        },
        None => None,
    }
}

/// The folder given by the first line of `lines` that holds one.
pub open spec fn first_reg_dir(lines: Seq<Seq<char>>, i: int) -> Option<Seq<char>>
    decreases lines.len() - i,
{
    if i < 0 || i >= lines.len() {
        None
    } else {
        match reg_line_dir(lines[i]) {
            Some(d) => Some(d),
            None => first_reg_dir(lines, i + 1),
        }
    }
}

fn lines_exec(s: &[char]) -> (r: Vec<Vec<char>>)
    ensures
        views(r@) == lines_of(s@),
{
    let mut out: Vec<Vec<char>> = Vec::new();
    let mut cur: Vec<char> = Vec::new();
    let mut i: usize = 0;
    while i < s.len()
        invariant
            i <= s.len(),
            (views(out@), cur@) == lines_state(s@, i as int),
        decreases s.len() - i,
    {
        if s[i] == '\n' {
            let ghost prev = out@;
            let l = if cur.len() > 0 && cur[cur.len() - 1] == '\r' {
                text::slice_of(&cur, 0, cur.len() - 1)
            } else {
                text::slice_of(&cur, 0, cur.len())
            };
            assert(l@ == strip_cr(cur@)) by {
                if cur@.len() > 0 && cur@.last() == '\r' {
                    assert(l@ =~= cur@.drop_last());
                } else {
                    assert(l@ =~= cur@);
                }
            }
            out.push(l);
            assert(views(out@) =~= views(prev).push(strip_cr(cur@)));
            cur = Vec::new();
            assert(cur@ =~= seq![]);
        } else {
            cur.push(s[i]);
        }
        i += 1;
    }
    if cur.len() > 0 {
        let ghost prev = out@;
        let ghost c = cur@;
        out.push(cur);
        assert(views(out@) =~= views(prev).push(c));
    }
    out
}

fn reg_line_dir_exec(line: &[char]) -> (r: Option<String>)
    ensures
        match r {
            Some(d) => reg_line_dir(line@) == Some(d@),
            None => reg_line_dir(line@) is None,
        },
{
    proof {
        reveal_strlit("REG_SZ");
    }
    let pat = text::chars_of("REG_SZ");
    proof {
        text::lemma_find_sub_from(line@, pat@, 0);
    }
    match text::find_sub_at(line, &pat, 0) {
        Some(i) => {
            assert(pat@.len() == 6);
            let n = line.len();
            assert(i + 6 <= n);
            if text::find_sub_at(line, &pat, i + 6).is_none() {
                let rest = text::slice_of(line, i + 6, line.len());
                assert(rest@ =~= line@.skip(i + 6));
                let d = text::trim_exec(&rest);
                if d.len() > 0 {
                    return Some(text::string_of(&d));
                }
            }
            None
        },
        None => None,
    }
}

/// The install folder in the output of `reg query … /v Directory`.
pub fn reg_query_dir(output: &str) -> (r: Option<String>)
    ensures
        match r {
            Some(d) => first_reg_dir(lines_of(output@), 0) == Some(d@),
            None => first_reg_dir(lines_of(output@), 0) is None,
        },
{
    let c = text::chars_of(output);
    let lines = lines_exec(&c);
    let ghost lv = views(lines@);
    let mut i: usize = 0;
    while i < lines.len()
        invariant
            i <= lines.len(),
            lv == views(lines@),
            lv == lines_of(output@),
            first_reg_dir(lv, 0) == first_reg_dir(lv, i as int),
        decreases lines.len() - i,
    {
        match reg_line_dir_exec(&lines[i]) {
            Some(d) => {
                assert(lv[i as int] == lines[i as int]@);
                return Some(d);
            },
            None => {
                assert(lv[i as int] == lines[i as int]@);
            },
        }
        i += 1;
    }
    None
}

/// The registry key (under Simutronics) that holds the install folder of
/// `frontend`.
pub open spec fn registry_subkey_spec(frontend: Seq<char>) -> Seq<char> {
    if frontend == "wizard"@ {
        "WIZ32"@
    } else {
        "STORM32"@
    }
}

pub fn registry_subkey(frontend: &str) -> (r: &'static str)
    ensures
        r@ == registry_subkey_spec(frontend@),
{
    if text::str_eq(frontend, "wizard") {
        "WIZ32"
    } else {
        "STORM32"
    }
}

/// The program and arguments that query the install folder of `subkey`
/// from outside Windows: `reg.exe` through WSL interop, else `wine reg`.
pub fn reg_query_command(subkey: &str, wsl2: bool) -> (r: (String, Vec<String>))
    ensures
        r.0@ == (if wsl2 { "/mnt/c/Windows/System32/reg.exe"@ } else { "wine"@ }),
        r.1@.map_values(|x: String| x@) == (if wsl2 { seq![] } else { seq!["reg"@] }) + seq![
            "query"@,
            "HKLM\\SOFTWARE\\WOW6432Node\\Simutronics\\"@ + subkey@,
            "/v"@,
            "Directory"@,
        ],
{
    proof {
        reveal_strlit("");
    }
    let path = text::join3("HKLM\\SOFTWARE\\WOW6432Node\\Simutronics\\", subkey, "");
    let mut args: Vec<String> = Vec::new();
    if !wsl2 {
        args.push("reg".to_owned());
    }
    args.push("query".to_owned());
    args.push(path);
    args.push("/v".to_owned());
    args.push("Directory".to_owned());
    let prog = if wsl2 {
        "/mnt/c/Windows/System32/reg.exe".to_owned()
    } else {
        "wine".to_owned()
    };
    assert(args@.map_values(|x: String| x@) =~= (if wsl2 { seq![] } else { seq!["reg"@] }) + seq![
        "query"@,
        "HKLM\\SOFTWARE\\WOW6432Node\\Simutronics\\"@ + subkey@,
        "/v"@,
        "Directory"@,
    ]);
    (prog, args)
}

// ── The launch itself ───────────────────────────────────────────────────────

/// Where the proxy runs.
#[derive(Debug, Clone, Copy, PartialEq, Eq, Structural)]
pub struct Platform {
    pub windows: bool,
    pub macos: bool,
    /// Linux under WSL2, where Windows programs run through interop.
    pub wsl2: bool,
}

/// The install folder with `/` for `\`; under WSL2 a Windows drive path
/// (`C:\Games`) becomes its mount (`/mnt/c/Games`).
pub open spec fn launch_dir_spec(raw: Seq<char>, wsl2: bool) -> Seq<char> {
    if wsl2 && raw.len() >= 2 && raw[1] == ':' && (raw[0] as u32) < 128 {
        "/mnt/"@ + seq![text::ascii_lower(raw[0])] + replace_all(raw.skip(2), "\\"@, "/"@)
    } else {
        replace_all(raw, "\\"@, "/"@)
    }
}

pub fn launch_dir(raw: &str, wsl2: bool) -> (r: String)
    ensures
        r@ == launch_dir_spec(raw@, wsl2),
{
    proof {
        reveal_strlit("\\");
        reveal_strlit("/mnt/");
    }
    let c = text::chars_of(raw);
    if wsl2 && c.len() >= 2 && c[1] == ':' && (c[0] as u32) < 128 {
        let mut out = text::chars_of("/mnt/");
        out.push(text::to_ascii_lower(c[0]));
        let rest = text::slice_of(&c, 2, c.len());
        assert(rest@ =~= raw@.skip(2));
        let r = text::replace_lit(&rest, "\\", "/");
        text::push_all(&mut out, &r);
        assert(out@ =~= "/mnt/"@ + seq![text::ascii_lower(raw@[0])] + replace_all(raw@.skip(2), "\\"@, "/"@));
        text::string_of(&out)
    } else {
        text::string_of(&text::replace_lit(&c, "\\", "/"))
    }
}

/// `GS` or `DR`, as the frontends name the game family.
pub open spec fn game_family(game: Seq<char>) -> Seq<char> {
    if text::starts_with(game, "DR"@) {
        "DR"@
    } else {
        "GS"@
    }
}

/// A user's launch command with `%port%` and `%key%` filled in, split into
/// the program (up to the first space) and its arguments (the words after).
pub open spec fn custom_command(custom: Seq<char>, port: u16, key: Seq<char>) -> (Seq<char>, Seq<Seq<char>>) {
    let e = replace_all(replace_all(custom, "%port%"@, decimal(port as nat)), "%key%"@, key);
    match text::find_char(e, ' ') {
        Some(i) => (e.take(i), words(e.skip(i + 1))),
        None => (e, seq![]),
    }
}

/// The arguments that tell Wizard or Wrayth where the proxy is and what
/// key to present.
pub open spec fn frontend_args(frontend: Seq<char>, family: Seq<char>, port: u16, key: Seq<char>) -> Seq<Seq<char>> {
    if frontend == "wizard"@ {
        seq!["/G"@ + family + "/H127.0.0.1"@, "/P"@ + decimal(port as nat), "/K"@ + key]
    } else {
        seq!["/G"@ + family + "/Hlocalhost/P"@ + decimal(port as nat) + "/K"@ + key]
    }
}

/// How the frontend is to be started.
#[derive(Debug, Clone, PartialEq, Eq)]
pub enum LaunchPlan {
    /// Write `sal` to a file named for `port` and open it with Avalon.
    Avalon { sal: String, port: u16 },
    /// Run the user's own command, in `dir` unless that is `.`.
    Custom { program: String, args: Vec<String>, dir: String },
    /// Run the frontend's program `exe` (inside `dir` unless that is `.`,
    /// which is also where it runs), through wine when `wine`.
    Frontend { exe: String, dir: String, args: Vec<String>, wine: bool },
}

pub enum LaunchPlanV {
    Avalon { sal: Seq<char>, port: u16 },
    Custom { program: Seq<char>, args: Seq<Seq<char>>, dir: Seq<char> },
    Frontend { exe: Seq<char>, dir: Seq<char>, args: Seq<Seq<char>>, wine: bool },
}

pub open spec fn strings_view(v: Seq<String>) -> Seq<Seq<char>> {
    v.map_values(|x: String| x@)
}

impl View for LaunchPlan {
    type V = LaunchPlanV;

    open spec fn view(&self) -> LaunchPlanV {
        match self {
            LaunchPlan::Avalon { sal, port } => LaunchPlanV::Avalon { sal: sal@, port: *port },
            LaunchPlan::Custom { program, args, dir } => LaunchPlanV::Custom {
                program: program@,
                args: strings_view(args@),
                dir: dir@,
            },
            LaunchPlan::Frontend { exe, dir, args, wine } => LaunchPlanV::Frontend {
                exe: exe@,
                dir: dir@,
                args: strings_view(args@),
                wine: *wine,
            },
        }
    }
}

pub open spec fn opt_seq(o: Option<String>) -> Option<Seq<char>> {
    match o {
        Some(s) => Some(s@),
        None => None,
    }
}

/// How to start the configured frontend for `session`: Avalon on macOS
/// opens a SAL file; else the user's launch command if there is one, else
/// Wizard or Wrayth from the configured folder, the registry's, or the
/// current one, through wine outside Windows and WSL2.
pub open spec fn launch_plan(
    listen: Seq<char>,
    frontend: Seq<char>,
    game: Seq<char>,
    custom_launch: Option<Seq<char>>,
    custom_dir: Option<Seq<char>>,
    key: Seq<char>,
    fields: Seq<(Seq<char>, Seq<char>)>,
    registry_dir: Option<Seq<char>>,
    p: Platform,
) -> LaunchPlanV {
    let port = listen_port_spec(listen);
    if p.macos && frontend == "avalon"@ {
        LaunchPlanV::Avalon { sal: sal_text(fields, port, fields.len() as int), port }
    } else {
        let raw = match custom_dir {
            Some(d) => d,
            None => match registry_dir {
                Some(d) => d,
                None => "."@,
            },
        };
        let dir = launch_dir_spec(raw, p.wsl2);
        match custom_launch {
            Some(c) => LaunchPlanV::Custom {
                program: custom_command(c, port, key).0,
                args: custom_command(c, port, key).1,
                dir,
            },
            None => LaunchPlanV::Frontend {
                exe: if frontend == "wizard"@ {
                    "Wizard.Exe"@
                } else {
                    "Wrayth.exe"@
                },
                dir,
                args: frontend_args(frontend, game_family(game), port, key),
                wine: !(p.windows || p.wsl2),
            },
        }
    }
}

fn custom_command_exec(custom: &str, port: u16, key: &str) -> (r: (String, Vec<String>))
    ensures
        (r.0@, strings_view(r.1@)) == custom_command(custom@, port, key@),
{
    proof {
        reveal_strlit("%port%");
        reveal_strlit("%key%");
    }
    let c = text::chars_of(custom);
    let ps = text::string_of(&decimal_text(port as u64));
    let e1 = text::replace_lit(&c, "%port%", ps.as_str());
    let e = text::replace_lit(&e1, "%key%", key);
    proof {
        text::lemma_find_char_from(e@, ' ', 0);
    }
    match text::find_char_at(&e, ' ', 0) {
        Some(i) => {
            let n = e.len();
            assert(i < n);
            let prog = text::slice_of(&e, 0, i);
            let rest = text::slice_of(&e, i + 1, e.len());
            assert(rest@ =~= e@.skip(i + 1));
            assert(prog@ =~= e@.take(i as int));
            (text::string_of(&prog), words_exec(&rest))
        },
        None => {
            let v: Vec<String> = Vec::new();
            assert(strings_view(v@) =~= seq![]);
            (text::string_of(&e), v)
        },
    }
}

fn frontend_args_exec(frontend: &str, game: &str, port: u16, key: &str) -> (r: Vec<String>)
    ensures
        strings_view(r@) == frontend_args(frontend@, game_family(game@), port, key@),
{
    proof {
        reveal_strlit("");
    }
    let g = text::chars_of(game);
    let family = if text::starts_with_lit(&g, "DR") {
        "DR"
    } else {
        "GS"
    };
    let ps = text::string_of(&decimal_text(port as u64));
    let mut out: Vec<String> = Vec::new();
    if text::str_eq(frontend, "wizard") {
        out.push(text::join3("/G", family, "/H127.0.0.1"));
        out.push(text::join3("/P", ps.as_str(), ""));
        out.push(text::join3("/K", key, ""));
    } else {
        let head = text::join3("/G", family, "/Hlocalhost/P");
        let mid = text::join3(head.as_str(), ps.as_str(), "/K");
        out.push(text::join3(mid.as_str(), key, ""));
    }
    assert(strings_view(out@) =~= frontend_args(frontend@, game_family(game@), port, key@));
    out
}

/// How to start the configured frontend for `session`, the registry's
/// install folder (if it was read) and the platform given.
pub fn plan_launch(config: &Config, session: &Session, registry_dir: Option<String>, p: Platform) -> (r: LaunchPlan)
    ensures
        r@ == launch_plan(
            config.listen@,
            config.frontend@,
            config.game@,
            opt_seq(config.custom_launch),
            opt_seq(config.custom_launch_dir),
            session@.key,
            session@.raw_fields,
            opt_seq(registry_dir),
            p,
        ),
{
    proof {
        reveal_strlit(".");
        reveal_strlit("");
    }
    let port = listen_port(config.listen.as_str());
    if p.macos && text::str_eq(config.frontend.as_str(), "avalon") {
        return LaunchPlan::Avalon { sal: sal_content(&session.raw_fields, port), port };
    }
    let raw: String = match &config.custom_launch_dir {
        Some(d) => text::join3(d.as_str(), "", ""),
        None => match registry_dir {
            Some(d) => d,
            None => ".".to_owned(),
        },
    };
    let dir = launch_dir(raw.as_str(), p.wsl2);
    match &config.custom_launch {
        Some(c) => {
            let (program, args) = custom_command_exec(c.as_str(), port, session.key.as_str());
            LaunchPlan::Custom { program, args, dir }
        },
        None => {
            let exe = if text::str_eq(config.frontend.as_str(), "wizard") {
                "Wizard.Exe".to_owned()
            } else {
                "Wrayth.exe".to_owned()
            };
            let args = frontend_args_exec(config.frontend.as_str(), config.game.as_str(), port, session.key.as_str());
            LaunchPlan::Frontend { exe, dir, args, wine: !(p.windows || p.wsl2) }
        },
    }
}

} // verus!
