//! The saved colour theme choice.
use vstd::prelude::*;
use crate::text;

verus! {

pub struct ThemeConfig {
    pub theme: String,
}

impl Default for ThemeConfig {
    fn default() -> (r: Self)
        ensures
            r.theme@ == "slate"@,
    {
        ThemeConfig { theme: "slate".to_owned() }
    }
}

/// The themes that can be chosen.
pub open spec fn known_theme(v: Seq<char>) -> bool {
    v == "slate"@ || v == "ember"@ || v == "fantasy"@
}

/// The theme a line of the file sets: a trimmed line starting with `theme`,
/// then `=`, then the name, maybe quoted with `"` or `'`.
pub open spec fn theme_of_line(line: Seq<char>) -> Option<Seq<char>> {
    let l = text::trim(line);
    if text::starts_with(l, "theme"@) {
        let rest = text::trim(l.subrange(5, l.len() as int));
        let after_eq = if rest.len() > 0 && rest[0] == '=' {
            text::trim(rest.subrange(1, rest.len() as int))
        } else {
            seq![]
        };
        let v = text::trim_char(text::trim_char(after_eq, '"'), '\'');
        if known_theme(v) {
            Some(v)
        } else {
            None
        }
    } else {
        None
    }
}

/// The first line from `i` on that sets a known theme.
pub open spec fn first_theme(lines: Seq<Seq<char>>, i: int) -> Option<Seq<char>>
    decreases lines.len() - i,
{
    if i < 0 || i >= lines.len() {
        None
    } else {
        match theme_of_line(lines[i]) {
            Some(v) => Some(v),
            None => first_theme(lines, i + 1),
        }
    }
}

/// The theme a file sets: the first line naming a known theme, else `slate`.
/// Lines are read between `\n`s; a `\r` before a `\n` is trimmed with the
/// other whitespace.
pub open spec fn parse_spec(contents: Seq<char>) -> Seq<char> {
    match first_theme(text::split_char(contents, '\n'), 0) {
        Some(v) => v,
        None => "slate"@,
    }
}

fn theme_of_line_exec(line: &[char]) -> (r: Option<Vec<char>>)
    ensures
        match r {
            Some(v) => theme_of_line(line@) == Some(v@),
            None => theme_of_line(line@) is None,
        },
{
    proof {
        reveal_strlit("theme");
    }
    let l = text::trim_exec(line);
    if !text::starts_with_lit(&l, "theme") {
        return None;
    }
    let tail = text::slice_of(&l, 5, l.len());
    let rest = text::trim_exec(&tail);
    let after_eq = if rest.len() > 0 && rest[0] == '=' {
        let t = text::slice_of(&rest, 1, rest.len());
        text::trim_exec(&t)
    } else {
        Vec::new()
    };
    let v1 = text::trim_char_exec(&after_eq, '"');
    let v = text::trim_char_exec(&v1, '\'');
    if text::eq_lit(&v, "slate") || text::eq_lit(&v, "ember") || text::eq_lit(&v, "fantasy") {
        Some(v)
    } else {
        None
    }
}

impl ThemeConfig {
    /// The theme set by the contents of the theme file.
    pub fn parse(contents: &str) -> (r: ThemeConfig)
        ensures
            r.theme@ == parse_spec(contents@),
    {
        let c = text::chars_of(contents);
        let lines = text::split_char_exec(&c, '\n');
        let ghost lv = text::views(lines@);
        let mut i: usize = 0;
        while i < lines.len()
            invariant
                i <= lines.len(),
                lv == text::views(lines@),
                lv == text::split_char(contents@, '\n'),
                first_theme(lv, 0) == first_theme(lv, i as int),
            decreases lines.len() - i,
        {
            match theme_of_line_exec(&lines[i]) {
                Some(v) => {
                    return ThemeConfig { theme: text::string_of(&v) };
                },
                None => {},
            }
            i += 1;
        }
        ThemeConfig::default()
    }

    /// The contents of the theme file for this choice: `theme = "<name>"`.
    pub fn to_file_contents(&self) -> (r: String)
        ensures
            r@ == "theme = \""@ + self.theme@ + "\"\n"@,
    {
        let mut out: Vec<char> = Vec::new();
        text::push_str(&mut out, "theme = \"");
        text::push_str(&mut out, self.theme.as_str());
        text::push_str(&mut out, "\"\n");
        text::string_of(&out)
    }
}

/// Lowercase ASCII letters only, at least one.
pub open spec fn plain_word(s: Seq<char>) -> bool {
    s.len() > 0 && forall|i: int| 0 <= i < s.len() ==> 'a' <= #[trigger] s[i] <= 'z'
}

proof fn lemma_trim_noop(s: Seq<char>)
    requires
        s.len() > 0,
        !text::is_ws(s[0]),
        !text::is_ws(s[s.len() - 1]),
    ensures
        text::trim(s) == s,
{
    assert(text::ws_skip(s, 0) == 0);
    assert(text::trim_start(s) =~= s);
    assert(text::ws_back(s, s.len() as int) == s.len());
    assert(text::trim_end(s) =~= s);
}

proof fn lemma_theme_line(name: Seq<char>)
    requires
        plain_word(name),
        known_theme(name),
    ensures
        theme_of_line("theme = \""@ + name + "\""@) == Some(name),
{
    reveal_strlit("theme = \"");
    reveal_strlit("\"");
    reveal_strlit("theme");
    let q = "\""@;
    let line = "theme = \""@ + name + q;
    let n = name.len() as int;
    assert(line.len() == 10 + n);
    assert(line[0] == 't');
    assert(line[9 + n] == '"');
    lemma_trim_noop(line);
    assert(line.subrange(0, 5) =~= "theme"@);
    let rest0 = line.subrange(5, line.len() as int);
    assert(rest0[0] == ' ' && rest0[1] == '=');
    assert(text::ws_skip(rest0, 1) == 1);
    assert(text::ws_skip(rest0, 0) == 1);
    assert(rest0[rest0.len() - 1] == '"');
    assert(text::ws_back(rest0, rest0.len() as int) == rest0.len());
    let rest = rest0.subrange(1, rest0.len() as int);
    assert(text::trim(rest0) =~= rest);
    assert(rest[0] == '=');
    let tail = rest.subrange(1, rest.len() as int);
    assert(tail[0] == ' ' && tail[1] == '"');
    assert(text::ws_skip(tail, 1) == 1);
    assert(text::ws_skip(tail, 0) == 1);
    assert(tail[tail.len() - 1] == '"');
    assert(text::ws_back(tail, tail.len() as int) == tail.len());
    let after_eq = tail.subrange(1, tail.len() as int);
    assert(text::trim(tail) =~= after_eq);
    assert(after_eq =~= q + name + q);
    assert(after_eq[1] == name[0]);
    assert(text::char_skip(after_eq, '"', 1) == 1);
    assert(text::char_skip(after_eq, '"', 0) == 1);
    let s1 = after_eq.subrange(1, after_eq.len() as int);
    assert(s1 =~= name + q);
    assert(s1[s1.len() - 2] == name[n - 1]);
    assert(text::char_back(s1, '"', s1.len() - 1) == s1.len() - 1);
    assert(text::char_back(s1, '"', s1.len() as int) == s1.len() - 1);
    assert(text::trim_char(after_eq, '"') =~= name);
    assert(text::char_skip(name, '\'', 0) == 0);
    assert(text::char_back(name, '\'', n as int) == n);
    assert(text::trim_char(name, '\'') =~= name);
}

/// A saved known theme is read back as itself.
pub proof fn lemma_theme_round_trip(name: Seq<char>)
    requires
        known_theme(name),
    ensures
        parse_spec("theme = \""@ + name + "\"\n"@) == name,
{
    reveal_strlit("theme = \"");
    reveal_strlit("\"\n");
    reveal_strlit("\"");
    reveal_strlit("slate");
    reveal_strlit("ember");
    reveal_strlit("fantasy");
    assert(plain_word(name));
    let line = "theme = \""@ + name + "\""@;
    let contents = "theme = \""@ + name + "\"\n"@;
    assert(contents =~= line.push('\n'));
    assert forall|i: int| 0 <= i < line.len() implies contents[i] != '\n' by {
        if 9 <= i < 9 + name.len() {
            assert(contents[i] == name[i - 9]);
        }
    }
    text::lemma_find_char_from(contents, '\n', 0);
    assert(contents[line.len() as int] == '\n');
    match text::find_char_from(contents, '\n', 0) {
        Some(k) => {
            if k < line.len() {
                assert(contents[k] != '\n');
            }
        },
        None => {
            assert(contents[line.len() as int] != '\n');
        },
    }
    assert(text::find_char_from(contents, '\n', 0) == Some(line.len() as int));
    assert(text::find_char_from(contents, '\n', contents.len() as int) is None);
    let lines = text::split_char(contents, '\n');
    assert(contents.subrange(0, line.len() as int) =~= line);
    assert(text::split_from(contents, '\n', contents.len() as int) == seq![
        contents.subrange(contents.len() as int, contents.len() as int),
    ]);
    assert(lines[0] == line);
    lemma_theme_line(name);
}

} // verus!
