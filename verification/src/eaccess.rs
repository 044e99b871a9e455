//! SGE eAccess authentication: the password hash, the parsing of the
//! server's replies, and the request/reply sequence of a login
//! (K → A → M → F → G → P → C → L), as a state machine whose transport is
//! left to the caller.
use vstd::prelude::*;
use vstd::utf8::{encode_utf8, decode_utf8, valid_utf8};
use crate::text;

verus! {

/// eAccess server hostname.
pub const SGE_HOST: &'static str = "eaccess.play.net";

/// eAccess server port.
pub const SGE_PORT: u16 = 7910;

/// Largest packet read from the server at once.
pub const PACKET_SIZE: usize = 8192;

pub open spec fn pairs_of(v: Seq<(String, String)>) -> Seq<(Seq<char>, Seq<char>)> {
    v.map_values(|p: (String, String)| (p.0@, p.1@))
}

#[derive(Debug, Clone)]
pub struct Session {
    pub host: String,
    pub port: u16,
    pub key: String,
    pub game: String,
    pub character: String,
    /// All raw key=value pairs from the L response, used for Avalon SAL file generation.
    pub raw_fields: Vec<(String, String)>,
}

pub struct SessionV {
    pub host: Seq<char>,
    pub port: u16,
    pub key: Seq<char>,
    pub game: Seq<char>,
    pub character: Seq<char>,
    pub raw_fields: Seq<(Seq<char>, Seq<char>)>,
}

impl View for Session {
    type V = SessionV;

    open spec fn view(&self) -> SessionV {
        SessionV {
            host: self.host@,
            port: self.port,
            key: self.key@,
            game: self.game@,
            character: self.character@,
            raw_fields: pairs_of(self.raw_fields@),
        }
    }
}

#[derive(Debug, Clone)]
pub struct CharacterEntry {
    pub id: String,
    pub name: String,
}

pub open spec fn entries_view(v: Seq<CharacterEntry>) -> Seq<(Seq<char>, Seq<char>)> {
    v.map_values(|e: CharacterEntry| (e.id@, e.name@))
}

/// Why a login could not go on.
#[derive(Debug, Clone)]
pub enum EAccessError {
    /// The A reply has no `KEY\t`; `code` is its last word (or `UNKNOWN`).
    AuthFailed { code: String, response: String },
    /// The A reply has no `KEY\t` while only listing characters.
    AuthRejected(String),
    /// The M reply does not start with `M\t`.
    UnexpectedGameList(String),
    /// The F reply names none of NORMAL, PREMIUM, TRIAL, INTERNAL, FREE.
    UnexpectedGameSelect(String),
    /// The C reply holds no character pairs at all.
    CharListTooShort { name: String, response: String },
    /// No character of that name (ignoring case) is in the C reply.
    CharacterNotFound { name: String, response: String },
    /// The L reply does not start with `L\t`.
    UnexpectedLogin(String),
    /// The L reply does not start with `L\tOK\t` once trimmed.
    BadSessionFormat(String),
    /// The `gameport` field is not a port number.
    InvalidPort,
    /// Host, port or key is missing from the L reply.
    IncompleteSession { host: String, port: u16, key_present: bool, response: String },
}

pub enum EAccessErrorV {
    AuthFailed(Seq<char>, Seq<char>),
    AuthRejected(Seq<char>),
    UnexpectedGameList(Seq<char>),
    UnexpectedGameSelect(Seq<char>),
    CharListTooShort(Seq<char>, Seq<char>),
    CharacterNotFound(Seq<char>, Seq<char>),
    UnexpectedLogin(Seq<char>),
    BadSessionFormat(Seq<char>),
    InvalidPort,
    IncompleteSession(Seq<char>, u16, bool, Seq<char>),
}

impl View for EAccessError {
    type V = EAccessErrorV;

    open spec fn view(&self) -> EAccessErrorV {
        match self {
            EAccessError::AuthFailed { code, response } => EAccessErrorV::AuthFailed(code@, response@),
            EAccessError::AuthRejected(s) => EAccessErrorV::AuthRejected(s@),
            EAccessError::UnexpectedGameList(s) => EAccessErrorV::UnexpectedGameList(s@),
            EAccessError::UnexpectedGameSelect(s) => EAccessErrorV::UnexpectedGameSelect(s@),
            EAccessError::CharListTooShort { name, response } => EAccessErrorV::CharListTooShort(
                name@,
                response@,
            ),
            EAccessError::CharacterNotFound { name, response } => EAccessErrorV::CharacterNotFound(
                name@,
                response@,
            ),
            EAccessError::UnexpectedLogin(s) => EAccessErrorV::UnexpectedLogin(s@),
            EAccessError::BadSessionFormat(s) => EAccessErrorV::BadSessionFormat(s@),
            EAccessError::InvalidPort => EAccessErrorV::InvalidPort,
            EAccessError::IncompleteSession { host, port, key_present, response } =>
                EAccessErrorV::IncompleteSession(host@, *port, *key_present, response@),
        }
    }
}

// ── Password hash ───────────────────────────────────────────────────────────

/// What `String::from_utf8_lossy` makes of `bytes`: invalid sequences
/// become U+FFFD.
pub uninterp spec fn utf8_lossy(bytes: Seq<u8>) -> Seq<char>;

/// `String::from_utf8_lossy(bytes).into_owned()`. The result is the named
/// `utf8_lossy`; the one fact claimed beyond that is the documented one that
/// valid UTF-8 is decoded unchanged.
#[verifier::external_body]
fn from_utf8_lossy(bytes: &[u8]) -> (r: String)
    ensures
        r@ == utf8_lossy(bytes@),
        valid_utf8(bytes@) ==> r@ == decode_utf8(bytes@),
{
    String::from_utf8_lossy(bytes).into_owned()
}

/// One hashed byte: `((b - 32) ^ k) + 32`, wrapping.
pub open spec fn hash_byte(b: u8, k: u8) -> u8 {
    (b.wrapping_sub(32) ^ k).wrapping_add(32)
}

/// Each password byte hashed with the key byte at the same index, the key
/// repeating as needed.
pub open spec fn hash_bytes(pw: Seq<u8>, key: Seq<u8>) -> Seq<u8> {
    Seq::new(pw.len(), |i: int| hash_byte(pw[i], key[i % (key.len() as int)]))
}

/// The hashed password: the password itself when the trimmed key is empty.
pub open spec fn hash_password_spec(password: Seq<char>, key: Seq<char>) -> Seq<char> {
    let kb = encode_utf8(text::trim(key));
    if kb.len() == 0 {
        password
    } else {
        utf8_lossy(hash_bytes(encode_utf8(password), kb))
    }
}

/// Hash the SGE password using the server-provided key.
///
/// Each output byte = `((input_byte - 32) ^ key_byte[i % key_len]) + 32`.
/// Returns the bytes as a String, invalid UTF-8 replaced.
pub fn hash_password(password: &str, key: &str) -> (r: String)
    ensures
        r@ == hash_password_spec(password@, key@),
        ({
            let kb = encode_utf8(text::trim(key@));
            let hb = hash_bytes(encode_utf8(password@), kb);
            kb.len() > 0 && valid_utf8(hb) ==> r@ == decode_utf8(hb)
        }),
{
    let kc = text::chars_of(key);
    let kt = text::trim_exec(&kc);
    let ks = text::string_of(&kt);
    let key_bytes = ks.as_str().as_bytes();
    if key_bytes.len() == 0 {
        return password.to_owned();
    }
    let pw = password.as_bytes();
    let mut result: Vec<u8> = Vec::new();
    let mut i: usize = 0;
    while i < pw.len()
        invariant
            i <= pw.len(),
            key_bytes.len() > 0,
            result@ == hash_bytes(pw@, key_bytes@).take(i as int),
        decreases pw.len() - i,
    {
        let k = key_bytes[i % key_bytes.len()];
        result.push((pw[i].wrapping_sub(32) ^ k).wrapping_add(32));
        assert(result@ =~= hash_bytes(pw@, key_bytes@).take(i + 1));
        i += 1;
    }
    assert(result@ =~= hash_bytes(pw@, key_bytes@));
    from_utf8_lossy(result.as_slice())
}

// ── Reply parsing ───────────────────────────────────────────────────────────

/// The tab-separated fields of a trimmed reply.
pub open spec fn fields(resp: Seq<char>) -> Seq<Seq<char>> {
    text::split_char(text::trim(resp), '\t')
}

/// The (id, name) pairs from field `i` on, pairs with an empty half dropped.
pub open spec fn char_pairs(parts: Seq<Seq<char>>, i: int) -> Seq<(Seq<char>, Seq<char>)>
    decreases parts.len() - i,
{
    if i < 0 || i + 1 >= parts.len() {
        seq![]
    } else if parts[i].len() > 0 && parts[i + 1].len() > 0 {
        seq![(parts[i], parts[i + 1])] + char_pairs(parts, i + 2)
    } else {
        char_pairs(parts, i + 2)
    }
}

fn split_fields(resp: &str) -> (r: Vec<Vec<char>>)
    ensures
        text::views(r@) == fields(resp@),
{
    let c = text::chars_of(resp);
    let t = text::trim_exec(&c);
    text::split_char_exec(&t, '\t')
}

/// The characters in a C reply: after `C` and four counts, `id\tname` pairs.
pub fn parse_character_list(resp: &str) -> (r: Result<Vec<CharacterEntry>, EAccessError>)
    ensures
        r matches Ok(v) && entries_view(v@) == char_pairs(fields(resp@), 5),
{
    let parts = split_fields(resp);
    let ghost pv = text::views(parts@);
    let mut entries: Vec<CharacterEntry> = Vec::new();
    let mut i: usize = 5;
    while i < parts.len() && parts.len() - i > 1
        invariant
            5 <= i,
            pv == text::views(parts@),
            entries_view(entries@) + char_pairs(pv, i as int) == char_pairs(pv, 5),
        decreases parts.len() - i,
    {
        let ghost before = entries_view(entries@);
        if parts[i].len() > 0 && parts[i + 1].len() > 0 {
            let e = CharacterEntry {
                id: text::string_of(&parts[i]),
                name: text::string_of(&parts[i + 1]),
            };
            entries.push(e);
            assert(entries_view(entries@) =~= before.push((pv[i as int], pv[i + 1])));
            assert(before + char_pairs(pv, i as int) == entries_view(entries@) + char_pairs(
                pv,
                i + 2,
            ));
        }
        i += 2;
    }
    assert(char_pairs(pv, i as int) =~= seq![]);
    assert(entries_view(entries@) =~= entries_view(entries@) + char_pairs(pv, i as int));
    Ok(entries)
}

/// The id of the first pair from field `i` on whose name, lowercased, is `lname`.
pub open spec fn find_id_from(parts: Seq<Seq<char>>, lname: Seq<char>, i: int) -> Option<Seq<char>>
    decreases parts.len() - i,
{
    if i < 0 || i + 1 >= parts.len() {
        None
    } else if text::unicode_lowercase(parts[i + 1]) == lname {
        Some(parts[i])
    } else {
        find_id_from(parts, lname, i + 2)
    }
}

pub open spec fn find_character_id_spec(resp: Seq<char>, name: Seq<char>) -> Result<Seq<char>, EAccessErrorV> {
    let parts = fields(resp);
    if parts.len() <= 5 {
        Err(EAccessErrorV::CharListTooShort(name, resp))
    } else {
        match find_id_from(parts, text::unicode_lowercase(name), 5) {
            Some(id) => Ok(id),
            None => Err(EAccessErrorV::CharacterNotFound(name, resp)),
        }
    }
}

pub open spec fn result_view<T: View, E: View>(r: Result<T, E>) -> Result<T::V, E::V> {
    match r {
        Ok(v) => Ok(v@),
        Err(e) => Err(e@),
    }
}

/// Find a character's ID code in the C reply; names compare ignoring case.
pub fn find_character_id(resp: &str, name: &str) -> (r: Result<String, EAccessError>)
    ensures
        result_view(r) == find_character_id_spec(resp@, name@),
{
    let parts = split_fields(resp);
    let ghost pv = text::views(parts@);
    if parts.len() <= 5 {
        return Err(EAccessError::CharListTooShort { name: name.to_owned(), response: resp.to_owned() });
    }
    let name_lower = text::to_lowercase(name);
    let ghost ln = text::unicode_lowercase(name@);
    let mut i: usize = 5;
    while i < parts.len() && parts.len() - i > 1
        invariant
            5 <= i,
            pv == text::views(parts@),
            name_lower@ == ln,
            ln == text::unicode_lowercase(name@),
            parts.len() > 5,
            pv == fields(resp@),
            find_id_from(pv, ln, 5) == find_id_from(pv, ln, i as int),
        decreases parts.len() - i,
    {
        let cand = text::string_of(&parts[i + 1]);
        let cl = text::to_lowercase(cand.as_str());
        if text::str_eq(cl.as_str(), name_lower.as_str()) {
            assert(text::unicode_lowercase(pv[i + 1]) == ln);
            assert(find_id_from(pv, ln, i as int) == Some(pv[i as int]));
            return Ok(text::string_of(&parts[i]));
        }
        i += 2;
    }
    Err(EAccessError::CharacterNotFound { name: name.to_owned(), response: resp.to_owned() })
}

// ── Session reply ───────────────────────────────────────────────────────────

/// Session fields gathered so far while reading an L reply.
pub struct SessAcc {
    pub host: Seq<char>,
    pub port: u16,
    pub key: Seq<char>,
    pub raw: Seq<(Seq<char>, Seq<char>)>,
    pub bad_port: bool,
}

/// One `k=v` field of an L reply: every field with an `=` is kept raw;
/// `gamehost`, `gameport` and `key` (matched lowercased) set the session.
pub open spec fn sess_step(acc: SessAcc, field: Seq<char>) -> SessAcc {
    if acc.bad_port {
        acc
    } else {
        match text::find_char(field, '=') {
            None => acc,
            Some(p) => {
                let k = field.subrange(0, p);
                let v = field.subrange(p + 1, field.len() as int);
                let raw = acc.raw.push((k, v));
                let kl = text::unicode_lowercase(k);
                if kl == "gamehost"@ {
                    SessAcc { host: v, raw, ..acc }
                } else if kl == "gameport"@ {
                    match text::parse_unsigned(v, 0xffff) {
                        Some(n) => SessAcc { port: n as u16, raw, ..acc },
                        None => SessAcc { raw, bad_port: true, ..acc },
                    }
                } else if kl == "key"@ {
                    SessAcc { key: v, raw, ..acc }
                } else {
                    SessAcc { raw, ..acc }
                }
            },
        }
    }
}

pub open spec fn sess_fold(fs: Seq<Seq<char>>, n: int) -> SessAcc
    decreases n,
{
    if n <= 0 {
        SessAcc { host: seq![], port: 0, key: seq![], raw: seq![], bad_port: false }
    } else {
        sess_step(sess_fold(fs, n - 1), fs[n - 1])
    }
}

/// Once the port is found malformed, later fields change nothing.
proof fn lemma_bad_port_sticks(fs: Seq<Seq<char>>, j: int, n: int)
    requires
        0 <= j <= n,
        sess_fold(fs, j).bad_port,
    ensures
        sess_fold(fs, n).bad_port,
    decreases n - j,
{
    if j < n {
        lemma_bad_port_sticks(fs, j, n - 1);
    }
}

/// The body of an L reply: what follows `L\tOK\t` in the trimmed reply.
pub open spec fn session_body(resp: Seq<char>) -> Option<Seq<char>> {
    let t = text::trim(resp);
    if text::starts_with(t, "L\tOK\t"@) {
        Some(t.subrange(5, t.len() as int))
    } else {
        None
    }
}

pub open spec fn parse_session_spec(resp: Seq<char>, game: Seq<char>, character: Seq<char>) -> Result<SessionV, EAccessErrorV> {
    match session_body(resp) {
        None => Err(EAccessErrorV::BadSessionFormat(resp)),
        Some(body) => {
            let fs = text::split_char(body, '\t');
            let acc = sess_fold(fs, fs.len() as int);
            if acc.bad_port {
                Err(EAccessErrorV::InvalidPort)
            } else if acc.host.len() == 0 || acc.port == 0 || acc.key.len() == 0 {
                Err(EAccessErrorV::IncompleteSession(acc.host, acc.port, acc.key.len() > 0, resp))
            } else {
                Ok(
                    SessionV {
                        host: acc.host,
                        port: acc.port,
                        key: acc.key,
                        game,
                        character,
                        raw_fields: acc.raw,
                    },
                )
            }
        },
    }
}

/// Parse the L reply into a Session.
pub fn parse_session(resp: &str, game: &str, character: &str) -> (r: Result<Session, EAccessError>)
    ensures
        result_view(r) == parse_session_spec(resp@, game@, character@),
{
    proof {
        reveal_strlit("L\tOK\t");
    }
    let rc = text::chars_of(resp);
    let t = text::trim_exec(&rc);
    if !text::starts_with_lit(&t, "L\tOK\t") {
        return Err(EAccessError::BadSessionFormat(resp.to_owned()));
    }
    let body = text::slice_of(&t, 5, t.len());
    let fs = text::split_char_exec(&body, '\t');
    let ghost fv = text::views(fs@);
    let mut host: Vec<char> = Vec::new();
    let mut port: u16 = 0;
    let mut key: Vec<char> = Vec::new();
    let mut raw_fields: Vec<(String, String)> = Vec::new();
    let mut i: usize = 0;
    while i < fs.len()
        invariant
            i <= fs.len(),
            fv == text::views(fs@),
            fv == text::split_char(body@, '\t'),
            session_body(resp@) == Some(body@),
            ({
                let acc = sess_fold(fv, i as int);
                &&& !acc.bad_port
                &&& acc.host == host@
                &&& acc.port == port
                &&& acc.key == key@
                &&& acc.raw == pairs_of(raw_fields@)
            }),
        decreases fs.len() - i,
    {
        let field = &fs[i];
        proof {
            text::lemma_find_char_from(field@, '=', 0);
        }
        match text::find_char_at(field, '=', 0) {
            None => {},
            Some(p) => {
                assert(p < field.len());
                let k = text::slice_of(field, 0, p);
                let v = text::slice_of(field, p + 1, field.len());
                let ks = text::string_of(&k);
                let ghost before = raw_fields@;
                raw_fields.push((ks, text::string_of(&v)));
                assert(pairs_of(raw_fields@) =~= pairs_of(before).push((k@, v@)));
                let kstr = text::string_of(&k);
                let kl = text::to_lowercase(kstr.as_str());
                let klc = text::chars_of(kl.as_str());
                if text::eq_lit(&klc, "gamehost") {
                    host = v;
                } else if text::eq_lit(&klc, "gameport") {
                    match text::parse_unsigned_exec(&v, 0xffff) {
                        Some(n) => {
                            port = n as u16;
                        },
                        None => {
                            proof {
                                lemma_bad_port_sticks(fv, i + 1, fv.len() as int);
                            }
                            return Err(EAccessError::InvalidPort);
                        },
                    }
                } else if text::eq_lit(&klc, "key") {
                    key = v;
                }
            },
        }
        i += 1;
    }
    if host.len() == 0 || port == 0 || key.len() == 0 {
        return Err(
            EAccessError::IncompleteSession {
                host: text::string_of(&host),
                port,
                key_present: key.len() > 0,
                response: resp.to_owned(),
            },
        );
    }
    Ok(
        Session {
            host: text::string_of(&host),
            port,
            key: text::string_of(&key),
            game: game.to_owned(),
            character: character.to_owned(),
            raw_fields,
        },
    )
}

// ── The login conversation ──────────────────────────────────────────────────

/// Start of the last whitespace-free run that ends at `j`.
pub open spec fn word_start(t: Seq<char>, j: int) -> int
    decreases j,
{
    if j <= 0 || j > t.len() {
        0
    } else if text::is_ws(t[j - 1]) {
        j
    } else {
        word_start(t, j - 1)
    }
}

/// The last whitespace-separated word of `s`, or `UNKNOWN` when it has none.
pub open spec fn last_word(s: Seq<char>) -> Seq<char> {
    let t = text::trim_end(s);
    if t.len() == 0 {
        "UNKNOWN"@
    } else {
        t.subrange(word_start(t, t.len() as int), t.len() as int)
    }
}

fn last_word_exec(s: &[char]) -> (r: Vec<char>)
    ensures
        r@ == last_word(s@),
{
    let t = text::trim_end_exec(s);
    if t.len() == 0 {
        return text::chars_of("UNKNOWN");
    }
    let mut j: usize = t.len();
    while j > 0 && !text::is_whitespace(t[j - 1])
        invariant
            j <= t.len(),
            word_start(t@, t.len() as int) == word_start(t@, j as int),
        decreases j,
    {
        j -= 1;
    }
    text::slice_of(&t, j, t.len())
}

/// The F reply names an account type the game accepts.
pub open spec fn game_select_ok(resp: Seq<char>) -> bool {
    text::contains_sub(resp, "NORMAL"@) || text::contains_sub(resp, "PREMIUM"@) || text::contains_sub(
        resp,
        "TRIAL"@,
    ) || text::contains_sub(resp, "INTERNAL"@) || text::contains_sub(resp, "FREE"@)
}

/// Where a login conversation stands: which reply it waits for.
#[derive(Debug, Clone, Copy, PartialEq, Eq, Structural)]
pub enum SgePhase {
    Key,
    Auth,
    GameList,
    GameSelect,
    GamePick,
    Plan,
    Chars,
    Login,
    Finished,
}

/// A login conversation with the eAccess server. The caller sends each
/// request and hands back the trimmed reply.
pub struct SgeLogin {
    pub account: String,
    pub password: String,
    pub game_code: String,
    pub character: String,
    /// Stop after the character list (K→A→M→F→G→P→C), without logging in.
    pub list_only: bool,
    pub phase: SgePhase,
}

/// What to do after a reply.
pub enum SgeAction {
    Send(String),
    Fail(EAccessError),
    Characters(Vec<CharacterEntry>),
    LoggedIn(Session),
}

pub enum SgeActionV {
    Send(Seq<char>),
    Fail(EAccessErrorV),
    Characters(Seq<(Seq<char>, Seq<char>)>),
    LoggedIn(SessionV),
}

impl View for SgeAction {
    type V = SgeActionV;

    open spec fn view(&self) -> SgeActionV {
        match self {
            SgeAction::Send(s) => SgeActionV::Send(s@),
            SgeAction::Fail(e) => SgeActionV::Fail(e@),
            SgeAction::Characters(v) => SgeActionV::Characters(entries_view(v@)),
            SgeAction::LoggedIn(s) => SgeActionV::LoggedIn(s@),
        }
    }
}

/// The next phase and action after `resp`, in phase `ph`.
pub open spec fn sge_step(
    ph: SgePhase,
    account: Seq<char>,
    password: Seq<char>,
    game: Seq<char>,
    character: Seq<char>,
    list_only: bool,
    resp: Seq<char>,
) -> (SgePhase, SgeActionV) {
    match ph {
        SgePhase::Key => (
            SgePhase::Auth,
            SgeActionV::Send(
                "A\t"@ + account + "\t"@ + hash_password_spec(password, resp) + "\n"@,
            ),
        ),
        SgePhase::Auth => if !text::contains_sub(resp, "KEY\t"@) {
            (
                SgePhase::Finished,
                if list_only {
                    SgeActionV::Fail(EAccessErrorV::AuthRejected(resp))
                } else {
                    SgeActionV::Fail(EAccessErrorV::AuthFailed(last_word(resp), resp))
                },
            )
        } else {
            (SgePhase::GameList, SgeActionV::Send("M\n"@))
        },
        SgePhase::GameList => if !list_only && !text::starts_with(resp, "M\t"@) {
            (SgePhase::Finished, SgeActionV::Fail(EAccessErrorV::UnexpectedGameList(resp)))
        } else {
            (SgePhase::GameSelect, SgeActionV::Send("F\t"@ + game + "\n"@))
        },
        SgePhase::GameSelect => if !list_only && !game_select_ok(resp) {
            (SgePhase::Finished, SgeActionV::Fail(EAccessErrorV::UnexpectedGameSelect(resp)))
        } else {
            (SgePhase::GamePick, SgeActionV::Send("G\t"@ + game + "\n"@))
        },
        SgePhase::GamePick => (SgePhase::Plan, SgeActionV::Send("P\t"@ + game + "\n"@)),
        SgePhase::Plan => (SgePhase::Chars, SgeActionV::Send("C\n"@)),
        SgePhase::Chars => if list_only {
            (SgePhase::Finished, SgeActionV::Characters(char_pairs(fields(resp), 5)))
        } else {
            match find_character_id_spec(resp, character) {
                Ok(id) => (SgePhase::Login, SgeActionV::Send("L\t"@ + id + "\tSTORM\n"@)),
                Err(e) => (SgePhase::Finished, SgeActionV::Fail(e)),
            }
        },
        SgePhase::Login => (
            SgePhase::Finished,
            if !text::starts_with(resp, "L\t"@) {
                SgeActionV::Fail(EAccessErrorV::UnexpectedLogin(resp))
            } else {
                match parse_session_spec(resp, game, character) {
                    Ok(s) => SgeActionV::LoggedIn(s),
                    Err(e) => SgeActionV::Fail(e),
                }
            },
        ),
        SgePhase::Finished => (SgePhase::Finished, SgeActionV::Fail(EAccessErrorV::UnexpectedLogin(resp))),
    }
}

impl SgeLogin {
    /// A new conversation and its first request, `K`.
    pub fn new(account: &str, password: &str, game_code: &str, character: &str, list_only: bool) -> (r: (SgeLogin, String))
        ensures
            r.0.account@ == account@,
            r.0.password@ == password@,
            r.0.game_code@ == game_code@,
            r.0.character@ == character@,
            r.0.list_only == list_only,
            r.0.phase == SgePhase::Key,
            r.1@ == "K\n"@,
    {
        (
            SgeLogin {
                account: account.to_owned(),
                password: password.to_owned(),
                game_code: game_code.to_owned(),
                character: character.to_owned(),
                list_only,
                phase: SgePhase::Key,
            },
            "K\n".to_owned(),
        )
    }

    /// Takes the server's (trimmed) reply to the last request and says what
    /// to do next.
    pub fn on_reply(&mut self, resp: &str) -> (r: SgeAction)
        requires
            old(self).phase != SgePhase::Finished,
        ensures
            (final(self).phase, r@) == sge_step(
                old(self).phase,
                old(self).account@,
                old(self).password@,
                old(self).game_code@,
                old(self).character@,
                old(self).list_only,
                resp@,
            ),
            final(self).account == old(self).account,
            final(self).password == old(self).password,
            final(self).game_code == old(self).game_code,
            final(self).character == old(self).character,
            final(self).list_only == old(self).list_only,
    {
        let rc = text::chars_of(resp);
        match self.phase {
            SgePhase::Key => {
                let hash = hash_password(self.password.as_str(), resp);
                self.phase = SgePhase::Auth;
                let head = text::join3("A\t", self.account.as_str(), "\t");
                let req = text::join3(head.as_str(), hash.as_str(), "\n");
                SgeAction::Send(req)
            },
            SgePhase::Auth => {
                if !text::contains_lit(&rc, "KEY\t") {
                    self.phase = SgePhase::Finished;
                    if self.list_only {
                        SgeAction::Fail(EAccessError::AuthRejected(resp.to_owned()))
                    } else {
                        let code = last_word_exec(&rc);
                        SgeAction::Fail(
                            EAccessError::AuthFailed { code: text::string_of(&code), response: resp.to_owned() },
                        )
                    }
                } else {
                    self.phase = SgePhase::GameList;
                    SgeAction::Send("M\n".to_owned())
                }
            },
            SgePhase::GameList => {
                if !self.list_only && !text::starts_with_lit(&rc, "M\t") {
                    self.phase = SgePhase::Finished;
                    SgeAction::Fail(EAccessError::UnexpectedGameList(resp.to_owned()))
                } else {
                    self.phase = SgePhase::GameSelect;
                    let req = text::join3("F\t", self.game_code.as_str(), "\n");
                    SgeAction::Send(req)
                }
            },
            SgePhase::GameSelect => {
                let ok = text::contains_lit(&rc, "NORMAL") || text::contains_lit(&rc, "PREMIUM")
                    || text::contains_lit(&rc, "TRIAL") || text::contains_lit(&rc, "INTERNAL")
                    || text::contains_lit(&rc, "FREE");
                if !self.list_only && !ok {
                    self.phase = SgePhase::Finished;
                    SgeAction::Fail(EAccessError::UnexpectedGameSelect(resp.to_owned()))
                } else {
                    self.phase = SgePhase::GamePick;
                    let req = text::join3("G\t", self.game_code.as_str(), "\n");
                    SgeAction::Send(req)
                }
            },
            SgePhase::GamePick => {
                self.phase = SgePhase::Plan;
                let req = text::join3("P\t", self.game_code.as_str(), "\n");
                SgeAction::Send(req)
            },
            SgePhase::Plan => {
                self.phase = SgePhase::Chars;
                SgeAction::Send("C\n".to_owned())
            },
            SgePhase::Chars => {
                if self.list_only {
                    self.phase = SgePhase::Finished;
                    match parse_character_list(resp) {
                        Ok(v) => SgeAction::Characters(v),
                        Err(e) => SgeAction::Fail(e),
                    }
                } else {
                    match find_character_id(resp, self.character.as_str()) {
                        Ok(id) => {
                            self.phase = SgePhase::Login;
                            let req = text::join3("L\t", id.as_str(), "\tSTORM\n");
                            SgeAction::Send(req)
                        },
                        Err(e) => {
                            self.phase = SgePhase::Finished;
                            SgeAction::Fail(e)
                        },
                    }
                }
            },
            SgePhase::Login => {
                self.phase = SgePhase::Finished;
                if !text::starts_with_lit(&rc, "L\t") {
                    SgeAction::Fail(EAccessError::UnexpectedLogin(resp.to_owned()))
                } else {
                    match parse_session(resp, self.game_code.as_str(), self.character.as_str()) {
                        Ok(s) => SgeAction::LoggedIn(s),
                        Err(e) => SgeAction::Fail(e),
                    }
                }
            },
            SgePhase::Finished => {
                SgeAction::Fail(EAccessError::UnexpectedLogin(resp.to_owned()))
            },
        }
    }
}

/// Hashing a byte twice with the same key byte gives it back.
pub proof fn lemma_hash_byte_involution(b: u8, k: u8)
    ensures
        hash_byte(hash_byte(b, k), k) == b,
{
    let x = b.wrapping_sub(32);
    let y = x ^ k;
    let z = y.wrapping_add(32);
    assert(x == (if b < 32 { (b + 224) as u8 } else { (b - 32) as u8 }));
    assert(z == (if y >= 224 { (y - 224) as u8 } else { (y + 32) as u8 }));
    let x2 = z.wrapping_sub(32);
    assert(x2 == (if z < 32 { (z + 224) as u8 } else { (z - 32) as u8 }));
    assert(x2 == y) by (bit_vector)
        requires
            z == (if y >= 224 { (y - 224) as u8 } else { (y + 32) as u8 }),
            x2 == (if z < 32 { (z + 224) as u8 } else { (z - 32) as u8 }),
    ;
    let y2 = x2 ^ k;
    assert(y2 == x) by (bit_vector)
        requires
            y2 == x2 ^ k,
            x2 == y,
            y == x ^ k,
    ;
    let z2 = y2.wrapping_add(32);
    assert(z2 == (if y2 >= 224 { (y2 - 224) as u8 } else { (y2 + 32) as u8 }));
    assert(z2 == b) by (bit_vector)
        requires
            y2 == x,
            x == (if b < 32 { (b + 224) as u8 } else { (b - 32) as u8 }),
            z2 == (if y2 >= 224 { (y2 - 224) as u8 } else { (y2 + 32) as u8 }),
    ;
}

/// Password hashing undoes itself: hashing the hashed bytes again with the
/// same (non-empty) key gives the password bytes back.
pub proof fn lemma_hash_bytes_involution(pw: Seq<u8>, key: Seq<u8>)
    requires
        key.len() > 0,
    ensures
        hash_bytes(hash_bytes(pw, key), key) == pw,
{
    assert forall|i: int| 0 <= i < pw.len() implies #[trigger] hash_bytes(hash_bytes(pw, key), key)[i]
        == pw[i] by {
        lemma_hash_byte_involution(pw[i], key[i % (key.len() as int)]);
    }
    assert(hash_bytes(hash_bytes(pw, key), key) =~= pw);
}

/// The account-type check after `F`: a reply naming a normal, premium,
/// trial, internal or free account (or any reply, when only the character
/// list is wanted) moves on to picking the game with `G`; any other reply
/// ends the conversation with `UnexpectedGameSelect` carrying the reply.
pub proof fn lemma_game_select(
    account: Seq<char>,
    password: Seq<char>,
    game: Seq<char>,
    character: Seq<char>,
    list_only: bool,
    resp: Seq<char>,
)
    ensures
        ({
            let accepted = list_only || text::contains_sub(resp, "NORMAL"@) || text::contains_sub(resp, "PREMIUM"@)
                || text::contains_sub(resp, "TRIAL"@) || text::contains_sub(resp, "INTERNAL"@)
                || text::contains_sub(resp, "FREE"@);
            let step = sge_step(SgePhase::GameSelect, account, password, game, character, list_only, resp);
            &&& accepted ==> step == (SgePhase::GamePick, SgeActionV::Send("G\t"@ + game + "\n"@))
            &&& !accepted ==> step == (
                SgePhase::Finished,
                SgeActionV::Fail(EAccessErrorV::UnexpectedGameSelect(resp)),
            )
        }),
        text::contains_sub(resp, "PREMIUM"@) ==> sge_step(
            SgePhase::GameSelect,
            account,
            password,
            game,
            character,
            list_only,
            resp,
        ) == (SgePhase::GamePick, SgeActionV::Send("G\t"@ + game + "\n"@)),
{
}

} // verus!
