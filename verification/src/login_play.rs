//! What the login screen does when a character is played: the password
//! that goes with it, the saved entries it adds on the way, the request it
//! waits on, and the result once the request is answered. Also the lists
//! the saved-characters tab shows.
use vstd::prelude::*;
use crate::text;
use crate::credentials::{
    AccountV, CharV, CredentialStore, crypto_message, decrypt_spec, find_account, key_view, opt_view,
    store_with_char, with_account,
};
use crate::eaccess::Session;
use crate::login::{Frontend, LoginApp, LoginResult, PendingPlay, opt_key};

verus! {

/// The fields of a play in waiting, as values.
pub struct PendingV {
    pub account: Seq<char>,
    pub password: Seq<char>,
    pub game_code: Seq<char>,
    pub character: Seq<char>,
    pub frontend: Frontend,
    pub custom_launch: Option<Seq<char>>,
    pub custom_launch_dir: Option<Seq<char>>,
}

impl View for PendingPlay {
    type V = PendingV;

    open spec fn view(&self) -> PendingV {
        PendingV {
            account: self.account@,
            password: self.password@,
            game_code: self.game_code@,
            character: self.character@,
            frontend: self.frontend,
            custom_launch: opt_view(self.custom_launch),
            custom_launch_dir: opt_view(self.custom_launch_dir),
        }
    }
}

pub open spec fn opt_pending(p: Option<PendingPlay>) -> Option<PendingV> {
    match p {
        Some(x) => Some(x@),
        None => None,
    }
}

fn key_ref(k: &Option<[u8; 32]>) -> (r: Option<&[u8; 32]>)
    ensures
        key_view(r) == opt_key(*k),
{
    match k {
        Some(a) => Some(a),
        None => None,
    }
}

impl LoginApp {
    /// Sends the login request for `pending` on its way: the screen waits
    /// for its answer.
    pub fn start_play(&mut self, pending: PendingPlay)
        ensures
            final(self).authenticating,
            opt_pending(final(self).pending_play) == Some(pending@),
            final(self).store@ == old(self).store@,
            final(self).key == old(self).key,
            final(self).result == old(self).result,
            final(self).saved_status == old(self).saved_status,
            final(self).manual_status == old(self).manual_status,
    {
        self.authenticating = true;
        self.pending_play = Some(pending);
    }

    /// Plays a saved character: its account's password is read back with
    /// the key in use and the login request starts; when it cannot be
    /// read, the saved tab says why and nothing starts.
    pub fn play_saved(
        &mut self,
        account: &str,
        name: &str,
        game_code: &str,
        frontend: &str,
        custom_launch: Option<String>,
        custom_launch_dir: Option<String>,
    ) -> (r: bool)
        ensures
            final(self).store@ == old(self).store@,
            final(self).key == old(self).key,
            final(self).result == old(self).result,
            match find_account(old(self).store@, account@, 0) {
                None => !r && final(self).saved_status@ == "Failed to decrypt password: "@ + "Account not found: "@
                    + account@ && final(self).authenticating == old(self).authenticating
                    && opt_pending(final(self).pending_play) == opt_pending(old(self).pending_play),
                Some(i) => match decrypt_spec(old(self).store@[i].encrypted_password, opt_key(old(self).key)) {
                    Ok(pw) => r && final(self).authenticating && opt_pending(final(self).pending_play) == Some(
                        PendingV {
                            account: account@,
                            password: pw,
                            game_code: game_code@,
                            character: name@,
                            frontend: Frontend::from_spec(frontend@),
                            custom_launch: opt_view(custom_launch),
                            custom_launch_dir: opt_view(custom_launch_dir),
                        },
                    ) && final(self).saved_status == old(self).saved_status,
                    Err(e) => !r && final(self).saved_status@ == "Failed to decrypt password: "@ + crypto_message(e)
                        && final(self).authenticating == old(self).authenticating
                        && opt_pending(final(self).pending_play) == opt_pending(old(self).pending_play),
                },
            },
    {
        proof {
            reveal_strlit("");
        }
        let k = key_ref(&self.key);
        match self.store.get_password(account, k) {
            Ok(pw) => {
                let pending = PendingPlay {
                    account: text::join3(account, "", ""),
                    password: pw,
                    game_code: text::join3(game_code, "", ""),
                    character: text::join3(name, "", ""),
                    frontend: Frontend::from_str(frontend),
                    custom_launch,
                    custom_launch_dir,
                };
                self.start_play(pending);
                true
            },
            Err(e) => {
                let m = e.message();
                self.saved_status = text::join3("Failed to decrypt password: ", m.as_str(), "");
                false
            },
        }
    }

    /// The answer to the login request: on success the pending play becomes
    /// the login's result (with `theme`); on failure both tabs say why.
    /// Either way the screen stops waiting.
    pub fn finish_play(&mut self, answer: Result<Session, String>, theme: &str)
        ensures
            !final(self).authenticating,
            final(self).store@ == old(self).store@,
            final(self).key == old(self).key,
            match answer {
                Ok(s) => match old(self).pending_play {
                    Some(p) => final(self).pending_play is None && (final(self).result matches Some(res) && {
                        &&& res.account@ == p.account@
                        &&& res.password@ == p.password@
                        &&& res.game_code@ == p.game_code@
                        &&& res.character@ == p.character@
                        &&& res.frontend == p.frontend
                        &&& opt_view(res.custom_launch) == opt_view(p.custom_launch)
                        &&& opt_view(res.custom_launch_dir) == opt_view(p.custom_launch_dir)
                        &&& res.session == Some(s)
                        &&& res.theme@ == theme@
                    }),
                    None => final(self).pending_play is None && final(self).result == old(self).result,
                },
                Err(e) => final(self).manual_status@ == "Auth failed: "@ + e@ && final(self).saved_status@
                    == "Auth failed: "@ + e@ && final(self).result == old(self).result && opt_pending(
                    final(self).pending_play,
                ) == opt_pending(old(self).pending_play),
            },
    {
        proof {
            reveal_strlit("");
        }
        self.authenticating = false;
        match answer {
            Ok(session) => {
                match self.pending_play.take() {
                    Some(p) => {
                        self.result = Some(
                            LoginResult {
                                account: p.account,
                                password: p.password,
                                game_code: p.game_code,
                                character: p.character,
                                frontend: p.frontend,
                                custom_launch: p.custom_launch,
                                custom_launch_dir: p.custom_launch_dir,
                                session: Some(session),
                                theme: text::join3(theme, "", ""),
                            },
                        );
                    },
                    None => {},
                }
            },
            Err(e) => {
                self.manual_status = text::join3("Auth failed: ", e.as_str(), "");
                self.saved_status = text::join3("Auth failed: ", e.as_str(), "");
            },
        }
    }
}

/// The entry saved for a character played by hand.
pub open spec fn manual_char(
    character: Seq<char>,
    game_code: Seq<char>,
    game_name: Seq<char>,
    frontend: Frontend,
    custom: Option<(Seq<char>, Seq<char>)>,
) -> CharV {
    CharV {
        name: character,
        game_code,
        game_name,
        favorite: false,
        frontend: frontend.name_spec(),
        custom_launch: match custom {
            Some(c) => Some(c.0),
            None => None,
        },
        custom_launch_dir: match custom {
            Some(c) => Some(c.1),
            None => None,
        },
    }
}

pub open spec fn custom_view(c: Option<(String, String)>) -> Option<(Seq<char>, Seq<char>)> {
    match c {
        Some(p) => Some((p.0@, p.1@)),
        None => None,
    }
}

impl LoginApp {
    /// Plays a character entered by hand (with its own launch command and
    /// folder when `custom` is given). When `save` is set, the account is
    /// saved first if it is not yet (its password encrypted with the key in
    /// use) and the character is added to it; a failure to save stops the
    /// play and says why.
    pub fn manual_play(
        &mut self,
        account: &str,
        password: &str,
        game_code: &str,
        game_name: &str,
        character: &str,
        frontend: Frontend,
        custom: Option<(String, String)>,
        save: bool,
    ) -> (r: bool)
        ensures
            final(self).key == old(self).key,
            final(self).result == old(self).result,
            !save ==> r && final(self).store@ == old(self).store@,
            save && find_account(old(self).store@, account@, 0) is Some ==> r && final(self).store@ == store_with_char(
                old(self).store@,
                account@,
                manual_char(character@, game_code@, game_name@, frontend, custom_view(custom)),
            ),
            save && find_account(old(self).store@, account@, 0) is None ==> (r ==> exists|enc: Seq<char>|
                decrypt_spec(enc, opt_key(old(self).key)) == Ok::<Seq<char>, crate::credentials::CryptoError>(password@)
                    && #[trigger] final(self).store@ == store_with_char(
                    with_account(old(self).store@, account@, enc),
                    account@,
                    manual_char(character@, game_code@, game_name@, frontend, custom_view(custom)),
                )),
            password@.len() <= 0x1_0000_0000 ==> r,
            !r ==> final(self).store@ == old(self).store@ && old(self).key is Some && exists|e: crate::credentials::CryptoError|
                final(self).manual_status@ == "Failed to save account: "@ + #[trigger] crypto_message(e),
            r ==> final(self).authenticating && final(self).manual_status@ == "Authenticating..."@ && opt_pending(
                final(self).pending_play,
            ) == Some(
                PendingV {
                    account: account@,
                    password: password@,
                    game_code: game_code@,
                    character: character@,
                    frontend,
                    custom_launch: manual_char(character@, game_code@, game_name@, frontend, custom_view(custom)).custom_launch,
                    custom_launch_dir: manual_char(character@, game_code@, game_name@, frontend, custom_view(custom)).custom_launch_dir,
                },
            ),
    {
        proof {
            reveal_strlit("");
        }
        let (cl, cld) = match custom {
            Some((a, b)) => (Some(a), Some(b)),
            None => (None, None),
        };
        if save {
            proof {
                crate::credentials::lemma_find_account(self.store@, account@, 0);
            }
            let exists = crate::credentials::account_index(&self.store.accounts, account).is_some();
            if !exists {
                let k = key_ref(&self.key);
                match self.store.add_account(account, password, k) {
                    Ok(()) => {},
                    Err(e) => {
                        self.manual_status = text::join3("Failed to save account: ", e.message(), "");
                        return false;
                    },
                }
            }
            let cl2 = match &cl {
                Some(x) => Some(text::join3(x.as_str(), "", "")),
                None => None,
            };
            let cld2 = match &cld {
                Some(x) => Some(text::join3(x.as_str(), "", "")),
                None => None,
            };
            self.store.add_character(account, character, game_code, game_name, frontend.as_str(), cl2, cld2);
        }
        let pending = PendingPlay {
            account: text::join3(account, "", ""),
            password: text::join3(password, "", ""),
            game_code: text::join3(game_code, "", ""),
            character: text::join3(character, "", ""),
            frontend,
            custom_launch: cl,
            custom_launch_dir: cld,
        };
        self.manual_status = "Authenticating...".to_owned();
        self.start_play(pending);
        true
    }
}

// ── The saved-characters tab ────────────────────────────────────────────────

/// The side tabs of the saved-characters tab: the favorites first, then
/// every account's name in capitals.
pub open spec fn tab_labels_spec(s: Seq<AccountV>) -> Seq<Seq<char>> {
    seq!["\u{2605} FAVORITES"@] + s.map_values(|a: AccountV| text::unicode_uppercase(a.account))
}

pub fn saved_tab_labels(store: &CredentialStore) -> (r: Vec<String>)
    ensures
        r@.map_values(|x: String| x@) == tab_labels_spec(store@),
{
    let mut out: Vec<String> = Vec::new();
    out.push("\u{2605} FAVORITES".to_owned());
    let ghost first = out@.map_values(|x: String| x@);
    let mut i: usize = 0;
    while i < store.accounts.len()
        invariant
            i <= store.accounts.len(),
            first == seq!["\u{2605} FAVORITES"@],
            out@.map_values(|x: String| x@) == first + store@.take(i as int).map_values(
                |a: AccountV| text::unicode_uppercase(a.account),
            ),
        decreases store.accounts.len() - i,
    {
        let ghost prev = out@;
        let u = text::to_uppercase(store.accounts[i].account.as_str());
        out.push(u);
        assert(store@[i as int].account == store.accounts@[i as int].account@);
        assert(out@.map_values(|x: String| x@) =~= prev.map_values(|x: String| x@).push(u@));
        assert(store@.take(i + 1).map_values(|a: AccountV| text::unicode_uppercase(a.account)) =~= store@.take(
            i as int,
        ).map_values(|a: AccountV| text::unicode_uppercase(a.account)).push(u@));
        i += 1;
    }
    assert(store@.take(i as int) =~= store@);
    out
}

/// The side tab to show: `selected` while it names a tab, else the first.
pub fn clamp_tab(selected: usize, count: usize) -> (r: usize)
    ensures
        r == (if selected >= count { 0 } else { selected }),
{
    if selected >= count {
        0
    } else {
        selected
    }
}

/// A saved character marked as a favorite, with its account.
#[derive(Debug, Clone, PartialEq, Eq)]
pub struct Favorite {
    pub account: String,
    pub name: String,
    pub game_code: String,
    pub game_name: String,
    pub frontend: String,
    pub custom_launch: Option<String>,
    pub custom_launch_dir: Option<String>,
}

/// A favorite as values: its account and its saved entry.
pub struct FavV {
    pub account: Seq<char>,
    pub ch: CharV,
}

impl View for Favorite {
    type V = FavV;

    open spec fn view(&self) -> FavV {
        FavV {
            account: self.account@,
            ch: CharV {
                name: self.name@,
                game_code: self.game_code@,
                game_name: self.game_name@,
                favorite: true,
                frontend: self.frontend@,
                custom_launch: opt_view(self.custom_launch),
                custom_launch_dir: opt_view(self.custom_launch_dir),
            },
        }
    }
}

/// The favorites among `chars` of `account`, in order.
pub open spec fn favs_of(account: Seq<char>, chars: Seq<CharV>) -> Seq<FavV>
    decreases chars.len(),
{
    if chars.len() == 0 {
        seq![]
    } else if chars.last().favorite {
        favs_of(account, chars.drop_last()).push(FavV { account, ch: chars.last() })
    } else {
        favs_of(account, chars.drop_last())
    }
}

/// The favorites of all accounts, account by account, in order.
pub open spec fn favs_all(s: Seq<AccountV>) -> Seq<FavV>
    decreases s.len(),
{
    if s.len() == 0 {
        seq![]
    } else {
        favs_all(s.drop_last()) + favs_of(s.last().account, s.last().characters)
    }
}

/// `a` comes before or equals `b` in character order (`str`'s order).
pub open spec fn lex_le(a: Seq<char>, b: Seq<char>) -> bool
    decreases a.len(),
{
    if a.len() == 0 {
        true
    } else if b.len() == 0 {
        false
    } else if a[0] != b[0] {
        a[0] < b[0]
    } else {
        lex_le(a.drop_first(), b.drop_first())
    }
}

pub open spec fn fav_key(f: FavV) -> Seq<char> {
    text::unicode_lowercase(f.ch.name)
}

/// `f` put into `sorted` after every entry whose key is not above its own.
pub open spec fn insert_by_name(sorted: Seq<FavV>, f: FavV) -> Seq<FavV>
    decreases sorted.len(),
{
    if sorted.len() == 0 {
        seq![f]
    } else if lex_le(fav_key(sorted.last()), fav_key(f)) {
        sorted.push(f)
    } else {
        insert_by_name(sorted.drop_last(), f).push(sorted.last())
    }
}

/// `s` sorted by lowercased name, entries with equal keys kept in order
/// (a stable sort).
pub open spec fn sort_by_name(s: Seq<FavV>) -> Seq<FavV>
    decreases s.len(),
{
    if s.len() == 0 {
        seq![]
    } else {
        insert_by_name(sort_by_name(s.drop_last()), s.last())
    }
}

fn lex_le_exec(a: &[char], b: &[char]) -> (r: bool)
    ensures
        r == lex_le(a@, b@),
{
    let mut i: usize = 0;
    assert(a@.skip(0) =~= a@);
    assert(b@.skip(0) =~= b@);
    while i < a.len() && i < b.len() && a[i] == b[i]
        invariant
            i <= a.len(),
            i <= b.len(),
            lex_le(a@, b@) == lex_le(a@.skip(i as int), b@.skip(i as int)),
        decreases a.len() - i,
    {
        assert(a@.skip(i as int).drop_first() =~= a@.skip(i + 1));
        assert(b@.skip(i as int).drop_first() =~= b@.skip(i + 1));
        i += 1;
    }
    if i == a.len() {
        true
    } else if i == b.len() {
        false
    } else {
        a[i] < b[i]
    }
}

fn fav_key_exec(f: &Favorite) -> (r: Vec<char>)
    ensures
        r@ == fav_key(f@),
{
    text::chars_of(text::to_lowercase(f.name.as_str()).as_str())
}

pub open spec fn favs_view(v: Seq<Favorite>) -> Seq<FavV> {
    v.map_values(|f: Favorite| f@)
}

fn insert_favorite(v: &mut Vec<Favorite>, f: Favorite)
    ensures
        favs_view(final(v)@) == insert_by_name(favs_view(old(v)@), f@),
{
    let ghost s = favs_view(v@);
    let fk = fav_key_exec(&f);
    let mut j: usize = v.len();
    assert(s.take(j as int) =~= s);
    assert(insert_by_name(s, f@) =~= insert_by_name(s.take(j as int), f@) + s.skip(j as int));
    while j > 0
        invariant_except_break
            j <= v.len(),
            v@ == old(v)@,
            s == favs_view(v@),
            fk@ == fav_key(f@),
            insert_by_name(s, f@) == insert_by_name(s.take(j as int), f@) + s.skip(j as int),
        ensures
            j <= v.len(),
            v@ == old(v)@,
            s == favs_view(v@),
            insert_by_name(s, f@) == s.take(j as int).push(f@) + s.skip(j as int),
        decreases j,
    {
        let k = fav_key_exec(&v[j - 1]);
        assert(s.take(j as int).last() == s[j - 1]);
        assert(s.take(j as int).drop_last() =~= s.take(j - 1));
        if lex_le_exec(&k, &fk) {
            break;
        }
        assert(s.skip(j - 1) =~= seq![s[j - 1]] + s.skip(j as int));
        assert(insert_by_name(s.take(j - 1), f@).push(s[j - 1]) + s.skip(j as int) =~= insert_by_name(s.take(j - 1), f@) + s.skip(j - 1));
        j -= 1;
    }
    proof {
        if j == 0 {
            assert(s.take(0) =~= seq![]);
        }
    }
    let ghost before = v@;
    v.insert(j, f);
    assert(favs_view(v@) =~= s.take(j as int).push(f@) + s.skip(j as int));
}

fn favorite_of(account: &str, c: &crate::credentials::SavedCharacter) -> (r: Favorite)
    requires
        c.favorite,
    ensures
        r@ == (FavV { account: account@, ch: c@ }),
{
    proof {
        reveal_strlit("");
    }
    let cl = match &c.custom_launch {
        Some(x) => Some(text::join3(x.as_str(), "", "")),
        None => None,
    };
    let cld = match &c.custom_launch_dir {
        Some(x) => Some(text::join3(x.as_str(), "", "")),
        None => None,
    };
    Favorite {
        account: text::join3(account, "", ""),
        name: text::join3(c.name.as_str(), "", ""),
        game_code: text::join3(c.game_code.as_str(), "", ""),
        game_name: text::join3(c.game_name.as_str(), "", ""),
        frontend: text::join3(c.frontend.as_str(), "", ""),
        custom_launch: cl,
        custom_launch_dir: cld,
    }
}

/// The favorite characters of all accounts, sorted by lowercased name
/// (ties kept in account order).
pub fn favorites(store: &CredentialStore) -> (r: Vec<Favorite>)
    ensures
        favs_view(r@) == sort_by_name(favs_all(store@)),
{
    let mut out: Vec<Favorite> = Vec::new();
    let ghost mut seen: Seq<FavV> = seq![];
    assert(favs_view(out@) =~= sort_by_name(seen));
    let mut i: usize = 0;
    while i < store.accounts.len()
        invariant
            i <= store.accounts.len(),
            seen == favs_all(store@.take(i as int)),
            favs_view(out@) == sort_by_name(seen),
        decreases store.accounts.len() - i,
    {
        let a = &store.accounts[i];
        let ghost av = store@[i as int];
        assert(av == a@);
        let mut j: usize = 0;
        let ghost base = seen;
        assert(favs_of(av.account, av.characters.take(0)) =~= seq![]);
        assert(seen =~= base + favs_of(av.account, av.characters.take(0)));
        while j < a.characters.len()
            invariant
                i < store.accounts.len(),
                a == &store.accounts[i as int],
                av == a@,
                j <= a.characters.len(),
                seen == base + favs_of(av.account, av.characters.take(j as int)),
                favs_view(out@) == sort_by_name(seen),
            decreases a.characters.len() - j,
        {
            assert(av.characters.take(j + 1).drop_last() =~= av.characters.take(j as int));
            assert(av.characters.take(j + 1).last() == a.characters@[j as int]@);
            if a.characters[j].favorite {
                let f = favorite_of(a.account.as_str(), &a.characters[j]);
                insert_favorite(&mut out, f);
                proof {
                    let ns = seen.push(f@);
                    assert(ns.drop_last() =~= seen);
                    seen = ns;
                }
                assert(seen =~= base + favs_of(av.account, av.characters.take(j + 1)));
            } else {
                assert(seen =~= base + favs_of(av.account, av.characters.take(j + 1)));
            }
            j += 1;
        }
        assert(av.characters.take(j as int) =~= av.characters);
        assert(store@.take(i + 1).drop_last() =~= store@.take(i as int));
        assert(store@.take(i + 1).last() == av);
        i += 1;
    }
    assert(store@.take(i as int) =~= store@);
    out
}

// ── The favorites' order ────────────────────────────────────────────────────

/// Every entry's key is at most the key of every later entry.
pub open spec fn sorted_by_name(s: Seq<FavV>) -> bool {
    forall|i: int, j: int| 0 <= i < j < s.len() ==> lex_le(fav_key(s[i]), fav_key(s[j]))
}

proof fn lemma_lex_le_total(a: Seq<char>, b: Seq<char>)
    ensures
        lex_le(a, b) || lex_le(b, a),
    decreases a.len(),
{
    if a.len() > 0 && b.len() > 0 {
        if a[0] == b[0] {
            lemma_lex_le_total(a.drop_first(), b.drop_first());
        }
    }
}

proof fn lemma_lex_le_trans(a: Seq<char>, b: Seq<char>, c: Seq<char>)
    requires
        lex_le(a, b),
        lex_le(b, c),
    ensures
        lex_le(a, c),
    decreases a.len(),
{
    if a.len() > 0 && b.len() > 0 && c.len() > 0 && a[0] == b[0] && b[0] == c[0] {
        lemma_lex_le_trans(a.drop_first(), b.drop_first(), c.drop_first());
    }
}

proof fn lemma_insert_sorted(s: Seq<FavV>, f: FavV)
    requires
        sorted_by_name(s),
    ensures
        sorted_by_name(insert_by_name(s, f)),
        insert_by_name(s, f).to_multiset() =~= s.to_multiset().insert(f),
        insert_by_name(s, f).len() == s.len() + 1,
        forall|i: int| 0 <= i < insert_by_name(s, f).len() ==> (#[trigger] insert_by_name(s, f)[i] == f || s.contains(insert_by_name(s, f)[i])),
    decreases s.len(),
{
    broadcast use vstd::seq_lib::group_seq_properties;
    let r = insert_by_name(s, f);
    if s.len() == 0 {
        assert(r =~= seq![f]);
    } else if lex_le(fav_key(s.last()), fav_key(f)) {
        assert forall|i: int, j: int| 0 <= i < j < r.len() implies lex_le(fav_key(r[i]), fav_key(r[j])) by {
            if j == r.len() - 1 {
                if i < s.len() - 1 {
                    lemma_lex_le_trans(fav_key(s[i]), fav_key(s.last()), fav_key(f));
                }
            }
        }
        assert(s.push(f).drop_last() =~= s);
    } else {
        let d = s.drop_last();
        let l = s.last();
        assert(sorted_by_name(d));
        lemma_insert_sorted(d, f);
        let t = insert_by_name(d, f);
        assert(r == t.push(l));
        lemma_lex_le_total(fav_key(l), fav_key(f));
        assert forall|i: int, j: int| 0 <= i < j < r.len() implies lex_le(fav_key(r[i]), fav_key(r[j])) by {
            if j == r.len() - 1 {
                assert(r[j] == l);
                assert(r[i] == t[i]);
                if t[i] == f {
                } else {
                    assert(d.contains(t[i]));
                    let k = choose|k: int| 0 <= k < d.len() && d[k] == t[i];
                    assert(s[k] == d[k]);
                }
            } else {
                assert(r[i] == t[i]);
                assert(r[j] == t[j]);
            }
        }
        assert forall|i: int| 0 <= i < r.len() implies (#[trigger] r[i] == f || s.contains(r[i])) by {
            if i == r.len() - 1 {
                assert(s[s.len() - 1] == l);
            } else {
                assert(r[i] == t[i]);
                if t[i] != f {
                    let k = choose|k: int| 0 <= k < d.len() && d[k] == t[i];
                    assert(s[k] == d[k]);
                }
            }
        }
        assert(s =~= d.push(l));
    }
}

/// The favorites' order: sorted by lowercased name, and holding exactly the
/// favorites it was given.
pub proof fn lemma_sort_by_name(s: Seq<FavV>)
    ensures
        sorted_by_name(sort_by_name(s)),
        sort_by_name(s).to_multiset() =~= s.to_multiset(),
    decreases s.len(),
{
    broadcast use vstd::seq_lib::group_seq_properties;
    if s.len() > 0 {
        lemma_sort_by_name(s.drop_last());
        lemma_insert_sorted(sort_by_name(s.drop_last()), s.last());
        assert(s =~= s.drop_last().push(s.last()));
    }
}

// ── Adding a fetched account ────────────────────────────────────────────────

/// A GemStone IV character played with Wrayth, as the accounts tab saves
/// the characters it fetched.
pub open spec fn fetched_char(name: Seq<char>) -> CharV {
    CharV {
        name,
        game_code: "GS3"@,
        game_name: "GemStone IV"@,
        favorite: false,
        frontend: "stormfront"@,
        custom_launch: None,
        custom_launch_dir: None,
    }
}

/// The store after each of the first `n` characters is added to `account`.
pub open spec fn with_fetched(s: Seq<AccountV>, account: Seq<char>, names: Seq<Seq<char>>, n: int) -> Seq<AccountV>
    decreases n,
{
    if n <= 0 || n > names.len() {
        s
    } else {
        store_with_char(with_fetched(s, account, names, n - 1), account, fetched_char(names[n - 1]))
    }
}

impl LoginApp {
    /// Saves an account fetched on the accounts tab with the characters it
    /// has: the account first when none of that name is saved yet (its
    /// password encrypted with the key in use), then each character. Gives
    /// the number of characters saved, or the message to show.
    pub fn save_fetched_account(&mut self, account: &str, password: &str, names: &Vec<String>) -> (r: Result<usize, String>)
        ensures
            final(self).key == old(self).key,
            account@.len() == 0 ==> (r matches Err(m) && m@ == "Username is required."@) && final(self).store@ == old(self).store@,
            account@.len() > 0 && find_account(old(self).store@, account@, 0) is Some ==> r == Ok::<usize, String>(names.len())
                && final(self).store@ == with_fetched(old(self).store@, account@, names@.map_values(|x: String| x@), names.len() as int),
            account@.len() > 0 && find_account(old(self).store@, account@, 0) is None ==> match r {
                Ok(n) => n == names.len() && exists|enc: Seq<char>|
                    decrypt_spec(enc, opt_key(old(self).key)) == Ok::<Seq<char>, crate::credentials::CryptoError>(password@)
                        && #[trigger] final(self).store@ == with_fetched(
                        with_account(old(self).store@, account@, enc),
                        account@,
                        names@.map_values(|x: String| x@),
                        names.len() as int,
                    ),
                Err(m) => final(self).store@ == old(self).store@ && exists|e: crate::credentials::CryptoError|
                    m@ == "Failed to save account: "@ + #[trigger] crypto_message(e),
            },
            account@.len() > 0 && password@.len() <= 0x1_0000_0000 ==> r is Ok,
    {
        proof {
            reveal_strlit("");
        }
        if text::chars_of(account).len() == 0 {
            return Err("Username is required.".to_owned());
        }
        proof {
            crate::credentials::lemma_find_account(self.store@, account@, 0);
        }
        if crate::credentials::account_index(&self.store.accounts, account).is_none() {
            let k = key_ref(&self.key);
            match self.store.add_account(account, password, k) {
                Ok(()) => {},
                Err(e) => {
                    return Err(text::join3("Failed to save account: ", e.message(), ""));
                },
            }
        }
        let ghost base = self.store@;
        let ghost nv = names@.map_values(|x: String| x@);
        let mut i: usize = 0;
        while i < names.len()
            invariant
                i <= names.len(),
                nv == names@.map_values(|x: String| x@),
                self.store@ == with_fetched(base, account@, nv, i as int),
                self.key == old(self).key,
            decreases names.len() - i,
        {
            assert(nv[i as int] == names@[i as int]@);
            self.store.add_character(account, names[i].as_str(), "GS3", "GemStone IV", "stormfront", None, None);
            i += 1;
        }
        Ok(names.len())
    }
}

/// `Saved <n> character(s) for '<account>'.`
pub fn saved_message(n: usize, account: &str) -> (r: String)
    ensures
        r@ == "Saved "@ + crate::launch::decimal(n as nat) + " character(s) for '"@ + account@ + "'."@,
{
    let d = text::string_of(&crate::launch::decimal_text(n as u64));
    let head = text::join3("Saved ", d.as_str(), " character(s) for '");
    text::join3(head.as_str(), account, "'.")
}

} // verus!
