//! The decisions of a proxied game session: the handshake sent to the game
//! server, where the game's data files live, how parsed events update the
//! object registry, and how client input is cut into lines.
use vstd::prelude::*;
use crate::text;
use crate::game_obj::{GameObjRegistry, ObjCategory, ObjCategoryV, RegView, file_in_container, foc, opt_str, opt_view, upsert};
use crate::xml_parser::{Ev, ObjHand, XmlEvent};

verus! {

/// Version string sent to the game server during the handshake.
pub const CLIENT_STRING: &'static str = "/FE:WRAYTH /VERSION:1.0.1.28 /P:WIN_UNKNOWN /XML";

/// The lines the proxy sends the game server after the client's key, in
/// order: its version string, two ready signals, then the requests for
/// injury detail and the inventory and dialog box flags. The first ready
/// signal follows a pause, and so does the second.
pub open spec fn handshake_spec() -> Seq<Seq<char>> {
    seq![
        CLIENT_STRING@ + "\n"@,
        "<c>\n"@,
        "<c>\n"@,
        "<c>_injury 2\n"@,
        "<c>_flag Display Inventory Boxes 1\n"@,
        "<c>_flag Display Dialog Boxes 0\n"@,
    ]
}

pub open spec fn strings_view(v: Seq<String>) -> Seq<Seq<char>> {
    v.map_values(|s: String| s@)
}

pub fn handshake_lines() -> (r: Vec<String>)
    ensures
        strings_view(r@) == handshake_spec(),
{
    let mut first: Vec<char> = Vec::new();
    text::push_str(&mut first, CLIENT_STRING);
    text::push_str(&mut first, "\n");
    let r = vec![
        text::string_of(&first),
        "<c>\n".to_owned(),
        "<c>\n".to_owned(),
        "<c>_injury 2\n".to_owned(),
        "<c>_flag Display Inventory Boxes 1\n".to_owned(),
        "<c>_flag Display Dialog Boxes 0\n".to_owned(),
    ];
    assert(strings_view(r@) =~= handshake_spec());
    r
}

/// Game-specific data subfolder: codes starting with `DR` use `dr`, all others `gs`.
pub open spec fn data_game_dir_spec(code: Seq<char>) -> Seq<char> {
    if text::starts_with(code, "DR"@) {
        "dr"@
    } else {
        "gs"@
    }
}

pub fn data_game_dir(game_code: &str) -> (r: &'static str)
    ensures
        r@ == data_game_dir_spec(game_code@),
{
    let c = text::chars_of(game_code);
    if text::starts_with_lit(&c, "DR") {
        "dr"
    } else {
        "gs"
    }
}

/// `{scripts_dir}/data/{dr|gs}/{file}`.
pub fn data_file_path(scripts_dir: &str, game_code: &str, file: &str) -> (r: String)
    ensures
        r@ == scripts_dir@ + "/data/"@ + data_game_dir_spec(game_code@) + "/"@ + file@,
{
    let mut p: Vec<char> = Vec::new();
    text::push_str(&mut p, scripts_dir);
    text::push_str(&mut p, "/data/");
    text::push_str(&mut p, data_game_dir(game_code));
    text::push_str(&mut p, "/");
    text::push_str(&mut p, file);
    text::string_of(&p)
}

/// `{scripts_dir}/autostart.lua`.
pub fn autostart_path(scripts_dir: &str) -> (r: String)
    ensures
        r@ == scripts_dir@ + "/autostart.lua"@,
{
    let mut p: Vec<char> = Vec::new();
    text::push_str(&mut p, scripts_dir);
    text::push_str(&mut p, "/autostart.lua");
    text::string_of(&p)
}

// ── Registry updates ────────────────────────────────────────────────────────

pub open spec fn status_after_v(st: Seq<(Seq<char>, Seq<char>)>, id: Seq<char>, status: Option<Seq<char>>) -> Seq<(Seq<char>, Seq<char>)> {
    match status {
        Some(s) => crate::game_obj::assoc_insert(st, id, s),
        None => st,
    }
}

/// How one parsed event changes the object registry. Events that name no
/// registry change leave it as it is.
pub open spec fn registry_step(r: RegView, e: Ev) -> RegView {
    match e {
        Ev::GameObjCreate { id, noun, name, category, status } => {
            let f = foc(r.index, id, noun, name, None, None);
            match category {
                ObjCategoryV::Npc => RegView {
                    npc_status: status_after_v(r.npc_status, id, status),
                    index: f.0,
                    npcs: upsert(r.npcs, id, f.1),
                    ..r
                },
                ObjCategoryV::Loot => RegView { index: f.0, loot: upsert(r.loot, id, f.1), ..r },
                ObjCategoryV::Pc => RegView {
                    pc_status: status_after_v(r.pc_status, id, status),
                    index: f.0,
                    pcs: upsert(r.pcs, id, f.1),
                    ..r
                },
                ObjCategoryV::RoomDesc => RegView {
                    index: f.0,
                    room_desc: upsert(r.room_desc, id, f.1),
                    ..r
                },
                ObjCategoryV::Inv { container } => match container {
                    Some(cid) => RegView {
                        index: f.0,
                        contents: file_in_container(r.contents, cid, id, f.1),
                        ..r
                    },
                    None => RegView { index: f.0, inv: upsert(r.inv, id, f.1), ..r },
                },
            }
        },
        Ev::GameObjHandUpdate { hand, id, noun, name } => {
            let f = foc(r.index, id, noun, name, None, None);
            match hand {
                ObjHand::Right => RegView { index: f.0, right_hand: Some(f.1), ..r },
                ObjHand::Left => RegView { index: f.0, left_hand: Some(f.1), ..r },
            }
        },
        Ev::GameObjHandClear { hand } => match hand {
            ObjHand::Right => RegView { right_hand: None, ..r },
            ObjHand::Left => RegView { left_hand: None, ..r },
        },
        Ev::ComponentClear { component_id } => if component_id == "room objs"@ {
            RegView { loot: seq![], npcs: seq![], npc_status: seq![], ..r }
        } else if component_id == "room players"@ {
            RegView { pcs: seq![], pc_status: seq![], ..r }
        } else if component_id == "inv"@ {
            RegView { inv: seq![], ..r }
        } else {
            r
        },
        Ev::RoomId { .. } | Ev::RoomCountBump => RegView {
            loot: seq![],
            npcs: seq![],
            npc_status: seq![],
            pcs: seq![],
            pc_status: seq![],
            room_desc: seq![],
            ..r
        },
        _ => r,
    }
}

fn as_opt_str(o: &Option<String>) -> (r: Option<&str>)
    ensures
        opt_str(r) == opt_view(*o),
{
    match o {
        Some(s) => Some(s.as_str()),
        None => None,
    }
}

/// Applies one parsed event to the object registry.
pub fn apply_registry_event(go: &mut GameObjRegistry, event: &XmlEvent)
    requires
        old(go)@.wf(),
    ensures
        final(go)@ == registry_step(old(go)@, event@),
        final(go)@.wf(),
{
    match event {
        XmlEvent::GameObjCreate { id, noun, name, category, status } => {
            let st = as_opt_str(status);
            match category {
                ObjCategory::Npc => go.new_npc(id.as_str(), noun.as_str(), name.as_str(), st),
                ObjCategory::Loot => go.new_loot(id.as_str(), noun.as_str(), name.as_str()),
                ObjCategory::Pc => go.new_pc(id.as_str(), noun.as_str(), name.as_str(), st),
                ObjCategory::RoomDesc => go.new_room_desc(id.as_str(), noun.as_str(), name.as_str()),
                ObjCategory::Inv { container } => {
                    let c = as_opt_str(container);
                    go.new_inv(id.as_str(), noun.as_str(), name.as_str(), c, None, None);
                },
            }
        },
        XmlEvent::GameObjHandUpdate { hand, id, noun, name } => match hand {
            ObjHand::Right => go.new_right_hand(id.as_str(), noun.as_str(), name.as_str()),
            ObjHand::Left => go.new_left_hand(id.as_str(), noun.as_str(), name.as_str()),
        },
        XmlEvent::GameObjHandClear { hand } => match hand {
            ObjHand::Right => go.clear_right_hand(),
            ObjHand::Left => go.clear_left_hand(),
        },
        XmlEvent::ComponentClear { component_id } => {
            let c = text::chars_of(component_id.as_str());
            if text::eq_lit(&c, "room objs") {
                go.clear_loot();
                go.clear_npcs();
            } else if text::eq_lit(&c, "room players") {
                go.clear_pcs();
            } else if text::eq_lit(&c, "inv") {
                go.clear_inv();
            }
        },
        XmlEvent::RoomId { .. } | XmlEvent::RoomCountBump => {
            go.clear_for_room_transition();
        },
        _ => {},
    }
}

// ── Client input ────────────────────────────────────────────────────────────

/// The first complete line of `buf` (through its `\n`) and what follows it.
pub open spec fn take_line_spec(buf: Seq<char>) -> Option<(Seq<char>, Seq<char>)> {
    match text::find_char(buf, '\n') {
        Some(p) => Some((buf.subrange(0, p + 1), buf.subrange(p + 1, buf.len() as int))),
        None => None,
    }
}

/// Takes the first complete line out of the client input buffer.
pub fn take_line(buf: &mut String) -> (r: Option<String>)
    ensures
        match take_line_spec(old(buf)@) {
            Some((line, rest)) => r matches Some(l) && l@ == line && final(buf)@ == rest,
            None => r is None && final(buf)@ == old(buf)@,
        },
{
    let c = text::chars_of(buf.as_str());
    proof {
        text::lemma_find_char_from(c@, '\n', 0);
    }
    match text::find_char_at(&c, '\n', 0) {
        Some(p) => {
            assert(p < c.len());
            let line = text::sub_string(&c, 0, p + 1);
            *buf = text::sub_string(&c, p + 1, c.len());
            Some(line)
        },
        None => None,
    }
}

/// A line for the game server, ending in `\n`.
pub open spec fn terminated(line: Seq<char>) -> Seq<char> {
    if text::ends_with(line, "\n"@) {
        line
    } else {
        line + "\n"@
    }
}

pub fn terminate_line(line: &str) -> (r: String)
    ensures
        r@ == terminated(line@),
{
    let mut c = text::chars_of(line);
    if !text::ends_with_lit(&c, "\n") {
        c.push('\n');
        proof {
            reveal_strlit("\n");
        }
        assert(c@ =~= line@ + "\n"@);
    }
    text::string_of(&c)
}

/// The most lines of game text kept in the session log.
pub const GAME_LOG_CAP: usize = 2000;

/// Appends a line of game text to the log, dropping the oldest when full.
pub fn push_game_log(log: &mut Vec<String>, line: String)
    requires
        old(log)@.len() <= GAME_LOG_CAP,
    ensures
        old(log)@.len() < GAME_LOG_CAP ==> final(log)@ == old(log)@.push(line),
        old(log)@.len() >= GAME_LOG_CAP ==> final(log)@ == old(log)@.drop_first().push(line),
        final(log)@.len() <= GAME_LOG_CAP,
{
    if log.len() >= GAME_LOG_CAP {
        log.remove(0);
    }
    log.push(line);
}

} // verus!
