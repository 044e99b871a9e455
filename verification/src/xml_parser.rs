//! Streaming parser for the GemStone/DragonRealms XML protocol.
use vstd::prelude::*;
use crate::text;
use crate::game_state::Game;
pub use crate::game_obj::ObjCategory;
use crate::game_obj::{ObjCategoryV, opt_view};

verus! {

/// Which hand slot an object update refers to.
#[derive(Debug, Clone, PartialEq, Eq, Structural)]
pub enum ObjHand {
    Right,
    Left,
}

#[derive(Debug, Clone, PartialEq)]
pub enum XmlEvent {
    Health { value: u32, max: Option<u32> },
    Mana { value: u32, max: Option<u32> },
    Spirit { value: u32, max: Option<u32> },
    Stamina { value: u32, max: Option<u32> },
    Concentration { value: u32, max: Option<u32> },
    RoundTime { end_epoch: i64 },
    CastTime { end_epoch: i64 },
    Prompt { time: i64, text: String },
    RoomName { name: String },
    RoomDescription { text: String },
    RoomExits { exits: Vec<String>, raw: String },
    RoomId { id: u32 },
    PreparedSpell { name: String },
    SpellCleared,
    ActiveSpell { name: String, duration: Option<u32> },
    Indicator { name: String, visible: bool },
    RightHand { item: Option<String> },
    LeftHand { item: Option<String> },
    Level { value: u32 },
    Experience { value: u64 },
    Text { content: String },
    StreamWindow { id: String, title: String },
    Mode { id: String, room_id: Option<u32> },
    /// `<style id="roomName"/> … <style id=""/>` styled-text room name/desc
    StylePush { id: String },
    StylePop,
    Unknown { tag: String },
    /// A game object was created/updated in a room or inventory stream.
    GameObjCreate {
        id: String,
        noun: String,
        name: String,
        category: ObjCategory,
        /// NPC/PC status string if present (e.g., "dead", "prone").
        status: Option<String>,
    },
    /// A component stream started sending fresh content — clear that registry.
    ComponentClear { component_id: String },
    /// The game sent a hand object with an existence ID.
    GameObjHandUpdate { hand: ObjHand, id: String, noun: String, name: String },
    /// The hand is empty ("nothing").
    GameObjHandClear { hand: ObjHand },
    /// An injury image tag inside `<component id="injuries">`.
    Injury { body_part: String, wound: u8, scar: u8 },
    /// A named stream was pushed onto the stream stack.
    PushStream { id: String },
    /// A named stream was popped from the stream stack.
    PopStream { id: String },
    /// A named stream was cleared (content reset).
    ClearStream { id: String },
    /// A dialog (Effects panel) was cleared.
    DialogClear { dialog_id: String },
    /// A single entry in an effects dialog (buff, debuff, cooldown, spell).
    DialogEntry { dialog_id: String, entry_id: String, name: String, duration_secs: u32 },
    /// Text emitted inside a named stream (bounty, society, etc.).
    StreamText { stream_id: String, text: String },
    /// DR dual-compass room count bump (second compass close = room transition).
    RoomCountBump,
    /// DR room ID extracted from streamWindow subtitle (does NOT increment room_count).
    RoomIdOnly { id: u32 },
    /// Clear all active spells (DR percWindow flush).
    ClearActiveSpells,
    /// Auto-detected game from settingsInfo instance attribute.
    GameDetected { game: Game },
    /// Room name inside the familiar's stream.
    FamiliarRoomName { name: String },
    /// Room description text inside the familiar's stream.
    FamiliarRoomDescription { text: String },
    /// Exits accumulated from the familiar stream compass/exit links.
    FamiliarRoomExits { exits: Vec<String> },
    /// A game object seen by the familiar (NPC, loot, PC, or room-desc object).
    FamiliarObjCreate { id: String, noun: String, name: String, category: ObjCategory },
}

/// The view of an [`XmlEvent`]: the same event with its text as characters.
pub enum Ev {
    Health { value: u32, max: Option<u32> },
    Mana { value: u32, max: Option<u32> },
    Spirit { value: u32, max: Option<u32> },
    Stamina { value: u32, max: Option<u32> },
    Concentration { value: u32, max: Option<u32> },
    RoundTime { end_epoch: i64 },
    CastTime { end_epoch: i64 },
    Prompt { time: i64, text: Seq<char> },
    RoomName { name: Seq<char> },
    RoomDescription { text: Seq<char> },
    RoomExits { exits: Seq<Seq<char>>, raw: Seq<char> },
    RoomId { id: u32 },
    PreparedSpell { name: Seq<char> },
    SpellCleared,
    ActiveSpell { name: Seq<char>, duration: Option<u32> },
    Indicator { name: Seq<char>, visible: bool },
    RightHand { item: Option<Seq<char>> },
    LeftHand { item: Option<Seq<char>> },
    Level { value: u32 },
    Experience { value: u64 },
    Text { content: Seq<char> },
    StreamWindow { id: Seq<char>, title: Seq<char> },
    Mode { id: Seq<char>, room_id: Option<u32> },
    StylePush { id: Seq<char> },
    StylePop,
    Unknown { tag: Seq<char> },
    GameObjCreate {
        id: Seq<char>,
        noun: Seq<char>,
        name: Seq<char>,
        category: ObjCategoryV,
        status: Option<Seq<char>>,
    },
    ComponentClear { component_id: Seq<char> },
    GameObjHandUpdate { hand: ObjHand, id: Seq<char>, noun: Seq<char>, name: Seq<char> },
    GameObjHandClear { hand: ObjHand },
    Injury { body_part: Seq<char>, wound: u8, scar: u8 },
    PushStream { id: Seq<char> },
    PopStream { id: Seq<char> },
    ClearStream { id: Seq<char> },
    DialogClear { dialog_id: Seq<char> },
    DialogEntry { dialog_id: Seq<char>, entry_id: Seq<char>, name: Seq<char>, duration_secs: u32 },
    StreamText { stream_id: Seq<char>, text: Seq<char> },
    RoomCountBump,
    RoomIdOnly { id: u32 },
    ClearActiveSpells,
    GameDetected { game: Game },
    FamiliarRoomName { name: Seq<char> },
    FamiliarRoomDescription { text: Seq<char> },
    FamiliarRoomExits { exits: Seq<Seq<char>> },
    FamiliarObjCreate { id: Seq<char>, noun: Seq<char>, name: Seq<char>, category: ObjCategoryV },
}

/// The characters of each string in a sequence of strings.
pub open spec fn strings_view(v: Seq<String>) -> Seq<Seq<char>> {
    v.map_values(|s: String| s@)
}

impl View for XmlEvent {
    type V = Ev;

    open spec fn view(&self) -> Ev {
        match self {
            XmlEvent::Health { value, max } => Ev::Health { value: *value, max: *max },
            XmlEvent::Mana { value, max } => Ev::Mana { value: *value, max: *max },
            XmlEvent::Spirit { value, max } => Ev::Spirit { value: *value, max: *max },
            XmlEvent::Stamina { value, max } => Ev::Stamina { value: *value, max: *max },
            XmlEvent::Concentration { value, max } => Ev::Concentration { value: *value, max: *max },
            XmlEvent::RoundTime { end_epoch } => Ev::RoundTime { end_epoch: *end_epoch },
            XmlEvent::CastTime { end_epoch } => Ev::CastTime { end_epoch: *end_epoch },
            XmlEvent::Prompt { time, text } => Ev::Prompt { time: *time, text: text@ },
            XmlEvent::RoomName { name } => Ev::RoomName { name: name@ },
            XmlEvent::RoomDescription { text } => Ev::RoomDescription { text: text@ },
            XmlEvent::RoomExits { exits, raw } => Ev::RoomExits {
                exits: strings_view(exits@),
                raw: raw@,
            },
            XmlEvent::RoomId { id } => Ev::RoomId { id: *id },
            XmlEvent::PreparedSpell { name } => Ev::PreparedSpell { name: name@ },
            XmlEvent::SpellCleared => Ev::SpellCleared,
            XmlEvent::ActiveSpell { name, duration } => Ev::ActiveSpell {
                name: name@,
                duration: *duration,
            },
            XmlEvent::Indicator { name, visible } => Ev::Indicator {
                name: name@,
                visible: *visible,
            },
            XmlEvent::RightHand { item } => Ev::RightHand { item: opt_view(*item) },
            XmlEvent::LeftHand { item } => Ev::LeftHand { item: opt_view(*item) },
            XmlEvent::Level { value } => Ev::Level { value: *value },
            XmlEvent::Experience { value } => Ev::Experience { value: *value },
            XmlEvent::Text { content } => Ev::Text { content: content@ },
            XmlEvent::StreamWindow { id, title } => Ev::StreamWindow { id: id@, title: title@ },
            XmlEvent::Mode { id, room_id } => Ev::Mode { id: id@, room_id: *room_id },
            XmlEvent::StylePush { id } => Ev::StylePush { id: id@ },
            XmlEvent::StylePop => Ev::StylePop,
            XmlEvent::Unknown { tag } => Ev::Unknown { tag: tag@ },
            XmlEvent::GameObjCreate { id, noun, name, category, status } => Ev::GameObjCreate {
                id: id@,
                noun: noun@,
                name: name@,
                category: category@,
                status: opt_view(*status),
            },
            XmlEvent::ComponentClear { component_id } => Ev::ComponentClear {
                component_id: component_id@,
            },
            XmlEvent::GameObjHandUpdate { hand, id, noun, name } => Ev::GameObjHandUpdate {
                hand: *hand,
                id: id@,
                noun: noun@,
                name: name@,
            },
            XmlEvent::GameObjHandClear { hand } => Ev::GameObjHandClear { hand: *hand },
            XmlEvent::Injury { body_part, wound, scar } => Ev::Injury {
                body_part: body_part@,
                wound: *wound,
                scar: *scar,
            },
            XmlEvent::PushStream { id } => Ev::PushStream { id: id@ },
            XmlEvent::PopStream { id } => Ev::PopStream { id: id@ },
            XmlEvent::ClearStream { id } => Ev::ClearStream { id: id@ },
            XmlEvent::DialogClear { dialog_id } => Ev::DialogClear { dialog_id: dialog_id@ },
            XmlEvent::DialogEntry { dialog_id, entry_id, name, duration_secs } => Ev::DialogEntry {
                dialog_id: dialog_id@,
                entry_id: entry_id@,
                name: name@,
                duration_secs: *duration_secs,
            },
            XmlEvent::StreamText { stream_id, text } => Ev::StreamText {
                stream_id: stream_id@,
                text: text@,
            },
            XmlEvent::RoomCountBump => Ev::RoomCountBump,
            XmlEvent::RoomIdOnly { id } => Ev::RoomIdOnly { id: *id },
            XmlEvent::ClearActiveSpells => Ev::ClearActiveSpells,
            XmlEvent::GameDetected { game } => Ev::GameDetected { game: *game },
            XmlEvent::FamiliarRoomName { name } => Ev::FamiliarRoomName { name: name@ },
            XmlEvent::FamiliarRoomDescription { text } => Ev::FamiliarRoomDescription {
                text: text@,
            },
            XmlEvent::FamiliarRoomExits { exits } => Ev::FamiliarRoomExits {
                exits: strings_view(exits@),
            },
            XmlEvent::FamiliarObjCreate { id, noun, name, category } => Ev::FamiliarObjCreate {
                id: id@,
                noun: noun@,
                name: name@,
                category: category@,
            },
        }
    }
}

/// The views of a sequence of events.
pub open spec fn evs(v: Seq<XmlEvent>) -> Seq<Ev> {
    v.map_values(|e: XmlEvent| e@)
}

/// Appends `e` to `events`.
pub fn emit(events: &mut Vec<XmlEvent>, e: XmlEvent)
    ensures
        evs(final(events)@) == evs(old(events)@).push(e@),
{
    let ghost e_view = e@;
    events.push(e);
    assert(evs(events@) =~= evs(old(events)@).push(e_view));
}

} // verus!

verus! {

use crate::xml_tags;
use crate::xml_tags::{attr, attr_or_empty, attrs_of, attrs_view, empty_xml, empty_xml_nl, opt_chars};
use crate::text::opt_int;

/// Familiar stream section — determines how `<a>` link objects are categorized.
#[derive(Debug, Clone, Copy, PartialEq, Eq, Structural)]
pub enum FamMode {
    Idle,
    /// "You also see..." — loot and NPCs
    Things,
    /// "Also here:" — PCs
    People,
    /// "Obvious paths/exits:" — exits
    Paths,
}

/// The parser's state apart from its buffer, with text as characters.
pub struct PState {
    pub style: Option<Seq<char>>,
    pub component: Option<Seq<char>>,
    pub in_bold: bool,
    pub inv: Option<Seq<char>>,
    pub stream: Option<Seq<char>>,
    pub fam_mode: FamMode,
    pub fam_exits: Seq<Seq<char>>,
    pub dialog: Option<Seq<char>>,
    pub game: Game,
    pub dr_second_compass: bool,
    pub dr_perc_tracking: bool,
    pub dr_perc_spells: Seq<(Seq<char>, Option<u32>)>,
}

/// The whole parser state: [`PState`] and the unparsed buffer.
pub struct PView {
    pub st: PState,
    pub buf: Seq<char>,
}

/// Events, as views, of an optional event.
pub open spec fn ev_seq(o: Option<Ev>) -> Seq<Ev> {
    match o {
        Some(e) => seq![e],
        None => seq![],
    }
}

/// Whether an optional text is the given text.
pub open spec fn is_some_eq(o: Option<Seq<char>>, t: Seq<char>) -> bool {
    o == Some(t)
}

// ── Plain text ──────────────────────────────────────────────────────────────

/// Text between tags: inside the familiar stream it names the familiar's
/// room, describes it, or switches the section by its headings; inside the
/// DragonRealms `percWindow` it records active spells; inside any other
/// stream it is stream text; outside streams it is the room name or
/// description when styled so, else plain text.
#[verifier::opaque]
pub open spec fn text_step(st: PState, s: Seq<char>) -> (PState, Seq<Ev>) {
    if s.len() == 0 {
        (st, seq![])
    } else {
        match st.stream {
            Some(sid) => if sid == "familiar"@ {
                if st.style == Some("roomName"@) {
                    (
                        PState { fam_mode: FamMode::Idle, fam_exits: seq![], ..st },
                        seq![Ev::FamiliarRoomName { name: s }],
                    )
                } else if st.style == Some("roomDesc"@) {
                    (st, seq![Ev::FamiliarRoomDescription { text: s }])
                } else {
                    let m = if text::contains_sub(s, "You also see"@) {
                        FamMode::Things
                    } else if text::contains_sub(s, "Also here"@) {
                        FamMode::People
                    } else if text::contains_sub(s, "Obvious paths"@) || text::contains_sub(
                        s,
                        "Obvious exits"@,
                    ) {
                        FamMode::Paths
                    } else {
                        st.fam_mode
                    };
                    (
                        PState { fam_mode: m, ..st },
                        seq![Ev::StreamText { stream_id: "familiar"@, text: s }],
                    )
                }
            } else if st.dr_perc_tracking && sid == "percWindow"@ {
                match xml_tags::dr_spell_line(s) {
                    Some(e) => (PState { dr_perc_spells: st.dr_perc_spells.push(e), ..st }, seq![]),
                    None => (st, seq![]),
                }
            } else {
                (st, seq![Ev::StreamText { stream_id: sid, text: s }])
            },
            None => if st.style == Some("roomName"@) {
                (st, seq![Ev::RoomName { name: s }])
            } else if st.style == Some("roomDesc"@) {
                (st, seq![Ev::RoomDescription { text: s }])
            } else {
                (st, seq![Ev::Text { content: s }])
            },
        }
    }
}

// ── Closing tags ────────────────────────────────────────────────────────────

/// A closing tag `</rest>`: leaves the component, bold, inventory-container
/// or dialog scope; in DragonRealms every second `</compass>` bumps the room
/// count.
#[verifier::opaque]
pub open spec fn close_step(st: PState, rest: Seq<char>) -> (PState, Seq<Ev>) {
    if rest == "component"@ {
        (PState { component: None, in_bold: false, inv: None, ..st }, seq![])
    } else if rest == "b"@ {
        (PState { in_bold: false, ..st }, seq![])
    } else if rest == "inv"@ {
        (PState { inv: None, ..st }, seq![])
    } else if rest == "dialogData"@ {
        (PState { dialog: None, ..st }, seq![])
    } else if rest == "compass"@ && st.game == Game::DragonRealms {
        if st.dr_second_compass {
            (PState { dr_second_compass: false, ..st }, seq![Ev::RoomCountBump])
        } else {
            (PState { dr_second_compass: true, ..st }, seq![])
        }
    } else {
        (st, seq![])
    }
}

// ── Self-closing tags ───────────────────────────────────────────────────────

pub open spec fn perc_events(sp: Seq<(Seq<char>, Option<u32>)>) -> Seq<Ev> {
    sp.map_values(|p: (Seq<char>, Option<u32>)| Ev::ActiveSpell { name: p.0, duration: p.1 })
}

/// The effect of the event of a self-closing tag: styles set or reset the
/// current style (no event); stream pushes and pops track the current
/// stream, and a pop flushes the familiar's exits and the DragonRealms
/// spell list before the pop itself; everything else is passed on.
#[verifier::opaque]
pub open spec fn tag_event_step(st: PState, e: Ev) -> (PState, Seq<Ev>) {
    match e {
        Ev::StylePush { id } => (PState { style: Some(id), ..st }, seq![]),
        Ev::StylePop => (PState { style: None, ..st }, seq![]),
        Ev::PushStream { id } => {
            let st1 = if id == "familiar"@ {
                PState { fam_mode: FamMode::Idle, fam_exits: seq![], ..st }
            } else {
                st
            };
            let st2 = if st.game == Game::DragonRealms && id == "percWindow"@ {
                PState { dr_perc_tracking: true, dr_perc_spells: seq![], ..st1 }
            } else {
                st1
            };
            (PState { stream: Some(id), ..st2 }, seq![e])
        },
        Ev::PopStream { id } => {
            let fam = id == "familiar"@ && st.fam_exits.len() > 0;
            let st1 = if fam {
                PState { fam_exits: seq![], fam_mode: FamMode::Idle, ..st }
            } else {
                st
            };
            let e1 = if fam {
                seq![Ev::FamiliarRoomExits { exits: st.fam_exits }]
            } else {
                seq![]
            };
            let perc = id == "percWindow"@ && st1.dr_perc_tracking;
            let st2 = if perc {
                PState { dr_perc_tracking: false, dr_perc_spells: seq![], ..st1 }
            } else {
                st1
            };
            let e2 = if perc {
                seq![Ev::ClearActiveSpells] + perc_events(st1.dr_perc_spells)
            } else {
                seq![]
            };
            (PState { stream: None, ..st2 }, e1 + e2 + seq![e])
        },
        _ => (st, seq![e]),
    }
}

/// The event quick-xml and the tag table make of an empty element.
pub open spec fn empty_element_event(xml: Seq<char>) -> Option<Ev> {
    match xml_tags::xml_empty_element(xml) {
        Some(p) => xml_tags::empty_tag_event(p.0, xml_tags::keep_some(p.1)),
        None => None,
    }
}

/// DragonRealms `streamWindow id="main"`: the room name in brackets and the
/// room id in the last parentheses of its subtitle.
pub open spec fn dr_subtitle_events(a: Seq<(Seq<char>, Seq<char>)>) -> Seq<Ev> {
    if attr(a, "id"@) == Some("main"@) {
        match attr(a, "subtitle"@) {
            Some(sub) => {
                let e1 = match text::find_char(sub, '[') {
                    Some(s) => match text::find_char(sub, ']') {
                        Some(e) => if s <= e {
                            seq![Ev::RoomName { name: sub.subrange(s, e + 1) }]
                        } else {
                            seq![]
                        },
                        None => seq![],
                    },
                    None => seq![],
                };
                let e2 = match text::rfind_char(sub, '(') {
                    Some(ps) => match text::rfind_char(sub, ')') {
                        Some(pe) => if ps + 1 <= pe {
                            match text::parse_unsigned(
                                text::trim(sub.subrange(ps + 1, pe)),
                                u32::MAX as nat,
                            ) {
                                Some(n) => seq![Ev::RoomIdOnly { id: n as u32 }],
                                None => seq![],
                            }
                        } else {
                            seq![]
                        },
                        None => seq![],
                    },
                    None => seq![],
                };
                e1 + e2
            },
            None => seq![],
        }
    } else {
        seq![]
    }
}

/// A self-closing tag `<inner/>`.
#[verifier::opaque]
pub open spec fn self_closing_step(st: PState, inner: Seq<char>) -> (PState, Seq<Ev>) {
    let body = text::trim_end(text::trim_end_char(inner, '/'));
    let name = text::first_token(body);
    let xml = empty_xml_nl(body);
    if name == "image"@ && st.component == Some("injuries"@) {
        let a = attrs_of(xml);
        match attr(a, "id"@) {
            Some(bp) => {
                let ws = xml_tags::injury(attr_or_empty(a, "name"@));
                (st, seq![Ev::Injury { body_part: bp, wound: ws.0, scar: ws.1 }])
            },
            None => (st, seq![]),
        }
    } else {
        let first = match empty_element_event(xml) {
            Some(e) => tag_event_step(st, e),
            None => match st.dialog {
                Some(d) => if name == "progressBar"@ {
                    let a = attrs_of(xml);
                    (
                        st,
                        seq![
                            Ev::DialogEntry {
                                dialog_id: d,
                                entry_id: attr_or_empty(a, "id"@),
                                name: attr_or_empty(a, "text"@),
                                duration_secs: xml_tags::time_to_secs(attr_or_empty(a, "time"@)),
                            },
                        ],
                    )
                } else {
                    (st, seq![Ev::Unknown { tag: name }])
                },
                None => (st, seq![Ev::Unknown { tag: text::first_token(inner) }]),
            },
        };
        let second = if first.0.game == Game::DragonRealms && name == "streamWindow"@ {
            dr_subtitle_events(attrs_of(xml))
        } else {
            seq![]
        };
        (first.0, first.1 + second)
    }
}

} // verus!

verus! {

// ── Element tags ────────────────────────────────────────────────────────────

/// The end tag `</name>`.
pub open spec fn end_tag(name: Seq<char>) -> Seq<char> {
    seq!['<', '/'] + name + seq!['>']
}

/// An `<a …>` link whose content is `raw`: a game object in the familiar's
/// view or in the room/inventory component it stands in.
#[verifier::opaque]
pub open spec fn link_step(st: PState, inner: Seq<char>, raw: Seq<char>, np: int) -> (PState, int, Seq<Ev>) {
    let name = xml_tags::strip_tags(raw);
    let a = attrs_of(empty_xml(inner));
    let id = attr_or_empty(a, "exist"@);
    let noun = attr_or_empty(a, "noun"@);
    if name.len() == 0 || id.len() == 0 {
        (st, np, seq![])
    } else if st.stream == Some("familiar"@) {
        let bold = text::contains_sub(raw, "<b>"@) || st.in_bold;
        match st.fam_mode {
            FamMode::Things => (
                st,
                np,
                seq![
                    Ev::FamiliarObjCreate {
                        id,
                        noun,
                        name,
                        category: if bold {
                            ObjCategoryV::Npc
                        } else {
                            ObjCategoryV::Loot
                        },
                    },
                ],
            ),
            FamMode::People => (
                st,
                np,
                seq![Ev::FamiliarObjCreate { id, noun, name, category: ObjCategoryV::Pc }],
            ),
            FamMode::Idle => (
                st,
                np,
                seq![Ev::FamiliarObjCreate { id, noun, name, category: ObjCategoryV::RoomDesc }],
            ),
            FamMode::Paths => (PState { fam_exits: st.fam_exits.push(name), ..st }, np, seq![]),
        }
    } else if st.component == Some("room objs"@) {
        (
            st,
            np,
            seq![
                Ev::GameObjCreate {
                    id,
                    noun,
                    name,
                    category: if st.in_bold {
                        ObjCategoryV::Npc
                    } else {
                        ObjCategoryV::Loot
                    },
                    status: None,
                },
            ],
        )
    } else if st.component == Some("room players"@) {
        (
            st,
            np,
            seq![Ev::GameObjCreate { id, noun, name, category: ObjCategoryV::Pc, status: None }],
        )
    } else if st.component == Some("inv"@) {
        (
            st,
            np,
            seq![
                Ev::GameObjCreate {
                    id,
                    noun,
                    name,
                    category: ObjCategoryV::Inv { container: st.inv },
                    status: None,
                },
            ],
        )
    } else {
        (st, np, seq![])
    }
}

/// A `<right …>`/`<left …>` hand element whose content is `raw`.
pub open spec fn hand_event(hand: ObjHand, inner: Seq<char>, raw: Seq<char>) -> Ev {
    let name = xml_tags::strip_tags(raw);
    let a = attrs_of(empty_xml(inner));
    let id = attr_or_empty(a, "exist"@);
    let noun = attr_or_empty(a, "noun"@);
    if id.len() == 0 || name == "nothing"@ || text::trim(name).len() == 0 {
        Ev::GameObjHandClear { hand }
    } else {
        Ev::GameObjHandUpdate { hand, id, noun, name }
    }
}

/// A start tag `<inner>` followed in the buffer `b` at `after`. Elements
/// whose content matters (settings, prompts, spells, room name and
/// description components, links, hands) are read up to their end tag, and
/// are `None` (to be read again with more data) while it has not arrived.
/// The result holds the new state, where parsing resumes, and the events.
#[verifier::opaque]
pub open spec fn start_step(st: PState, inner: Seq<char>, b: Seq<char>, after: int) -> Option<(PState, int, Seq<Ev>)> {
    let name = text::first_token(inner);
    if name == "settingsInfo"@ {
        match text::find_sub_from(b, "</settingsInfo>"@, after) {
            None => None,
            Some(off) => {
                let np = off + "</settingsInfo>"@.len();
                match attr(attrs_of(empty_xml(inner)), "instance"@) {
                    Some(i) => {
                        let g = Game::from_code_spec(i);
                        Some((PState { game: g, ..st }, np, seq![Ev::GameDetected { game: g }]))
                    },
                    None => Some((st, np, seq![])),
                }
            },
        }
    } else if name == "prompt"@ || name == "spell"@ {
        let et = end_tag(name);
        match text::find_sub_from(b, et, after) {
            None => None,
            Some(off) => Some(
                (
                    st,
                    off + et.len(),
                    ev_seq(
                        xml_tags::start_tag_event(
                            name,
                            attrs_of(empty_xml_nl(inner)),
                            xml_tags::strip_tags(b.subrange(after, off)),
                        ),
                    ),
                ),
            ),
        }
    } else if name == "component"@ {
        let a = attrs_of(empty_xml(inner));
        let id = attr_or_empty(a, "id"@);
        if id == "room name"@ || id == "room desc"@ {
            match text::find_sub_from(b, "</component>"@, after) {
                None => None,
                Some(off) => Some(
                    (
                        st,
                        off + "</component>"@.len(),
                        ev_seq(
                            xml_tags::start_tag_event(
                                "component"@,
                                a,
                                xml_tags::strip_tags(b.subrange(after, off)),
                            ),
                        ),
                    ),
                ),
            }
        } else if id == "room objs"@ || id == "room players"@ || id == "inv"@ {
            let st1 = if id == "inv"@ {
                PState { inv: None, ..st }
            } else {
                st
            };
            Some(
                (
                    PState { component: Some(id), in_bold: false, ..st1 },
                    after,
                    seq![Ev::ComponentClear { component_id: id }],
                ),
            )
        } else {
            Some((PState { component: Some(id), in_bold: false, ..st }, after, seq![]))
        }
    } else if name == "dialogData"@ {
        let a = attrs_of(empty_xml(inner));
        let id = attr_or_empty(a, "id"@);
        let e = if attr(a, "clear"@) == Some("t"@) {
            seq![Ev::DialogClear { dialog_id: id }]
        } else {
            seq![]
        };
        Some((PState { dialog: Some(id), ..st }, after, e))
    } else if name == "b"@ {
        Some((PState { in_bold: true, ..st }, after, seq![]))
    } else if name == "compass"@ && st.stream == Some("familiar"@) {
        Some((PState { fam_mode: FamMode::Idle, ..st }, after, seq![]))
    } else if name == "inv"@ {
        Some((PState { inv: attr(attrs_of(empty_xml(inner)), "id"@), ..st }, after, seq![]))
    } else if name == "a"@ {
        match text::find_sub_from(b, "</a>"@, after) {
            None => None,
            Some(off) => Some(link_step(st, inner, b.subrange(after, off), off + "</a>"@.len())),
        }
    } else if name == "right"@ || name == "left"@ {
        let hand = if name == "right"@ {
            ObjHand::Right
        } else {
            ObjHand::Left
        };
        let et = end_tag(name);
        match text::find_sub_from(b, et, after) {
            None => None,
            Some(off) => Some(
                (st, off + et.len(), seq![hand_event(hand, inner, b.subrange(after, off))]),
            ),
        }
    } else {
        Some((st, after, seq![]))
    }
}

/// A tag `<inner>` (its `>` just before `after` in `b`): closing tags,
/// comments and processing instructions, self-closing tags, start tags.
#[verifier::opaque]
pub open spec fn tag_step(st: PState, inner: Seq<char>, b: Seq<char>, after: int) -> Option<(PState, int, Seq<Ev>)> {
    if inner.len() > 0 && inner[0] == '/' {
        let r = close_step(st, inner.subrange(1, inner.len() as int));
        Some((r.0, after, r.1))
    } else if inner.len() > 0 && (inner[0] == '!' || inner[0] == '?') {
        Some((st, after, seq![]))
    } else if inner.len() > 0 && inner[inner.len() - 1] == '/' {
        let r = self_closing_step(st, inner);
        Some((r.0, after, r.1))
    } else {
        start_step(st, inner, b, after)
    }
}

/// Parses the buffer `b` from `pos`: text up to each tag, then each complete
/// tag, stopping at a tag that is not complete. The result holds the final
/// state, where the unparsed rest of the buffer starts, and the events.
pub open spec fn drain_from(st: PState, b: Seq<char>, pos: int) -> (PState, int, Seq<Ev>)
    decreases b.len() - pos,
{
    if pos < 0 || pos > b.len() {
        (st, pos, seq![])
    } else {
        match text::find_char_from(b, '<', pos) {
            None => {
                let r = text_step(st, b.subrange(pos, b.len() as int));
                (r.0, b.len() as int, r.1)
            },
            Some(lt) => if lt == pos {
                match xml_tags::find_gt(b, pos) {
                    None => (st, pos, seq![]),
                    Some(gt) => if pos < gt < b.len() {
                        match tag_step(st, b.subrange(pos + 1, gt), b, gt + 1) {
                            None => (st, pos, seq![]),
                            Some(t) => if gt + 1 <= t.1 <= b.len() {
                                let r = drain_from(t.0, b, t.1);
                                (r.0, r.1, t.2 + r.2)
                            } else {
                                (t.0, t.1, t.2)
                            },
                        }
                    } else {
                        (st, pos, seq![])
                    },
                }
            } else if pos < lt <= b.len() {
                let t = text_step(st, b.subrange(pos, lt));
                let r = drain_from(t.0, b, lt);
                (r.0, r.1, t.1 + r.2)
            } else {
                (st, pos, seq![])
            },
        }
    }
}

/// Feeding `data`: it is appended to the buffer, which is parsed as far as
/// it holds complete tags; the rest stays buffered.
pub open spec fn feed_spec(p: PView, data: Seq<char>) -> (PView, Seq<Ev>) {
    let b = p.buf + data;
    let r = drain_from(p.st, b, 0);
    (PView { st: r.0, buf: b.subrange(r.1, b.len() as int) }, r.2)
}

} // verus!

verus! {

/// Streaming GemStone XML parser.
///
/// GemStone sends a pseudo-XML byte stream over TCP. TCP read boundaries do not
/// align with XML element boundaries, so a tag or element may be split across
/// multiple reads. `StreamParser` accumulates data in an internal buffer and
/// only processes complete tokens.
///
/// Call `feed()` for each TCP read; it returns all fully-parseable events from
/// the buffer and leaves any incomplete token for the next call.
pub struct StreamParser {
    buf: Vec<char>,
    current_style: Option<Vec<char>>,
    /// Which `<component id="...">` stream is currently open, if any.
    current_component: Option<Vec<char>>,
    /// Whether we are inside a `<b>` bold tag (distinguishes NPCs from loot).
    in_bold: bool,
    /// Container ID set by `<inv id="...">` tag; scopes subsequent `<a>` objects.
    current_inv_container: Option<Vec<char>>,
    /// Which named stream (`<pushStream id="...">`) is currently active, if any.
    current_stream: Option<Vec<char>>,
    /// Which section of the familiar stream we are in.
    fam_mode: FamMode,
    /// Exit links accumulated while in `FamMode::Paths`; flushed on `popStream`.
    fam_exits: Vec<Vec<char>>,
    /// Which `<dialogData id="...">` is currently open, if any.
    current_dialog: Option<Vec<char>>,
    /// Which game we are parsing for (affects compass, percWindow, etc.).
    game: Game,
    /// DR: toggles on first `</compass>`, emits RoomCountBump on second.
    dr_second_compass: bool,
    /// DR: whether we are currently tracking percWindow spell lines.
    dr_perc_tracking: bool,
    /// DR: accumulated spell entries from percWindow text lines.
    dr_perc_spells: Vec<(Vec<char>, Option<u32>)>,
}

pub open spec fn spells_view(v: Seq<(Vec<char>, Option<u32>)>) -> Seq<(Seq<char>, Option<u32>)> {
    v.map_values(|p: (Vec<char>, Option<u32>)| (p.0@, p.1))
}

impl StreamParser {
    pub closed spec fn pstate(&self) -> PState {
        PState {
            style: opt_chars(self.current_style),
            component: opt_chars(self.current_component),
            in_bold: self.in_bold,
            inv: opt_chars(self.current_inv_container),
            stream: opt_chars(self.current_stream),
            fam_mode: self.fam_mode,
            fam_exits: text::views(self.fam_exits@),
            dialog: opt_chars(self.current_dialog),
            game: self.game,
            dr_second_compass: self.dr_second_compass,
            dr_perc_tracking: self.dr_perc_tracking,
            dr_perc_spells: spells_view(self.dr_perc_spells@),
        }
    }
}

impl View for StreamParser {
    type V = PView;

    closed spec fn view(&self) -> PView {
        PView { st: self.pstate(), buf: self.buf@ }
    }
}

/// The initial parser state for `game`: nothing buffered and no scope open.
pub open spec fn initial(game: Game) -> PView {
    PView {
        st: PState {
            style: None,
            component: None,
            in_bold: false,
            inv: None,
            stream: None,
            fam_mode: FamMode::Idle,
            fam_exits: seq![],
            dialog: None,
            game,
            dr_second_compass: false,
            dr_perc_tracking: false,
            dr_perc_spells: seq![],
        },
        buf: seq![],
    }
}

fn opt_eq_lit(o: &Option<Vec<char>>, lit: &str) -> (r: bool)
    ensures
        r == (opt_chars(*o) == Some(lit@)),
{
    match o {
        Some(v) => text::eq_lit(v, lit),
        None => false,
    }
}

fn clone_chars(v: &Vec<char>) -> (r: Vec<char>)
    ensures
        r@ == v@,
{
    text::slice_of(v, 0, v.len())
}

fn clone_opt(o: &Option<Vec<char>>) -> (r: Option<Vec<char>>)
    ensures
        opt_chars(r) == opt_chars(*o),
{
    match o {
        Some(v) => Some(clone_chars(v)),
        None => None,
    }
}

fn opt_string(o: &Option<Vec<char>>) -> (r: Option<String>)
    ensures
        opt_view(r) == opt_chars(*o),
{
    match o {
        Some(v) => Some(text::string_of(v)),
        None => None,
    }
}

impl StreamParser {
    pub fn new(game: Game) -> (p: StreamParser)
        ensures
            p@ == initial(game),
    {
        let p = StreamParser {
            buf: Vec::new(),
            current_style: None,
            current_component: None,
            in_bold: false,
            current_inv_container: None,
            current_stream: None,
            fam_mode: FamMode::Idle,
            fam_exits: Vec::new(),
            current_dialog: None,
            game,
            dr_second_compass: false,
            dr_perc_tracking: false,
            dr_perc_spells: Vec::new(),
        };
        assert(text::views(p.fam_exits@) =~= seq![]);
        assert(spells_view(p.dr_perc_spells@) =~= seq![]);
        p
    }

    /// Whether it is safe for scripts to inject `respond()` output to the client.
    /// In DR, injecting text while inside a stream or styled block corrupts the FE display.
    pub fn safe_to_respond(&self) -> (r: bool)
        ensures
            r == match self@.st.game {
                Game::DragonRealms => self@.st.stream is None && !self@.st.in_bold
                    && self@.st.style is None,
                Game::GemStone => true,
            },
    {
        match self.game {
            Game::DragonRealms => self.current_stream.is_none() && !self.in_bold
                && self.current_style.is_none(),
            Game::GemStone => true,
        }
    }

    fn emit_text(&mut self, events: &mut Vec<XmlEvent>, s: &[char])
        ensures
            final(self).pstate() == text_step(old(self).pstate(), s@).0,
            evs(final(events)@) == evs(old(events)@) + text_step(old(self).pstate(), s@).1,
            final(self).buf@ == old(self).buf@,
    {
        reveal(text_step);
        let ghost e0 = evs(events@);
        if s.len() == 0 {
            assert(evs(events@) =~= e0 + seq![]);
            return;
        }
        match &self.current_stream {
            Some(sid) => {
                if text::eq_lit(sid, "familiar") {
                    if opt_eq_lit(&self.current_style, "roomName") {
                        self.fam_mode = FamMode::Idle;
                        self.fam_exits = Vec::new();
                        emit(events, XmlEvent::FamiliarRoomName { name: text::string_of(s) });
                        assert(text::views(self.fam_exits@) =~= seq![]);
                    } else if opt_eq_lit(&self.current_style, "roomDesc") {
                        emit(events, XmlEvent::FamiliarRoomDescription { text: text::string_of(s) });
                    } else {
                        if text::contains_lit(s, "You also see") {
                            self.fam_mode = FamMode::Things;
                        } else if text::contains_lit(s, "Also here") {
                            self.fam_mode = FamMode::People;
                        } else if text::contains_lit(s, "Obvious paths") || text::contains_lit(
                            s,
                            "Obvious exits",
                        ) {
                            self.fam_mode = FamMode::Paths;
                        }
                        let fam = text::string_of(&text::chars_of("familiar"));
                        emit(events, XmlEvent::StreamText { stream_id: fam, text: text::string_of(s) });
                    }
                } else if self.dr_perc_tracking && text::eq_lit(sid, "percWindow") {
                    match xml_tags::parse_dr_spell_line(s) {
                        Some(e) => {
                            let ghost old_sp = self.dr_perc_spells@;
                            self.dr_perc_spells.push(e);
                            assert(spells_view(self.dr_perc_spells@) =~= spells_view(old_sp).push(
                                (e.0@, e.1),
                            ));
                        },
                        None => {},
                    }
                    assert(evs(events@) =~= e0 + seq![]);
                } else {
                    let sid_s = text::string_of(sid);
                    emit(events, XmlEvent::StreamText { stream_id: sid_s, text: text::string_of(s) });
                }
            },
            None => {
                if opt_eq_lit(&self.current_style, "roomName") {
                    emit(events, XmlEvent::RoomName { name: text::string_of(s) });
                } else if opt_eq_lit(&self.current_style, "roomDesc") {
                    emit(events, XmlEvent::RoomDescription { text: text::string_of(s) });
                } else {
                    emit(events, XmlEvent::Text { content: text::string_of(s) });
                }
            },
        }
    }
}

} // verus!

verus! {

impl StreamParser {
    fn close_tag(&mut self, events: &mut Vec<XmlEvent>, rest: &[char])
        ensures
            final(self).pstate() == close_step(old(self).pstate(), rest@).0,
            evs(final(events)@) == evs(old(events)@) + close_step(old(self).pstate(), rest@).1,
            final(self).buf@ == old(self).buf@,
    {
        reveal(close_step);
        let ghost e0 = evs(events@);
        if text::eq_lit(rest, "component") {
            self.current_component = None;
            self.in_bold = false;
            self.current_inv_container = None;
        } else if text::eq_lit(rest, "b") {
            self.in_bold = false;
        } else if text::eq_lit(rest, "inv") {
            self.current_inv_container = None;
        } else if text::eq_lit(rest, "dialogData") {
            self.current_dialog = None;
        } else if text::eq_lit(rest, "compass") && self.game == Game::DragonRealms {
            if self.dr_second_compass {
                self.dr_second_compass = false;
                emit(events, XmlEvent::RoomCountBump);
                return;
            } else {
                self.dr_second_compass = true;
            }
        }
        assert(evs(events@) =~= e0 + seq![]);
    }

    /// Applies the event of a self-closing tag.
    fn tag_event(&mut self, events: &mut Vec<XmlEvent>, e: XmlEvent)
        ensures
            final(self).pstate() == tag_event_step(old(self).pstate(), e@).0,
            evs(final(events)@) == evs(old(events)@) + tag_event_step(old(self).pstate(), e@).1,
            final(self).buf@ == old(self).buf@,
    {
        reveal(tag_event_step);
        let ghost e0 = evs(events@);
        let ghost ev = e@;
        match e {
            XmlEvent::StylePush { id } => {
                self.current_style = Some(text::chars_of(id.as_str()));
                assert(evs(events@) =~= e0 + seq![]);
            },
            XmlEvent::StylePop => {
                self.current_style = None;
                assert(evs(events@) =~= e0 + seq![]);
            },
            XmlEvent::PushStream { id } => {
                let idc = text::chars_of(id.as_str());
                if text::eq_lit(&idc, "familiar") {
                    self.fam_mode = FamMode::Idle;
                    self.fam_exits = Vec::new();
                    assert(text::views(self.fam_exits@) =~= seq![]);
                }
                if self.game == Game::DragonRealms && text::eq_lit(&idc, "percWindow") {
                    self.dr_perc_tracking = true;
                    self.dr_perc_spells = Vec::new();
                    assert(spells_view(self.dr_perc_spells@) =~= seq![]);
                }
                self.current_stream = Some(idc);
                emit(events, XmlEvent::PushStream { id });
                assert(evs(events@) =~= e0 + seq![ev]);
            },
            XmlEvent::PopStream { id } => {
                let idc = text::chars_of(id.as_str());
                let ghost st = self.pstate();
                if text::eq_lit(&idc, "familiar") && self.fam_exits.len() > 0 {
                    let exits = text::strings_of(&self.fam_exits);
                    emit(events, XmlEvent::FamiliarRoomExits { exits });
                    self.fam_exits = Vec::new();
                    self.fam_mode = FamMode::Idle;
                    assert(text::views(self.fam_exits@) =~= seq![]);
                }
                let ghost e1 = evs(events@);
                let ghost st1 = self.pstate();
                if text::eq_lit(&idc, "percWindow") && self.dr_perc_tracking {
                    emit(events, XmlEvent::ClearActiveSpells);
                    let mut i: usize = 0;
                    while i < self.dr_perc_spells.len()
                        invariant
                            i <= self.dr_perc_spells.len(),
                            self.pstate() == st1,
                            evs(events@) == e1 + seq![Ev::ClearActiveSpells] + perc_events(
                                st1.dr_perc_spells,
                            ).take(i as int),
                        decreases self.dr_perc_spells.len() - i,
                    {
                        let name = text::string_of(&self.dr_perc_spells[i].0);
                        let duration = self.dr_perc_spells[i].1;
                        emit(events, XmlEvent::ActiveSpell { name, duration });
                        assert(perc_events(st1.dr_perc_spells).take(i + 1) =~= perc_events(
                            st1.dr_perc_spells,
                        ).take(i as int).push(Ev::ActiveSpell { name: name@, duration }));
                        i += 1;
                    }
                    assert(perc_events(st1.dr_perc_spells).take(
                        self.dr_perc_spells.len() as int,
                    ) =~= perc_events(st1.dr_perc_spells));
                    self.dr_perc_spells = Vec::new();
                    self.dr_perc_tracking = false;
                    assert(spells_view(self.dr_perc_spells@) =~= seq![]);
                } else {
                    assert(evs(events@) =~= e1 + seq![]);
                }
                emit(events, XmlEvent::PopStream { id });
                self.current_stream = None;
                assert(evs(events@) =~= e0 + tag_event_step(st, ev).1);
            },
            _ => {
                emit(events, e);
                assert(evs(events@) =~= e0 + seq![ev]);
            },
        }
    }
}

/// DragonRealms room name and id from a `streamWindow` subtitle.
fn dr_subtitle(events: &mut Vec<XmlEvent>, a: &xml_tags::Attrs)
    ensures
        evs(final(events)@) == evs(old(events)@) + dr_subtitle_events(attrs_view(a@)),
{
    let ghost e0 = evs(events@);
    let ghost av = attrs_view(a@);
    let id = xml_tags::get_attr(a, "id");
    if !opt_eq_lit(&id, "main") {
        assert(evs(events@) =~= e0 + seq![]);
        return;
    }
    let sub = match xml_tags::get_attr(a, "subtitle") {
        Some(s) => s,
        None => {
            assert(evs(events@) =~= e0 + seq![]);
            return;
        },
    };
    let s0 = text::find_char_at(&sub, '[', 0);
    let e0c = text::find_char_at(&sub, ']', 0);
    proof {
        text::lemma_find_char_from(sub@, '[', 0);
        text::lemma_find_char_from(sub@, ']', 0);
        text::lemma_rfind_char(sub@, '(', sub@.len() as int);
        text::lemma_rfind_char(sub@, ')', sub@.len() as int);
    }
    let ghost m0 = evs(events@);
    match s0 {
        Some(s) => match e0c {
            Some(e) => {
                if s <= e {
                    let name = text::sub_string(&sub, s, e + 1);
                    emit(events, XmlEvent::RoomName { name });
                }
            },
            None => {},
        },
        None => {},
    }
    let ghost m1 = evs(events@);
    let ps = text::rfind_char_exec(&sub, '(');
    let pe = text::rfind_char_exec(&sub, ')');
    match ps {
        Some(ps) => match pe {
            Some(pe) => {
                if ps < pe {
                    let mid = text::slice_of(&sub, ps + 1, pe);
                    let t = text::trim_exec(&mid);
                    match text::parse_u32(&t) {
                        Some(n) => emit(events, XmlEvent::RoomIdOnly { id: n }),
                        None => {},
                    }
                }
            },
            None => {},
        },
        None => {},
    }
    assert(evs(events@) =~= e0 + dr_subtitle_events(av));
}

} // verus!

verus! {

fn empty_element_event_exec(xml: &[char]) -> (r: Option<XmlEvent>)
    ensures
        xml_tags::opt_ev(r) == empty_element_event(xml@),
{
    match xml_tags::read_element(xml) {
        Some(p) => xml_tags::parse_empty_tag(&p.0, &p.1),
        None => None,
    }
}

impl StreamParser {
    fn self_closing(&mut self, events: &mut Vec<XmlEvent>, inner: &[char])
        ensures
            final(self).pstate() == self_closing_step(old(self).pstate(), inner@).0,
            evs(final(events)@) == evs(old(events)@) + self_closing_step(old(self).pstate(), inner@).1,
            final(self).buf@ == old(self).buf@,
    {
        reveal(self_closing_step);
        let ghost e0 = evs(events@);
        let ghost st = self.pstate();
        let t1 = text::trim_end_char_exec(inner, '/');
        let body = text::trim_end_exec(&t1);
        let name = text::first_token_exec(&body);
        let xml = xml_tags::make_empty_xml(&body, true);
        if text::eq_lit(&name, "image") && opt_eq_lit(&self.current_component, "injuries") {
            let a = xml_tags::attrs_from_xml(&xml);
            match xml_tags::get_attr(&a, "id") {
                Some(bp) => {
                    let nm = xml_tags::get_attr_or_empty(&a, "name");
                    let ws = xml_tags::parse_injury_name(&nm);
                    emit(events, XmlEvent::Injury { body_part: text::string_of(&bp), wound: ws.0, scar: ws.1 });
                },
                None => {
                    assert(evs(events@) =~= e0 + seq![]);
                },
            }
            return;
        }
        match empty_element_event_exec(&xml) {
            Some(e) => {
                self.tag_event(events, e);
            },
            None => {
                match &self.current_dialog {
                    Some(d) => {
                        if text::eq_lit(&name, "progressBar") {
                            let a = xml_tags::attrs_from_xml(&xml);
                            let tm = xml_tags::get_attr_or_empty(&a, "time");
                            let secs = xml_tags::parse_time_to_secs(&tm);
                            let id = xml_tags::get_attr_or_empty(&a, "id");
                            let txt = xml_tags::get_attr_or_empty(&a, "text");
                            emit(
                                events,
                                XmlEvent::DialogEntry {
                                    dialog_id: text::string_of(d),
                                    entry_id: text::string_of(&id),
                                    name: text::string_of(&txt),
                                    duration_secs: secs,
                                },
                            );
                        } else {
                            emit(events, XmlEvent::Unknown { tag: text::string_of(&name) });
                        }
                    },
                    None => {
                        let tok = text::first_token_exec(inner);
                        emit(events, XmlEvent::Unknown { tag: text::string_of(&tok) });
                    },
                }
            },
        }
        let ghost e1 = evs(events@);
        if self.game == Game::DragonRealms && text::eq_lit(&name, "streamWindow") {
            let a = xml_tags::attrs_from_xml(&xml);
            dr_subtitle(events, &a);
        } else {
            assert(evs(events@) =~= e1 + seq![]);
        }
        assert(evs(events@) =~= e0 + self_closing_step(st, inner@).1);
    }

    fn link(&mut self, events: &mut Vec<XmlEvent>, inner: &[char], raw: &[char], np: usize)
        ensures
            final(self).pstate() == link_step(old(self).pstate(), inner@, raw@, np as int).0,
            link_step(old(self).pstate(), inner@, raw@, np as int).1 == np as int,
            evs(final(events)@) == evs(old(events)@) + link_step(
                old(self).pstate(),
                inner@,
                raw@,
                np as int,
            ).2,
            final(self).buf@ == old(self).buf@,
    {
        reveal(link_step);
        let ghost e0 = evs(events@);
        let name = xml_tags::strip_tags_exec(raw);
        let xml = xml_tags::make_empty_xml(inner, false);
        let a = xml_tags::attrs_from_xml(&xml);
        let id = xml_tags::get_attr_or_empty(&a, "exist");
        let noun = xml_tags::get_attr_or_empty(&a, "noun");
        if name.len() == 0 || id.len() == 0 {
            assert(evs(events@) =~= e0 + seq![]);
            return;
        }
        if opt_eq_lit(&self.current_stream, "familiar") {
            let bold = text::contains_lit(raw, "<b>") || self.in_bold;
            let category = match self.fam_mode {
                FamMode::Things => if bold {
                    ObjCategory::Npc
                } else {
                    ObjCategory::Loot
                },
                FamMode::People => ObjCategory::Pc,
                FamMode::Idle => ObjCategory::RoomDesc,
                FamMode::Paths => {
                    let ghost old_ex = self.fam_exits@;
                    self.fam_exits.push(name);
                    assert(text::views(self.fam_exits@) =~= text::views(old_ex).push(name@));
                    assert(evs(events@) =~= e0 + seq![]);
                    return;
                },
            };
            emit(
                events,
                XmlEvent::FamiliarObjCreate {
                    id: text::string_of(&id),
                    noun: text::string_of(&noun),
                    name: text::string_of(&name),
                    category,
                },
            );
            return;
        }
        let category = if opt_eq_lit(&self.current_component, "room objs") {
            if self.in_bold {
                ObjCategory::Npc
            } else {
                ObjCategory::Loot
            }
        } else if opt_eq_lit(&self.current_component, "room players") {
            ObjCategory::Pc
        } else if opt_eq_lit(&self.current_component, "inv") {
            ObjCategory::Inv { container: opt_string(&self.current_inv_container) }
        } else {
            assert(evs(events@) =~= e0 + seq![]);
            return;
        };
        emit(
            events,
            XmlEvent::GameObjCreate {
                id: text::string_of(&id),
                noun: text::string_of(&noun),
                name: text::string_of(&name),
                category,
                status: None,
            },
        );
    }
}

fn hand_event_exec(hand: ObjHand, inner: &[char], raw: &[char]) -> (r: XmlEvent)
    ensures
        r@ == hand_event(hand, inner@, raw@),
{
    let name = xml_tags::strip_tags_exec(raw);
    let xml = xml_tags::make_empty_xml(inner, false);
    let a = xml_tags::attrs_from_xml(&xml);
    let id = xml_tags::get_attr_or_empty(&a, "exist");
    let noun = xml_tags::get_attr_or_empty(&a, "noun");
    let tn = text::trim_exec(&name);
    if id.len() == 0 || text::eq_lit(&name, "nothing") || tn.len() == 0 {
        XmlEvent::GameObjHandClear { hand }
    } else {
        XmlEvent::GameObjHandUpdate {
            hand,
            id: text::string_of(&id),
            noun: text::string_of(&noun),
            name: text::string_of(&name),
        }
    }
}

fn make_end_tag(name: &[char]) -> (r: Vec<char>)
    ensures
        r@ == end_tag(name@),
{
    let mut v: Vec<char> = Vec::new();
    v.push('<');
    v.push('/');
    text::push_all(&mut v, name);
    v.push('>');
    assert(v@ =~= end_tag(name@));
    v
}

} // verus!

verus! {

/// The element content up to the end tag `et`, searched from `after`.
fn find_end(b: &[char], et: &[char], after: usize) -> (r: Option<usize>)
    requires
        after <= b.len(),
    ensures
        opt_int(r) == text::find_sub_from(b@, et@, after as int),
        r matches Some(off) ==> after <= off && off + et.len() <= b.len(),
{
    proof {
        text::lemma_find_sub_from(b@, et@, after as int);
    }
    text::find_sub_at(b, et, after)
}

impl StreamParser {
    fn start_tag(&mut self, events: &mut Vec<XmlEvent>, inner: &[char], b: &[char], after: usize) -> (r: Option<usize>)
        requires
            after <= b.len(),
        ensures
            match r {
                None => start_step(old(self).pstate(), inner@, b@, after as int) is None
                    && final(self).pstate() == old(self).pstate() && evs(final(events)@) == evs(
                    old(events)@,
                ),
                Some(np) => start_step(old(self).pstate(), inner@, b@, after as int) == Some(
                    (
                        final(self).pstate(),
                        np as int,
                        evs(final(events)@).subrange(
                            evs(old(events)@).len() as int,
                            evs(final(events)@).len() as int,
                        ),
                    ),
                ) && evs(old(events)@).is_prefix_of(evs(final(events)@)) && after <= np <= b.len(),
            },
            final(self).buf@ == old(self).buf@,
    {
        reveal(start_step);
        let ghost e0 = evs(events@);
        let ghost st = self.pstate();
        let name = text::first_token_exec(inner);
        if text::eq_lit(&name, "settingsInfo") {
            let et = text::chars_of("</settingsInfo>");
            match find_end(b, &et, after) {
                None => {
                    return None;
                },
                Some(off) => {
                    let xml = xml_tags::make_empty_xml(inner, false);
                    let a = xml_tags::attrs_from_xml(&xml);
                    match xml_tags::get_attr(&a, "instance") {
                        Some(i) => {
                            let s = text::string_of(&i);
                            let g = Game::from_code(s.as_str());
                            self.game = g;
                            emit(events, XmlEvent::GameDetected { game: g });
                        },
                        None => {},
                    }
                    assert(evs(events@).subrange(e0.len() as int, evs(events@).len() as int)
                        =~= start_step(st, inner@, b@, after as int).unwrap().2);
                    return Some(off + et.len());
                },
            }
        } else if text::eq_lit(&name, "prompt") || text::eq_lit(&name, "spell") {
            let et = make_end_tag(&name);
            match find_end(b, &et, after) {
                None => {
                    return None;
                },
                Some(off) => {
                    let content = text::slice_of(b, after, off);
                    let plain = xml_tags::strip_tags_exec(&content);
                    let xml = xml_tags::make_empty_xml(inner, true);
                    let a = xml_tags::attrs_from_xml(&xml);
                    match xml_tags::parse_start_tag(&name, &a, &plain) {
                        Some(e) => emit(events, e),
                        None => {},
                    }
                    assert(evs(events@).subrange(e0.len() as int, evs(events@).len() as int)
                        =~= start_step(st, inner@, b@, after as int).unwrap().2);
                    return Some(off + et.len());
                },
            }
        } else if text::eq_lit(&name, "component") {
            let xml = xml_tags::make_empty_xml(inner, false);
            let a = xml_tags::attrs_from_xml(&xml);
            let id = xml_tags::get_attr_or_empty(&a, "id");
            if text::eq_lit(&id, "room name") || text::eq_lit(&id, "room desc") {
                let et = text::chars_of("</component>");
                match find_end(b, &et, after) {
                    None => {
                        return None;
                    },
                    Some(off) => {
                        let content = text::slice_of(b, after, off);
                        let plain = xml_tags::strip_tags_exec(&content);
                        let cname = text::chars_of("component");
                        match xml_tags::parse_start_tag(&cname, &a, &plain) {
                            Some(e) => emit(events, e),
                            None => {},
                        }
                        assert(evs(events@).subrange(e0.len() as int, evs(events@).len() as int)
                            =~= start_step(st, inner@, b@, after as int).unwrap().2);
                        return Some(off + et.len());
                    },
                }
            } else if text::eq_lit(&id, "room objs") || text::eq_lit(&id, "room players")
                || text::eq_lit(&id, "inv") {
                emit(events, XmlEvent::ComponentClear { component_id: text::string_of(&id) });
                if text::eq_lit(&id, "inv") {
                    self.current_inv_container = None;
                }
                self.current_component = Some(id);
                self.in_bold = false;
            } else {
                self.current_component = Some(id);
                self.in_bold = false;
            }
        } else if text::eq_lit(&name, "dialogData") {
            let xml = xml_tags::make_empty_xml(inner, false);
            let a = xml_tags::attrs_from_xml(&xml);
            let id = xml_tags::get_attr_or_empty(&a, "id");
            let clear = xml_tags::get_attr(&a, "clear");
            if opt_eq_lit(&clear, "t") {
                emit(events, XmlEvent::DialogClear { dialog_id: text::string_of(&id) });
            }
            self.current_dialog = Some(id);
        } else if text::eq_lit(&name, "b") {
            self.in_bold = true;
        } else if text::eq_lit(&name, "compass") && opt_eq_lit(&self.current_stream, "familiar") {
            self.fam_mode = FamMode::Idle;
        } else if text::eq_lit(&name, "inv") {
            let xml = xml_tags::make_empty_xml(inner, false);
            let a = xml_tags::attrs_from_xml(&xml);
            self.current_inv_container = xml_tags::get_attr(&a, "id");
        } else if text::eq_lit(&name, "a") {
            let et = text::chars_of("</a>");
            match find_end(b, &et, after) {
                None => {
                    return None;
                },
                Some(off) => {
                    let raw = text::slice_of(b, after, off);
                    self.link(events, inner, &raw, off + et.len());
                    assert(evs(events@).subrange(e0.len() as int, evs(events@).len() as int)
                        =~= start_step(st, inner@, b@, after as int).unwrap().2);
                    return Some(off + et.len());
                },
            }
        } else if text::eq_lit(&name, "right") || text::eq_lit(&name, "left") {
            let hand = if text::eq_lit(&name, "right") {
                ObjHand::Right
            } else {
                ObjHand::Left
            };
            let et = make_end_tag(&name);
            match find_end(b, &et, after) {
                None => {
                    return None;
                },
                Some(off) => {
                    let raw = text::slice_of(b, after, off);
                    let e = hand_event_exec(hand, inner, &raw);
                    emit(events, e);
                    assert(evs(events@).subrange(e0.len() as int, evs(events@).len() as int)
                        =~= start_step(st, inner@, b@, after as int).unwrap().2);
                    return Some(off + et.len());
                },
            }
        }
        assert(evs(events@).subrange(e0.len() as int, evs(events@).len() as int)
            =~= start_step(st, inner@, b@, after as int).unwrap().2);
        Some(after)
    }
}

} // verus!

verus! {

impl StreamParser {
    fn process_tag(&mut self, events: &mut Vec<XmlEvent>, inner: &[char], b: &[char], after: usize) -> (r: Option<usize>)
        requires
            after <= b.len(),
        ensures
            match r {
                None => tag_step(old(self).pstate(), inner@, b@, after as int) is None
                    && final(self).pstate() == old(self).pstate() && evs(final(events)@) == evs(
                    old(events)@,
                ),
                Some(np) => tag_step(old(self).pstate(), inner@, b@, after as int) == Some(
                    (
                        final(self).pstate(),
                        np as int,
                        evs(final(events)@).subrange(
                            evs(old(events)@).len() as int,
                            evs(final(events)@).len() as int,
                        ),
                    ),
                ) && evs(old(events)@).is_prefix_of(evs(final(events)@)) && after <= np <= b.len(),
            },
            final(self).buf@ == old(self).buf@,
    {
        reveal(tag_step);
        let ghost e0 = evs(events@);
        if inner.len() > 0 && inner[0] == '/' {
            let rest = text::slice_of(inner, 1, inner.len());
            self.close_tag(events, &rest);
            assert(evs(events@).subrange(e0.len() as int, evs(events@).len() as int) =~= close_step(
                old(self).pstate(),
                rest@,
            ).1);
            Some(after)
        } else if inner.len() > 0 && (inner[0] == '!' || inner[0] == '?') {
            assert(evs(events@).subrange(e0.len() as int, evs(events@).len() as int) =~= seq![]);
            Some(after)
        } else if inner.len() > 0 && inner[inner.len() - 1] == '/' {
            self.self_closing(events, inner);
            assert(evs(events@).subrange(e0.len() as int, evs(events@).len() as int)
                =~= self_closing_step(old(self).pstate(), inner@).1);
            Some(after)
        } else {
            self.start_tag(events, inner, b, after)
        }
    }

    /// One step of parsing `b` at `pos`: the text up to the next tag, or the
    /// tag itself; `None` when the tag there is not complete yet.
    fn drain_one(&mut self, events: &mut Vec<XmlEvent>, b: &Vec<char>, pos: usize) -> (r: Option<usize>)
        requires
            pos < b.len(),
        ensures
            match r {
                None => drain_from(old(self).pstate(), b@, pos as int) == (
                    old(self).pstate(),
                    pos as int,
                    Seq::<Ev>::empty(),
                ) && final(self).pstate() == old(self).pstate() && evs(final(events)@) == evs(
                    old(events)@,
                ),
                Some(np) => pos < np <= b.len() && ({
                    let r1 = drain_from(old(self).pstate(), b@, pos as int);
                    let r2 = drain_from(final(self).pstate(), b@, np as int);
                    r1.0 == r2.0 && r1.1 == r2.1 && evs(old(events)@) + r1.2 == evs(final(events)@)
                        + r2.2
                }),
            },
            final(self).buf@ == old(self).buf@,
    {
        let ghost st = self.pstate();
        let ghost ev0 = evs(events@);
        proof {
            text::lemma_find_char_from(b@, '<', pos as int);
        }
        match text::find_char_at(b, '<', pos) {
            None => {
                let s = text::slice_of(b, pos, b.len());
                self.emit_text(events, &s);
                proof {
                    reveal(text_step);
                    assert(text::find_char_from(b@, '<', b.len() as int) is None);
                    assert(b@.subrange(b.len() as int, b.len() as int) =~= Seq::<char>::empty());
                    assert(drain_from(self.pstate(), b@, b.len() as int) == (
                        self.pstate(),
                        b.len() as int,
                        Seq::<Ev>::empty(),
                    ));
                    assert(evs(events@) + Seq::<Ev>::empty() =~= ev0 + text_step(st, s@).1);
                }
                Some(b.len())
            },
            Some(lt) => {
                if lt == pos {
                    proof {
                        xml_tags::lemma_gt_from(b@, pos + 1, None);
                    }
                    match xml_tags::find_gt_exec(b, pos) {
                        None => None,
                        Some(gt) => {
                            let inner = text::slice_of(b, pos + 1, gt);
                            match self.process_tag(events, &inner, b, gt + 1) {
                                None => None,
                                Some(np) => {
                                    assert(ev0 + evs(events@).subrange(
                                        ev0.len() as int,
                                        evs(events@).len() as int,
                                    ) =~= evs(events@));
                                    assert(evs(events@) + drain_from(self.pstate(), b@, np as int).2
                                        =~= ev0 + (evs(events@).subrange(
                                        ev0.len() as int,
                                        evs(events@).len() as int,
                                    ) + drain_from(self.pstate(), b@, np as int).2));
                                    Some(np)
                                },
                            }
                        },
                    }
                } else {
                    let s = text::slice_of(b, pos, lt);
                    self.emit_text(events, &s);
                    assert(evs(events@) + drain_from(self.pstate(), b@, lt as int).2 =~= ev0 + (
                    text_step(st, s@).1 + drain_from(self.pstate(), b@, lt as int).2));
                    Some(lt)
                }
            },
        }
    }

    /// Parses `b` from its start, keeping what cannot be parsed yet.
    fn drain_buf(&mut self, b: Vec<char>) -> (events: Vec<XmlEvent>)
        ensures
            ({
                let r = drain_from(old(self).pstate(), b@, 0);
                final(self).pstate() == r.0 && final(self).buf@ == b@.subrange(r.1, b@.len() as int)
                    && evs(events@) == r.2
            }),
    {
        let ghost total = drain_from(self.pstate(), b@, 0);
        let mut events: Vec<XmlEvent> = Vec::new();
        let mut pos: usize = 0;
        assert(evs(events@) + total.2 =~= total.2);
        while pos < b.len()
            invariant
                pos <= b.len(),
                total == drain_from(old(self).pstate(), b@, 0),
                ({
                    let r = drain_from(self.pstate(), b@, pos as int);
                    r.0 == total.0 && r.1 == total.1 && evs(events@) + r.2 == total.2
                }),
            decreases b.len() - pos,
        {
            match self.drain_one(&mut events, &b, pos) {
                None => {
                    assert(evs(events@) + Seq::<Ev>::empty() =~= evs(events@));
                    self.buf = text::slice_of(&b, pos, b.len());
                    return events;
                },
                Some(np) => {
                    pos = np;
                },
            }
        }
        proof {
            reveal(text_step);
            assert(b@.subrange(b.len() as int, b.len() as int) =~= Seq::<char>::empty());
            assert(evs(events@) + Seq::<Ev>::empty() =~= evs(events@));
        }
        self.buf = text::slice_of(&b, pos, b.len());
        events
    }

    /// Append `data` to the internal buffer and return all complete events.
    pub fn feed(&mut self, data: &str) -> (events: Vec<XmlEvent>)
        ensures
            (final(self)@, evs(events@)) == feed_spec(old(self)@, data@),
    {
        let mut b = clone_chars(&self.buf);
        text::push_str(&mut b, data);
        self.drain_buf(b)
    }
}

impl Default for StreamParser {
    fn default() -> (p: StreamParser)
        ensures
            p@ == initial(Game::GemStone),
    {
        StreamParser::new(Game::GemStone)
    }
}

/// Convenience wrapper: parse a string as a single feed to a fresh GemStone parser.
pub fn parse_chunk(input: &str) -> (events: Vec<XmlEvent>)
    ensures
        evs(events@) == feed_spec(initial(Game::GemStone), input@).1,
{
    let mut p = StreamParser::new(Game::GemStone);
    p.feed(input)
}

} // verus!
