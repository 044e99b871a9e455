use revenant::game_obj::ObjCategory;
use revenant::game_state::Game;
use revenant::xml_parser::{parse_chunk, StreamParser, XmlEvent};

#[test]
fn test_push_pop_stream_bounty() {
    let events = parse_chunk(r#"<pushStream id="bounty"/>You have a task<popStream id="bounty"/>"#);
    assert!(matches!(&events[0], XmlEvent::PushStream { id } if id == "bounty"));
    assert!(matches!(&events[1], XmlEvent::StreamText { stream_id, text }
        if stream_id == "bounty" && text == "You have a task"));
    assert!(matches!(&events[2], XmlEvent::PopStream { id } if id == "bounty"));
}

#[test]
fn test_clear_stream() {
    let events = parse_chunk(r#"<clearStream id="bounty"/>"#);
    assert!(matches!(&events[0], XmlEvent::ClearStream { id } if id == "bounty"));
}

#[test]
fn test_stream_text_not_room_name() {
    let mut parser = StreamParser::default();
    let events = parser.feed(
        r#"<pushStream id="familiar"/><style id="roomName"/>Some Room<style id=""/><popStream id="familiar"/>"#,
    );
    assert!(!events.iter().any(|e| matches!(e, XmlEvent::RoomName { .. })));
    assert!(events.iter().any(|e| matches!(e, XmlEvent::FamiliarRoomName { .. })));
}

#[test]
fn test_split_push_stream_across_feeds() {
    let mut parser = StreamParser::default();
    let e1 = parser.feed(r#"<pushStream id="bou"#);
    assert!(e1.is_empty());
    let e2 = parser.feed(r#"nty"/>task text<popStream id="bounty"/>"#);
    assert!(matches!(&e2[0], XmlEvent::PushStream { id } if id == "bounty"));
    assert!(matches!(&e2[1], XmlEvent::StreamText { stream_id, .. } if stream_id == "bounty"));
}

#[test]
fn test_familiar_stream_room_name() {
    let events = parse_chunk(
        r#"<pushStream id="familiar"/><style id="roomName"/>[Icemule Trace]<style id=""/><popStream id="familiar"/>"#,
    );
    assert!(events
        .iter()
        .any(|e| matches!(e, XmlEvent::FamiliarRoomName { name } if name == "[Icemule Trace]")));
    assert!(!events.iter().any(|e| matches!(e, XmlEvent::RoomName { .. })));
}

#[test]
fn test_familiar_stream_npc_loot() {
    let mut parser = StreamParser::default();
    let input = [
        r#"<pushStream id="familiar"/>"#,
        "You also see ",
        r#"<a exist="123" noun="kobold"><b>a kobold</b></a>"#,
        " and ",
        r#"<a exist="456" noun="chest">a wooden chest</a>"#,
        r#"<popStream id="familiar"/>"#,
    ]
    .join("");
    let events = parser.feed(&input);
    let fam_objs: Vec<_> = events
        .iter()
        .filter(|e| matches!(e, XmlEvent::FamiliarObjCreate { .. }))
        .collect();
    assert_eq!(fam_objs.len(), 2);
    assert!(matches!(&fam_objs[0], XmlEvent::FamiliarObjCreate { category: ObjCategory::Npc, .. }));
    assert!(matches!(&fam_objs[1], XmlEvent::FamiliarObjCreate { category: ObjCategory::Loot, .. }));
}

#[test]
fn test_familiar_stream_pcs() {
    let mut parser = StreamParser::default();
    let input = [
        r#"<pushStream id="familiar"/>"#,
        "Also here: ",
        r#"<a exist="789" noun="Gandalf">Gandalf</a>"#,
        r#"<popStream id="familiar"/>"#,
    ]
    .join("");
    let events = parser.feed(&input);
    assert!(events.iter().any(|e| matches!(e,
        XmlEvent::FamiliarObjCreate { category: ObjCategory::Pc, noun, .. } if noun == "Gandalf"
    )));
}

#[test]
fn test_familiar_room_desc_objects() {
    let mut parser = StreamParser::default();
    let input = [
        r#"<pushStream id="familiar"/>"#,
        r#"<style id="roomDesc"/>The trail is narrow. "#,
        r#"<a exist="111" noun="sign">a wooden sign</a>"#,
        r#"<style id=""/>"#,
        r#"<popStream id="familiar"/>"#,
    ]
    .join("");
    let events = parser.feed(&input);
    assert!(events.iter().any(|e| matches!(e,
        XmlEvent::FamiliarObjCreate { category: ObjCategory::RoomDesc, .. }
    )));
}

#[test]
fn test_normal_parsing_unaffected_by_stream_code() {
    let mut parser = StreamParser::default();
    let events = parser.feed(r#"<style id="roomName"/>Town Square<style id=""/>"#);
    assert!(events.iter().any(|e| matches!(e, XmlEvent::RoomName { name } if name == "Town Square")));
    assert!(!events.iter().any(|e| matches!(e, XmlEvent::FamiliarRoomName { .. })));
}

#[test]
fn parser_reports_vitals_and_roundtime() {
    let events = parse_chunk(r#"<progressBar id="health" value="95" text="health 95/100"/><roundTime value="1700000000"/>"#);
    assert!(events.iter().any(|e| matches!(e, XmlEvent::Health { value: 95, .. })));
    assert!(events.iter().any(|e| matches!(e, XmlEvent::RoundTime { end_epoch: 1700000000 })));
}

#[test]
fn parser_plain_text_is_text_event() {
    let events = parse_chunk("You also see a wooden chest.\n");
    assert!(events.iter().any(|e| matches!(e, XmlEvent::Text { content } if content.contains("wooden chest"))));
}

#[test]
fn parser_for_dragonrealms_starts_unsafe_to_respond() {
    let p = StreamParser::new(Game::DragonRealms);
    assert!(p.safe_to_respond());
    let q = StreamParser::new(Game::GemStone);
    assert!(q.safe_to_respond());
}

#[test]
fn feed_split_inside_a_tag_matches_one_feed() {
    let a = "<roundTime value=\"5\"/>You see a box.\r\n<prompt time=\"17\"";
    let b = ">&gt;</prompt>\r\n<pushStream id=\"bounty\"/>task<popStream id=\"bounty\"/>";
    let mut p = StreamParser::new(Game::GemStone);
    let mut split = p.feed(a);
    split.extend(p.feed(b));
    let mut q = StreamParser::new(Game::GemStone);
    let whole = q.feed(&format!("{a}{b}"));
    assert_eq!(split, whole);
    assert!(!whole.is_empty());
}
