use revenant::gsl_converter::GslConverter;

#[test]
fn test_bare_newline_passthrough() {
    let mut c = GslConverter::new();
    assert_eq!(c.convert("\r\n"), Some("\r\n".to_string()));
    assert_eq!(c.convert("\n"), Some("\n".to_string()));
}

#[test]
fn test_room_name_conversion() {
    let mut c = GslConverter::new();
    let input = r#"<style id="roomName" />Town Square<style id=""/>"#;
    let result = c.convert(input).unwrap();
    assert!(result.contains("\x1cGSo\r\nTown Square\x1cGSp\r\n"));
}

#[test]
fn test_room_desc_conversion() {
    let mut c = GslConverter::new();
    let input = r#"<style id="roomDesc"/>A dusty road leads north.<style id=""/>"#;
    let result = c.convert(input).unwrap();
    assert!(result.contains("\x1cGSH\r\nA dusty road leads north.\x1cGSI\r\n"));
}

#[test]
fn test_room_desc_with_links() {
    let mut c = GslConverter::new();
    let input = r#"<style id="roomDesc"/>You see <a exist="123" noun="chest">a chest</a> here.<style id=""/>"#;
    let result = c.convert(input).unwrap();
    assert!(result.contains("\x1cGSA"));
    assert!(result.contains("a chest\x1cGSa"));
}

#[test]
fn test_empty_room_desc_stripped() {
    let mut c = GslConverter::new();
    let input = "<style id=\"roomDesc\"/><style id=\"\"/>\r\nSome text\n";
    let result = c.convert(input).unwrap();
    assert!(!result.contains("roomDesc"));
    assert!(result.contains("Some text"));
}

#[test]
fn test_bold_conversion() {
    let mut c = GslConverter::new();
    let input = "<pushBold/>a goblin<popBold/>";
    let result = c.convert(input).unwrap();
    assert_eq!(result, "\x1cGSL\r\na goblin\x1cGSM\r\n");
}

#[test]
fn test_thoughts_conversion() {
    let mut c = GslConverter::new();
    let input = r#"<pushStream id="thoughts"/>[General] Hello world<popStream/>"#;
    let result = c.convert(input).unwrap();
    assert!(result.contains("You hear the faint thoughts of [General]-ESP echo in your mind:"));
    assert!(result.contains("Hello world"));
}

#[test]
fn test_familiar_conversion() {
    let mut c = GslConverter::new();
    let input = r#"<pushStream id="familiar"/>Your familiar sees something.<popStream/>"#;
    let result = c.convert(input).unwrap();
    assert!(result.contains("\x1cGSe\r\n"));
    assert!(result.contains("Your familiar sees something."));
    assert!(result.contains("\x1cGSf\r\n"));
}

#[test]
fn test_death_conversion() {
    let mut c = GslConverter::new();
    let input = r#"<pushStream id="death"/>You have died.<popStream/>"#;
    let result = c.convert(input).unwrap();
    assert!(result.contains("\x1cGSw00003\r\n"));
    assert!(result.contains("You have died."));
    assert!(result.contains("\x1cGSw00004\r\n"));
}

#[test]
fn test_suppressed_streams() {
    let mut c = GslConverter::new();
    let input = r#"<pushStream id="inv"/>some inventory data<popStream/>"#;
    assert_eq!(c.convert(input), None);
}

#[test]
fn test_spells_stream_stripped() {
    let mut c = GslConverter::new();
    let input = r#"<stream id="Spells">101 Spirit Warding I</stream>"#;
    assert_eq!(c.convert(input), None);
}

#[test]
fn test_content_tags_stripped() {
    let mut c = GslConverter::new();
    let input = r#"<compDef id="room objs">stuff</compDef>Hello"#;
    let result = c.convert(input).unwrap();
    assert!(!result.contains("compDef"));
    assert!(!result.contains("stuff"));
    assert!(result.contains("Hello"));
}

#[test]
fn test_prompt_stripped() {
    let mut c = GslConverter::new();
    let input = "<prompt time=\"12345\">&gt;</prompt>More text\n";
    let result = c.convert(input).unwrap();
    assert!(!result.contains("prompt"));
    assert!(result.contains("More text"));
}

#[test]
fn test_xml_entity_decoding() {
    let mut c = GslConverter::new();
    let input = "You say &gt;&lt;&amp; done\n";
    let result = c.convert(input).unwrap();
    assert!(result.contains("><& done"));
}

#[test]
fn test_all_tags_stripped() {
    let mut c = GslConverter::new();
    let input = r#"<d cmd="look">look</d> around"#;
    let result = c.convert(input).unwrap();
    assert_eq!(result, "look around");
}

#[test]
fn test_multiline_buffering() {
    let mut c = GslConverter::new();
    let part1 = r#"<pushStream id="thoughts"/>[General] Hello "#;
    assert_eq!(c.convert(part1), None);
    let part2 = "world<popStream/>\n";
    let result = c.convert(part2).unwrap();
    assert!(result.contains("You hear the faint thoughts of [General]-ESP echo in your mind:"));
    assert!(result.contains("Hello world"));
}

#[test]
fn test_launch_url() {
    let mut c = GslConverter::new();
    let input = r#"<LaunchURL src="/play/gemstone" />"#;
    let result = c.convert(input).unwrap();
    assert!(result.contains("\x1cGSw00005\r\nhttps://www.play.net/play/gemstone\r\n"));
}

#[test]
fn test_speech_preset() {
    let mut c = GslConverter::new();
    let input = r#"<preset id='speech'>You say, "Hello."</preset>"#;
    let result = c.convert(input).unwrap();
    assert!(result.contains("You say, \"Hello.\""));
    assert!(!result.contains("preset"));
}

#[test]
fn test_empty_after_strip_returns_none() {
    let mut c = GslConverter::new();
    let input = r#"<progressBar id="health" value="100"/>"#;
    assert_eq!(c.convert(input), None);
}

#[test]
fn test_plain_text_passthrough() {
    let mut c = GslConverter::new();
    let input = "You also see a wooden chest.\r\n";
    assert_eq!(c.convert(input), Some(input.to_string()));
}

#[test]
fn gsl_count_occurrences_counts_regex_matches() {
    assert_eq!(revenant::gsl_converter::count_occurrences("<pushStream id=\"a\"/>x<pushStream/>", revenant::gsl_converter::PUSH_STREAM), 2);
    assert_eq!(revenant::gsl_converter::count_occurrences("plain", revenant::gsl_converter::PUSH_STREAM), 0);
}

#[test]
fn gsl_voln_thoughts() {
    let mut c = GslConverter::new();
    let input = "<pushStream id=\"voln\"/>[Voln - Tenaya] \"Hail.\"\n<popStream/>";
    let result = c.convert(input).unwrap();
    assert_eq!(result, "The Symbol of Thought begins to burn in your mind and you hear Tenaya thinking, \"Hail.\"\r\n");
}

#[test]
fn gsl_style_buffering_until_reset() {
    let mut c = GslConverter::new();
    assert_eq!(c.convert("<style id=\"roomName\" />Town"), None);
    let out = c.convert(" Square<style id=\"\"/>").unwrap();
    assert_eq!(out, "\x1cGSo\r\nTown Square\x1cGSp\r\n");
}

#[test]
fn gsl_newline_keeps_buffer() {
    let mut c = GslConverter::new();
    assert_eq!(c.convert("<pushStream id=\"death\"/>You "), None);
    assert_eq!(c.convert("\n"), Some("\n".to_string()));
    let out = c.convert("died.<popStream/>").unwrap();
    assert_eq!(out, "\x1cGSw00003\r\nYou died.\x1cGSw00004\r\n");
}
