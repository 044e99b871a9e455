use revenant::map::{MapData, MapRoom, RoomUid};

fn room(id: u32, title: &str, tags: &[&str], uid: RoomUid) -> MapRoom {
    MapRoom {
        id,
        title: title.to_string(),
        description: String::new(),
        wayto: vec![],
        paths: vec![],
        tags: tags.iter().map(|t| t.to_string()).collect(),
        location: None,
        terrain: None,
        uid,
        image: None,
    }
}

fn sample() -> MapData {
    MapData::new(vec![
        room(7, "[Town Square, Central]", &["town"], RoomUid::Number(Some(7001))),
        room(3, "[North Gate]", &["Gate", "exit"], RoomUid::Text("3003".to_string())),
        room(12, "[Old Bank]", &["bank"], RoomUid::List(vec![Some(12012), Some(7001)])),
        room(3, "[North Gate, Inside]", &["gate"], RoomUid::Missing),
    ])
}

#[test]
fn rooms_by_number_later_wins() {
    let m = sample();
    assert_eq!(m.room_count(), 3);
    assert_eq!(m.room_ids(), vec![3, 7, 12]);
    assert_eq!(m.get_room(3).unwrap().title, "[North Gate, Inside]");
    assert_eq!(m.find_room_by_id(12).unwrap().title, "[Old Bank]");
    assert!(m.get_room(99).is_none());
}

#[test]
fn rooms_by_name_tag_and_uid() {
    let m = sample();
    assert_eq!(m.find_room_by_name("town square").unwrap().id, 7);
    assert_eq!(m.find_room_by_name("NORTH GATE").unwrap().title, "[North Gate, Inside]");
    assert!(m.find_room_by_name("harbor").is_none());
    assert_eq!(m.find_room_by_tag("BANK").unwrap().id, 12);
    assert_eq!(m.find_room_by_tag("gate").unwrap().title, "[North Gate, Inside]");
    assert!(m.find_room_by_tag("exit").is_none());
    assert_eq!(m.ids_from_uid(7001), vec![7, 12]);
    assert_eq!(m.ids_from_uid(3003), Vec::<u32>::new());
    assert_eq!(m.ids_from_uid(12012), vec![12]);
}
