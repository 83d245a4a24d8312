use svg_quest::map::{EventType, FieldMap, MapConnectionDetail, ObstacleType, MAP_COUNT};
use svg_quest::map_elements::ElementKind;
use svg_quest::input::Input;
use svg_quest::message::PositionMessage;
use svg_quest::position::Position;

fn maps() -> Vec<FieldMap> {
    vec![FieldMap::init_1(), FieldMap::init_2(), FieldMap::init_3(), FieldMap::init_4()]
}

fn connections(map: &FieldMap) -> Vec<(Position, MapConnectionDetail)> {
    map.event_positions
        .iter()
        .filter_map(|(position, event)| match event {
            EventType::MapConnection(detail) => Some((*position, *detail)),
            _ => None,
        })
        .collect()
}

#[test]
fn obstacle_colours() {
    assert_eq!(ObstacleType::Rock.get_color(), "gray");
    assert_eq!(ObstacleType::Lake.get_color(), "aqua");
}

#[test]
fn the_inverse_of_a_link_leads_back() {
    let link = MapConnectionDetail {
        index_addition: 2,
        from_position: Position::new(600, 240),
        to_position: Position::new(-440, -360),
    };
    let back = link.inverse();
    assert_eq!(back.index_addition, -2);
    assert_eq!(back.from_position, Position::new(-440, -360));
    assert_eq!(back.to_position, Position::new(600, 240));
    assert_eq!(back.inverse(), link);
}

#[test]
fn maps_stand_under_their_index() {
    assert_eq!(MAP_COUNT, 4);
    for (index, map) in maps().iter().enumerate() {
        assert_eq!(map.map_index, index);
    }
}

#[test]
fn every_link_has_its_link_back() {
    let all = maps();
    let mut links = 0;
    for (index, map) in all.iter().enumerate() {
        for (_, detail) in connections(map) {
            links += 1;
            let target = index as i32 + detail.index_addition;
            assert!(0 <= target && target < all.len() as i32);
            let back = detail.inverse();
            assert!(connections(&all[target as usize]).iter().any(|(_, other)| *other == back));
        }
    }
    assert_eq!(links, 3 + 6 + 6 + 6);
}

#[test]
fn the_links_of_the_first_map() {
    let first = FieldMap::init_1();
    let found = connections(&first);
    let arrival = Position::new(-440, -360);
    assert_eq!(
        found,
        vec![
            (
                Position::new(120, -40),
                MapConnectionDetail {
                    index_addition: 1,
                    from_position: Position::new(120, -40),
                    to_position: arrival
                }
            ),
            (
                Position::new(600, 240),
                MapConnectionDetail {
                    index_addition: 2,
                    from_position: Position::new(600, 240),
                    to_position: arrival
                }
            ),
            (
                Position::new(520, -160),
                MapConnectionDetail {
                    index_addition: 3,
                    from_position: Position::new(520, -160),
                    to_position: arrival
                }
            ),
        ]
    );
}

#[test]
fn the_first_map_in_numbers() {
    let first = FieldMap::init_1();
    assert_eq!(first.event_positions.len(), 3 + 1 + 15 + 1 + 14 + 3);
    assert_eq!(first.treasure_items.len(), 1);
    assert_eq!(first.treasure_items[0].name, "薬草");
    assert_eq!(first.ground_start_position, Position::new(-4000, -3000));
    assert_eq!((first.ground_width, first.ground_height), (8000, 6000));
    assert_eq!(first.ground_color, "#996633");
    assert!(matches!(first.event_positions[0], (p, EventType::Enemy) if p == Position::new(320, -40)));
    assert!(
        matches!(&first.event_positions[3], (p, EventType::TreasureBox(key)) if *p == Position::new(320, 120) && key.is_empty())
    );
    assert!(
        matches!(&first.event_positions[19], (p, EventType::Gate(key)) if *p == Position::new(520, -160) && key == "最初の鍵")
    );
}

#[test]
fn the_side_maps_in_numbers() {
    let all = maps();
    assert_eq!(all[1].event_positions.len(), 1 + 20 + 6);
    assert_eq!(all[1].treasure_items[0].name, "棍棒");
    assert!(
        matches!(&all[1].event_positions[0], (p, EventType::TreasureBox(key)) if *p == Position::new(-480, -480) && key == "最初の鍵")
    );
    assert_eq!(all[2].event_positions.len(), 1 + 1 + 50 + 6);
    assert_eq!(all[2].treasure_items[0].name, "最初の鍵");
    assert_eq!(all[3].event_positions.len(), 1 + 50 + 6);
    assert!(all[3].treasure_items.is_empty());
    assert_eq!(all[3].ground_start_position, Position::new(-600, -1200));
    assert_eq!((all[3].ground_width, all[3].ground_height), (320, 880));
    assert_eq!(all[2].ground_color, "#663300");
}

#[test]
fn extract_events_appends_one_event_per_tile() {
    let mut events = vec![(Position::new(0, 0), EventType::Enemy)];
    FieldMap::extract_events(
        &mut events,
        EventType::Gate("鍵".to_string()),
        vec![Position::new(40, 0), Position::new(80, 0)],
    );
    assert_eq!(events.len(), 3);
    assert!(matches!(&events[1], (p, EventType::Gate(key)) if *p == Position::new(40, 0) && key == "鍵"));
    assert!(matches!(&events[2], (p, EventType::Gate(key)) if *p == Position::new(80, 0) && key == "鍵"));
}

#[test]
fn events_are_found_by_tile() {
    let first = FieldMap::init_1();
    assert_eq!(first.find_event(Position::new(320, 120)), Some(3));
    assert_eq!(first.find_event(Position::new(360, 280)), None);
    // The door stands in front of the link on the same tile.
    assert_eq!(first.find_event(Position::new(520, -160)), Some(19));
    assert!(matches!(first.event_positions[19].1, EventType::Gate(_)));
    assert!(matches!(first.event_positions[36].1, EventType::MapConnection(_)));
    assert_eq!(first.event_positions[36].0, Position::new(520, -160));
    assert_eq!(first.find_event(Position::new(480, -160)), Some(17));
    assert!(matches!(first.event_positions[17].1, EventType::Obstacle(ObstacleType::Rock)));
}

#[test]
fn treasure_boxes_are_numbered_in_order() {
    let first = FieldMap::init_1();
    assert_eq!(first.treasure_index(0), 0);
    assert_eq!(first.treasure_index(3), 0);
    assert_eq!(first.treasure_index(4), 1);
    assert_eq!(first.treasure_index(first.event_positions.len()), 1);
    let third = FieldMap::init_3();
    assert_eq!(third.treasure_index(1), 0);
}

#[test]
fn links_are_drawn_first() {
    let first = FieldMap::init_1();
    let elements = first.events_to_elements(&vec![]);
    assert_eq!(elements.len(), first.event_positions.len());
    for element in elements.iter().take(3) {
        assert_eq!(element.kind, ElementKind::MapConnection);
        assert_eq!(element.fill, "black");
        assert_eq!(element.text, "");
        assert!(!element.outlined);
    }
    assert_eq!(elements[0].position, Position::new(120, -40));
    assert_eq!(elements[3].kind, ElementKind::Enemy);
    assert_eq!(elements[3].fill, "red");
    assert_eq!(elements[3].text, "敵");
    assert_eq!(elements[3].position, Position::new(320, -40));
    assert_eq!(elements[6].kind, ElementKind::TreasureBox);
    assert_eq!(elements[6].fill, "orange");
    assert_eq!(elements[6].text, "宝");
    assert_eq!(elements[7].kind, ElementKind::Obstacle);
    assert_eq!(elements[7].fill, "gray");
    assert_eq!(elements[22].kind, ElementKind::Gate);
    assert_eq!(elements[22].fill, "brown");
    assert!(elements[22].outlined);
    assert_eq!(elements[23].kind, ElementKind::Obstacle);
    assert_eq!(elements[23].fill, "aqua");
}

#[test]
fn an_opened_box_is_gray() {
    let first = FieldMap::init_1();
    let elements = first.events_to_elements(&vec![0]);
    assert_eq!(elements[6].fill, "gray");
    let elements = first.events_to_elements(&vec![1, 7]);
    assert_eq!(elements[6].fill, "orange");
}

#[test]
fn only_players_on_the_map_are_marked() {
    let users = vec![
        PositionMessage {
            user_name: "a".to_string(),
            direction: Input::ArrowLeft,
            position_x: 40,
            position_y: 80,
            map_index: 1,
        },
        PositionMessage {
            user_name: "b".to_string(),
            direction: Input::ArrowUp,
            position_x: 0,
            position_y: 0,
            map_index: 0,
        },
        PositionMessage {
            user_name: "c".to_string(),
            direction: Input::NoInput,
            position_x: -40,
            position_y: 120,
            map_index: 1,
        },
    ];
    let markers = FieldMap::init_2().draw_online_user(&users);
    assert_eq!(markers.len(), 2);
    assert_eq!(markers[0].user_name, "a");
    assert_eq!(markers[0].position, Position::new(40, 80));
    assert_eq!(markers[0].glyph, "←");
    assert_eq!(markers[1].user_name, "c");
    assert_eq!(markers[1].glyph, "");
    assert!(FieldMap::init_4().draw_online_user(&users).is_empty());
}
