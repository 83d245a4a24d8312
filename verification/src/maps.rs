//! The four maps of the game and the links between them.

use crate::item::{item_of_name, items_view, Item};
use crate::map::{
    events_view, placed, treasure_rank, EventType, EventTypeView, FieldMap, FieldMapView,
    MapConnectionDetail, ObstacleType, PlacedEvent, MAP_COUNT,
};
use crate::position::{areas_positions, outline, Position};
use vstd::prelude::*;

verus! {

/// Where a character arrives on each of the side maps.
pub open spec fn arrival() -> Position {
    Position { x: -440i32, y: -360i32 }
}

/// The link from the first map to the second.
pub open spec fn link_to_second() -> MapConnectionDetail {
    MapConnectionDetail {
        index_addition: 1,
        from_position: Position { x: 120i32, y: -40i32 },
        to_position: arrival(),
    }
}

/// The link from the first map to the third.
pub open spec fn link_to_third() -> MapConnectionDetail {
    MapConnectionDetail {
        index_addition: 2,
        from_position: Position { x: 600i32, y: 240i32 },
        to_position: arrival(),
    }
}

/// The link from the first map to the fourth.
pub open spec fn link_to_fourth() -> MapConnectionDetail {
    MapConnectionDetail {
        index_addition: 3,
        from_position: Position { x: 520i32, y: -160i32 },
        to_position: arrival(),
    }
}

/// The tiles of a side map from which the way leads back to the first map.
pub open spec fn exit_tiles() -> Seq<Position> {
    seq![
        Position { x: -360i32, y: -320i32 },
        Position { x: -400i32, y: -320i32 },
        Position { x: -440i32, y: -320i32 },
        Position { x: -480i32, y: -320i32 },
        Position { x: -520i32, y: -320i32 },
        Position { x: -560i32, y: -320i32 },
    ]
}

/// The tiles of the lake of the first map.
pub open spec fn lake_tiles() -> Seq<Position> {
    seq![
        Position { x: -40i32, y: 240i32 },
        Position { x: 0i32, y: 240i32 },
        Position { x: 40i32, y: 240i32 },
        Position { x: 80i32, y: 240i32 },
        Position { x: -80i32, y: 280i32 },
        Position { x: -40i32, y: 280i32 },
        Position { x: 0i32, y: 280i32 },
        Position { x: 40i32, y: 280i32 },
        Position { x: 80i32, y: 280i32 },
        Position { x: 120i32, y: 280i32 },
        Position { x: -40i32, y: 320i32 },
        Position { x: 0i32, y: 320i32 },
        Position { x: 40i32, y: 320i32 },
        Position { x: 80i32, y: 320i32 },
    ]
}

/// The events of the first map, in drawing order.
pub open spec fn first_map_events() -> Seq<PlacedEvent> {
    placed(
        EventTypeView::Enemy,
        seq![
            Position { x: 320i32, y: -40i32 },
            Position { x: 80i32, y: 80i32 },
            Position { x: 440i32, y: 320i32 },
        ],
    ) + placed(EventTypeView::TreasureBox(""@), seq![Position { x: 320i32, y: 120i32 }]) + placed(
        EventTypeView::Obstacle(ObstacleType::Rock),
        Seq::<Position>::empty() + outline(80i32, -80i32, 160i32, -40i32) + outline(560i32, 200i32, 640i32, 240i32)
            + outline(480i32, -200i32, 560i32, -160i32),
    ) + placed(EventTypeView::Gate("最初の鍵"@), seq![Position { x: 520i32, y: -160i32 }]) + placed(
        EventTypeView::Obstacle(ObstacleType::Lake),
        lake_tiles(),
    ) + placed(
        EventTypeView::MapConnection(link_to_second()),
        seq![link_to_second().from_position],
    ) + placed(EventTypeView::MapConnection(link_to_third()), seq![link_to_third().from_position])
        + placed(
        EventTypeView::MapConnection(link_to_fourth()),
        seq![link_to_fourth().from_position],
    )
}

/// The first map: the open field.
pub open spec fn first_map() -> FieldMapView {
    FieldMapView {
        map_index: 0,
        event_positions: first_map_events(),
        treasure_items: seq![item_of_name("薬草"@)],
        ground_start_position: Position { x: -4000i32, y: -3000i32 },
        ground_width: 8000,
        ground_height: 6000,
        ground_color: "#996633"@,
    }
}

/// The events of the second map, in drawing order.
pub open spec fn second_map_events() -> Seq<PlacedEvent> {
    placed(EventTypeView::TreasureBox("最初の鍵"@), seq![Position { x: -480i32, y: -480i32 }])
        + placed(
        EventTypeView::Obstacle(ObstacleType::Rock),
        Seq::<Position>::empty() + outline(-600i32, -600i32, -320i32, -360i32),
    ) + placed(EventTypeView::MapConnection(link_to_second().inverted()), exit_tiles())
}

/// The second map: the cave of the club.
pub open spec fn second_map() -> FieldMapView {
    FieldMapView {
        map_index: 1,
        event_positions: second_map_events(),
        treasure_items: seq![item_of_name("棍棒"@)],
        ground_start_position: Position { x: -600i32, y: -600i32 },
        ground_width: 320,
        ground_height: 280,
        ground_color: "#663300"@,
    }
}

/// The events of the third map, in drawing order.
pub open spec fn third_map_events() -> Seq<PlacedEvent> {
    placed(EventTypeView::Enemy, seq![Position { x: -520i32, y: -1120i32 }]) + placed(
        EventTypeView::TreasureBox(""@),
        seq![Position { x: -480i32, y: -520i32 }],
    ) + placed(
        EventTypeView::Obstacle(ObstacleType::Rock),
        Seq::<Position>::empty() + outline(-600i32, -1200i32, -320i32, -360i32),
    ) + placed(EventTypeView::MapConnection(link_to_third().inverted()), exit_tiles())
}

/// The third map: the cave of the key.
pub open spec fn third_map() -> FieldMapView {
    FieldMapView {
        map_index: 2,
        event_positions: third_map_events(),
        treasure_items: seq![item_of_name("最初の鍵"@)],
        ground_start_position: Position { x: -600i32, y: -1200i32 },
        ground_width: 320,
        ground_height: 880,
        ground_color: "#663300"@,
    }
}

/// The events of the fourth map, in drawing order.
pub open spec fn fourth_map_events() -> Seq<PlacedEvent> {
    placed(EventTypeView::Enemy, seq![Position { x: -520i32, y: -520i32 }]) + placed(
        EventTypeView::Obstacle(ObstacleType::Rock),
        Seq::<Position>::empty() + outline(-600i32, -1200i32, -320i32, -360i32),
    ) + placed(EventTypeView::MapConnection(link_to_fourth().inverted()), exit_tiles())
}

/// The fourth map: the cave behind the door.
pub open spec fn fourth_map() -> FieldMapView {
    FieldMapView {
        map_index: 3,
        event_positions: fourth_map_events(),
        treasure_items: Seq::empty(),
        ground_start_position: Position { x: -600i32, y: -1200i32 },
        ground_width: 320,
        ground_height: 880,
        ground_color: "#663300"@,
    }
}

/// The maps of the game, by index.
pub open spec fn shipped_maps() -> Seq<FieldMapView> {
    seq![first_map(), second_map(), third_map(), fourth_map()]
}

/// The tiles on which the way leads back to the first map.
fn exit_positions() -> (tiles: Vec<Position>)
    ensures
        tiles@ == exit_tiles(),
{
    let tiles = Position::new_vec(
        vec![[-360, -320], [-400, -320], [-440, -320], [-480, -320], [-520, -320], [-560, -320]],
    );
    assert(tiles@ =~= exit_tiles());
    tiles
}

/// The rock outline of a side map.
fn rock_outline(start_y: i32) -> (tiles: Vec<Position>)
    requires
        -100000 <= start_y <= -361,
    ensures
        tiles@ == Seq::<Position>::empty() + outline(-600i32, start_y, -320i32, -360i32),
{
    let areas: Vec<[i32; 4]> = vec![[-600, start_y, -320, -360]];
    let tiles = Position::new_area(areas);
    proof {
        assert(areas@.drop_last() =~= Seq::empty());
        reveal_with_fuel(areas_positions, 2);
    }
    tiles
}

/// One item in a list.
fn single_item(name: &str) -> (items: Vec<Item>)
    requires
        crate::item::is_item_name(name@),
    ensures
        items_view(items@) == seq![item_of_name(name@)],
{
    let mut items: Vec<Item> = Vec::new();
    items.push(Item::new(name));
    assert(items_view(items@) =~= seq![item_of_name(name@)]);
    items
}

impl FieldMap {
    /// The first map: the open field.
    pub fn init_1() -> (map: FieldMap)
        ensures
            map@ == first_map(),
    {
        let treasure_items = single_item("薬草");
        let map_connection = MapConnectionDetail {
            index_addition: 1,
            from_position: Position::new(120, -40),
            to_position: Position::new(-440, -360),
        };
        let map_connection2 = MapConnectionDetail {
            index_addition: 2,
            from_position: Position::new(600, 240),
            to_position: Position::new(-440, -360),
        };
        let map_connection3 = MapConnectionDetail {
            index_addition: 3,
            from_position: Position::new(520, -160),
            to_position: Position::new(-440, -360),
        };
        let mut event_positions: Vec<(Position, EventType)> = Vec::new();
        let enemies = Position::new_vec(vec![[320, -40], [80, 80], [440, 320]]);
        assert(enemies@ =~= seq![
            Position { x: 320i32, y: -40i32 },
            Position { x: 80i32, y: 80i32 },
            Position { x: 440i32, y: 320i32 },
        ]);
        FieldMap::extract_events(&mut event_positions, EventType::Enemy, enemies);
        let boxes = Position::new_vec(vec![[320, 120]]);
        assert(boxes@ =~= seq![Position { x: 320i32, y: 120i32 }]);
        FieldMap::extract_events(
            &mut event_positions,
            EventType::TreasureBox("".to_owned()),
            boxes,
        );
        let areas: Vec<[i32; 4]> = vec![
            [80, -80, 160, -40],
            [560, 200, 640, 240],
            [480, -200, 560, -160],
        ];
        let rocks = Position::new_area(areas);
        proof {
            let two = areas@.drop_last();
            let one = two.drop_last();
            assert(one.drop_last() =~= Seq::empty());
            reveal_with_fuel(areas_positions, 4);
            assert(areas_positions(one) == Seq::<Position>::empty() + outline(
                80i32,
                -80i32,
                160i32,
                -40i32,
            ));
            assert(areas_positions(two) == areas_positions(one) + outline(
                560i32,
                200i32,
                640i32,
                240i32,
            ));
        }
        FieldMap::extract_events(
            &mut event_positions,
            EventType::Obstacle(ObstacleType::Rock),
            rocks,
        );
        let gates = Position::new_vec(vec![[520, -160]]);
        assert(gates@ =~= seq![Position { x: 520i32, y: -160i32 }]);
        FieldMap::extract_events(
            &mut event_positions,
            EventType::Gate("最初の鍵".to_owned()),
            gates,
        );
        let lake = Position::new_vec(
            vec![
                [-40, 240],
                [0, 240],
                [40, 240],
                [80, 240],
                [-80, 280],
                [-40, 280],
                [0, 280],
                [40, 280],
                [80, 280],
                [120, 280],
                [-40, 320],
                [0, 320],
                [40, 320],
                [80, 320],
            ],
        );
        assert(lake@ =~= lake_tiles());
        FieldMap::extract_events(
            &mut event_positions,
            EventType::Obstacle(ObstacleType::Lake),
            lake,
        );
        let to_second = Position::new_vec(vec![[120, -40]]);
        assert(to_second@ =~= seq![link_to_second().from_position]);
        FieldMap::extract_events(
            &mut event_positions,
            EventType::MapConnection(map_connection),
            to_second,
        );
        let to_third = Position::new_vec(vec![[600, 240]]);
        assert(to_third@ =~= seq![link_to_third().from_position]);
        FieldMap::extract_events(
            &mut event_positions,
            EventType::MapConnection(map_connection2),
            to_third,
        );
        let to_fourth = Position::new_vec(vec![[520, -160]]);
        assert(to_fourth@ =~= seq![link_to_fourth().from_position]);
        FieldMap::extract_events(
            &mut event_positions,
            EventType::MapConnection(map_connection3),
            to_fourth,
        );
        assert(events_view(event_positions@) =~= first_map_events());
        FieldMap {
            map_index: 0,
            event_positions,
            treasure_items,
            ground_start_position: Position::new(-4000, -3000),
            ground_width: 8000,
            ground_height: 6000,
            ground_color: "#996633".to_owned(),
        }
    }

    /// The second map: the cave of the club.
    pub fn init_2() -> (map: FieldMap)
        ensures
            map@ == second_map(),
    {
        let treasure_items = single_item("棍棒");
        let map_connection_detail = MapConnectionDetail {
            index_addition: 1,
            from_position: Position::new(120, -40),
            to_position: Position::new(-440, -360),
        }.inverse();
        let mut event_positions: Vec<(Position, EventType)> = Vec::new();
        let boxes = Position::new_vec(vec![[-480, -480]]);
        assert(boxes@ =~= seq![Position { x: -480i32, y: -480i32 }]);
        FieldMap::extract_events(
            &mut event_positions,
            EventType::TreasureBox("最初の鍵".to_owned()),
            boxes,
        );
        FieldMap::extract_events(
            &mut event_positions,
            EventType::Obstacle(ObstacleType::Rock),
            rock_outline(-600),
        );
        FieldMap::extract_events(
            &mut event_positions,
            EventType::MapConnection(map_connection_detail),
            exit_positions(),
        );
        assert(events_view(event_positions@) =~= second_map_events());
        FieldMap {
            map_index: 1,
            event_positions,
            treasure_items,
            ground_start_position: Position::new(-600, -600),
            ground_width: 320,
            ground_height: 280,
            ground_color: "#663300".to_owned(),
        }
    }

    /// The third map: the cave of the key.
    pub fn init_3() -> (map: FieldMap)
        ensures
            map@ == third_map(),
    {
        let treasure_items = single_item("最初の鍵");
        let map_connection_detail = MapConnectionDetail {
            index_addition: 2,
            from_position: Position::new(600, 240),
            to_position: Position::new(-440, -360),
        }.inverse();
        let mut event_positions: Vec<(Position, EventType)> = Vec::new();
        let enemies = Position::new_vec(vec![[-520, -1120]]);
        assert(enemies@ =~= seq![Position { x: -520i32, y: -1120i32 }]);
        FieldMap::extract_events(&mut event_positions, EventType::Enemy, enemies);
        let boxes = Position::new_vec(vec![[-480, -520]]);
        assert(boxes@ =~= seq![Position { x: -480i32, y: -520i32 }]);
        FieldMap::extract_events(
            &mut event_positions,
            EventType::TreasureBox("".to_owned()),
            boxes,
        );
        FieldMap::extract_events(
            &mut event_positions,
            EventType::Obstacle(ObstacleType::Rock),
            rock_outline(-1200),
        );
        FieldMap::extract_events(
            &mut event_positions,
            EventType::MapConnection(map_connection_detail),
            exit_positions(),
        );
        assert(events_view(event_positions@) =~= third_map_events());
        FieldMap {
            map_index: 2,
            event_positions,
            treasure_items,
            ground_start_position: Position::new(-600, -1200),
            ground_width: 320,
            ground_height: 880,
            ground_color: "#663300".to_owned(),
        }
    }

    /// The fourth map: the cave behind the door.
    pub fn init_4() -> (map: FieldMap)
        ensures
            map@ == fourth_map(),
    {
        let treasure_items: Vec<Item> = Vec::new();
        let map_connection_detail = MapConnectionDetail {
            index_addition: 3,
            from_position: Position::new(520, -160),
            to_position: Position::new(-440, -360),
        }.inverse();
        let mut event_positions: Vec<(Position, EventType)> = Vec::new();
        let enemies = Position::new_vec(vec![[-520, -520]]);
        assert(enemies@ =~= seq![Position { x: -520i32, y: -520i32 }]);
        FieldMap::extract_events(&mut event_positions, EventType::Enemy, enemies);
        FieldMap::extract_events(
            &mut event_positions,
            EventType::Obstacle(ObstacleType::Rock),
            rock_outline(-1200),
        );
        FieldMap::extract_events(
            &mut event_positions,
            EventType::MapConnection(map_connection_detail),
            exit_positions(),
        );
        assert(events_view(event_positions@) =~= fourth_map_events());
        assert(items_view(treasure_items@) =~= Seq::empty());
        FieldMap {
            map_index: 3,
            event_positions,
            treasure_items,
            ground_start_position: Position::new(-600, -1200),
            ground_width: 320,
            ground_height: 880,
            ground_color: "#663300".to_owned(),
        }
    }
}

/// The links that the events of the first map hold, and where its one
/// treasure box stands.
proof fn lemma_first_map_events(i: int)
    requires
        0 <= i < first_map_events().len(),
    ensures
        first_map_events()[i].1 matches EventTypeView::MapConnection(detail) ==> detail
            == link_to_second() || detail == link_to_third() || detail == link_to_fourth(),
        first_map_events()[i].1 is TreasureBox ==> i == 3,
        first_map_events()[3].1 is TreasureBox,
        treasure_rank(first_map_events(), 3) == 0,
{
    reveal_with_fuel(treasure_rank, 5);
}

/// The links that the events of a side map hold, and where its treasure
/// box stands, if it has one.
proof fn lemma_side_map_events(i: int)
    ensures
        0 <= i < second_map_events().len() ==> (
        second_map_events()[i].1 matches EventTypeView::MapConnection(detail) ==> detail
            == link_to_second().inverted()) && (second_map_events()[i].1 is TreasureBox ==> i == 0),
        treasure_rank(second_map_events(), 0) == 0,
        0 <= i < third_map_events().len() ==> (
        third_map_events()[i].1 matches EventTypeView::MapConnection(detail) ==> detail
            == link_to_third().inverted()) && (third_map_events()[i].1 is TreasureBox ==> i == 1),
        treasure_rank(third_map_events(), 1) == 0,
        0 <= i < fourth_map_events().len() ==> (
        fourth_map_events()[i].1 matches EventTypeView::MapConnection(detail) ==> detail
            == link_to_fourth().inverted()) && !(fourth_map_events()[i].1 is TreasureBox),
{
    reveal_with_fuel(treasure_rank, 3);
}

/// The first map meets the invariant of a map.
pub proof fn lemma_first_map_wf()
    ensures
        first_map().wf(),
{
    assert forall|i: int| 0 <= i < first_map_events().len() implies (
    #[trigger] first_map_events()[i].1 matches EventTypeView::MapConnection(detail) ==> 0 <= 0
        + detail.index_addition < MAP_COUNT && detail.to_position.camera_can_follow()) && (first_map_events()[i].1 is TreasureBox
        ==> treasure_rank(first_map_events(), i) < 1) by {
        lemma_first_map_events(i);
    }
}

/// The second map meets the invariant of a map.
pub proof fn lemma_second_map_wf()
    ensures
        second_map().wf(),
{
    assert forall|i: int| 0 <= i < second_map_events().len() implies (
    #[trigger] second_map_events()[i].1 matches EventTypeView::MapConnection(detail) ==> 0 <= 1
        + detail.index_addition < MAP_COUNT && detail.to_position.camera_can_follow()) && (second_map_events()[i].1 is TreasureBox
        ==> treasure_rank(second_map_events(), i) < 1) by {
        lemma_side_map_events(i);
    }
}

/// The third map meets the invariant of a map.
pub proof fn lemma_third_map_wf()
    ensures
        third_map().wf(),
{
    assert forall|i: int| 0 <= i < third_map_events().len() implies (
    #[trigger] third_map_events()[i].1 matches EventTypeView::MapConnection(detail) ==> 0 <= 2
        + detail.index_addition < MAP_COUNT && detail.to_position.camera_can_follow()) && (third_map_events()[i].1 is TreasureBox
        ==> treasure_rank(third_map_events(), i) < 1) by {
        lemma_side_map_events(i);
    }
}

/// The fourth map meets the invariant of a map.
pub proof fn lemma_fourth_map_wf()
    ensures
        fourth_map().wf(),
{
    assert forall|i: int| 0 <= i < fourth_map_events().len() implies (
    #[trigger] fourth_map_events()[i].1 matches EventTypeView::MapConnection(detail) ==> 0 <= 3
        + detail.index_addition < MAP_COUNT && detail.to_position.camera_can_follow()) && !(fourth_map_events()[i].1 is TreasureBox) by {
        lemma_side_map_events(i);
    }
}

/// The maps of the game meet the invariant of a map, each under its index.
pub proof fn lemma_shipped_maps_wf()
    ensures
        shipped_maps().len() == MAP_COUNT,
        forall|k: int|
            0 <= k < shipped_maps().len() ==> (#[trigger] shipped_maps()[k]).wf()
                && shipped_maps()[k].map_index == k,
{
    lemma_first_map_wf();
    lemma_second_map_wf();
    lemma_third_map_wf();
    lemma_fourth_map_wf();
}

/// Links between maps come in pairs: where an event of the map `from` is a
/// link, the link leads to a map of the game, and that map holds the link
/// back, its addition negated and its two positions swapped.
pub proof fn lemma_connections_are_symmetric(from: int, event: int, detail: MapConnectionDetail)
    requires
        0 <= from < shipped_maps().len(),
        0 <= event < shipped_maps()[from].event_positions.len(),
        shipped_maps()[from].event_positions[event].1 == EventTypeView::MapConnection(detail),
    ensures
        0 <= from + detail.index_addition < shipped_maps().len(),
        shipped_maps()[from + detail.index_addition].has_connection(detail.inverted()),
{
    lemma_side_map_events(event);
    let exits = exit_tiles();
    if from == 0 {
        lemma_first_map_events(event);
        let back = EventTypeView::MapConnection(detail.inverted());
        if detail == link_to_second() {
            let at = second_map_events().len() - exits.len();
            assert(second_map_events()[at].1 == back);
        } else if detail == link_to_third() {
            let at = third_map_events().len() - exits.len();
            assert(third_map_events()[at].1 == back);
        } else {
            let at = fourth_map_events().len() - exits.len();
            assert(fourth_map_events()[at].1 == back);
        }
    } else {
        let last = first_map_events().len() - 1;
        if from == 1 {
            assert(detail.inverted() == link_to_second());
            assert(first_map_events()[last - 2].1 == EventTypeView::MapConnection(
                link_to_second(),
            ));
        } else if from == 2 {
            assert(detail.inverted() == link_to_third());
            assert(first_map_events()[last - 1].1 == EventTypeView::MapConnection(
                link_to_third(),
            ));
        } else {
            assert(detail.inverted() == link_to_fourth());
            assert(first_map_events()[last].1 == EventTypeView::MapConnection(link_to_fourth()));
        }
    }
}

} // verus!
