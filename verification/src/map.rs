//! The layout of a map: which tile holds which event.

use crate::item::{is_item_name, item_of_name, items_view, Item, ItemView};
use crate::position::Position;
use vstd::prelude::*;

verus! {

/// Number of maps of the game.
pub const MAP_COUNT: usize = 4;

/// What an obstacle is made of.
#[derive(Clone, Copy, Debug, PartialEq, Eq, Structural)]
pub enum ObstacleType {
    Rock,
    Lake,
}

impl ObstacleType {
    /// The colour in which the obstacle is drawn.
    pub open spec fn color(self) -> Seq<char> {
        match self {
            ObstacleType::Rock => "gray"@,
            ObstacleType::Lake => "aqua"@,
        }
    }

    /// The colour in which the obstacle is drawn.
    pub fn get_color(&self) -> (color: String)
        ensures
            color@ == self.color(),
    {
        match self {
            ObstacleType::Rock => "gray".to_owned(),
            ObstacleType::Lake => "aqua".to_owned(),
        }
    }
}

/// A link from a tile of one map to a tile of another: `index_addition` is
/// added to the index of the map left, `to_position` is where the character
/// arrives.
#[derive(Clone, Copy, Debug, PartialEq, Eq, Structural)]
pub struct MapConnectionDetail {
    pub index_addition: i32,
    pub from_position: Position,
    pub to_position: Position,
}

impl MapConnectionDetail {
    /// The link back: the addition negated, the two positions swapped.
    pub open spec fn inverted(self) -> MapConnectionDetail {
        MapConnectionDetail {
            index_addition: (-self.index_addition) as i32,
            from_position: self.to_position,
            to_position: self.from_position,
        }
    }

    /// The link back: the addition negated, the two positions swapped.
    pub fn inverse(&self) -> (back: MapConnectionDetail)
        requires
            self.index_addition > i32::MIN,
        ensures
            back == self.inverted(),
    {
        MapConnectionDetail {
            index_addition: -self.index_addition,
            from_position: self.to_position,
            to_position: self.from_position,
        }
    }
}

/// What stands on a tile. A door and a treasure box name the key that
/// opens them; an empty name means that no key is needed.
#[derive(Debug)]
pub enum EventType {
    Enemy,
    Gate(String),
    TreasureBox(String),
    Obstacle(ObstacleType),
    MapConnection(MapConnectionDetail),
}

/// Mathematical value of an `EventType`.
pub enum EventTypeView {
    Enemy,
    Gate(Seq<char>),
    TreasureBox(Seq<char>),
    Obstacle(ObstacleType),
    MapConnection(MapConnectionDetail),
}

impl View for EventType {
    type V = EventTypeView;

    open spec fn view(&self) -> EventTypeView {
        match self {
            EventType::Enemy => EventTypeView::Enemy,
            EventType::Gate(key) => EventTypeView::Gate(key@),
            EventType::TreasureBox(key) => EventTypeView::TreasureBox(key@),
            EventType::Obstacle(kind) => EventTypeView::Obstacle(*kind),
            EventType::MapConnection(detail) => EventTypeView::MapConnection(*detail),
        }
    }
}

impl Clone for EventType {
    fn clone(&self) -> (copy: Self)
        ensures
            copy@ == self@,
    {
        match self {
            EventType::Enemy => EventType::Enemy,
            EventType::Gate(key) => EventType::Gate(key.clone()),
            EventType::TreasureBox(key) => EventType::TreasureBox(key.clone()),
            EventType::Obstacle(kind) => EventType::Obstacle(*kind),
            EventType::MapConnection(detail) => EventType::MapConnection(*detail),
        }
    }
}

/// An event with the tile on which it stands.
pub type PlacedEvent = (Position, EventTypeView);

/// Views of a list of placed events, element by element.
pub open spec fn events_view(events: Seq<(Position, EventType)>) -> Seq<PlacedEvent> {
    events.map_values(|e: (Position, EventType)| (e.0, e.1@))
}

/// One event of the given type on each of the given tiles.
pub open spec fn placed(event: EventTypeView, positions: Seq<Position>) -> Seq<PlacedEvent> {
    positions.map_values(|p: Position| (p, event))
}

/// The position in `events` of the first event that stands on `tile`, from
/// `from` on.
pub open spec fn event_at(events: Seq<PlacedEvent>, tile: Position, from: int) -> Option<int>
    decreases events.len() - from,
{
    if from < 0 || from >= events.len() {
        None
    } else if events[from].0 == tile {
        Some(from)
    } else {
        event_at(events, tile, from + 1)
    }
}

/// How many treasure boxes stand before position `index` of `events`: the
/// number by which the box at that position is known.
pub open spec fn treasure_rank(events: Seq<PlacedEvent>, index: int) -> nat
    decreases index,
{
    if index <= 0 || index > events.len() {
        0
    } else {
        treasure_rank(events, index - 1) + if events[index - 1].1 is TreasureBox {
            1nat
        } else {
            0nat
        }
    }
}

/// A map: its events in drawing order, the item that each of its treasure
/// boxes holds, and its ground.
#[derive(Debug)]
pub struct FieldMap {
    pub map_index: usize,
    pub event_positions: Vec<(Position, EventType)>,
    pub treasure_items: Vec<Item>,
    pub ground_start_position: Position,
    pub ground_width: i32,
    pub ground_height: i32,
    pub ground_color: String,
}

/// Mathematical value of a `Map`.
pub struct FieldMapView {
    pub map_index: usize,
    pub event_positions: Seq<PlacedEvent>,
    pub treasure_items: Seq<ItemView>,
    pub ground_start_position: Position,
    pub ground_width: i32,
    pub ground_height: i32,
    pub ground_color: Seq<char>,
}

impl View for FieldMap {
    type V = FieldMapView;

    open spec fn view(&self) -> FieldMapView {
        FieldMapView {
            map_index: self.map_index,
            event_positions: events_view(self.event_positions@),
            treasure_items: items_view(self.treasure_items@),
            ground_start_position: self.ground_start_position,
            ground_width: self.ground_width,
            ground_height: self.ground_height,
            ground_color: self.ground_color@,
        }
    }
}

/// Views of a list of maps, element by element.
pub open spec fn maps_view(maps: Seq<FieldMap>) -> Seq<FieldMapView> {
    maps.map_values(|m: FieldMap| m@)
}

impl FieldMapView {
    /// The invariant of a map: every link leads to a map of the game and
    /// to a tile on which the camera can be put, every
    /// treasure box has its item, and every such item is the item that its
    /// name stands for.
    pub open spec fn wf(self) -> bool {
        &&& self.map_index < MAP_COUNT
        &&& forall|i: int|
            0 <= i < self.event_positions.len() ==> (
            #[trigger] self.event_positions[i].1 matches EventTypeView::MapConnection(detail) ==> 0
                <= self.map_index + detail.index_addition < MAP_COUNT
                && detail.to_position.camera_can_follow())
        &&& forall|i: int|
            0 <= i < self.event_positions.len() && (
            #[trigger] self.event_positions[i].1 is TreasureBox) ==> treasure_rank(
                self.event_positions,
                i,
            ) < self.treasure_items.len()
        &&& forall|i: int|
            0 <= i < self.treasure_items.len() ==> is_item_name(#[trigger] self.treasure_items[i].name)
                && self.treasure_items[i] == item_of_name(self.treasure_items[i].name)
    }

    /// Whether the map holds a link with the given detail.
    pub open spec fn has_connection(self, detail: MapConnectionDetail) -> bool {
        exists|i: int|
            0 <= i < self.event_positions.len() && #[trigger] self.event_positions[i].1
                == EventTypeView::MapConnection(detail)
    }

    /// The map without the event at `index`.
    pub open spec fn without_event(self, index: int) -> FieldMapView {
        FieldMapView { event_positions: self.event_positions.remove(index), ..self }
    }
}

/// No more treasure boxes stand before a position than events do.
pub proof fn lemma_rank_bound(events: Seq<PlacedEvent>, index: int)
    ensures
        treasure_rank(events, index) <= if index > 0 {
            index
        } else {
            0
        },
    decreases index,
{
    if index > 0 && index <= events.len() {
        lemma_rank_bound(events, index - 1);
    }
}

/// Removing an event that is no treasure box leaves every remaining box
/// its number.
pub proof fn lemma_rank_after_removal(events: Seq<PlacedEvent>, removed: int, index: int)
    requires
        0 <= removed < events.len(),
        !(events[removed].1 is TreasureBox),
        0 <= index < events.len(),
    ensures
        treasure_rank(events.remove(removed), index) == treasure_rank(
            events,
            if index <= removed {
                index
            } else {
                index + 1
            },
        ),
    decreases index,
{
    let rest = events.remove(removed);
    if index > 0 {
        lemma_rank_after_removal(events, removed, index - 1);
        if index - 1 < removed {
            assert(rest[index - 1] == events[index - 1]);
        } else {
            assert(rest[index - 1] == events[index]);
        }
        if index == removed + 1 {
            assert(treasure_rank(events, index) == treasure_rank(events, index - 1));
        }
    }
}

/// A map stays well-formed when an event that is no treasure box leaves it.
pub proof fn lemma_without_event_wf(map: FieldMapView, removed: int)
    requires
        map.wf(),
        0 <= removed < map.event_positions.len(),
        !(map.event_positions[removed].1 is TreasureBox),
    ensures
        map.without_event(removed).wf(),
{
    let rest = map.without_event(removed);
    assert forall|i: int| 0 <= i < rest.event_positions.len() implies (
    #[trigger] rest.event_positions[i].1 matches EventTypeView::MapConnection(detail) ==> 0
        <= rest.map_index + detail.index_addition < MAP_COUNT && detail.to_position.camera_can_follow()) by {
        if i < removed {
            assert(rest.event_positions[i] == map.event_positions[i]);
        } else {
            assert(rest.event_positions[i] == map.event_positions[i + 1]);
        }
    }
    assert forall|i: int|
        0 <= i < rest.event_positions.len() && (
        #[trigger] rest.event_positions[i].1 is TreasureBox) implies treasure_rank(
        rest.event_positions,
        i,
    ) < rest.treasure_items.len() by {
        lemma_rank_after_removal(map.event_positions, removed, i);
        if i < removed {
            assert(rest.event_positions[i] == map.event_positions[i]);
        } else {
            assert(rest.event_positions[i] == map.event_positions[i + 1]);
            assert(map.event_positions[i + 1].1 is TreasureBox);
        }
    }
}

impl FieldMap {
    /// Appends one event of the given type for each of the given tiles.
    pub fn extract_events(
        result: &mut Vec<(Position, EventType)>,
        event_type: EventType,
        positions: Vec<Position>,
    )
        ensures
            events_view(final(result)@) == events_view(old(result)@) + placed(
                event_type@,
                positions@,
            ),
    {
        let mut i: usize = 0;
        while i < positions.len()
            invariant
                i <= positions.len(),
                events_view(result@) == events_view(old(result)@) + placed(
                    event_type@,
                    positions@.take(i as int),
                ),
            decreases positions.len() - i,
        {
            let ghost before = events_view(result@);
            result.push((positions[i], event_type.clone()));
            i += 1;
            proof {
                assert(events_view(result@) =~= before.push((positions@[i - 1], event_type@)));
                assert(placed(event_type@, positions@.take(i as int)) =~= placed(
                    event_type@,
                    positions@.take(i - 1),
                ).push((positions@[i - 1], event_type@)));
                assert(events_view(result@) =~= events_view(old(result)@) + placed(
                    event_type@,
                    positions@.take(i as int),
                ));
            }
        }
        proof {
            assert(positions@.take(positions.len() as int) =~= positions@);
            assert(events_view(old(result)@) + placed(event_type@, Seq::empty())
                =~= events_view(old(result)@));
        }
    }

    /// The position of the first event that stands on `tile`.
    pub fn find_event(&self, tile: Position) -> (found: Option<usize>)
        ensures
            match found {
                Some(index) => event_at(self@.event_positions, tile, 0) == Some(index as int)
                    && index < self.event_positions.len(),
                None => event_at(self@.event_positions, tile, 0) is None,
            },
    {
        let mut i: usize = 0;
        while i < self.event_positions.len()
            invariant
                i <= self.event_positions.len(),
                event_at(self@.event_positions, tile, 0) == event_at(
                    self@.event_positions,
                    tile,
                    i as int,
                ),
            decreases self.event_positions.len() - i,
        {
            let event = &self.event_positions[i];
            assert(self@.event_positions[i as int].0 == event.0);
            if event.0.x == tile.x && event.0.y == tile.y {
                return Some(i);
            }
            i += 1;
        }
        None
    }

    /// The number by which the treasure box at position `index` is known.
    pub fn treasure_index(&self, index: usize) -> (rank: usize)
        requires
            index <= self.event_positions.len(),
        ensures
            rank == treasure_rank(self@.event_positions, index as int),
            rank <= index,
    {
        let mut rank: usize = 0;
        let mut i: usize = 0;
        while i < index
            invariant
                i <= index <= self.event_positions.len(),
                rank == treasure_rank(self@.event_positions, i as int),
                rank <= i,
            decreases index - i,
        {
            assert(self@.event_positions[i as int].1 == self.event_positions@[i as int].1@);
            if let EventType::TreasureBox(_) = &self.event_positions[i].1 {
                rank += 1;
            }
            i += 1;
        }
        rank
    }
}

/// Whether `rank` is among the numbers of the boxes opened.
pub open spec fn is_listed(opened: Seq<usize>, rank: nat) -> bool {
    exists|i: int| 0 <= i < opened.len() && #[trigger] opened[i] == rank
}

/// Whether `rank` is among the numbers of the boxes opened.
pub fn listed(opened: &Vec<usize>, rank: usize) -> (found: bool)
    ensures
        found == is_listed(opened@, rank as nat),
{
    let mut i: usize = 0;
    while i < opened.len()
        invariant
            i <= opened.len(),
            forall|j: int| 0 <= j < i ==> opened@[j] != rank,
        decreases opened.len() - i,
    {
        if opened[i] == rank {
            return true;
        }
        i += 1;
    }
    false
}

} // verus!
