//! What a map puts on display, as plain values in drawing order.

use crate::field::direction_glyph;

use crate::map::{is_listed, listed, treasure_rank, EventType, EventTypeView, FieldMap, PlacedEvent};
use crate::message::{positions_view, PositionMessage, PositionMessageView};
use crate::position::Position;
use vstd::prelude::*;

verus! {

/// What kind of event an element shows.
#[derive(Clone, Copy, Debug, PartialEq, Eq, Structural)]
pub enum ElementKind {
    MapConnection,
    TreasureBox,
    Enemy,
    Gate,
    Obstacle,
}

/// A tile on display: where it stands, its colour, the text on it, and
/// whether it has an outline.
#[derive(Debug)]
pub struct MapElement {
    pub kind: ElementKind,
    pub position: Position,
    pub fill: String,
    pub text: String,
    pub outlined: bool,
}

/// Mathematical value of a `MapElement`.
pub struct MapElementView {
    pub kind: ElementKind,
    pub position: Position,
    pub fill: Seq<char>,
    pub text: Seq<char>,
    pub outlined: bool,
}

impl View for MapElement {
    type V = MapElementView;

    open spec fn view(&self) -> MapElementView {
        MapElementView {
            kind: self.kind,
            position: self.position,
            fill: self.fill@,
            text: self.text@,
            outlined: self.outlined,
        }
    }
}

/// Views of a list of elements, element by element.
pub open spec fn elements_view(elements: Seq<MapElement>) -> Seq<MapElementView> {
    elements.map_values(|e: MapElement| e@)
}

/// The element that shows an event. `opened` says whether a treasure box
/// was opened: an opened box is gray, a closed one orange.
pub open spec fn element_of(event: PlacedEvent, opened: bool) -> MapElementView {
    match event.1 {
        EventTypeView::MapConnection(_) => MapElementView {
            kind: ElementKind::MapConnection,
            position: event.0,
            fill: "black"@,
            text: ""@,
            outlined: false,
        },
        EventTypeView::TreasureBox(_) => MapElementView {
            kind: ElementKind::TreasureBox,
            position: event.0,
            fill: if opened {
                "gray"@
            } else {
                "orange"@
            },
            text: "宝"@,
            outlined: false,
        },
        EventTypeView::Enemy => MapElementView {
            kind: ElementKind::Enemy,
            position: event.0,
            fill: "red"@,
            text: "敵"@,
            outlined: false,
        },
        EventTypeView::Gate(_) => MapElementView {
            kind: ElementKind::Gate,
            position: event.0,
            fill: "brown"@,
            text: ""@,
            outlined: true,
        },
        EventTypeView::Obstacle(kind) => MapElementView {
            kind: ElementKind::Obstacle,
            position: event.0,
            fill: kind.color(),
            text: ""@,
            outlined: false,
        },
    }
}

/// The elements of the links among the first `upto` events, in order.
pub open spec fn connection_elements(events: Seq<PlacedEvent>, upto: int) -> Seq<MapElementView>
    decreases upto,
{
    if upto <= 0 || upto > events.len() {
        Seq::empty()
    } else {
        let before = connection_elements(events, upto - 1);
        if events[upto - 1].1 is MapConnection {
            before.push(element_of(events[upto - 1], false))
        } else {
            before
        }
    }
}

/// The elements of everything but the links among the first `upto`
/// events, in order.
pub open spec fn other_elements(events: Seq<PlacedEvent>, opened: Seq<usize>, upto: int) -> Seq<
    MapElementView,
>
    decreases upto,
{
    if upto <= 0 || upto > events.len() {
        Seq::empty()
    } else {
        let before = other_elements(events, opened, upto - 1);
        if events[upto - 1].1 is MapConnection {
            before
        } else {
            before.push(
                element_of(events[upto - 1], is_listed(opened, treasure_rank(events, upto - 1))),
            )
        }
    }
}

/// Everything that a map puts on display: the links first, so that they
/// lie below, then every other event.
pub open spec fn map_elements(events: Seq<PlacedEvent>, opened: Seq<usize>) -> Seq<MapElementView> {
    connection_elements(events, events.len() as int) + other_elements(
        events,
        opened,
        events.len() as int,
    )
}

/// The mark of another player on the map.
#[derive(Debug)]
pub struct UserMarker {
    pub user_name: String,
    pub position: Position,
    pub glyph: String,
}

/// Mathematical value of a `UserMarker`.
pub struct UserMarkerView {
    pub user_name: Seq<char>,
    pub position: Position,
    pub glyph: Seq<char>,
}

impl View for UserMarker {
    type V = UserMarkerView;

    open spec fn view(&self) -> UserMarkerView {
        UserMarkerView { user_name: self.user_name@, position: self.position, glyph: self.glyph@ }
    }
}

/// Views of a list of marks, element by element.
pub open spec fn markers_view(markers: Seq<UserMarker>) -> Seq<UserMarkerView> {
    markers.map_values(|m: UserMarker| m@)
}

/// The mark of the player that a report tells of.
pub open spec fn marker_of(report: PositionMessageView) -> UserMarkerView {
    UserMarkerView {
        user_name: report.user_name,
        position: Position { x: report.position_x, y: report.position_y },
        glyph: direction_glyph(report.direction),
    }
}

/// The marks of the players among the first `upto` reports that stand on
/// the map `map_index`, in order.
pub open spec fn user_markers(users: Seq<PositionMessageView>, map_index: usize, upto: int) -> Seq<
    UserMarkerView,
>
    decreases upto,
{
    if upto <= 0 || upto > users.len() {
        Seq::empty()
    } else {
        let before = user_markers(users, map_index, upto - 1);
        if users[upto - 1].map_index == map_index {
            before.push(marker_of(users[upto - 1]))
        } else {
            before
        }
    }
}

/// The element that shows an event.
fn element_for(position: Position, event: &EventType, opened: bool) -> (element: MapElement)
    ensures
        element@ == element_of((position, event@), opened),
{
    match event {
        EventType::MapConnection(_) => MapElement {
            kind: ElementKind::MapConnection,
            position,
            fill: "black".to_owned(),
            text: "".to_owned(),
            outlined: false,
        },
        EventType::TreasureBox(_) => MapElement {
            kind: ElementKind::TreasureBox,
            position,
            fill: if opened {
                "gray".to_owned()
            } else {
                "orange".to_owned()
            },
            text: "宝".to_owned(),
            outlined: false,
        },
        EventType::Enemy => MapElement {
            kind: ElementKind::Enemy,
            position,
            fill: "red".to_owned(),
            text: "敵".to_owned(),
            outlined: false,
        },
        EventType::Gate(_) => MapElement {
            kind: ElementKind::Gate,
            position,
            fill: "brown".to_owned(),
            text: "".to_owned(),
            outlined: true,
        },
        EventType::Obstacle(kind) => MapElement {
            kind: ElementKind::Obstacle,
            position,
            fill: kind.get_color(),
            text: "".to_owned(),
            outlined: false,
        },
    }
}

impl FieldMap {
    /// Everything that the map puts on display, in drawing order.
    /// `treasure_box_opened` lists the numbers of the boxes of this map
    /// that were opened.
    pub fn events_to_elements(&self, treasure_box_opened: &Vec<usize>) -> (elements: Vec<MapElement>)
        ensures
            elements_view(elements@) == map_elements(
                self@.event_positions,
                treasure_box_opened@,
            ),
    {
        let ghost events = self@.event_positions;
        let mut elements: Vec<MapElement> = Vec::new();
        let mut i: usize = 0;
        assert(elements_view(elements@) =~= connection_elements(events, 0));
        while i < self.event_positions.len()
            invariant
                i <= self.event_positions.len(),
                events == self@.event_positions,
                elements_view(elements@) == connection_elements(events, i as int),
            decreases self.event_positions.len() - i,
        {
            let event = &self.event_positions[i];
            assert(events[i as int] == (event.0, event.1@));
            if let EventType::MapConnection(_) = &event.1 {
                let ghost before = elements_view(elements@);
                elements.push(element_for(event.0, &event.1, false));
                assert(elements_view(elements@) =~= before.push(
                    element_of(events[i as int], false),
                ));
            }
            i += 1;
        }
        let ghost links = elements_view(elements@);
        let mut treasure_index: usize = 0;
        let mut k: usize = 0;
        assert(elements_view(elements@) =~= links + other_elements(
            events,
            treasure_box_opened@,
            0,
        ));
        while k < self.event_positions.len()
            invariant
                k <= self.event_positions.len(),
                events == self@.event_positions,
                treasure_index == treasure_rank(events, k as int),
                treasure_index <= k,
                elements_view(elements@) == links + other_elements(
                    events,
                    treasure_box_opened@,
                    k as int,
                ),
            decreases self.event_positions.len() - k,
        {
            let event = &self.event_positions[k];
            assert(events[k as int] == (event.0, event.1@));
            let ghost before = elements_view(elements@);
            match &event.1 {
                EventType::MapConnection(_) => {},
                EventType::TreasureBox(_) => {
                    let opened = listed(treasure_box_opened, treasure_index);
                    treasure_index += 1;
                    elements.push(element_for(event.0, &event.1, opened));
                    assert(elements_view(elements@) =~= before.push(
                        element_of(events[k as int], opened),
                    ));
                },
                _ => {
                    elements.push(element_for(event.0, &event.1, false));
                    assert(elements_view(elements@) =~= before.push(
                        element_of(
                            events[k as int],
                            is_listed(treasure_box_opened@, treasure_rank(events, k as int)),
                        ),
                    ));
                },
            }
            k += 1;
            assert(elements_view(elements@) =~= links + other_elements(
                events,
                treasure_box_opened@,
                k as int,
            ));
        }
        elements
    }

    /// The marks of the other players that stand on this map, in the order
    /// of their reports.
    pub fn draw_online_user(&self, online_users: &Vec<PositionMessage>) -> (markers: Vec<
        UserMarker,
    >)
        ensures
            markers_view(markers@) == user_markers(
                positions_view(online_users@),
                self.map_index,
                online_users@.len() as int,
            ),
    {
        let ghost users = positions_view(online_users@);
        let mut markers: Vec<UserMarker> = Vec::new();
        let mut i: usize = 0;
        assert(markers_view(markers@) =~= user_markers(users, self.map_index, 0));
        while i < online_users.len()
            invariant
                i <= online_users.len(),
                users == positions_view(online_users@),
                markers_view(markers@) == user_markers(users, self.map_index, i as int),
            decreases online_users.len() - i,
        {
            let user = &online_users[i];
            assert(users[i as int] == user@);
            if user.map_index == self.map_index {
                let ghost before = markers_view(markers@);
                markers.push(
                    UserMarker {
                        user_name: user.user_name.clone(),
                        position: Position::new(user.position_x, user.position_y),
                        glyph: crate::field::direction_string(user.direction),
                    },
                );
                assert(markers_view(markers@) =~= before.push(marker_of(users[i as int])));
            }
            i += 1;
        }
        markers
    }
}

} // verus!
