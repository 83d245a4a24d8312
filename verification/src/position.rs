//! Tile coordinates. The grid step is 40 units.

use crate::input::Input;
use vstd::prelude::*;

verus! {

/// Distance between two neighbouring tiles.
pub const GRID_STEP: i32 = 40;

/// Where the camera puts the tile on which the character stands.
pub const CAMERA_X: i32 = 360;

/// Where the camera puts the tile on which the character stands.
pub const CAMERA_Y: i32 = 280;

/// A coordinate on the tile grid.
#[derive(Clone, Copy, Debug, PartialEq, Eq, Structural)]
pub struct Position {
    pub x: i32,
    pub y: i32,
}

/// Whole grid steps from `from` to `to`, rounded towards zero.
pub open spec fn grid_steps(from: int, to: int) -> int {
    if to >= from {
        (to - from) / 40
    } else {
        -((from - to) / 40)
    }
}

/// The points of a row that starts at (`start_x`, `y`) and holds `count`
/// tiles; none where `count` is not positive.
pub open spec fn row_positions(start_x: int, y: int, count: int) -> Seq<Position> {
    Seq::new(
        if count > 0 {
            count as nat
        } else {
            0
        },
        |k: int| Position { x: (start_x + 40 * k) as i32, y: y as i32 },
    )
}

/// The two end points of each of the rows 1 to `rows` below the first row
/// of an area. A row whose number equals the area's last y coordinate is
/// left out.
pub open spec fn side_positions(
    start_x: i32,
    start_y: i32,
    end_x: i32,
    end_y: i32,
    rows: int,
) -> Seq<Position>
    decreases rows,
{
    if rows <= 0 {
        Seq::empty()
    } else {
        let above = side_positions(start_x, start_y, end_x, end_y, rows - 1);
        if rows == end_y {
            above
        } else {
            above.push(Position { x: start_x, y: (start_y + 40 * rows) as i32 }).push(
                Position { x: end_x, y: (start_y + 40 * rows) as i32 },
            )
        }
    }
}

/// The outline of the area between (`start_x`, `start_y`) and (`end_x`,
/// `end_y`): its first row in full, then the two ends of each further row.
pub open spec fn outline(start_x: i32, start_y: i32, end_x: i32, end_y: i32) -> Seq<Position> {
    let step_x = grid_steps(start_x as int, end_x as int);
    let step_y = grid_steps(start_y as int, end_y as int);
    if step_y < 0 {
        Seq::empty()
    } else {
        row_positions(start_x as int, start_y as int, step_x + 1) + side_positions(
            start_x,
            start_y,
            end_x,
            end_y,
            step_y,
        )
    }
}

/// The outline that an area `[start_x, start_y, end_x, end_y]` stands for.
pub open spec fn area_positions(area: [i32; 4]) -> Seq<Position> {
    outline(area[0], area[1], area[2], area[3])
}

/// The outlines of several areas, one after the other.
pub open spec fn areas_positions(areas: Seq<[i32; 4]>) -> Seq<Position>
    decreases areas.len(),
{
    if areas.len() == 0 {
        Seq::empty()
    } else {
        areas_positions(areas.drop_last()) + area_positions(areas.last())
    }
}

/// Whether the differences between the corners of an area fit the machine's
/// integers.
pub open spec fn area_in_range(area: [i32; 4]) -> bool {
    &&& i32::MIN < area[2] - area[0] <= i32::MAX
    &&& i32::MIN < area[3] - area[1] <= i32::MAX
}

/// Whole grid steps from `from` to `to`, rounded towards zero.
fn steps_between(from: i32, to: i32) -> (steps: i32)
    requires
        i32::MIN < to - from <= i32::MAX,
    ensures
        steps == grid_steps(from as int, to as int),
        to >= from ==> 0 <= steps && from + 40 * steps <= to,
        to < from ==> steps <= 0,
        steps >= 0 ==> from + 40 * steps <= i32::MAX && 40 * steps <= i32::MAX,
{
    if to >= from {
        (to - from) / 40
    } else {
        let back: i32 = (from - to) / 40;
        -back
    }
}

/// The tile one step from `position` in the direction of `input`.
pub open spec fn tile_ahead(position: Position, input: Input) -> Position {
    match input {
        Input::ArrowUp => Position { x: position.x, y: (position.y - 40) as i32 },
        Input::ArrowDown => Position { x: position.x, y: (position.y + 40) as i32 },
        Input::ArrowRight => Position { x: (position.x + 40) as i32, y: position.y },
        Input::ArrowLeft => Position { x: (position.x - 40) as i32, y: position.y },
        _ => position,
    }
}

/// Whether a step from `position` in the direction of `input` stays
/// within the machine's integers: the tile ahead has coordinates that fit,
/// and the camera can be put on it. Every input but an arrow makes no step.
pub open spec fn step_fits(position: Position, input: Input) -> bool {
    match input {
        Input::ArrowUp => CAMERA_Y - (position.y - 40) <= i32::MAX,
        Input::ArrowDown => position.y + 40 <= i32::MAX,
        Input::ArrowRight => position.x + 40 <= i32::MAX,
        Input::ArrowLeft => CAMERA_X - (position.x - 40) <= i32::MAX,
        _ => true,
    }
}

impl Position {
    /// Whether the camera can be put on the position: the offsets from the
    /// place of the camera fit the machine's integers.
    pub open spec fn camera_can_follow(self) -> bool {
        &&& CAMERA_X - self.x <= i32::MAX
        &&& CAMERA_Y - self.y <= i32::MAX
    }

    /// Whether the camera can be put on the position.
    pub fn can_be_followed(&self) -> (followed: bool)
        ensures
            followed == self.camera_can_follow(),
    {
        self.x >= CAMERA_X - i32::MAX && self.y >= CAMERA_Y - i32::MAX
    }

    /// Whether a step from the position in the direction of `input` stays
    /// within the machine's integers.
    pub fn can_step(&self, input: Input) -> (fits: bool)
        ensures
            fits == step_fits(*self, input),
    {
        match input {
            Input::ArrowUp => self.y >= CAMERA_Y - i32::MAX + 40,
            Input::ArrowDown => self.y <= i32::MAX - 40,
            Input::ArrowRight => self.x <= i32::MAX - 40,
            Input::ArrowLeft => self.x >= CAMERA_X - i32::MAX + 40,
            _ => true,
        }
    }

    pub fn new(x: i32, y: i32) -> (position: Position)
        ensures
            position == (Position { x, y }),
    {
        Position { x, y }
    }

    /// One position for each `[x, y]` pair, in order.
    pub fn new_vec(args: Vec<[i32; 2]>) -> (positions: Vec<Position>)
        ensures
            positions@.len() == args@.len(),
            forall|i: int|
                0 <= i < args@.len() ==> positions@[i] == (Position {
                    x: args@[i][0],
                    y: args@[i][1],
                }),
    {
        let mut positions: Vec<Position> = Vec::new();
        let mut i: usize = 0;
        while i < args.len()
            invariant
                i <= args.len(),
                positions@.len() == i,
                forall|j: int|
                    0 <= j < i ==> positions@[j] == (Position { x: args@[j][0], y: args@[j][1] }),
            decreases args.len() - i,
        {
            let pair = &args[i];
            positions.push(Position::new(pair[0], pair[1]));
            i += 1;
        }
        positions
    }

    /// The outline of each area `[start_x, start_y, end_x, end_y]`, one
    /// after the other.
    pub fn new_area(areas: Vec<[i32; 4]>) -> (positions: Vec<Position>)
        requires
            forall|i: int| 0 <= i < areas@.len() ==> area_in_range(#[trigger] areas@[i]),
        ensures
            positions@ == areas_positions(areas@),
    {
        let mut positions: Vec<Position> = Vec::new();
        let mut i: usize = 0;
        while i < areas.len()
            invariant
                i <= areas.len(),
                forall|j: int| 0 <= j < areas@.len() ==> area_in_range(#[trigger] areas@[j]),
                positions@ == areas_positions(areas@.take(i as int)),
            decreases areas.len() - i,
        {
            let area = &areas[i];
            let ghost before = positions@;
            let start_x: i32 = area[0];
            let start_y: i32 = area[1];
            let end_x: i32 = area[2];
            let end_y: i32 = area[3];
            assert(area_in_range(areas@[i as int]));
            let step_x: i32 = steps_between(start_x, end_x);
            let step_y: i32 = steps_between(start_y, end_y);
            if step_y >= 0 {
                let mut x: i32 = 0;
                while x <= step_x
                    invariant
                        0 <= x,
                        step_x >= 0 ==> x <= step_x + 1,
                        step_x < 0 ==> x == 0,
                        step_x >= 0 ==> start_x + 40 * step_x <= i32::MAX && 40 * step_x
                            <= i32::MAX,
                        positions@ == before + row_positions(start_x as int, start_y as int, x as int),
                    decreases step_x + 1 - x,
                {
                    positions.push(Position::new(start_x + x * 40, start_y));
                    x += 1;
                    assert(positions@ =~= before + row_positions(
                        start_x as int,
                        start_y as int,
                        x as int,
                    ));
                }
                assert(row_positions(start_x as int, start_y as int, x as int) =~= row_positions(
                    start_x as int,
                    start_y as int,
                    step_x + 1,
                ));
                let ghost row = row_positions(start_x as int, start_y as int, step_x + 1);
                let mut y: i32 = 1;
                while y <= step_y
                    invariant
                        1 <= y <= step_y + 1,
                        start_y + 40 * step_y <= i32::MAX,
                        40 * step_y <= i32::MAX,
                        positions@ == before + row + side_positions(
                            start_x,
                            start_y,
                            end_x,
                            end_y,
                            y - 1,
                        ),
                    decreases step_y + 1 - y,
                {
                    if y != end_y {
                        positions.push(Position::new(start_x, start_y + y * 40));
                        positions.push(Position::new(end_x, start_y + y * 40));
                    }
                    assert(positions@ =~= before + row + side_positions(
                        start_x,
                        start_y,
                        end_x,
                        end_y,
                        y as int,
                    ));
                    y += 1;
                }
                assert(positions@ =~= before + area_positions(areas@[i as int]));
            } else {
                assert(positions@ =~= before + area_positions(areas@[i as int]));
            }
            proof {
                assert(areas@.take(i as int + 1).drop_last() =~= areas@.take(i as int));
                assert(areas@.take(i as int + 1).last() == areas@[i as int]);
            }
            i += 1;
        }
        assert(areas@.take(areas.len() as int) =~= areas@);
        positions
    }
}

} // verus!
