//! The grid of owned tiles.

use vstd::prelude::*;
use vstd::arithmetic::div_mod::{
    lemma_div_denominator, lemma_fundamental_div_mod, lemma_multiply_divide_lt,
};
use crate::participant::Participant;

verus! {

/// The number of tiles along each side of a participant's quadrant.
pub const TILE_COUNT: usize = 40;

/// The side of a tile, in units.
pub const TILE_DIMENSION: i64 = 8;

/// The gap between two neighbouring tiles, in units.
pub const TILE_BORDER_THICKNESS: i64 = 1;

/// A point of the battlefield. Both coordinates count half units, so that
/// the centre of every tile is a whole number.
#[derive(Clone, Copy, Debug, PartialEq, Eq, Structural)]
pub struct Position {
    pub x: i64,
    pub y: i64,
}

/// One cell of the ownership grid: a square sensor of side
/// `TILE_DIMENSION` around its centre.
#[derive(Clone, Copy, Debug, PartialEq, Eq, Structural)]
pub struct Tile {
    pub owner: Participant,
    pub position: Position,
}

impl Tile {
    /// The tile of `owner` whose centre lies at (`x`, `y`) half units.
    pub fn new(owner: Participant, x: i64, y: i64) -> (tile: Tile)
        ensures
            tile == (Tile { owner, position: Position { x, y } }),
    {
        Tile { owner, position: Position { x, y } }
    }

    /// Whether `point` lies on the tile's sensor, its edge included.
    pub open spec fn covers(self, point: Position) -> bool {
        &&& self.position.x - TILE_DIMENSION <= point.x <= self.position.x + TILE_DIMENSION
        &&& self.position.y - TILE_DIMENSION <= point.y <= self.position.y + TILE_DIMENSION
    }
}

/// The distance of the centre of the tile in column or row `index` from
/// the axis, in half units: half a tile and half a border for the first
/// one, and a whole tile and border more for each further one.
pub open spec fn tile_offset(index: int) -> int {
    (TILE_DIMENSION + TILE_BORDER_THICKNESS) + index * (2 * (TILE_DIMENSION
        + TILE_BORDER_THICKNESS))
}

/// The participant whose quadrant comes at place `place` among the four
/// tiles of one column and row.
pub open spec fn quadrant_owner(place: int) -> Participant {
    if place == 0 {
        Participant::A
    } else if place == 1 {
        Participant::B
    } else if place == 2 {
        Participant::C
    } else {
        Participant::D
    }
}

/// Whether `owner`'s quadrant lies to the right of the vertical axis.
pub open spec fn quadrant_is_right(owner: Participant) -> bool {
    owner == Participant::A || owner == Participant::C
}

/// Whether `owner`'s quadrant lies above the horizontal axis.
pub open spec fn quadrant_is_upper(owner: Participant) -> bool {
    owner == Participant::A || owner == Participant::B
}

/// The tile of `owner` in column `column` and row `row` of its quadrant,
/// both counted from the axes outwards.
pub open spec fn quadrant_tile(owner: Participant, column: int, row: int) -> Tile {
    Tile {
        owner,
        position: Position {
            x: (if quadrant_is_right(owner) {
                tile_offset(column)
            } else {
                -tile_offset(column)
            }) as i64,
            y: (if quadrant_is_upper(owner) {
                tile_offset(row)
            } else {
                -tile_offset(row)
            }) as i64,
        },
    }
}

/// The tile at place `index` of the grid: the grid runs through the
/// columns, in each column through the rows, and for each column and row
/// through the four quadrants.
pub open spec fn grid_tile(index: int) -> Tile {
    quadrant_tile(
        quadrant_owner(index % 4),
        index / (4 * TILE_COUNT as int),
        (index / 4) % (TILE_COUNT as int),
    )
}

/// The distance of the centre of the tile in column or row `index` from
/// the axis.
fn offset(index: usize) -> (offset: i64)
    requires
        index < TILE_COUNT,
    ensures
        offset == tile_offset(index as int),
        0 < offset,
{
    let pitch: i64 = TILE_DIMENSION + TILE_BORDER_THICKNESS;
    assert(0 <= index * (2 * pitch) <= TILE_COUNT * (2 * pitch)) by (nonlinear_arith)
        requires
            0 <= index <= TILE_COUNT,
            pitch >= 0,
    ;
    pitch + (index as i64) * (2 * pitch)
}

/// All tiles of the battlefield: a square of `TILE_COUNT` by `TILE_COUNT`
/// tiles for each of the four participants, laid out around the origin.
pub fn tile_grid() -> (tiles: Vec<Tile>)
    ensures
        tiles@.len() == 4 * TILE_COUNT * TILE_COUNT,
        forall|index: int| 0 <= index < tiles@.len() ==> tiles@[index] == grid_tile(index),
{
    let mut tiles: Vec<Tile> = Vec::new();
    let mut column: usize = 0;
    while column < TILE_COUNT
        invariant
            column <= TILE_COUNT,
            tiles@.len() == 4 * (column * TILE_COUNT),
            forall|index: int| 0 <= index < tiles@.len() ==> tiles@[index] == grid_tile(index),
        decreases TILE_COUNT - column,
    {
        let x: i64 = offset(column);
        let mut row: usize = 0;
        while row < TILE_COUNT
            invariant
                column < TILE_COUNT,
                row <= TILE_COUNT,
                x == tile_offset(column as int),
                0 < x,
                tiles@.len() == 4 * (column * TILE_COUNT + row),
                forall|index: int| 0 <= index < tiles@.len() ==> tiles@[index] == grid_tile(index),
            decreases TILE_COUNT - row,
        {
            let y: i64 = offset(row);
            let ghost first = tiles@.len() as int;
            assert(first / (4 * TILE_COUNT as int) == column && (first / 4) % (TILE_COUNT as int)
                == row);
            tiles.push(Tile::new(Participant::A, x, y));
            tiles.push(Tile::new(Participant::B, -x, y));
            tiles.push(Tile::new(Participant::C, x, -y));
            tiles.push(Tile::new(Participant::D, -x, -y));
            row += 1;
        }
        column += 1;
    }
    tiles
}

/// The place of a tile in the grid fixes its column, its row and its
/// quadrant, and the tile's centre lies a whole number of tiles and
/// borders from both axes.
proof fn lemma_grid_tile_coordinates(index: int)
    requires
        0 <= index < 4 * TILE_COUNT * TILE_COUNT,
    ensures
        ({
            let column = index / (4 * TILE_COUNT as int);
            let row = (index / 4) % (TILE_COUNT as int);
            let tile = grid_tile(index);
            &&& 0 <= column < TILE_COUNT
            &&& 0 <= row < TILE_COUNT
            &&& index == 4 * (TILE_COUNT * column + row) + index % 4
            &&& tile.owner == quadrant_owner(index % 4)
            &&& tile_offset(column) == (2 * column + 1) * (TILE_DIMENSION
                + TILE_BORDER_THICKNESS)
            &&& tile_offset(row) == (2 * row + 1) * (TILE_DIMENSION + TILE_BORDER_THICKNESS)
            &&& tile.position.x == if quadrant_is_right(tile.owner) {
                tile_offset(column)
            } else {
                -tile_offset(column)
            }
            &&& tile.position.y == if quadrant_is_upper(tile.owner) {
                tile_offset(row)
            } else {
                -tile_offset(row)
            }
        }),
{
    let pitch = TILE_DIMENSION + TILE_BORDER_THICKNESS;
    let side = TILE_COUNT as int;
    let column = index / (4 * side);
    let row = (index / 4) % side;
    assert(4 * side * side == (4 * side) * side) by (nonlinear_arith);
    lemma_multiply_divide_lt(index, 4 * side, side);
    lemma_div_denominator(index, 4, side);
    lemma_fundamental_div_mod(index / 4, side);
    assert(pitch + column * (2 * pitch) == (2 * column + 1) * pitch) by (nonlinear_arith);
    assert(pitch + row * (2 * pitch) == (2 * row + 1) * pitch) by (nonlinear_arith);
    assert(0 < (2 * column + 1) * pitch <= (2 * side) * pitch) by (nonlinear_arith)
        requires
            0 <= column < side,
            pitch > 0,
    ;
    assert(0 < (2 * row + 1) * pitch <= (2 * side) * pitch) by (nonlinear_arith)
        requires
            0 <= row < side,
            pitch > 0,
    ;
    assert((2 * side) * pitch <= i64::MAX) by (nonlinear_arith)
        requires
            0 <= side <= 0xffff,
            0 <= pitch <= 0xffff,
    ;
}

/// Every tile lies in the open quadrant of its owner.
pub proof fn lemma_tile_in_owner_quadrant(index: int)
    requires
        0 <= index < 4 * TILE_COUNT * TILE_COUNT,
    ensures
        ({
            let tile = grid_tile(index);
            &&& quadrant_is_right(tile.owner) ==> tile.position.x >= TILE_DIMENSION
                + TILE_BORDER_THICKNESS
            &&& !quadrant_is_right(tile.owner) ==> tile.position.x <= -(TILE_DIMENSION
                + TILE_BORDER_THICKNESS)
            &&& quadrant_is_upper(tile.owner) ==> tile.position.y >= TILE_DIMENSION
                + TILE_BORDER_THICKNESS
            &&& !quadrant_is_upper(tile.owner) ==> tile.position.y <= -(TILE_DIMENSION
                + TILE_BORDER_THICKNESS)
        }),
{
    lemma_grid_tile_coordinates(index);
}

/// Two different tiles of the grid do not touch: no point lies on the
/// sensors of both, and a border's width stays free between them.
pub proof fn lemma_tiles_apart(first: int, second: int, point: Position)
    requires
        0 <= first < 4 * TILE_COUNT * TILE_COUNT,
        0 <= second < 4 * TILE_COUNT * TILE_COUNT,
        first != second,
        grid_tile(first).covers(point),
    ensures
        !grid_tile(second).covers(point),
        ({
            let near = grid_tile(second).position;
            ||| point.x <= near.x - TILE_DIMENSION - 2 * TILE_BORDER_THICKNESS
            ||| point.x >= near.x + TILE_DIMENSION + 2 * TILE_BORDER_THICKNESS
            ||| point.y <= near.y - TILE_DIMENSION - 2 * TILE_BORDER_THICKNESS
            ||| point.y >= near.y + TILE_DIMENSION + 2 * TILE_BORDER_THICKNESS
        }),
{
    lemma_grid_tile_coordinates(first);
    lemma_grid_tile_coordinates(second);
}

} // verus!
