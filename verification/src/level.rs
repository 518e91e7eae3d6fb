//! The layout of a level: a rectangular grid of platforms, centred on the
//! origin, each carrying a randomly chosen arrow.

use crate::direction::{all_directions, jump_directions, JumpDirection};
use crate::random::{choose_direction, new_thread_rng};
use rand::rngs::ThreadRng;
use vstd::arithmetic::div_mod::lemma_fundamental_div_mod_converse;
use vstd::prelude::*;

verus! {

/// Number of platform columns (along world X) in the level.
pub const PLATFORM_COUNT_X: u32 = 5;

/// Number of platform rows (along world Z) in the level.
pub const PLATFORM_COUNT_Y: u32 = 5;

/// A platform of the level: the grid cell it stands on and the arrow drawn
/// on it, which tells the player where to jump next.
#[derive(Clone, Copy, Debug, PartialEq, Eq, Structural)]
pub struct Platform {
    pub column: u32,
    pub row: u32,
    pub direction: JumpDirection,
}

/// `platforms` covers a grid of `columns` by `rows` cells, one platform per
/// cell, listed column by column and, within a column, row by row.
pub open spec fn covers_grid(platforms: Seq<Platform>, columns: u32, rows: u32) -> bool {
    &&& platforms.len() == columns * rows
    &&& forall|k: int| 0 <= k < platforms.len() ==> placed_at(#[trigger] platforms[k], k, rows)
}

/// `platform` stands on the `k`-th cell of a grid with `rows` rows, counting
/// column by column.
pub open spec fn placed_at(platform: Platform, k: int, rows: u32) -> bool {
    &&& platform.column as int == k / (rows as int)
    &&& platform.row as int == k % (rows as int)
}

/// The centre of grid line `index` out of `count`, measured from the centre
/// of the whole grid in half pitches (a pitch is a platform's width plus
/// the gap between platforms).
pub open spec fn center_offset_of(index: int, count: int) -> int {
    2 * index - (count - 1)
}

/// The centre of grid line `index` out of `count`, measured from the centre
/// of the whole grid in half pitches.
pub fn platform_center_offset(index: u32, count: u32) -> (offset: i64)
    ensures
        offset == center_offset_of(index as int, count as int),
{
    2 * (index as i64) - (count as i64) + 1
}

/// Lays out `columns` by `rows` platforms, giving the `k`-th one, in the
/// grid's column-by-column order, the arrow `directions[k]`.
pub fn place_platforms(columns: u32, rows: u32, directions: &Vec<JumpDirection>) -> (platforms:
    Vec<Platform>)
    requires
        directions@.len() == columns * rows,
    ensures
        covers_grid(platforms@, columns, rows),
        forall|k: int| 0 <= k < platforms@.len() ==> (#[trigger] platforms@[k]).direction == directions@[k],
{
    let mut platforms: Vec<Platform> = Vec::new();
    let mut column: u32 = 0;
    while column < columns
        invariant
            column <= columns,
            directions@.len() == columns * rows,
            platforms@.len() == column * rows,
            platforms@.len() <= directions@.len(),
            forall|k: int|
                0 <= k < platforms@.len() ==> placed_at(#[trigger] platforms@[k], k, rows)
                    && platforms@[k].direction == directions@[k],
        decreases columns - column,
    {
        let mut row: u32 = 0;
        while row < rows
            invariant
                column < columns,
                row <= rows,
                directions@.len() == columns * rows,
                platforms@.len() == column * rows + row,
                platforms@.len() <= directions@.len(),
                forall|k: int|
                    0 <= k < platforms@.len() ==> placed_at(#[trigger] platforms@[k], k, rows)
                        && platforms@[k].direction == directions@[k],
            decreases rows - row,
        {
            let k = platforms.len();
            proof {
                lemma_fundamental_div_mod_converse(k as int, rows as int, column as int, row as int);
                assert(column * rows + row < columns * rows) by (nonlinear_arith)
                    requires
                        column < columns,
                        row < rows,
                ;
            }
            platforms.push(Platform { column, row, direction: directions[k] });
            row = row + 1;
        }
        assert(column * rows + rows == (column + 1) * rows) by (nonlinear_arith);
        column = column + 1;
    }
    platforms
}

/// Draws one of the four jump directions at random.
pub fn random_direction(rng: &mut ThreadRng) -> (dir: JumpDirection)
    ensures
        all_directions().contains(dir),
{
    let options = jump_directions();
    choose_direction(options.as_slice(), rng).unwrap()
}

/// Lays out a level of `columns` by `rows` platforms, each with an arrow
/// drawn at random from the four jump directions.
pub fn level_layout(columns: u32, rows: u32) -> (platforms: Vec<Platform>)
    requires
        columns * rows <= usize::MAX,
    ensures
        covers_grid(platforms@, columns, rows),
        forall|k: int|
            0 <= k < platforms@.len() ==> all_directions().contains(#[trigger] platforms@[k].direction),
{
    let mut rng = new_thread_rng();
    let total: usize = (columns as usize) * (rows as usize);
    let mut directions: Vec<JumpDirection> = Vec::new();
    let mut i: usize = 0;
    while i < total
        invariant
            i <= total,
            directions@.len() == i,
            forall|k: int| 0 <= k < i ==> all_directions().contains(#[trigger] directions@[k]),
        decreases total - i,
    {
        let dir = random_direction(&mut rng);
        directions.push(dir);
        i = i + 1;
    }
    place_platforms(columns, rows, &directions)
}

/// The platforms of a level fill its grid: every cell holds a platform,
/// and no two platforms share a cell.
pub proof fn lemma_one_platform_per_cell(
    platforms: Seq<Platform>,
    columns: u32,
    rows: u32,
    column: u32,
    row: u32,
)
    requires
        covers_grid(platforms, columns, rows),
        column < columns,
        row < rows,
    ensures
        0 <= column * rows + row < platforms.len(),
        platforms[column * rows + row].column == column,
        platforms[column * rows + row].row == row,
        forall|j: int, k: int|
            0 <= j < platforms.len() && 0 <= k < platforms.len() && j != k ==> (
            #[trigger] platforms[j].column != #[trigger] platforms[k].column || platforms[j].row
                != platforms[k].row),
{
    let k: int = column * rows + row;
    assert(0 <= k < columns * rows) by (nonlinear_arith)
        requires
            k == column * rows + row,
            column < columns,
            row < rows,
    ;
    lemma_fundamental_div_mod_converse(k, rows as int, column as int, row as int);
    assert forall|j: int, m: int|
        0 <= j < platforms.len() && 0 <= m < platforms.len() && j != m implies (
        #[trigger] platforms[j].column != #[trigger] platforms[m].column || platforms[j].row
            != platforms[m].row) by {
        if platforms[j].column == platforms[m].column && platforms[j].row == platforms[m].row {
            assert(rows > 0) by (nonlinear_arith)
                requires
                    0 <= j < columns * rows,
            ;
            vstd::arithmetic::div_mod::lemma_fundamental_div_mod(j, rows as int);
            vstd::arithmetic::div_mod::lemma_fundamental_div_mod(m, rows as int);
        }
    }
}

/// The grid is centred on the origin: the platforms at mirrored positions
/// lie at opposite offsets.
pub proof fn lemma_grid_is_centred(index: u32, count: u32)
    requires
        index < count,
    ensures
        center_offset_of(index as int, count as int) == -center_offset_of(
            count - 1 - index,
            count as int,
        ),
{
}

/// Neighbouring platforms are exactly one pitch (two half pitches) apart.
pub proof fn lemma_neighbours_one_pitch_apart(index: u32, count: u32)
    ensures
        center_offset_of(index + 1, count as int) - center_offset_of(index as int, count as int)
            == 2,
{
}

/// With an odd number of lines the middle one sits on the origin, so the
/// player, who starts there, starts on a platform.
pub proof fn lemma_middle_platform_at_origin(count: u32)
    requires
        count % 2 == 1,
    ensures
        center_offset_of((count - 1) / 2, count as int) == 0,
{
}

} // verus!
