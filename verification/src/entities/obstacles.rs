//! The obstacle bunkers: four fortress shapes built from small blocks,
//! laid out along the bottom of the window.

use crate::geometry::{in_world, Vec2i, COORD_LIMIT};
use crate::shared::attributes::Health;
use crate::utils::RenderedAssetInfo;
use crate::WinSize;
use vstd::prelude::*;

verus! {

/// How many bunkers a fresh game builds.
pub const DEFAULT_OBSTACLE_AMOUNT: u32 = 4;

/// The edge of one block, in milli-pixels (6 pixels).
pub const OBSTACLE_BLOCK_SIZE: i64 = 6_000;

/// The bunker shape has seven rows, counted bottom-up.
pub const OBSTACLE_ROWS: usize = 7;

/// An obstacle block.
#[derive(Clone, Copy, PartialEq, Eq, Structural, Debug)]
pub struct Obstacle;

/// How many cells the bunker shape has in the given row (bottom-up): the
/// lower five rows span eleven columns, the top two narrow to ten and
/// nine.
pub open spec fn spec_shape_width(row: int) -> int {
    if 0 <= row <= 4 {
        11
    } else if row == 5 {
        10
    } else if row == 6 {
        9
    } else {
        0
    }
}

/// Whether the bunker shape has a block at the given cell, rows counted
/// bottom-up: a doorway opens in the two bottom rows, the walls taper in
/// toward the top.
pub open spec fn spec_shape_cell(row: int, col: int) -> bool {
    if row == 0 {
        (0 <= col <= 1) || (9 <= col <= 10)
    } else if row == 1 {
        (0 <= col <= 2) || (8 <= col <= 10)
    } else if 2 <= row <= 4 {
        0 <= col <= 10
    } else if row == 5 {
        1 <= col <= 9
    } else if row == 6 {
        2 <= col <= 8
    } else {
        false
    }
}

fn shape_width(row: usize) -> (w: usize)
    requires
        row < 7,
    ensures
        w == spec_shape_width(row as int),
{
    if row <= 4 {
        11
    } else if row == 5 {
        10
    } else {
        9
    }
}

fn shape_cell(row: usize, col: usize) -> (b: bool)
    ensures
        b == spec_shape_cell(row as int, col as int),
{
    if row == 0 {
        col <= 1 || (9 <= col && col <= 10)
    } else if row == 1 {
        col <= 2 || (8 <= col && col <= 10)
    } else if 2 <= row && row <= 4 {
        col <= 10
    } else if row == 5 {
        1 <= col && col <= 9
    } else if row == 6 {
        2 <= col && col <= 8
    } else {
        false
    }
}

/// Everything the host engine needs to spawn one block: a six-pixel
/// square with a single hit point.
#[derive(Clone, Copy, PartialEq, Eq, Structural, Debug)]
pub struct BlockBundle {
    pub pos: Vec2i,
    pub hp: Health,
    pub size: Vec2i,
    pub asset_info: RenderedAssetInfo,
}

pub open spec fn spec_block(x: i64, y: i64) -> BlockBundle {
    BlockBundle {
        pos: Vec2i { x, y },
        hp: Health { original_hp: 1, current_hp: 1 },
        size: Vec2i { x: OBSTACLE_BLOCK_SIZE, y: OBSTACLE_BLOCK_SIZE },
        asset_info: RenderedAssetInfo {
            size: Vec2i { x: OBSTACLE_BLOCK_SIZE, y: OBSTACLE_BLOCK_SIZE },
        },
    }
}

impl BlockBundle {
    pub fn new(x: i64, y: i64) -> (b: BlockBundle)
        ensures
            b == spec_block(x, y),
    {
        let size = Vec2i { x: OBSTACLE_BLOCK_SIZE, y: OBSTACLE_BLOCK_SIZE };
        BlockBundle {
            pos: Vec2i { x, y },
            hp: Health::default(),
            size,
            asset_info: RenderedAssetInfo { size },
        }
    }
}

/// The block a bunker cell is built at: columns step right from the
/// bunker's start (plus its x offset), rows step up.
pub open spec fn spec_block_at(start: Vec2i, offset_x: i64, row: int, col: int) -> BlockBundle {
    spec_block(
        (start.x + col * OBSTACLE_BLOCK_SIZE + offset_x) as i64,
        (start.y + row * OBSTACLE_BLOCK_SIZE) as i64,
    )
}

/// The blocks of one shape row from column `col` on, left to right.
pub open spec fn spec_row_blocks(start: Vec2i, offset_x: i64, row: int, col: int) -> Seq<
    BlockBundle,
>
    decreases spec_shape_width(row) - col,
{
    if col < 0 || col >= spec_shape_width(row) {
        Seq::empty()
    } else {
        (if spec_shape_cell(row, col) {
            seq![spec_block_at(start, offset_x, row, col)]
        } else {
            Seq::empty()
        }) + spec_row_blocks(start, offset_x, row, col + 1)
    }
}

/// The blocks of one bunker from shape row `row` up, bottom row first.
pub open spec fn spec_bunker_rows(start: Vec2i, offset_x: i64, row: int) -> Seq<BlockBundle>
    decreases 7 - row,
{
    if row < 0 || row >= 7 {
        Seq::empty()
    } else {
        spec_row_blocks(start, offset_x, row, 0) + spec_bunker_rows(start, offset_x, row + 1)
    }
}

/// All the blocks of one bunker.
pub open spec fn spec_obstacle_blocks(start: Vec2i, offset_x: i64) -> Seq<BlockBundle> {
    spec_bunker_rows(start, offset_x, 0)
}

/// Builds one bunker: a block for every cell of the shape, bottom row
/// first, left to right within a row.
pub fn create_obstacle(start_position: Vec2i, offset_x: i64) -> (blocks: Vec<BlockBundle>)
    requires
        in_world(start_position),
        -COORD_LIMIT <= offset_x <= COORD_LIMIT,
    ensures
        blocks@ == spec_obstacle_blocks(start_position, offset_x),
{
    let mut blocks: Vec<BlockBundle> = Vec::new();
    let mut row: usize = 0;
    while row < OBSTACLE_ROWS
        invariant
            row <= 7,
            in_world(start_position),
            -COORD_LIMIT <= offset_x <= COORD_LIMIT,
            spec_obstacle_blocks(start_position, offset_x) == blocks@ + spec_bunker_rows(
                start_position,
                offset_x,
                row as int,
            ),
        decreases 7 - row,
    {
        let width = shape_width(row);
        let mut col: usize = 0;
        while col < width
            invariant
                row < 7,
                col <= width,
                width == spec_shape_width(row as int),
                in_world(start_position),
                -COORD_LIMIT <= offset_x <= COORD_LIMIT,
                spec_obstacle_blocks(start_position, offset_x) == blocks@ + spec_row_blocks(
                    start_position,
                    offset_x,
                    row as int,
                    col as int,
                ) + spec_bunker_rows(start_position, offset_x, row as int + 1),
            decreases width - col,
        {
            let ghost rest = spec_row_blocks(
                start_position,
                offset_x,
                row as int,
                col as int + 1,
            );
            if shape_cell(row, col) {
                let x: i64 = start_position.x + col as i64 * OBSTACLE_BLOCK_SIZE + offset_x;
                let y: i64 = start_position.y + row as i64 * OBSTACLE_BLOCK_SIZE;
                let b = BlockBundle::new(x, y);
                proof {
                    assert(b == spec_block_at(
                        start_position,
                        offset_x,
                        row as int,
                        col as int,
                    ));
                    assert(blocks@.push(b) =~= blocks@ + seq![b]);
                    assert((blocks@ + seq![b]) + rest =~= blocks@ + (seq![b] + rest));
                }
                blocks.push(b);
            } else {
                proof {
                    assert(Seq::<BlockBundle>::empty() + rest =~= rest);
                }
            }
            col = col + 1;
        }
        proof {
            assert(spec_row_blocks(start_position, offset_x, row as int, width as int)
                =~= Seq::<BlockBundle>::empty());
            assert(blocks@ + Seq::<BlockBundle>::empty() =~= blocks@);
        }
        row = row + 1;
    }
    proof {
        assert(spec_bunker_rows(start_position, offset_x, 7) =~= Seq::<BlockBundle>::empty());
        assert(blocks@ + Seq::<BlockBundle>::empty() =~= blocks@);
    }
    blocks
}

/// The bunkers of one fresh game, from shape row zero of the leftmost
/// bunker on: the bunkers start one fifteenth of the window in from the
/// left edge, 100 pixels up from the bottom, one quarter of the window
/// apart.
pub open spec fn spec_obstacles_from(win: WinSize, k: int) -> Seq<BlockBundle>
    decreases 4 - k,
{
    if k < 0 || k >= 4 {
        Seq::empty()
    } else {
        spec_obstacle_blocks(
            Vec2i { x: (-(win.w / 2) + win.w / 15) as i64, y: (-(win.h / 2) + 100_000) as i64 },
            (k * (win.w / 4)) as i64,
        ) + spec_obstacles_from(win, k + 1)
    }
}

/// Lays out all four bunkers.
pub fn setup_obstacles(win_size: &WinSize) -> (blocks: Vec<BlockBundle>)
    requires
        0 <= win_size.w <= COORD_LIMIT,
        0 <= win_size.h <= COORD_LIMIT,
    ensures
        blocks@ == spec_obstacles_from(*win_size, 0),
{
    let x_start: i64 = -(win_size.w / 2) + win_size.w / 15;
    let y_start: i64 = -(win_size.h / 2) + 100_000;
    let start = Vec2i { x: x_start, y: y_start };
    let mut blocks: Vec<BlockBundle> = Vec::new();
    let mut k: usize = 0;
    while k < 4
        invariant
            k <= 4,
            0 <= win_size.w <= COORD_LIMIT,
            0 <= win_size.h <= COORD_LIMIT,
            start == (Vec2i {
                x: (-(win_size.w / 2) + win_size.w / 15) as i64,
                y: (-(win_size.h / 2) + 100_000) as i64,
            }),
            spec_obstacles_from(*win_size, 0) == blocks@ + spec_obstacles_from(
                *win_size,
                k as int,
            ),
        decreases 4 - k,
    {
        let quarter: i64 = win_size.w / 4;
        proof {
            assert(0 <= (k as int) * (quarter as int) <= 1_000_000_000) by (nonlinear_arith)
                requires
                    0 <= (k as int) <= 3,
                    0 <= (quarter as int) <= 250_000_000,
            ;
        }
        let offset: i64 = k as i64 * quarter;
        let mut bunker = create_obstacle(start, offset);
        proof {
            assert(blocks@ + (bunker@ + spec_obstacles_from(*win_size, k as int + 1)) =~= (
            blocks@ + bunker@) + spec_obstacles_from(*win_size, k as int + 1));
        }
        blocks.append(&mut bunker);
        k = k + 1;
    }
    proof {
        assert(spec_obstacles_from(*win_size, 4) =~= Seq::<BlockBundle>::empty());
        assert(blocks@ + Seq::<BlockBundle>::empty() =~= blocks@);
    }
    blocks
}

} // verus!
