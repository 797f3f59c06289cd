//! The field of blocks.

use vstd::prelude::*;
use crate::components::Position;
use crate::constants::{
    BLOCK_SPACING, FIELD_SIZE, SELECTABLE_AREA_END, SELECTABLE_AREA_START,
};

verus! {

/// A block that is to stand on the field.
#[derive(Clone, Copy, Debug, PartialEq, Eq, Structural)]
pub struct BlockSpawn {
    /// Row of the block, counted from 0.
    pub x: i32,
    /// Column of the block, counted from 0.
    pub z: i32,
    /// Where the centre of the block lies.
    pub position: Position,
    /// Whether the block can be hovered and clicked.
    pub selectable: bool,
}

/// Where a row or column lies, in millionths of a world unit: the field is
/// centred on the origin, with the middle of row 0 half a field from it.
pub open spec fn grid_coordinate(index: int) -> int {
    (2 * index - FIELD_SIZE) * BLOCK_SPACING * 500_000
}

/// Whether a row or column belongs to the selectable area.
pub open spec fn in_selectable_range(index: int) -> bool {
    SELECTABLE_AREA_START <= index <= SELECTABLE_AREA_END
}

/// The block in row `x` and column `z`.
pub open spec fn block_at(x: int, z: int) -> BlockSpawn {
    BlockSpawn {
        x: x as i32,
        z: z as i32,
        position: Position { x: grid_coordinate(x) as i64, y: 0, z: grid_coordinate(z) as i64 },
        selectable: in_selectable_range(x) && in_selectable_range(z),
    }
}

/// The blocks of the field, row by row: one for each row and column, on
/// the ground, those of the middle area selectable.
pub fn spawn_field() -> (blocks: Vec<BlockSpawn>)
    ensures
        blocks.len() == FIELD_SIZE * FIELD_SIZE,
        forall|x: int, z: int|
            0 <= x < FIELD_SIZE && 0 <= z < FIELD_SIZE ==> blocks[x * FIELD_SIZE + z]
                == #[trigger] block_at(x, z),
{
    let mut blocks: Vec<BlockSpawn> = Vec::new();
    let mut x: i32 = 0;
    while x < FIELD_SIZE
        invariant
            0 <= x <= FIELD_SIZE,
            blocks.len() == x * FIELD_SIZE,
            forall|i: int, j: int|
                0 <= i < x && 0 <= j < FIELD_SIZE ==> blocks[i * FIELD_SIZE + j]
                    == #[trigger] block_at(i, j),
        decreases FIELD_SIZE - x,
    {
        let mut z: i32 = 0;
        while z < FIELD_SIZE
            invariant
                0 <= x < FIELD_SIZE,
                0 <= z <= FIELD_SIZE,
                blocks.len() == x * FIELD_SIZE + z,
                forall|i: int, j: int|
                    0 <= i < x && 0 <= j < FIELD_SIZE ==> blocks[i * FIELD_SIZE + j]
                        == #[trigger] block_at(i, j),
                forall|j: int| 0 <= j < z ==> blocks[x * FIELD_SIZE + j] == #[trigger] block_at(
                    x as int,
                    j,
                ),
            decreases FIELD_SIZE - z,
        {
            let selectable = SELECTABLE_AREA_START <= x && x <= SELECTABLE_AREA_END
                && SELECTABLE_AREA_START <= z && z <= SELECTABLE_AREA_END;
            let block = BlockSpawn {
                x: x,
                z: z,
                position: Position {
                    x: (2 * x as i64 - FIELD_SIZE as i64) * 8_000_000,
                    y: 0,
                    z: (2 * z as i64 - FIELD_SIZE as i64) * 8_000_000,
                },
                selectable: selectable,
            };
            assert(block == block_at(x as int, z as int));
            blocks.push(block);
            z += 1;
        }
        x += 1;
    }
    blocks
}

} // verus!
