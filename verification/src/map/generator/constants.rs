use vstd::prelude::*;

use crate::map::tiles_type::TileType;

verus! {

/// Radius of the rivers around an island.
pub const ISLAND_RADIUS: i16 = 18;

/// Big river blob (9 by 9 tiles), by row then column.
pub open spec fn blob_river_big() -> Seq<Seq<TileType>> {
    seq![
        seq![TileType::Dirt, TileType::Dirt, TileType::Dirt, TileType::RiverEdge, TileType::RiverEdge, TileType::RiverEdge, TileType::Dirt, TileType::Dirt, TileType::Dirt],
        seq![TileType::Dirt, TileType::Dirt, TileType::RiverEdge, TileType::River, TileType::River, TileType::River, TileType::RiverEdge, TileType::Dirt, TileType::Dirt],
        seq![TileType::Dirt, TileType::RiverEdge, TileType::River, TileType::River, TileType::River, TileType::River, TileType::River, TileType::RiverEdge, TileType::Dirt],
        seq![TileType::RiverEdge, TileType::River, TileType::River, TileType::River, TileType::River, TileType::River, TileType::River, TileType::River, TileType::RiverEdge],
        seq![TileType::RiverEdge, TileType::River, TileType::River, TileType::River, TileType::Channel, TileType::River, TileType::River, TileType::River, TileType::RiverEdge],
        seq![TileType::RiverEdge, TileType::River, TileType::River, TileType::River, TileType::River, TileType::River, TileType::River, TileType::River, TileType::RiverEdge],
        seq![TileType::Dirt, TileType::RiverEdge, TileType::River, TileType::River, TileType::River, TileType::River, TileType::River, TileType::RiverEdge, TileType::Dirt],
        seq![TileType::Dirt, TileType::Dirt, TileType::RiverEdge, TileType::River, TileType::River, TileType::River, TileType::RiverEdge, TileType::Dirt, TileType::Dirt],
        seq![TileType::Dirt, TileType::Dirt, TileType::Dirt, TileType::RiverEdge, TileType::RiverEdge, TileType::RiverEdge, TileType::Dirt, TileType::Dirt, TileType::Dirt],
    ]
}

/// Small river blob (6 by 6 tiles), by row then column.
pub open spec fn blob_river_small() -> Seq<Seq<TileType>> {
    seq![
        seq![TileType::Dirt, TileType::Dirt, TileType::RiverEdge, TileType::RiverEdge, TileType::Dirt, TileType::Dirt],
        seq![TileType::Dirt, TileType::RiverEdge, TileType::River, TileType::River, TileType::RiverEdge, TileType::Dirt],
        seq![TileType::RiverEdge, TileType::River, TileType::River, TileType::River, TileType::River, TileType::RiverEdge],
        seq![TileType::RiverEdge, TileType::River, TileType::River, TileType::River, TileType::River, TileType::RiverEdge],
        seq![TileType::Dirt, TileType::RiverEdge, TileType::River, TileType::River, TileType::RiverEdge, TileType::Dirt],
        seq![TileType::Dirt, TileType::Dirt, TileType::RiverEdge, TileType::RiverEdge, TileType::Dirt, TileType::Dirt],
    ]
}

/// Tile type of the big river blob at row `y`, column `x`.
pub fn blob_river_big_at(y: usize, x: usize) -> (r: TileType)
    requires
        y < 9,
        x < 9,
    ensures
        r == blob_river_big()[y as int][x as int],
{
    let table: [[TileType; 9]; 9] = [
        [TileType::Dirt, TileType::Dirt, TileType::Dirt, TileType::RiverEdge, TileType::RiverEdge, TileType::RiverEdge, TileType::Dirt, TileType::Dirt, TileType::Dirt],
        [TileType::Dirt, TileType::Dirt, TileType::RiverEdge, TileType::River, TileType::River, TileType::River, TileType::RiverEdge, TileType::Dirt, TileType::Dirt],
        [TileType::Dirt, TileType::RiverEdge, TileType::River, TileType::River, TileType::River, TileType::River, TileType::River, TileType::RiverEdge, TileType::Dirt],
        [TileType::RiverEdge, TileType::River, TileType::River, TileType::River, TileType::River, TileType::River, TileType::River, TileType::River, TileType::RiverEdge],
        [TileType::RiverEdge, TileType::River, TileType::River, TileType::River, TileType::Channel, TileType::River, TileType::River, TileType::River, TileType::RiverEdge],
        [TileType::RiverEdge, TileType::River, TileType::River, TileType::River, TileType::River, TileType::River, TileType::River, TileType::River, TileType::RiverEdge],
        [TileType::Dirt, TileType::RiverEdge, TileType::River, TileType::River, TileType::River, TileType::River, TileType::River, TileType::RiverEdge, TileType::Dirt],
        [TileType::Dirt, TileType::Dirt, TileType::RiverEdge, TileType::River, TileType::River, TileType::River, TileType::RiverEdge, TileType::Dirt, TileType::Dirt],
        [TileType::Dirt, TileType::Dirt, TileType::Dirt, TileType::RiverEdge, TileType::RiverEdge, TileType::RiverEdge, TileType::Dirt, TileType::Dirt, TileType::Dirt],
    ];
    proof {
        assert(table@.map_values(|row: [TileType; 9]| row@) =~= blob_river_big());
    }
    table[y][x]
}

/// Tile type of the small river blob at row `y`, column `x`.
pub fn blob_river_small_at(y: usize, x: usize) -> (r: TileType)
    requires
        y < 6,
        x < 6,
    ensures
        r == blob_river_small()[y as int][x as int],
{
    let table: [[TileType; 6]; 6] = [
        [TileType::Dirt, TileType::Dirt, TileType::RiverEdge, TileType::RiverEdge, TileType::Dirt, TileType::Dirt],
        [TileType::Dirt, TileType::RiverEdge, TileType::River, TileType::River, TileType::RiverEdge, TileType::Dirt],
        [TileType::RiverEdge, TileType::River, TileType::River, TileType::River, TileType::River, TileType::RiverEdge],
        [TileType::RiverEdge, TileType::River, TileType::River, TileType::River, TileType::River, TileType::RiverEdge],
        [TileType::Dirt, TileType::RiverEdge, TileType::River, TileType::River, TileType::RiverEdge, TileType::Dirt],
        [TileType::Dirt, TileType::Dirt, TileType::RiverEdge, TileType::RiverEdge, TileType::Dirt, TileType::Dirt],
    ];
    proof {
        assert(table@.map_values(|row: [TileType; 6]| row@) =~= blob_river_small());
    }
    table[y][x]
}

/// Horizontal offsets of the four neighbours looked at when smoothing.
pub open spec fn smooth_dx() -> Seq<i32> {
    seq![-1i32, 0i32, 1i32, 0i32]
}

/// Vertical offsets of the four neighbours looked at when smoothing.
pub open spec fn smooth_dy() -> Seq<i32> {
    seq![0i32, 1i32, 0i32, -1i32]
}

/// Horizontal offset of the `i`-th smoothing neighbour.
pub fn smooth_tiles_dx(i: usize) -> (r: i32)
    requires
        i < 4,
    ensures
        r == smooth_dx()[i as int],
{
    let table: [i32; 4] = [-1, 0, 1, 0];
    table[i]
}

/// Vertical offset of the `i`-th smoothing neighbour.
pub fn smooth_tiles_dy(i: usize) -> (r: i32)
    requires
        i < 4,
    ensures
        r == smooth_dy()[i as int],
{
    let table: [i32; 4] = [0, 1, 0, -1];
    table[i]
}

/// Raw river edge tile for each pattern of non-dirt, non-tree neighbours.
pub open spec fn river_edges() -> Seq<u16> {
    seq![
        0x100du16, 0x100du16, 0x1011u16, 0x100fu16, 0x1005u16, 2u16, 0x1013u16, 0x1011u16,
        0x1009u16, 0x100bu16, 2u16, 0x100du16, 0x1007u16, 0x1009u16, 0x1005u16, 2u16,
    ]
}

/// Raw forest edge tile for each pattern of tree neighbours.
pub open spec fn forest_edges() -> Seq<u16> {
    seq![0u16, 0u16, 0u16, 34u16, 0u16, 0u16, 36u16, 35u16, 0u16, 32u16, 0u16, 33u16, 30u16, 31u16, 29u16, 37u16]
}

/// River edge tile for a neighbour pattern.
pub fn smooth_river_edges_table(index: usize) -> (r: u16)
    requires
        index < 16,
    ensures
        r == river_edges()[index as int],
{
    let table: [u16; 16] = [
        0x100d, 0x100d, 0x1011, 0x100f, 0x1005, 2, 0x1013, 0x1011, 0x1009, 0x100b, 2, 0x100d,
        0x1007, 0x1009, 0x1005, 2,
    ];
    table[index]
}

/// Forest edge tile for a neighbour pattern.
pub fn smooth_forest_edges_table(index: usize) -> (r: u16)
    requires
        index < 16,
    ensures
        r == forest_edges()[index as int],
{
    let table: [u16; 16] = [0, 0, 0, 34, 0, 0, 36, 35, 0, 32, 0, 33, 30, 31, 29, 37];
    table[index]
}

} // verus!
