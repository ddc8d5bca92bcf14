pub mod animations;
pub mod buildings;
pub mod connect;
pub mod generator;
pub mod position;
pub mod tiles;
pub mod tiles_type;
pub mod tools;

pub use position::{MapPosition, MapPositionOffset, MapRectangle, MAP_POSITION_DIRECTIONS};
pub use tiles::Tile;
pub use tiles_type::TileType;

use vstd::prelude::*;

use position::fits_i32;
use tiles::{type_bits, TILE_LOW_MASK};

verus! {

pub const WORLD_WIDTH: usize = 120;
pub const WORLD_HEIGHT: usize = 100;

/// Storage of a map: columns (X axis) of cells (Y axis).
pub type MapData<T> = Vec<Vec<T>>;

/// How many positions (per axis) a single value of a map stands for.
#[derive(Clone, Copy, Debug, PartialEq, Eq, Structural)]
pub enum MapClusteringStrategy {
    BlockSize1,
    BlockSize2,
    BlockSize4,
    BlockSize8,
}

/// Floor division (rounding towards negative infinity) by a positive divisor.
pub open spec fn floor_div(a: int, b: int) -> int {
    a / b
}

impl MapClusteringStrategy {
    pub open spec fn size(self) -> int {
        match self {
            MapClusteringStrategy::BlockSize1 => 1,
            MapClusteringStrategy::BlockSize2 => 2,
            MapClusteringStrategy::BlockSize4 => 4,
            MapClusteringStrategy::BlockSize8 => 8,
        }
    }

    /// Block position of a map position.
    pub open spec fn block_of(self, position: MapPosition) -> MapPosition {
        MapPosition {
            x: floor_div(position.x as int, self.size()) as i32,
            y: floor_div(position.y as int, self.size()) as i32,
        }
    }

    pub fn block_size(&self) -> (r: usize)
        ensures
            r == self.size(),
    {
        match self {
            MapClusteringStrategy::BlockSize1 => 1,
            MapClusteringStrategy::BlockSize2 => 2,
            MapClusteringStrategy::BlockSize4 => 4,
            MapClusteringStrategy::BlockSize8 => 8,
        }
    }

    /// Position of the block that holds the given position (coordinates
    /// divided by the block size, rounding down).
    pub fn transform(&self, position: &MapPosition) -> (r: MapPosition)
        ensures
            r == self.block_of(*position),
    {
        let block_size = self.block_size() as i32;
        MapPosition::new(
            floor_div_i32(position.x, block_size),
            floor_div_i32(position.y, block_size),
        )
    }
}

/// Floor division of a 32-bit integer by a positive divisor.
fn floor_div_i32(a: i32, b: i32) -> (r: i32)
    requires
        1 <= b <= 8,
    ensures
        r == floor_div(a as int, b as int),
{
    if a >= 0 {
        a / b
    } else {
        let n = -(a + 1);
        let q = n / b;
        proof {
            let ni = n as int;
            let bi = b as int;
            vstd::arithmetic::div_mod::lemma_fundamental_div_mod(ni, bi);
            vstd::arithmetic::div_mod::lemma_fundamental_div_mod(a as int, bi);
            let r1 = ni % bi;
            let r2 = (a as int) % bi;
            assert(a as int == -ni - 1);
            assert((a as int) / bi == -(ni / bi) - 1) by (nonlinear_arith)
                requires
                    bi > 0,
                    ni >= 0,
                    ni == bi * (ni / bi) + r1,
                    0 <= r1 < bi,
                    (a as int) == bi * ((a as int) / bi) + r2,
                    0 <= r2 < bi,
                    a as int == -ni - 1,
            ;
        }
        -q - 1
    }
}

/// Generic class for maps in the Micropolis game.
///
/// A map covers a 2D grid of positions. A block of positions may be clustered,
/// and represented by a single data value.
///
/// First dimension is the X (horizontal) axis, second dimension is the Y
/// (vertical) axis.
#[derive(Clone, Debug)]
pub struct WorldMap<T> {
    /// Blocks clustering strategy.
    clustering_strategy: MapClusteringStrategy,
    /// The internal data structure storing the tiles of the map.
    data: MapData<T>,
}

/// Is there a cell for the block of position `p` in the grid?
pub open spec fn cell_exists<T>(cells: Seq<Seq<T>>, strategy: MapClusteringStrategy, p: MapPosition) -> bool {
    let b = strategy.block_of(p);
    0 <= b.x < cells.len() && 0 <= b.y < cells[b.x as int].len()
}

/// The grid after writing `v` into the cell of the block of position `p`, if there is one.
pub open spec fn write_cell<T>(
    cells: Seq<Seq<T>>,
    strategy: MapClusteringStrategy,
    p: MapPosition,
    v: T,
) -> Seq<Seq<T>> {
    let b = strategy.block_of(p);
    if cell_exists(cells, strategy, p) {
        cells.update(b.x as int, cells[b.x as int].update(b.y as int, v))
    } else {
        cells
    }
}

/// Value of the cell of a position's block in a grid, as `get_tile_at` reads it.
pub open spec fn grid_value_at<T>(
    cells: Seq<Seq<T>>,
    strategy: MapClusteringStrategy,
    p: MapPosition,
) -> Option<T> {
    let b = strategy.block_of(p);
    let width = cells.len();
    let height: nat = if width > 0 {
        cells[0].len()
    } else {
        0
    };
    if b.x >= 0 && b.y >= 0 && b.x < width as i32 && width > 0 && b.y < height as i32
        && cell_exists(cells, strategy, p) {
        Some(cells[b.x as int][b.y as int])
    } else {
        None
    }
}

/// The grid after writing each entry in turn.
pub open spec fn write_changes<T>(
    cells: Seq<Seq<T>>,
    strategy: MapClusteringStrategy,
    s: Seq<(MapPosition, T)>,
) -> Seq<Seq<T>>
    decreases s.len(),
{
    if s.len() == 0 {
        cells
    } else {
        write_cell(write_changes(cells, strategy, s.drop_last()), strategy, s.last().0, s.last().1)
    }
}

/// Two grids have the same number of columns, and columns of the same lengths.
pub open spec fn same_shape<T>(a: Seq<Seq<T>>, b: Seq<Seq<T>>) -> bool {
    a.len() == b.len() && forall|i: int| 0 <= i < a.len() ==> #[trigger] a[i].len() == b[i].len()
}

/// Writing a cell keeps the shape of the grid.
pub proof fn lemma_write_cell_shape<T>(
    cells: Seq<Seq<T>>,
    strategy: MapClusteringStrategy,
    p: MapPosition,
    v: T,
)
    ensures
        same_shape(write_cell(cells, strategy, p, v), cells),
{
}

/// Writing cells keeps the shape of the grid.
pub proof fn lemma_write_changes_shape<T>(
    cells: Seq<Seq<T>>,
    strategy: MapClusteringStrategy,
    s: Seq<(MapPosition, T)>,
)
    ensures
        same_shape(write_changes(cells, strategy, s), cells),
    decreases s.len(),
{
    if s.len() > 0 {
        lemma_write_changes_shape(cells, strategy, s.drop_last());
    }
}

/// The grid after writing `f(x, y)` at positions `(x, 0)` to `(x, n - 1)`, in order.
pub open spec fn sweep_column<T>(
    cells: Seq<Seq<T>>,
    strategy: MapClusteringStrategy,
    f: spec_fn(int, int) -> T,
    x: int,
    n: int,
) -> Seq<Seq<T>>
    decreases n,
{
    if n <= 0 {
        cells
    } else {
        write_cell(
            sweep_column(cells, strategy, f, x, n - 1),
            strategy,
            MapPosition { x: x as i32, y: (n - 1) as i32 },
            f(x, n - 1),
        )
    }
}

/// The grid after writing `f(x, y)` at every position of the first `w`
/// columns and `h` rows, column by column, each from the top.
pub open spec fn sweep<T>(
    cells: Seq<Seq<T>>,
    strategy: MapClusteringStrategy,
    f: spec_fn(int, int) -> T,
    w: int,
    h: int,
) -> Seq<Seq<T>>
    decreases w,
{
    if w <= 0 {
        cells
    } else {
        sweep_column(sweep(cells, strategy, f, w - 1, h), strategy, f, w - 1, h)
    }
}

/// The grid after replacing, at positions `(x * stride, y * stride)` for
/// `y` from 0 to `n - 1`, the value there by `f` of it (a position without
/// a value is left).
pub open spec fn update_column<T>(
    cells: Seq<Seq<T>>,
    strategy: MapClusteringStrategy,
    f: spec_fn(T) -> T,
    stride: int,
    x: int,
    n: int,
) -> Seq<Seq<T>>
    decreases n,
{
    if n <= 0 {
        cells
    } else {
        let c = update_column(cells, strategy, f, stride, x, n - 1);
        let p = MapPosition { x: (x * stride) as i32, y: ((n - 1) * stride) as i32 };
        match grid_value_at(c, strategy, p) {
            Some(v) => write_cell(c, strategy, p, f(v)),
            None => c,
        }
    }
}

/// The grid after `update_column` on the first `w` columns, in order, each
/// over `h` rows.
pub open spec fn update_sweep<T>(
    cells: Seq<Seq<T>>,
    strategy: MapClusteringStrategy,
    f: spec_fn(T) -> T,
    stride: int,
    w: int,
    h: int,
) -> Seq<Seq<T>>
    decreases w,
{
    if w <= 0 {
        cells
    } else {
        update_column(update_sweep(cells, strategy, f, stride, w - 1, h), strategy, f, stride, w - 1, h)
    }
}

/// Writing the value a cell already holds leaves the grid as it is.
pub proof fn lemma_write_same<T>(cells: Seq<Seq<T>>, strategy: MapClusteringStrategy, p: MapPosition, v: T)
    requires
        grid_value_at(cells, strategy, p) == Some(v),
    ensures
        write_cell(cells, strategy, p, v) == cells,
{
    let b = strategy.block_of(p);
    assert(cells[b.x as int].update(b.y as int, v) =~= cells[b.x as int]);
    assert(write_cell(cells, strategy, p, v) =~= cells);
}

/// Grids of the same shape have values at the same positions.
pub proof fn lemma_same_shape_values<T>(
    a: Seq<Seq<T>>,
    b: Seq<Seq<T>>,
    strategy: MapClusteringStrategy,
    p: MapPosition,
)
    requires
        same_shape(a, b),
    ensures
        grid_value_at(a, strategy, p) is Some <==> grid_value_at(b, strategy, p) is Some,
{
    let c = strategy.block_of(p);
    if a.len() > 0 {
        assert(a[0].len() == b[0].len());
    }
    if 0 <= c.x < a.len() {
        assert(a[c.x as int].len() == b[c.x as int].len());
    }
}

/// A grid of `width` columns of `height` copies of `value`.
pub open spec fn uniform_cells<T>(width: nat, height: nat, value: T) -> Seq<Seq<T>> {
    Seq::new(width, |i: int| Seq::new(height, |j: int| value))
}

impl<T: Copy> WorldMap<T> {
    /// The cells of the map, column by column.
    pub closed spec fn cells(&self) -> Seq<Seq<T>> {
        self.data@.map_values(|column: Vec<T>| column@)
    }

    /// The clustering strategy of the map.
    pub closed spec fn strategy(&self) -> MapClusteringStrategy {
        self.clustering_strategy
    }

    /// The raw storage of the map.
    pub closed spec fn grid(&self) -> MapData<T> {
        self.data
    }

    pub proof fn lemma_cells_of_grid(&self)
        ensures
            self.cells().len() == self.grid()@.len(),
            forall|i: int|
                0 <= i < self.cells().len() ==> #[trigger] self.cells()[i] == self.grid()@[i]@,
    {
    }

    /// Number of columns.
    pub open spec fn width(&self) -> nat {
        self.cells().len()
    }

    /// Number of cells of the first column (0 when there is no column).
    pub open spec fn height(&self) -> nat {
        if self.cells().len() > 0 {
            self.cells()[0].len()
        } else {
            0
        }
    }

    /// Block of the map that holds the position.
    pub open spec fn block(&self, position: MapPosition) -> MapPosition {
        self.strategy().block_of(position)
    }

    /// Is the position inside the map, as `in_bounds` tells?
    pub open spec fn spec_in_bounds(&self, position: MapPosition) -> bool {
        let b = self.block(position);
        &&& b.x >= 0
        &&& b.y >= 0
        &&& b.x < self.width() as i32
        &&& self.width() > 0
        &&& b.y < self.height() as i32
    }

    /// Is there a cell for the position's block (its column may be shorter than the first)?
    pub open spec fn has_cell(&self, position: MapPosition) -> bool {
        cell_exists(self.cells(), self.strategy(), position)
    }

    /// Value of the cell of the position's block.
    pub open spec fn cell(&self, position: MapPosition) -> T {
        let b = self.block(position);
        self.cells()[b.x as int][b.y as int]
    }

    /// What `bounds().is_contained(top_left, size)` tells of the map.
    pub open spec fn bounds_contain(&self, top_left: MapPosition, size: MapRectangle) -> bool {
        top_left.x >= 0 || top_left.x + size.width as i32 <= self.width() as usize as i32
            || top_left.y >= 0 || top_left.y + size.height as i32 <= self.height() as usize as i32
    }

    /// Value that `get_tile_at` gives.
    pub open spec fn tile_at(&self, position: MapPosition) -> Option<T> {
        if self.spec_in_bounds(position) && self.has_cell(position) {
            Some(self.cell(position))
        } else {
            None
        }
    }

    /// What `set_tile_at` writes, `get_tile_at` reads back: after a write at
    /// a position that the map could read, reading that position gives the
    /// written value, and reading a position of another block gives what it
    /// gave before.
    pub proof fn law_read_after_write(
        &self,
        after: WorldMap<T>,
        position: MapPosition,
        other: MapPosition,
        value: T,
    )
        requires
            after.cells() == self.cells_after_set(position, value),
            after.strategy() == self.strategy(),
        ensures
            self.tile_at(position) is Some ==> after.tile_at(position) == Some(value),
            self.block(other) != self.block(position) ==> after.tile_at(other) == self.tile_at(
                other,
            ),
    {
        let b = self.block(position);
        let c = self.block(other);
        if self.has_cell(position) {
            assert(after.cells()[b.x as int][b.y as int] == value);
            if c != b {
                if c.x == b.x {
                    assert(after.cells()[c.x as int] == self.cells()[c.x as int].update(
                        b.y as int,
                        value,
                    ));
                }
            }
            if b.x != 0 {
                assert(after.cells()[0] == self.cells()[0]);
            }
        } else {
            assert(after.cells() == self.cells());
        }
    }

    /// `get_tile_at` reads the grid of cells.
    pub proof fn lemma_tile_at_cells(&self, position: MapPosition)
        ensures
            self.tile_at(position) == grid_value_at(self.cells(), self.strategy(), position),
    {
    }

    /// The map after writing `value` into the cell of the position's block.
    pub open spec fn cells_after_set(&self, position: MapPosition, value: T) -> Seq<Seq<T>> {
        write_cell(self.cells(), self.strategy(), position, value)
    }

    pub fn with_data(data: MapData<T>, clustering_strategy: MapClusteringStrategy) -> (r: Self)
        ensures
            r.grid() == data,
            r.strategy() == clustering_strategy,
    {
        Self { data, clustering_strategy }
    }

    /// A map of `width` columns of `height` copies of `value`.
    pub fn filled(
        width: usize,
        height: usize,
        value: T,
        clustering_strategy: MapClusteringStrategy,
    ) -> (r: Self)
        ensures
            r.cells() == uniform_cells(width as nat, height as nat, value),
            r.strategy() == clustering_strategy,
    {
        let mut data: MapData<T> = Vec::new();
        let mut x: usize = 0;
        while x < width
            invariant
                x <= width,
                data@.len() == x,
                forall|i: int|
                    0 <= i < x ==> #[trigger] data@[i]@ == Seq::new(height as nat, |j: int| value),
            decreases width - x,
        {
            let mut column: Vec<T> = Vec::new();
            let mut y: usize = 0;
            while y < height
                invariant
                    y <= height,
                    column@ == Seq::new(y as nat, |j: int| value),
                decreases height - y,
            {
                column.push(value);
                y = y + 1;
            }
            data.push(column);
            x = x + 1;
        }
        let r = Self { data, clustering_strategy };
        assert(r.cells() =~= uniform_cells(width as nat, height as nat, value));
        r
    }

    /// The clustering strategy of the map.
    pub fn get_clustering_strategy(&self) -> (r: &MapClusteringStrategy)
        ensures
            *r == self.strategy(),
    {
        &self.clustering_strategy
    }

    pub fn in_bounds(&self, position: &MapPosition) -> (r: bool)
        ensures
            r == self.spec_in_bounds(*position),
    {
        let transformed = self.clustering_strategy.transform(position);
        if transformed.x < 0 || transformed.y < 0 || transformed.x >= self.data.len() as i32 {
            false
        } else {
            if self.data.len() > 0 {
                transformed.y < self.data[0].len() as i32
            } else {
                false
            }
        }
    }

    pub fn bounds(&self) -> (r: MapRectangle)
        ensures
            r.width == self.width(),
            r.height == self.height(),
    {
        MapRectangle {
            width: self.data.len(),
            height: if self.data.len() > 0 {
                self.data[0].len()
            } else {
                0
            },
        }
    }

    pub fn tiles(&self) -> (r: &MapData<T>)
        ensures
            *r == self.grid(),
    {
        &self.data
    }

    pub fn tiles_mut(&mut self) -> (r: &mut MapData<T>)
        ensures
            *r == old(self).grid(),
            final(self).grid() == *final(r),
            final(self).strategy() == old(self).strategy(),
    {
        &mut self.data
    }

    pub fn get_tile_at(&self, position: &MapPosition) -> (r: Option<&T>)
        ensures
            r is Some <==> self.tile_at(*position) is Some,
            r matches Some(v) ==> *v == self.tile_at(*position).unwrap(),
    {
        if self.in_bounds(position) {
            let transformed = self.clustering_strategy.transform(position);
            let x = transformed.x as usize;
            let y = transformed.y as usize;
            if y < self.data[x].len() {
                Some(&self.data[x][y])
            } else {
                None
            }
        } else {
            None
        }
    }

    /// Write the value of the cell of the position's block; false when there
    /// is no such cell.
    pub fn set_tile_at(&mut self, position: &MapPosition, tile: T) -> (r: bool)
        ensures
            r == old(self).has_cell(*position),
            r ==> final(self).cells() == old(self).cells_after_set(*position, tile),
            !r ==> final(self).cells() == old(self).cells(),
            final(self).strategy() == old(self).strategy(),
    {
        let transformed = self.clustering_strategy.transform(position);
        if transformed.x < 0 || transformed.x as usize >= self.data.len() {
            return false;
        }
        let x = transformed.x as usize;
        if transformed.y < 0 || transformed.y as usize >= self.data[x].len() {
            return false;
        }
        let y = transformed.y as usize;
        let ghost before = self.cells();
        self.data[x][y] = tile;
        assert(self.cells() =~= before.update(x as int, before[x as int].update(y as int, tile)));
        true
    }

    /// Value of the neighbouring cell in a cardinal direction, or the default
    /// when there is none.
    pub fn get_neighboring_tile_at(
        &self,
        position: &MapPosition,
        direction: &MapPositionOffset,
        default_if_out_of_bounds: T,
    ) -> (r: T)
        requires
            fits_i32(position.x + 1) && fits_i32(position.x - 1),
            fits_i32(position.y + 1) && fits_i32(position.y - 1),
        ensures
            ({
                let n = MapPosition {
                    x: (position.x + direction.delta().0) as i32,
                    y: (position.y + direction.delta().1) as i32,
                };
                let cardinal = *direction == MapPositionOffset::North || *direction
                    == MapPositionOffset::East || *direction == MapPositionOffset::South
                    || *direction == MapPositionOffset::West;
                if cardinal && 0 <= n.x < self.width() as i32 && 0 <= n.y < self.height() as i32
                    && self.tile_at(n) is Some {
                    r == self.tile_at(n).unwrap()
                } else {
                    r == default_if_out_of_bounds
                }
            }),
    {
        if direction.is_cardinal() {
            let bounds = self.bounds();
            match direction.apply_with_bounds(position, &bounds) {
                Some(neighboring_position) => match self.get_tile_at(&neighboring_position) {
                    Some(t) => *t,
                    None => default_if_out_of_bounds,
                },
                None => default_if_out_of_bounds,
            }
        } else {
            default_if_out_of_bounds
        }
    }

    /// Set all the cells of the map to the given value.
    pub fn clear(&mut self, value: T)
        ensures
            final(self).strategy() == old(self).strategy(),
            final(self).cells().len() == old(self).cells().len(),
            forall|i: int|
                0 <= i < old(self).cells().len() ==> #[trigger] final(self).cells()[i]
                    == Seq::new(old(self).cells()[i].len(), |j: int| value),
    {
        let ghost before = self.cells();
        let mut x: usize = 0;
        while x < self.data.len()
            invariant
                x <= self.data@.len(),
                self.data@.len() == before.len(),
                self.clustering_strategy == old(self).clustering_strategy,
                forall|i: int|
                    0 <= i < x ==> #[trigger] self.data@[i]@ == Seq::new(before[i].len(), |j: int| value),
                forall|i: int| x <= i < before.len() ==> #[trigger] self.data@[i]@ == before[i],
            decreases before.len() - x,
        {
            let mut y: usize = 0;
            let height = self.data[x].len();
            while y < height
                invariant
                    x < self.data@.len(),
                    self.data@.len() == before.len(),
                    self.clustering_strategy == old(self).clustering_strategy,
                    height == before[x as int].len(),
                    y <= height,
                    self.data@[x as int]@.len() == height,
                    forall|j: int| 0 <= j < y ==> #[trigger] self.data@[x as int]@[j] == value,
                    forall|i: int|
                        0 <= i < x ==> #[trigger] self.data@[i]@ == Seq::new(before[i].len(), |j: int| value),
                    forall|i: int| x < i < before.len() ==> #[trigger] self.data@[i]@ == before[i],
                decreases height - y,
            {
                self.data[x][y] = value;
                y = y + 1;
            }
            assert(self.data@[x as int]@ =~= Seq::new(before[x as int].len(), |j: int| value));
            x = x + 1;
        }
    }
}

pub type TileMap = WorldMap<Tile>;

impl WorldMap<Tile> {
    /// A map of the given dimensions filled with tiles of the given type,
    /// one tile per position.
    pub fn tilemap_with_dimensions(dimensions: &MapRectangle, uniform_type: TileType) -> (r: Result<
        Self,
        String,
    >)
        ensures
            uniform_type == TileType::Invalid <==> r is Err,
            r matches Ok(map) ==> map.strategy() == MapClusteringStrategy::BlockSize1 && exists|
                t: Tile,
            |
                t.raw() as int == uniform_type.code() && t.kind() == Some(uniform_type) && t.wf()
                    && #[trigger] map.cells() == uniform_cells(
                    dimensions.width as nat,
                    dimensions.height as nat,
                    t,
                ),
    {
        let tile = Tile::from_type(uniform_type)?;
        let map = Self::filled(
            dimensions.width,
            dimensions.height,
            tile,
            MapClusteringStrategy::BlockSize1,
        );
        Ok(map)
    }

    /// Type bits of the tile at the given position.
    pub fn get_tile_char_at(&self, position: &MapPosition) -> (r: Option<u16>)
        ensures
            r is Some <==> self.tile_at(*position) is Some,
            r matches Some(v) ==> v == type_bits(self.tile_at(*position).unwrap().raw()),
    {
        match self.get_tile_at(position) {
            Some(t) => Some(t.get_raw() & TILE_LOW_MASK),
            None => None,
        }
    }
}

} // verus!
