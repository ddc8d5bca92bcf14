use vstd::prelude::*;

use crate::map::position::{direction_at, fits_i32, MapPosition, MapPositionOffset, MapRectangle, MAP_POSITION_DIRECTIONS};
use crate::map::tiles::TILE_CONDUCT_BIT;
use crate::map::{grid_value_at, uniform_cells, write_cell, MapClusteringStrategy, TileMap, WorldMap};

verus! {

/// Size of the power stack.
pub const POWER_STACK_SIZE: usize = 3000;

/// Number of tiles that a coal power plant can supply power to.
pub const COAL_POWER_STRENGTH: usize = 700;

/// Number of tiles that a nuclear power plant can supply power to.
pub const NUCLEAR_POWER_STRENGTH: usize = 2000;

/// Powered tiles (1) of the map, tile by tile.
pub type PowerMap = WorldMap<u8>;

impl WorldMap<u8> {
    /// A power map covering the given dimensions, with the same value everywhere.
    pub fn powermap_with_dimensions(dimensions: &MapRectangle, default_value: u8) -> (r: Self)
        ensures
            r.cells() == uniform_cells(dimensions.width as nat, dimensions.height as nat, default_value),
            r.strategy() == MapClusteringStrategy::BlockSize1,
    {
        Self::filled(
            dimensions.get_width(),
            dimensions.get_height(),
            default_value,
            MapClusteringStrategy::BlockSize1,
        )
    }
}

/// The neighbours of the position have 32-bit coordinates.
pub open spec fn position_fits(p: MapPosition) -> bool {
    fits_i32(p.x - 1) && fits_i32(p.x + 1) && fits_i32(p.y - 1) && fits_i32(p.y + 1)
}

/// Is the position inside the rectangle of the map's dimensions?
pub open spec fn inside_map(map: TileMap, q: MapPosition) -> bool {
    0 <= q.x < map.width() as usize as i32 && 0 <= q.y < map.height() as usize as i32
}

/// The position moved one step in the direction.
pub open spec fn moved(p: MapPosition, d: MapPositionOffset) -> MapPosition {
    MapPosition { x: (p.x + d.delta().0) as i32, y: (p.y + d.delta().1) as i32 }
}

/// Is there a power-less conducting tile next to `p` in direction `d`, the
/// power grid holding the given cells?
pub open spec fn conducts_to(cells: Seq<Seq<u8>>, map: TileMap, p: MapPosition, d: MapPositionOffset) -> bool {
    let q = moved(p, d);
    &&& inside_map(map, q)
    &&& map.tile_at(q) matches Some(t) && t.raw() & TILE_CONDUCT_BIT != 0
    &&& grid_value_at(cells, MapClusteringStrategy::BlockSize1, q) == Some(0u8)
}

/// Connections from `p` among the first `n` directions, counting no more
/// than two: their number and the last direction found.
pub open spec fn links(cells: Seq<Seq<u8>>, map: TileMap, p: MapPosition, n: int) -> (int, Option<
    MapPositionOffset,
>)
    decreases n,
{
    if n <= 0 {
        (0, None)
    } else {
        let (c, d) = links(cells, map, p, n - 1);
        let dir = MAP_POSITION_DIRECTIONS@[n - 1];
        if c < 2 && conducts_to(cells, map, p, dir) {
            (c + 1, Some(dir))
        } else {
            (c, d)
        }
    }
}

/// Number of the first `n` directions towards a power-less conducting tile.
pub open spec fn conducting_count(cells: Seq<Seq<u8>>, map: TileMap, p: MapPosition, n: int) -> int
    decreases n,
{
    if n <= 0 {
        0
    } else {
        conducting_count(cells, map, p, n - 1) + if conducts_to(cells, map, p, MAP_POSITION_DIRECTIONS@[n - 1]) {
            1int
        } else {
            0
        }
    }
}

/// Counting the connections of a position counts its power-less conducting
/// neighbours up to two, and the direction kept, if any, leads to one of
/// them; there is one exactly when some neighbour conducts.
pub proof fn law_links_count_conducting_neighbors(cells: Seq<Seq<u8>>, map: TileMap, p: MapPosition, n: int)
    requires
        0 <= n <= 8,
    ensures
        links(cells, map, p, n).0 == if conducting_count(cells, map, p, n) < 2 {
            conducting_count(cells, map, p, n)
        } else {
            2
        },
        (links(cells, map, p, n).1 is Some) == (conducting_count(cells, map, p, n) > 0),
        links(cells, map, p, n).1 matches Some(d) ==> conducts_to(cells, map, p, d),
        0 <= conducting_count(cells, map, p, n) <= n,
    decreases n,
{
    if n > 0 {
        law_links_count_conducting_neighbors(cells, map, p, n - 1);
        let prev = links(cells, map, p, n - 1);
        let dir = MAP_POSITION_DIRECTIONS@[n - 1];
        assert(conducting_count(cells, map, p, n) >= conducting_count(cells, map, p, n - 1));
        if prev.0 < 2 && conducts_to(cells, map, p, dir) {
            assert(links(cells, map, p, n) == (prev.0 + 1, Some(dir)));
            assert(conducting_count(cells, map, p, n) == conducting_count(cells, map, p, n - 1) + 1);
        } else {
            assert(links(cells, map, p, n) == prev);
            if conducts_to(cells, map, p, dir) {
                assert(prev.0 >= 2);
                assert(conducting_count(cells, map, p, n - 1) >= 2);
                assert(prev.1 is Some);
            } else {
                assert(conducting_count(cells, map, p, n) == conducting_count(cells, map, p, n - 1));
            }
        }
        assert((prev.1 is Some) == (conducting_count(cells, map, p, n - 1) > 0));
        assert((links(cells, map, p, n).1 is Some) == (conducting_count(cells, map, p, n) > 0));
    }
}

/// Where a power scan is: the power grid, the power stack, the position and
/// direction of the current walk, the power spent, whether a walk is going
/// on, and whether the scan is over.
pub struct PowerScan {
    pub cells: Seq<Seq<u8>>,
    pub stack: Seq<MapPosition>,
    pub position: MapPosition,
    pub direction: MapPositionOffset,
    pub count: int,
    pub walking: bool,
    pub done: bool,
}

/// One step of a power scan with `max_power` to spend: out of a walk, the
/// next walk starts from a position pulled from the stack (the scan is over
/// when there is none); in a walk, once all the power is spent the scan is
/// over, else the walk moves along its direction (when it has one and stays
/// on the map), powers the position, and looks for up to two connections:
/// with two it pushes the position (when the stack has room), with none the
/// walk ends, and it goes on along the last one found.
pub open spec fn power_step(s: PowerScan, map: TileMap, max_power: int) -> PowerScan {
    if s.done {
        s
    } else if !s.walking {
        if s.stack.len() == 0 {
            PowerScan { done: true, ..s }
        } else {
            PowerScan {
                stack: s.stack.drop_last(),
                position: s.stack.last(),
                direction: MapPositionOffset::NoDirection,
                walking: true,
                ..s
            }
        }
    } else if s.count >= max_power {
        PowerScan { done: true, ..s }
    } else {
        let p = if s.direction != MapPositionOffset::NoDirection && inside_map(map, moved(s.position, s.direction)) {
            moved(s.position, s.direction)
        } else {
            s.position
        };
        let cells = write_cell(s.cells, MapClusteringStrategy::BlockSize1, p, 1u8);
        let (c, d) = links(cells, map, p, 8);
        PowerScan {
            cells,
            stack: if c > 1 && s.stack.len() < POWER_STACK_SIZE - 2 {
                s.stack.push(p)
            } else {
                s.stack
            },
            position: p,
            direction: match d {
                Some(x) => x,
                None => s.direction,
            },
            count: s.count + 1,
            walking: c != 0,
            done: false,
        }
    }
}

/// The first `n` steps of a power scan.
pub open spec fn power_run(s: PowerScan, map: TileMap, max_power: int, n: nat) -> PowerScan
    decreases n,
{
    if n == 0 {
        s
    } else {
        power_step(power_run(s, map, max_power, (n - 1) as nat), map, max_power)
    }
}

/// A bound on the steps left in a power scan.
pub open spec fn power_measure(s: PowerScan, max_power: int) -> int {
    if s.done {
        0
    } else {
        2 * (max_power - s.count) + s.stack.len() + (if s.walking { 0int } else { 1 }) + 1
    }
}

/// The power grid cells and the power stack after a scan of the map from
/// the given stack, with `max_power` to spend, the grid cleared first.
pub open spec fn power_scanned(map: TileMap, stack: Seq<MapPosition>, max_power: int) -> PowerScan {
    let init = PowerScan {
        cells: uniform_cells(map.width(), map.height(), 0u8),
        stack,
        position: MapPosition { x: 0, y: 0 },
        direction: MapPositionOffset::NoDirection,
        count: 0,
        walking: false,
        done: false,
    };
    power_run(init, map, max_power, power_measure(init, max_power) as nat)
}

/// Each step of a scan that is not over brings its measure down.
proof fn lemma_power_step_measure(s: PowerScan, map: TileMap, max_power: int)
    requires
        !s.done,
        0 <= s.count <= max_power,
        s.stack.len() <= POWER_STACK_SIZE - 2,
    ensures
        power_measure(power_step(s, map, max_power), max_power) < power_measure(s, max_power),
        0 <= power_step(s, map, max_power).count <= max_power,
        power_step(s, map, max_power).stack.len() <= POWER_STACK_SIZE - 2,
{
    if !s.walking {
    } else if s.count >= max_power {
    } else {
        let p = if s.direction != MapPositionOffset::NoDirection && inside_map(map, moved(s.position, s.direction)) {
            moved(s.position, s.direction)
        } else {
            s.position
        };
        let cells = write_cell(s.cells, MapClusteringStrategy::BlockSize1, p, 1u8);
        let (c, d) = links(cells, map, p, 8);
        assert(c > 1 ==> c != 0);
    }
}

/// One step of a walk of a power scan with power left powers its position;
/// the walk goes on exactly when a power-less conducting neighbour is left,
/// along one of them, and a position with two or more of them is pushed on
/// the stack (when it has room) to be walked again from.
pub proof fn law_power_walk_forks(s: PowerScan, map: TileMap, max_power: int)
    requires
        !s.done,
        s.walking,
        s.count < max_power,
    ensures
        ({
            let r = power_step(s, map, max_power);
            let n = conducting_count(r.cells, map, r.position, 8);
            &&& r.cells == write_cell(s.cells, MapClusteringStrategy::BlockSize1, r.position, 1u8)
            &&& r.walking == (n > 0)
            &&& n > 0 ==> conducts_to(r.cells, map, r.position, r.direction)
            &&& n >= 2 && s.stack.len() < POWER_STACK_SIZE - 2 ==> r.stack == s.stack.push(r.position)
            &&& n < 2 ==> r.stack == s.stack
            &&& r.count == s.count + 1
        }),
{
    let p = if s.direction != MapPositionOffset::NoDirection && inside_map(map, moved(s.position, s.direction)) {
        moved(s.position, s.direction)
    } else {
        s.position
    };
    let cells = write_cell(s.cells, MapClusteringStrategy::BlockSize1, p, 1u8);
    law_links_count_conducting_neighbors(cells, map, p, 8);
    let r = power_step(s, map, max_power);
    assert(r.position == p && r.cells == cells);
}

/// An ended scan stays as it is.
proof fn lemma_power_run_done(s: PowerScan, map: TileMap, max_power: int, k: nat, n: nat)
    requires
        k <= n,
        power_run(s, map, max_power, k).done,
    ensures
        power_run(s, map, max_power, n) == power_run(s, map, max_power, k),
    decreases n - k,
{
    if k < n {
        lemma_power_run_done(s, map, max_power, k, (n - 1) as nat);
    }
}

pub struct CityPower {
    pub(crate) power_grid_map: PowerMap,
    /// Number of coal power plants on the map.
    pub(crate) coal_generators_count: usize,
    /// Number of nuclear power plants on the map.
    pub(crate) nuclear_generators_count: usize,
    /// Stack used to find powered tiles by tracking conductive tiles.
    ///
    /// Points to top-most item in the power stack.
    power_stack_pointer: usize,
    /// Stack of map positions for traversing setting the power grid.
    power_stack: Vec<MapPosition>,
    /// Number of powered tiles in all zones.
    powered_zone_count: i16,
    /// Number of unpowered tiles in all zones.
    unpowered_zone_count: i16,
}

impl CityPower {
    /// The power stack holds its slots.
    pub closed spec fn wf(&self) -> bool {
        &&& self.power_stack@.len() == POWER_STACK_SIZE
        &&& self.power_stack_pointer <= POWER_STACK_SIZE - 2
    }

    /// Positions on the power stack, bottom first.
    pub closed spec fn stack(&self) -> Seq<MapPosition> {
        self.power_stack@.subrange(1, self.power_stack_pointer as int + 1)
    }

    /// The power grid map.
    pub closed spec fn grid(&self) -> PowerMap {
        self.power_grid_map
    }

    /// Numbers of coal and nuclear power plants.
    pub closed spec fn generators(&self) -> (usize, usize) {
        (self.coal_generators_count, self.nuclear_generators_count)
    }

    /// Numbers of powered and unpowered zone tiles.
    pub closed spec fn zone_counts(&self) -> (i16, i16) {
        (self.powered_zone_count, self.unpowered_zone_count)
    }

    /// Power of a map without power plants and with nothing powered yet.
    pub fn from_map(map: &TileMap) -> (r: Self)
        ensures
            r.grid().cells() == uniform_cells(map.width(), map.height(), 0u8),
            r.grid().strategy() == MapClusteringStrategy::BlockSize1,
            r.generators() == (0usize, 0usize),
            r.stack() == Seq::<MapPosition>::empty(),
            r.zone_counts() == (0i16, 0i16),
            r.wf(),
    {
        let mut power_stack: Vec<MapPosition> = Vec::new();
        let mut i: usize = 0;
        while i < POWER_STACK_SIZE
            invariant
                i <= POWER_STACK_SIZE,
                power_stack@.len() == i,
                forall|k: int| 0 <= k < i ==> #[trigger] power_stack@[k] == (MapPosition { x: 0, y: 0 }),
            decreases POWER_STACK_SIZE - i,
        {
            power_stack.push(MapPosition::new(0, 0));
            i = i + 1;
        }
        let r = CityPower {
            power_grid_map: PowerMap::powermap_with_dimensions(&map.bounds(), 0x00),
            coal_generators_count: 0,
            nuclear_generators_count: 0,
            power_stack_pointer: 0,
            power_stack,
            // these values are not tracked yet
            powered_zone_count: 0,
            unpowered_zone_count: 0,
        };
        assert(r.stack() =~= Seq::<MapPosition>::empty());
        r
    }

    pub fn get_powered_zone_count(&self) -> (r: i16)
        ensures
            r == self.zone_counts().0,
    {
        return self.powered_zone_count;
    }

    pub fn get_unpowered_zone_count(&self) -> (r: i16)
        ensures
            r == self.zone_counts().1,
    {
        return self.unpowered_zone_count;
    }

    /// Numbers of coal and nuclear power plants.
    pub fn get_generator_counts(&self) -> (r: (usize, usize))
        ensures
            r == self.generators(),
    {
        (self.coal_generators_count, self.nuclear_generators_count)
    }

    /// Count one more coal power plant.
    pub fn add_coal_generator(&mut self)
        requires
            old(self).generators().0 < usize::MAX,
        ensures
            final(self).generators() == ((old(self).generators().0 + 1) as usize, old(self).generators().1),
            final(self).wf() == old(self).wf(),
            final(self).stack() == old(self).stack(),
            final(self).grid() == old(self).grid(),
            final(self).zone_counts() == old(self).zone_counts(),
    {
        self.coal_generators_count = self.coal_generators_count + 1;
    }

    /// Count one more nuclear power plant.
    pub fn add_nuclear_generator(&mut self)
        requires
            old(self).generators().1 < usize::MAX,
        ensures
            final(self).generators() == (old(self).generators().0, (old(self).generators().1 + 1) as usize),
            final(self).wf() == old(self).wf(),
            final(self).stack() == old(self).stack(),
            final(self).grid() == old(self).grid(),
            final(self).zone_counts() == old(self).zone_counts(),
    {
        self.nuclear_generators_count = self.nuclear_generators_count + 1;
    }

    /// Push the given position onto the power stack if there is room.
    pub fn push_power_stack(&mut self, position: MapPosition)
        requires
            old(self).wf(),
        ensures
            final(self).wf(),
            old(self).stack().len() < POWER_STACK_SIZE - 2 ==> final(self).stack() == old(self).stack().push(position),
            old(self).stack().len() >= POWER_STACK_SIZE - 2 ==> final(self).stack() == old(self).stack(),
            final(self).grid() == old(self).grid(),
            final(self).generators() == old(self).generators(),
            final(self).zone_counts() == old(self).zone_counts(),
    {
        if self.power_stack_pointer < (POWER_STACK_SIZE - 2) {
            self.power_stack_pointer = self.power_stack_pointer + 1;
            self.power_stack.set(self.power_stack_pointer, position);
            assert(self.stack() =~= old(self).stack().push(position));
        }
    }

    /// Pulling after a push that had room gives back the pushed position and
    /// leaves the stack as it was before the push.
    pub proof fn law_pull_after_push(&self, pushed: CityPower, pulled: CityPower, position: MapPosition)
        requires
            pushed.stack() == self.stack().push(position),
            pulled.stack() == pushed.stack().drop_last(),
        ensures
            pushed.stack().len() > 0,
            pushed.stack().last() == position,
            pulled.stack() == self.stack(),
    {
        assert(pulled.stack() =~= self.stack());
    }

    /// Pull a position from the power stack.
    pub fn pull_power_stack(&mut self) -> (r: Option<MapPosition>)
        requires
            old(self).wf(),
            old(self).stack().len() > 0,
        ensures
            final(self).wf(),
            r == Some(old(self).stack().last()),
            final(self).stack() == old(self).stack().drop_last(),
            final(self).grid() == old(self).grid(),
            final(self).generators() == old(self).generators(),
            final(self).zone_counts() == old(self).zone_counts(),
    {
        self.power_stack_pointer = self.power_stack_pointer - 1;
        assert(self.stack() =~= old(self).stack().drop_last());
        if self.power_stack_pointer + 1 < self.power_stack.len() {
            Some(self.power_stack[self.power_stack_pointer + 1])
        } else {
            None
        }
    }

    /// Checks at the given position for a power-less conducting tile in the given direction.
    pub fn test_for_conductive(
        &self,
        map: &TileMap,
        position: &MapPosition,
        direction: &MapPositionOffset,
    ) -> (r: bool)
        requires
            position_fits(*position),
            self.grid().strategy() == MapClusteringStrategy::BlockSize1,
        ensures
            r == conducts_to(self.grid().cells(), *map, *position, *direction),
    {
        proof {
            self.power_grid_map.lemma_tile_at_cells(moved(*position, *direction));
        }
        match direction.apply_with_bounds(position, &map.bounds()) {
            Some(moved_position) => match map.get_tile_at(&moved_position) {
                Some(tile) => {
                    if tile.is_conductive() {
                        match self.power_grid_map.get_tile_at(&moved_position) {
                            Some(power_tile) => {
                                return *power_tile == 0x00;
                            },
                            None => {},
                        }
                    }
                    false
                },
                None => false,
            },
            None => false,
        }
    }

    /// Count the connections of the position (see `links`).
    fn count_links(&self, map: &TileMap, position: &MapPosition) -> (r: (usize, Option<MapPositionOffset>))
        requires
            position_fits(*position),
            self.grid().strategy() == MapClusteringStrategy::BlockSize1,
        ensures
            (r.0 as int, r.1) == links(self.grid().cells(), *map, *position, 8),
    {
        let mut connections_count: usize = 0;
        let mut found: Option<MapPositionOffset> = None;
        let mut i: usize = 0;
        while i < 8
            invariant
                i <= 8,
                position_fits(*position),
                self.grid().strategy() == MapClusteringStrategy::BlockSize1,
                (connections_count as int, found) == links(self.grid().cells(), *map, *position, i as int),
                connections_count <= 2,
            decreases 8 - i,
        {
            if connections_count < 2 {
                let current_direction = direction_at(i);
                if self.test_for_conductive(map, position, &current_direction) {
                    connections_count = connections_count + 1;
                    found = Some(current_direction);
                }
            }
            i = i + 1;
        }
        (connections_count, found)
    }

    /// Scans the map for powered tiles, and copy them to the `power_grid_map`.
    ///
    /// The power map is cleared, then each position of the power stack is
    /// powered, and the walks from it, as long as the power plants deliver
    /// enough power (see `power_scanned`).
    pub fn do_power_scan(&mut self, map: &TileMap)
        requires
            old(self).wf(),
            forall|i: int| 0 <= i < old(self).stack().len() ==> #[trigger] position_fits(old(self).stack()[i]),
            old(self).generators().0 * COAL_POWER_STRENGTH + old(self).generators().1
                * NUCLEAR_POWER_STRENGTH <= usize::MAX,
            map.width() <= i32::MAX,
            map.height() <= i32::MAX,
        ensures
            ({
                let r = power_scanned(
                    *map,
                    old(self).stack(),
                    old(self).generators().0 * COAL_POWER_STRENGTH + old(self).generators().1 * NUCLEAR_POWER_STRENGTH,
                );
                &&& r.done
                &&& final(self).grid().cells() == r.cells
                &&& final(self).stack() == r.stack
            }),
            final(self).wf(),
            final(self).grid().strategy() == MapClusteringStrategy::BlockSize1,
            final(self).generators() == old(self).generators(),
            final(self).zone_counts() == old(self).zone_counts(),
    {
        let map_bounds = map.bounds();
        // clear power map
        self.power_grid_map = PowerMap::powermap_with_dimensions(&map_bounds, 0x00);
        // combined coal+nuclear power plants deliverable power
        let max_power = self.coal_generators_count * COAL_POWER_STRENGTH
            + self.nuclear_generators_count * NUCLEAR_POWER_STRENGTH;
        let ghost init = PowerScan {
            cells: uniform_cells(map.width(), map.height(), 0u8),
            stack: old(self).stack(),
            position: MapPosition { x: 0, y: 0 },
            direction: MapPositionOffset::NoDirection,
            count: 0,
            walking: false,
            done: false,
        };
        let ghost bound: nat = power_measure(init, max_power as int) as nat;
        assert(power_scanned(*map, old(self).stack(), max_power as int) == power_run(init, *map, max_power as int, bound));
        let mut power_count: usize = 0;
        let mut position = MapPosition::new(0, 0);
        let mut direction = MapPositionOffset::NoDirection;
        let mut walking = false;
        let ghost mut k: nat = 0;
        loop
            invariant
                self.wf(),
                power_count <= max_power,
                max_power == old(self).generators().0 * COAL_POWER_STRENGTH + old(self).generators().1
                    * NUCLEAR_POWER_STRENGTH,
                bound == power_measure(init, max_power as int),
                power_scanned(*map, old(self).stack(), max_power as int) == power_run(init, *map, max_power as int, bound),
                map.width() <= i32::MAX,
                map.height() <= i32::MAX,
                map_bounds.width == map.width(),
                map_bounds.height == map.height(),
                self.power_grid_map.strategy() == MapClusteringStrategy::BlockSize1,
                power_run(init, *map, max_power as int, k) == (PowerScan {
                    cells: self.grid().cells(),
                    stack: self.stack(),
                    position,
                    direction,
                    count: power_count as int,
                    walking,
                    done: false,
                }),
                k + power_measure(power_run(init, *map, max_power as int, k), max_power as int) <= bound,
                walking ==> position_fits(position),
                forall|i: int| 0 <= i < self.stack().len() ==> #[trigger] position_fits(self.stack()[i]),
                self.generators() == old(self).generators(),
                self.zone_counts() == old(self).zone_counts(),
            decreases power_measure(power_run(init, *map, max_power as int, k), max_power as int),
        {
            let ghost s = power_run(init, *map, max_power as int, k);
            proof {
                lemma_power_step_measure(s, *map, max_power as int);
            }
            if !walking {
                if self.power_stack_pointer == 0 {
                    proof {
                        assert(power_run(init, *map, max_power as int, (k + 1) as nat) == power_step(s, *map, max_power as int));
                        assert(power_run(init, *map, max_power as int, (k + 1) as nat).done);
                        lemma_power_run_done(init, *map, max_power as int, (k + 1) as nat, bound);
                        assert(power_scanned(*map, old(self).stack(), max_power as int) == power_run(init, *map, max_power as int, bound));
                        assert(power_run(init, *map, max_power as int, bound).cells == self.grid().cells());
                        assert(power_run(init, *map, max_power as int, bound).stack == self.stack());
                    }
                    return;
                }
                let ghost top = self.stack().last();
                position = match self.pull_power_stack() {
                    Some(p) => p,
                    None => {
                        return;
                    },
                };
                direction = MapPositionOffset::NoDirection;
                walking = true;
            } else {
                if power_count >= max_power {
                    // not enough power
                    proof {
                        assert(power_run(init, *map, max_power as int, (k + 1) as nat) == power_step(s, *map, max_power as int));
                        assert(power_run(init, *map, max_power as int, (k + 1) as nat).done);
                        lemma_power_run_done(init, *map, max_power as int, (k + 1) as nat, bound);
                        assert(power_scanned(*map, old(self).stack(), max_power as int) == power_run(init, *map, max_power as int, bound));
                        assert(power_run(init, *map, max_power as int, bound).cells == self.grid().cells());
                        assert(power_run(init, *map, max_power as int, bound).stack == self.stack());
                    }
                    return;
                }
                power_count = power_count + 1;
                if direction != MapPositionOffset::NoDirection {
                    position = match direction.apply_with_bounds(&position, &map_bounds) {
                        Some(p) => p,
                        None => position,
                    };
                }
                self.power_grid_map.set_tile_at(&position, 0x01);
                let (connections_count, found) = self.count_links(map, &position);
                match found {
                    Some(d) => {
                        direction = d;
                    },
                    None => {},
                }
                if connections_count > 1 {
                    self.push_power_stack(position);
                }
                walking = connections_count != 0;
            }
            proof {
                k = k + 1;
            }
        }
    }
}

} // verus!
