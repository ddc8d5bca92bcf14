use vstd::prelude::*;
use crate::utils::bits::{lemma_flag_constants, lemma_i16_low_bits, lemma_usize_low_bits};

use crate::map::position::fits_i32;
use crate::map::tiles::{type_bits, TILE_LOW_MASK};
use crate::map::{
    cell_exists, grid_value_at, uniform_cells, write_cell, MapClusteringStrategy, MapPosition, MapPositionOffset,
    MapRectangle, Tile, TileMap, TileType, WorldMap, WORLD_HEIGHT, WORLD_WIDTH,
};
use crate::utils::random::{draw_bits, lcg_next, random16_at, trunc_rem, MicropolisRandom};

use super::sprite::{first_active, ActiveSpritesList, Sprite, SpriteType};
use super::zoning::ZoneType;

verus! {

/// Maximum number of map tiles to drive, looking for a destination.
pub const MAX_TRAFFIC_LOOKUP_DISTANCE: usize = 30;

/// Traffic density, by blocks of 2 by 2 tiles.
pub type TrafficDensityMap = WorldMap<u8>;

/// Lowest tile type of the destination of a trip to each zone type.
pub open spec fn driving_done_target_low(zone: ZoneType) -> int {
    match zone {
        ZoneType::Commercial => 423,
        ZoneType::Industrial => 249,
        ZoneType::Residential => 249,
    }
}

/// Highest tile type of the destination of a trip to each zone type.
pub open spec fn driving_done_target_high(zone: ZoneType) -> int {
    match zone {
        ZoneType::Commercial => 816,
        ZoneType::Industrial => 698,
        ZoneType::Residential => 423,
    }
}

/// Horizontal offsets of the tiles around a 3 by 3 zone, clockwise from the top.
pub open spec fn perimeter_road_edges_x() -> Seq<i32> {
    seq![-1i32, 0i32, 1i32, 2i32, 2i32, 2i32, 1i32, 0i32, -1i32, -2i32, -2i32, -2i32]
}

/// Vertical offsets of the tiles around a 3 by 3 zone, clockwise from the top.
pub open spec fn perimeter_road_edges_y() -> Seq<i32> {
    seq![-2i32, -2i32, -2i32, -1i32, 0i32, 1i32, 2i32, 2i32, 2i32, 1i32, 0i32, -1i32]
}

/// Road found around a 3 by 3 zone at `p` in a grid, looking at the tiles
/// around it from the `z`-th on: the first driveable one, or none (then the
/// position itself).
pub open spec fn perimeter_from(cells: Seq<Seq<Tile>>, strategy: MapClusteringStrategy, p: MapPosition, z: int) -> (
    bool,
    MapPosition,
)
    decreases 12 - z,
{
    if z < 0 || z >= 12 {
        (false, p)
    } else {
        let t = MapPosition {
            x: (p.x + perimeter_road_edges_x()[z]) as i32,
            y: (p.y + perimeter_road_edges_y()[z]) as i32,
        };
        if grid_value_at(cells, strategy, t) matches Some(tile) && driveable(tile.raw()) {
            (true, t)
        } else {
            perimeter_from(cells, strategy, p, z + 1)
        }
    }
}

/// Road found around a 3 by 3 zone at `p` (see `perimeter_from`).
pub open spec fn perimeter_road(map: TileMap, p: MapPosition) -> (bool, MapPosition) {
    perimeter_from(map.cells(), map.strategy(), p, 0)
}

/// Can a tile of the given raw value be driven on?
pub open spec fn driveable(raw: u16) -> bool {
    64 <= type_bits(raw) <= 238 && (type_bits(raw) < 208 || type_bits(raw) >= 222)
}

/// Is a tile of the given raw value a road (bridges included) that carries traffic?
pub open spec fn carries_traffic(raw: u16) -> bool {
    64 <= type_bits(raw) < 208
}

/// Type bits of the tile at a position, when there is one.
pub open spec fn low_at(map: TileMap, p: MapPosition) -> Option<int> {
    match map.tile_at(p) {
        Some(t) => Some(type_bits(t.raw()) as int),
        None => None,
    }
}

/// One check of `is_driving_done`: when `active`, the tile at `p` is read (an
/// error when there is none) and ends the search when its type is in the range.
pub open spec fn probe(
    map: TileMap,
    p: MapPosition,
    low: int,
    high: int,
    active: bool,
    rest: Option<bool>,
) -> Option<bool> {
    if !active {
        rest
    } else {
        match low_at(map, p) {
            None => None,
            Some(z) => if low <= z <= high {
                Some(true)
            } else {
                rest
            },
        }
    }
}

/// Outcome of `is_driving_done`: `Some(done)`, or `None` for a missing tile.
///
/// The tiles north, east, south then west of the position are read, each only
/// when it lies inside the world.
#[verifier::opaque]
pub open spec fn driving_done(map: TileMap, p: MapPosition, zone: ZoneType) -> Option<bool> {
    let low = driving_done_target_low(zone);
    let high = driving_done_target_high(zone);
    probe(
        map,
        MapPosition { x: p.x, y: (p.y - 1) as i32 },
        low,
        high,
        p.y > 0,
        probe(
            map,
            MapPosition { x: (p.x + 1) as i32, y: p.y },
            low,
            high,
            p.x < WORLD_WIDTH as i32 - 1,
            probe(
                map,
                MapPosition { x: p.x, y: (p.y + 1) as i32 },
                low,
                high,
                p.y < WORLD_HEIGHT as i32 - 1,
                probe(
                    map,
                    MapPosition { x: (p.x - 1) as i32, y: p.y },
                    low,
                    high,
                    p.x > 0,
                    Some(false),
                ),
            ),
        ),
    )
}

/// The cardinal direction checked `i`-th for a trip: north, then clockwise.
pub open spec fn cardinal_at(i: int) -> MapPositionOffset {
    if i == 0 {
        MapPositionOffset::North
    } else if i == 1 {
        MapPositionOffset::East
    } else if i == 2 {
        MapPositionOffset::South
    } else {
        MapPositionOffset::West
    }
}

/// Position next to `from` in the direction.
pub open spec fn step_towards(from: MapPosition, d: MapPositionOffset) -> MapPosition {
    MapPosition { x: (from.x + d.delta().0) as i32, y: (from.y + d.delta().1) as i32 }
}

/// Can the trip go on from `from` without leaving 32-bit coordinates?
pub open spec fn drivable_from(p: MapPosition) -> bool {
    fits_i32(p.x - 1) && fits_i32(p.x + 1) && fits_i32(p.y - 1) && fits_i32(p.y + 1)
}

/// Maps whose dimensions keep every position of a trip (and its pixel
/// position) inside 32-bit coordinates.
pub open spec fn traffic_map_fits(map: TileMap) -> bool {
    map.width() <= 0x10000 && map.height() <= 0x10000
}

/// Is the neighbouring tile in the direction a driveable tile of the map (as
/// `get_neighboring_tile_at` reads it)?
pub open spec fn neighbor_driveable(map: TileMap, from: MapPosition, d: MapPositionOffset) -> bool {
    let n = step_towards(from, d);
    &&& 0 <= n.x < map.width() as i32
    &&& 0 <= n.y < map.height() as i32
    &&& map.tile_at(n) is Some
    &&& driveable(map.tile_at(n).unwrap().raw())
}

/// The direction `d` if the trip can take it from `from`, else no direction.
pub open spec fn driving_option(
    map: TileMap,
    from: MapPosition,
    from_direction: MapPositionOffset,
    d: MapPositionOffset,
) -> MapPositionOffset {
    if d != from_direction && neighbor_driveable(map, from, d) {
        d
    } else {
        MapPositionOffset::NoDirection
    }
}

/// The four cardinal options of a trip at `from`.
pub open spec fn driving_options(
    map: TileMap,
    from: MapPosition,
    from_direction: MapPositionOffset,
) -> Seq<MapPositionOffset> {
    Seq::new(4, |i: int| driving_option(map, from, from_direction, cardinal_at(i)))
}

/// Number of actual directions in a sequence of options.
pub open spec fn count_options(o: Seq<MapPositionOffset>) -> int
    decreases o.len(),
{
    if o.len() == 0 {
        0
    } else {
        count_options(o.drop_last()) + if o.last() != MapPositionOffset::NoDirection {
            1int
        } else {
            0int
        }
    }
}

/// Option at `j` places after `start`, wrapping around four options.
pub open spec fn wrapped_option(o: Seq<MapPositionOffset>, start: int, j: int) -> MapPositionOffset {
    o[(start + j) % 4]
}

/// First actual direction among four options, looking from index `start`
/// onwards and wrapping around.
pub open spec fn cyclic_pick(o: Seq<MapPositionOffset>, start: int) -> MapPositionOffset {
    if o[start % 4] != MapPositionOffset::NoDirection {
        o[start % 4]
    } else if o[(start + 1) % 4] != MapPositionOffset::NoDirection {
        o[(start + 1) % 4]
    } else if o[(start + 2) % 4] != MapPositionOffset::NoDirection {
        o[(start + 2) % 4]
    } else {
        o[(start + 3) % 4]
    }
}

/// Direction that `try_random_driving` takes and the generator state after it:
/// none at a dead end, the only option when there is one, else the first
/// option from a random index.
#[verifier::opaque]
pub open spec fn random_driving(
    map: TileMap,
    from: MapPosition,
    from_direction: MapPositionOffset,
    rng: u64,
) -> (MapPositionOffset, u64) {
    let o = driving_options(map, from, from_direction);
    let c = count_options(o);
    if c == 0 {
        (MapPositionOffset::NoDirection, rng)
    } else if c == 1 {
        (cyclic_pick(o, 0), rng)
    } else {
        let next = lcg_next(rng);
        (cyclic_pick(o, random16_at(next) % 4), next)
    }
}

/// State of a trip: generator state, position, stack pointer and stack.
pub struct DriveState {
    pub rng: u64,
    pub position: MapPosition,
    pub pointer: int,
    pub stack: Seq<MapPosition>,
}

/// Outcome of a trip from step `distance` on (`Some(arrived)`, or `None` when
/// a tile next to the trip is missing), with the state it ends in.
///
/// Each step takes a random direction; every second step pushes the new
/// position on the stack. A dead end pops one position, or ends the trip when
/// the stack is empty.
pub open spec fn drive(map: TileMap, zone: ZoneType, s: DriveState, distance: int) -> (
    Option<bool>,
    DriveState,
)
    decreases MAX_TRAFFIC_LOOKUP_DISTANCE - distance,
{
    if distance >= MAX_TRAFFIC_LOOKUP_DISTANCE {
        (Some(false), s)
    } else {
        let (dir, rng) = random_driving(map, s.position, MapPositionOffset::NoDirection, s.rng);
        if dir != MapPositionOffset::NoDirection {
            let position = step_towards(s.position, dir);
            let s1 = if distance % 2 == 1 {
                DriveState {
                    rng,
                    position,
                    pointer: s.pointer + 1,
                    stack: s.stack.update(s.pointer + 1, position),
                }
            } else {
                DriveState { rng, position, ..s }
            };
            match driving_done(map, position, zone) {
                None => (None, s1),
                Some(true) => (Some(true), s1),
                Some(false) => drive(map, zone, s1, distance + 1),
            }
        } else if s.pointer > 0 {
            drive(map, zone, DriveState { rng, pointer: s.pointer - 1, ..s }, distance + 1)
        } else {
            (Some(false), DriveState { rng, ..s })
        }
    }
}

/// State changed by recording traffic: density cells, generator state, sprites.
pub struct TrafficState {
    pub cells: Seq<Seq<u8>>,
    pub rng: u64,
    pub sprites: Seq<Sprite>,
}

/// The sprites after directing the first active helicopter, when nobody
/// controls it, towards the pixel position of tile `p`.
pub open spec fn redirect_helicopter(sprites: Seq<Sprite>, p: MapPosition) -> Seq<Sprite> {
    match first_active(sprites, SpriteType::Helicopter) {
        Some(i) => if sprites[i].control == -1 {
            sprites.update(
                i,
                Sprite {
                    destination: MapPosition { x: (p.x * 16) as i32, y: (p.y * 16) as i32 },
                    ..sprites[i]
                },
            )
        } else {
            sprites
        },
        None => sprites,
    }
}

/// Recording the traffic of one position of a trip: on a road tile, its
/// density goes up by 50, up to 240; at 240, one draw in six sends the
/// helicopter there. `None` when the density map has no cell there.
pub open spec fn traffic_step(
    map: TileMap,
    strategy: MapClusteringStrategy,
    p: MapPosition,
    s: TrafficState,
) -> Option<TrafficState> {
    match map.tile_at(p) {
        None => Some(s),
        Some(t) => if !carries_traffic(t.raw()) {
            Some(s)
        } else {
            match grid_value_at(s.cells, strategy, p) {
                None => None,
                Some(d) => {
                    let traffic: int = if d + 50 > 240 {
                        240
                    } else {
                        d + 50
                    };
                    let cells = write_cell(s.cells, strategy, p, traffic as u8);
                    if traffic >= 240 {
                        let rng = lcg_next(s.rng);
                        let sprites = if trunc_rem(draw_bits(rng), 6) == 0 {
                            redirect_helicopter(s.sprites, p)
                        } else {
                            s.sprites
                        };
                        Some(TrafficState { cells, rng, sprites })
                    } else {
                        Some(TrafficState { cells, ..s })
                    }
                },
            }
        },
    }
}

/// Recording the traffic of the `pointer` positions on the stack, from the
/// top: the state reached, whether all went well, and the pointer left.
pub open spec fn traffic_fold(
    map: TileMap,
    strategy: MapClusteringStrategy,
    stack: Seq<MapPosition>,
    s: TrafficState,
    pointer: int,
) -> (TrafficState, bool, int)
    decreases pointer,
{
    if pointer <= 0 {
        (s, true, pointer)
    } else {
        match traffic_step(map, strategy, stack[pointer - 1], s) {
            None => (s, false, pointer - 1),
            Some(s1) => traffic_fold(map, strategy, stack, s1, pointer - 1),
        }
    }
}

/// No cell of the density grid is above 240.
pub open spec fn density_capped(cells: Seq<Seq<u8>>) -> bool {
    forall|i: int, j: int|
        0 <= i < cells.len() && 0 <= j < cells[i].len() ==> #[trigger] cells[i][j] <= 240
}

proof fn lemma_write_keeps_cap(
    cells: Seq<Seq<u8>>,
    strategy: MapClusteringStrategy,
    p: MapPosition,
    v: u8,
)
    requires
        density_capped(cells),
        v <= 240,
    ensures
        density_capped(write_cell(cells, strategy, p, v)),
{
    let w = write_cell(cells, strategy, p, v);
    let b = strategy.block_of(p);
    assert forall|i: int, j: int| 0 <= i < w.len() && 0 <= j < w[i].len() implies #[trigger] w[i][j]
        <= 240 by {
        if cell_exists(cells, strategy, p) && i == b.x {
            if j != b.y {
                assert(w[i][j] == cells[i][j]);
            }
        }
    }
}

proof fn lemma_fold_keeps_cap(
    map: TileMap,
    strategy: MapClusteringStrategy,
    stack: Seq<MapPosition>,
    s: TrafficState,
    pointer: int,
)
    requires
        density_capped(s.cells),
    ensures
        density_capped(traffic_fold(map, strategy, stack, s, pointer).0.cells),
    decreases pointer,
{
    if pointer > 0 {
        let p = stack[pointer - 1];
        match traffic_step(map, strategy, p, s) {
            None => {},
            Some(s1) => {
                if let Some(t) = map.tile_at(p) {
                    if carries_traffic(t.raw()) {
                        if let Some(d) = grid_value_at(s.cells, strategy, p) {
                            let traffic: int = if d + 50 > 240 { 240 } else { d + 50 };
                            lemma_write_keeps_cap(s.cells, strategy, p, traffic as u8);
                        }
                    }
                }
                lemma_fold_keeps_cap(map, strategy, stack, s1, pointer - 1);
            },
        }
    }
}

/// Recording traffic never raises a density above 240: when no density of
/// the grid is above 240 before a trip, none is after it.
pub proof fn law_traffic_density_capped(
    map: TileMap,
    zone: ZoneType,
    strategy: MapClusteringStrategy,
    t: TrafficState,
    d: DriveState,
)
    requires
        density_capped(t.cells),
    ensures
        density_capped(trip_outcome(map, zone, strategy, t, d).1.cells),
{
    let (outcome, end) = drive(map, zone, d, 0);
    let t1 = TrafficState { rng: end.rng, ..t };
    if outcome == Some(true) {
        lemma_fold_keeps_cap(map, strategy, end.stack, t1, end.pointer);
    }
}

/// Outcome of a trip from `d` followed, when it arrives, by the recording of
/// its traffic: `Some(arrived)` or `None` for an error, and the states reached.
pub open spec fn trip_outcome(
    map: TileMap,
    zone: ZoneType,
    strategy: MapClusteringStrategy,
    t: TrafficState,
    d: DriveState,
) -> (Option<bool>, TrafficState, DriveState) {
    let (outcome, end) = drive(map, zone, d, 0);
    let t1 = TrafficState { rng: end.rng, ..t };
    match outcome {
        Some(true) => {
            let (t2, ok, pointer) = traffic_fold(map, strategy, end.stack, t1, end.pointer);
            (
                if ok {
                    Some(true)
                } else {
                    None
                },
                t2,
                DriveState { rng: t2.rng, pointer, ..end },
            )
        },
        _ => (outcome, t1, end),
    }
}

/// Traffic simulation.
pub struct CityTraffic {
    density_map: TrafficDensityMap,
    positions_stack_pointer: usize,
    positions_stack: Vec<MapPosition>,
}

impl WorldMap<u8> {
    /// A traffic density map covering the given dimensions (one value per
    /// block of 2 by 2 tiles), with the same value everywhere.
    pub fn density_map_with_dimensions(dimensions: &MapRectangle, default_value: u8) -> (r: Self)
        ensures
            r.cells() == uniform_cells(
                (dimensions.width / 2) as nat,
                (dimensions.height / 2) as nat,
                default_value,
            ),
            r.strategy() == MapClusteringStrategy::BlockSize2,
    {
        Self::filled(
            dimensions.get_width() / 2,
            dimensions.get_height() / 2,
            default_value,
            MapClusteringStrategy::BlockSize2,
        )
    }
}

impl CityTraffic {
    /// Traffic density map.
    pub closed spec fn density(&self) -> TrafficDensityMap {
        self.density_map
    }

    /// Number of positions on the stack of the current trip.
    pub closed spec fn pointer(&self) -> int {
        self.positions_stack_pointer as int
    }

    /// Storage of the stack of positions of the current trip (only the first
    /// `pointer() + 1` entries matter; the first one is never read).
    pub closed spec fn stack(&self) -> Seq<MapPosition> {
        self.positions_stack@
    }

    /// The stack has room for the longest trip and its pointer is inside it.
    pub open spec fn wf(&self) -> bool {
        self.stack().len() == MAX_TRAFFIC_LOOKUP_DISTANCE && 0 <= self.pointer()
            < MAX_TRAFFIC_LOOKUP_DISTANCE
    }

    pub fn from_map(map: &TileMap) -> (r: Self)
        ensures
            r.wf(),
            r.pointer() == 0,
            r.stack() == Seq::new(MAX_TRAFFIC_LOOKUP_DISTANCE as nat, |i: int| MapPosition { x: 0, y: 0 }),
            r.density().cells() == uniform_cells(
                (map.width() / 2) as nat,
                (map.height() / 2) as nat,
                0u8,
            ),
            r.density().strategy() == MapClusteringStrategy::BlockSize2,
    {
        let density_map = WorldMap::<u8>::density_map_with_dimensions(&map.bounds(), 0x00);
        let mut positions_stack: Vec<MapPosition> = Vec::new();
        let mut i: usize = 0;
        while i < MAX_TRAFFIC_LOOKUP_DISTANCE
            invariant
                i <= MAX_TRAFFIC_LOOKUP_DISTANCE,
                positions_stack@ == Seq::new(i as nat, |k: int| MapPosition { x: 0, y: 0 }),
            decreases MAX_TRAFFIC_LOOKUP_DISTANCE - i,
        {
            positions_stack.push(MapPosition::new(0, 0));
            i = i + 1;
        }
        Self { density_map, positions_stack, positions_stack_pointer: 0 }
    }

    pub fn get_density_map(&self) -> (r: &TrafficDensityMap)
        ensures
            *r == self.density(),
    {
        &self.density_map
    }

    pub fn get_density_map_mut(&mut self) -> (r: &mut TrafficDensityMap)
        ensures
            *r == old(self).density(),
            final(self).density() == *final(r),
            final(self).pointer() == old(self).pointer(),
            final(self).stack() == old(self).stack(),
    {
        &mut self.density_map
    }

    fn stack_push_position(&mut self, position: &MapPosition)
        requires
            old(self).wf(),
            old(self).pointer() + 1 < MAX_TRAFFIC_LOOKUP_DISTANCE,
        ensures
            final(self).wf(),
            final(self).pointer() == old(self).pointer() + 1,
            final(self).stack() == old(self).stack().update(old(self).pointer() + 1, *position),
            final(self).density() == old(self).density(),
    {
        self.positions_stack_pointer = self.positions_stack_pointer + 1;
        let p = self.positions_stack_pointer;
        self.positions_stack.set(p, *position);
    }

    fn stack_pop_position(&mut self) -> (r: MapPosition)
        requires
            old(self).wf(),
            old(self).pointer() > 0,
        ensures
            final(self).wf(),
            final(self).pointer() == old(self).pointer() - 1,
            final(self).stack() == old(self).stack(),
            final(self).density() == old(self).density(),
            r == old(self).stack()[old(self).pointer() - 1],
    {
        self.positions_stack_pointer = self.positions_stack_pointer - 1;
        self.positions_stack[self.positions_stack_pointer]
    }

    /// Find a connection to a road at the given perimeter position: the
    /// first driveable tile around the 3 by 3 zone (see `perimeter_road`).
    pub fn find_perimeter_road(map: &TileMap, position: &MapPosition) -> (r: Result<
        (bool, MapPosition),
        String,
    >)
        requires
            fits_i32(position.x - 2) && fits_i32(position.x + 2),
            fits_i32(position.y - 2) && fits_i32(position.y + 2),
        ensures
            r == Ok::<(bool, MapPosition), String>(perimeter_road(*map, *position)),
    {
        let mut z: usize = 0;
        while z < 12
            invariant
                z <= 12,
                fits_i32(position.x - 2) && fits_i32(position.x + 2),
                fits_i32(position.y - 2) && fits_i32(position.y + 2),
                perimeter_road(*map, *position) == perimeter_from(map.cells(), map.strategy(), *position, z as int),
            decreases 12 - z,
        {
            let (dx, dy) = perimeter_road_edge(z);
            let t = MapPosition::new(position.x + dx, position.y + dy);
            proof {
                map.lemma_tile_at_cells(t);
            }
            if let Some(tile) = map.get_tile_at(&t) {
                if tile.is_driveable() {
                    return Ok((true, t));
                }
            }
            z = z + 1;
        }
        Ok((false, *position))
    }

    /// Spawn traffic starting from the road tile a the given position.
    ///
    /// Returns true if a connection was found.
    pub fn spawn_traffic_at(
        &mut self,
        rng: &mut MicropolisRandom,
        map: &TileMap,
        at: &MapPosition,
        destination_zone: &ZoneType,
        sprites: &mut ActiveSpritesList,
    ) -> (r: Result<bool, String>)
        requires
            old(self).wf(),
            old(self).pointer() <= 14,
            traffic_map_fits(*map),
            drivable_from(*at),
        ensures
            final(self).wf(),
            ({
                let (outcome, t, d) = trip_outcome(
                    *map,
                    *destination_zone,
                    old(self).density().strategy(),
                    TrafficState {
                        cells: old(self).density().cells(),
                        rng: old(rng).state(),
                        sprites: old(sprites).sprites(),
                    },
                    DriveState {
                        rng: old(rng).state(),
                        position: *at,
                        pointer: old(self).pointer(),
                        stack: old(self).stack(),
                    },
                );
                &&& outcome matches Some(b) ==> r == Ok::<bool, String>(b)
                &&& outcome is None ==> r is Err
                &&& final(self).density().cells() == t.cells
                &&& final(rng).state() == t.rng
                &&& final(sprites).sprites() == t.sprites
                &&& final(self).pointer() == d.pointer
                &&& final(self).stack() == d.stack
            }),
            final(self).density().strategy() == old(self).density().strategy(),
            final(rng).creation_seed() == old(rng).creation_seed(),
            final(sprites).cycle() == old(sprites).cycle(),
    {
        let position = *at;
        if self.try_driving_to(rng, map, &position, destination_zone)? {
            self.add_to_traffic_density_map(rng, map, sprites)?;
            Ok(true)
        } else {
            Ok(false)
        }
    }

    /// Find a connection over a road from the given position.
    ///
    /// Returns Some(true) if a connection was found, Some(false) if not and None if
    /// no connection to a road was found.
    pub fn spawn_traffic(
        &mut self,
        rng: &mut MicropolisRandom,
        map: &TileMap,
        starting_at: &MapPosition,
        destination_zone: &ZoneType,
        sprites: &mut ActiveSpritesList,
    ) -> (r: Result<Option<bool>, String>)
        requires
            old(self).wf(),
            traffic_map_fits(*map),
            fits_i32(starting_at.x - 2) && fits_i32(starting_at.x + 2),
            fits_i32(starting_at.y - 2) && fits_i32(starting_at.y + 2),
        ensures
            final(self).wf(),
            !perimeter_road(*map, *starting_at).0 ==> {
                &&& r == Ok::<Option<bool>, String>(None)
                &&& final(self).density() == old(self).density()
                &&& final(self).pointer() == 0
                &&& final(self).stack() == old(self).stack()
                &&& final(rng).state() == old(rng).state()
                &&& final(sprites).sprites() == old(sprites).sprites()
            },
            perimeter_road(*map, *starting_at).0 ==> {
                let (outcome, t, d) = trip_outcome(
                    *map,
                    *destination_zone,
                    old(self).density().strategy(),
                    TrafficState {
                        cells: old(self).density().cells(),
                        rng: old(rng).state(),
                        sprites: old(sprites).sprites(),
                    },
                    DriveState {
                        rng: old(rng).state(),
                        position: *starting_at,
                        pointer: 0,
                        stack: old(self).stack(),
                    },
                );
                &&& outcome matches Some(b) ==> r == Ok::<Option<bool>, String>(Some(b))
                &&& outcome is None ==> r is Err
                &&& final(self).density().cells() == t.cells
                &&& final(rng).state() == t.rng
                &&& final(sprites).sprites() == t.sprites
                &&& final(self).pointer() == d.pointer
                &&& final(self).stack() == d.stack
            },
            final(self).density().strategy() == old(self).density().strategy(),
            final(rng).creation_seed() == old(rng).creation_seed(),
            final(sprites).cycle() == old(sprites).cycle(),
    {
        self.positions_stack_pointer = 0;
        let position = *starting_at;
        if Self::find_perimeter_road(map, &position)?.0 {
            if self.try_driving_to(rng, map, &position, destination_zone)? {
                self.add_to_traffic_density_map(rng, map, sprites)?;
                return Ok(Some(true));
            }
            return Ok(Some(false));
        }
        Ok(None)
    }

    /// Update the traffic density map from the positions stack.
    fn add_to_traffic_density_map(
        &mut self,
        rng: &mut MicropolisRandom,
        map: &TileMap,
        sprites: &mut ActiveSpritesList,
    ) -> (r: Result<(), String>)
        requires
            old(self).wf(),
            traffic_map_fits(*map),
        ensures
            final(self).wf(),
            ({
                let start = TrafficState {
                    cells: old(self).density().cells(),
                    rng: old(rng).state(),
                    sprites: old(sprites).sprites(),
                };
                let (end, ok, pointer) = traffic_fold(
                    *map,
                    old(self).density().strategy(),
                    old(self).stack(),
                    start,
                    old(self).pointer(),
                );
                &&& ok <==> r is Ok
                &&& final(self).density().cells() == end.cells
                &&& final(rng).state() == end.rng
                &&& final(sprites).sprites() == end.sprites
                &&& final(self).pointer() == pointer
            }),
            final(self).density().strategy() == old(self).density().strategy(),
            final(self).stack() == old(self).stack(),
            final(rng).creation_seed() == old(rng).creation_seed(),
            final(sprites).cycle() == old(sprites).cycle(),
    {
        let ghost strategy = self.density().strategy();
        let ghost stack = self.stack();
        let ghost start = TrafficState {
            cells: self.density().cells(),
            rng: rng.state(),
            sprites: sprites.sprites(),
        };
        let ghost p0 = self.pointer();
        while self.positions_stack_pointer > 0
            invariant
                self.wf(),
                traffic_map_fits(*map),
                self.density().strategy() == strategy,
                self.stack() == stack,
                rng.creation_seed() == old(rng).creation_seed(),
                sprites.cycle() == old(sprites).cycle(),
                strategy == old(self).density().strategy(),
                stack == old(self).stack(),
                start == (TrafficState {
                    cells: old(self).density().cells(),
                    rng: old(rng).state(),
                    sprites: old(sprites).sprites(),
                }),
                p0 == old(self).pointer(),
                traffic_fold(
                    *map,
                    strategy,
                    stack,
                    TrafficState {
                        cells: self.density().cells(),
                        rng: rng.state(),
                        sprites: sprites.sprites(),
                    },
                    self.pointer(),
                ) == traffic_fold(*map, strategy, stack, start, p0),
            decreases self.pointer(),
        {
            let ghost here = TrafficState {
                cells: self.density().cells(),
                rng: rng.state(),
                sprites: sprites.sprites(),
            };
            let position = self.stack_pop_position();
            if let Some(tile) = map.get_tile_at(&position) {
                let tile_value = tile.get_raw() & TILE_LOW_MASK;
                if tile_value >= 64 && tile_value < 208 {
                    // update traffic density
                    proof {
                        lemma_on_map_pixels(*map, position);
                        assert(self.density().tile_at(position) == grid_value_at(
                            here.cells,
                            strategy,
                            position,
                        ));
                    }
                    let density = match self.density_map.get_tile_at(&position) {
                        Some(d) => *d,
                        None => {
                            return Err(
                                String::from_str(
                                    "CityTraffic::add_to_traffic_density_map cannot get density value",
                                ),
                            );
                        },
                    };
                    let mut traffic: u16 = density as u16 + 50;
                    if traffic > 240 {
                        traffic = 240;
                    }
                    self.density_map.set_tile_at(&position, traffic as u8);
                    let ghost cells = self.density().cells();
                    assert(cells == write_cell(here.cells, strategy, position, traffic as u8));
                    // check for heavy traffic
                    if traffic >= 240 && rng.get_random(5) == 0 {
                        let traffic_max = position;
                        // direct helicopter towards heavy traffic
                        sprites.direct_uncontrolled(&SpriteType::Helicopter, traffic_max * 16);
                        assert(sprites.sprites() == redirect_helicopter(here.sprites, position));
                    }
                    assert(traffic_step(*map, strategy, position, here) == Some(
                        TrafficState { cells, rng: rng.state(), sprites: sprites.sprites() },
                    ));
                } else {
                    assert(traffic_step(*map, strategy, position, here) == Some(here));
                }
            } else {
                assert(traffic_step(*map, strategy, position, here) == Some(here));
            }
        }
        Ok(())
    }

    /// Try to drive to the given destination.
    fn try_driving_to(
        &mut self,
        rng: &mut MicropolisRandom,
        map: &TileMap,
        from: &MapPosition,
        destination_zone: &ZoneType,
    ) -> (r: Result<bool, String>)
        requires
            old(self).wf(),
            old(self).pointer() <= 14,
            traffic_map_fits(*map),
            drivable_from(*from),
        ensures
            final(self).wf(),
            ({
                let start = DriveState {
                    rng: old(rng).state(),
                    position: *from,
                    pointer: old(self).pointer(),
                    stack: old(self).stack(),
                };
                let (outcome, end) = drive(*map, *destination_zone, start, 0);
                &&& outcome matches Some(b) ==> r == Ok::<bool, String>(b)
                &&& outcome is None ==> r is Err
                &&& final(rng).state() == end.rng
                &&& final(self).pointer() == end.pointer
                &&& final(self).stack() == end.stack
            }),
            final(self).density() == old(self).density(),
            final(rng).creation_seed() == old(rng).creation_seed(),
    {
        let ghost start = DriveState {
            rng: rng.state(),
            position: *from,
            pointer: self.pointer(),
            stack: self.stack(),
        };
        let ghost p0 = self.pointer();
        let mut previous_direction = MapPositionOffset::NoDirection;
        let mut current_position = *from;
        let mut distance: usize = 0;
        while distance < MAX_TRAFFIC_LOOKUP_DISTANCE
            invariant
                self.wf(),
                distance <= MAX_TRAFFIC_LOOKUP_DISTANCE,
                p0 <= 14,
                p0 == old(self).pointer(),
                start == (DriveState {
                    rng: old(rng).state(),
                    position: *from,
                    pointer: old(self).pointer(),
                    stack: old(self).stack(),
                }),
                self.pointer() <= p0 + distance / 2,
                traffic_map_fits(*map),
                drivable_from(current_position),
                previous_direction == MapPositionOffset::NoDirection,
                self.density() == old(self).density(),
                rng.creation_seed() == old(rng).creation_seed(),
                drive(
                    *map,
                    *destination_zone,
                    DriveState {
                        rng: rng.state(),
                        position: current_position,
                        pointer: self.pointer(),
                        stack: self.stack(),
                    },
                    distance as int,
                ) == drive(*map, *destination_zone, start, 0),
            decreases MAX_TRAFFIC_LOOKUP_DISTANCE - distance,
        {
            let ghost here = DriveState {
                rng: rng.state(),
                position: current_position,
                pointer: self.pointer(),
                stack: self.stack(),
            };
            let direction = Self::try_random_driving(
                rng,
                map,
                &current_position,
                &previous_direction,
            )?;
            if direction != MapPositionOffset::NoDirection {
                // road found
                proof {
                    lemma_random_driving_on_map(*map, here.position, here.rng);
                }
                current_position = direction.apply(&current_position);
                previous_direction = previous_direction.rotated_180();
                if distance & 0x01 != 0x00 {
                    proof {
                        lemma_usize_low_bits(distance);
                    }
                    self.stack_push_position(&current_position);
                } else {
                    proof {
                        lemma_usize_low_bits(distance);
                    }
                }
                let done = Self::is_driving_done(map, &current_position, destination_zone);
                match done {
                    Err(e) => {
                        assert(driving_done(*map, current_position, *destination_zone) is None);
                        return Err(e);
                    },
                    Ok(true) => {
                        return Ok(true);
                    },
                    Ok(false) => {},
                }
            } else {
                if self.positions_stack_pointer > 0 {
                    // dead end: backup
                    self.positions_stack_pointer = self.positions_stack_pointer - 1;
                } else {
                    assert(drive(*map, *destination_zone, here, distance as int) == (
                        Some(false),
                        DriveState { rng: rng.state(), ..here },
                    ));
                    return Ok(false);
                }
            }
            distance = distance + 1;
        }
        // exceeded MAX_TRAFFIC_LOOKUP_DISTANCE
        Ok(false)
    }

    /// Try to drive one tile in a random direction.
    fn try_random_driving(
        rng: &mut MicropolisRandom,
        map: &TileMap,
        from: &MapPosition,
        from_direction: &MapPositionOffset,
    ) -> (r: Result<MapPositionOffset, String>)
        requires
            drivable_from(*from),
        ensures
            ({
                let (dir, next) = random_driving(*map, *from, *from_direction, old(rng).state());
                r == Ok::<MapPositionOffset, String>(dir) && final(rng).state() == next
            }),
            final(rng).creation_seed() == old(rng).creation_seed(),
    {
        reveal(random_driving);
        let (directions, count) = find_driving_options(map, from, from_direction)?;
        proof {
            lemma_count_four(directions@);
        }
        // dead-end?
        if count == 0 {
            return Ok(MapPositionOffset::NoDirection);
        }
        // only one choice
        if count == 1 {
            return Ok(pick_option(&directions, 0));
        }
        // more than one choice: draw a random number
        let draw = rng.get_random_16();
        let i: usize = (draw as usize) & 0x03;
        proof {
            lemma_i16_low_bits(draw);
        }
        Ok(pick_option(&directions, i))
    }

    /// Has the journey arrived at its destination?
    fn is_driving_done(map: &TileMap, position: &MapPosition, destination_zone: &ZoneType) -> (r:
        Result<bool, String>)
        ensures
            driving_done(*map, *position, *destination_zone) matches Some(b) ==> r == Ok::<
                bool,
                String,
            >(b),
            driving_done(*map, *position, *destination_zone) is None ==> r is Err,
    {
        reveal(driving_done);
        let (target_low, target_high) = driving_done_targets(destination_zone);
        let x = position.x;
        let y = position.y;
        if y > 0 {
            let z = low_tile_value(map, &MapPosition::new(x, y - 1))?;
            if z >= target_low && z <= target_high {
                return Ok(true);
            }
        }
        if x < WORLD_WIDTH as i32 - 1 {
            let z = low_tile_value(map, &MapPosition::new(x + 1, y))?;
            if z >= target_low && z <= target_high {
                return Ok(true);
            }
        }
        if y < WORLD_HEIGHT as i32 - 1 {
            let z = low_tile_value(map, &MapPosition::new(x, y + 1))?;
            if z >= target_low && z <= target_high {
                return Ok(true);
            }
        }
        if x > 0 {
            let z = low_tile_value(map, &MapPosition::new(x - 1, y))?;
            if z >= target_low && z <= target_high {
                return Ok(true);
            }
        }
        Ok(false)
    }
}

/// Does a tile of type `v` end a trip to the zone type: a commercial trip
/// ends at a commercial zone (its tiles up to the nuclear plant's), an
/// industrial trip at a house up to a port, a residential trip at a house up
/// to the first commercial tile.
pub open spec fn trip_destination(zone: ZoneType, v: int) -> bool {
    match zone {
        ZoneType::Commercial => TileType::CommercialBase.code() <= v <= TileType::Nuclear.code(),
        ZoneType::Industrial => TileType::House.code() <= v <= TileType::Port.code(),
        ZoneType::Residential => TileType::House.code() <= v <= TileType::CommercialBase.code(),
    }
}

/// A trip inside the world, with its four neighbours readable, is done
/// exactly when one of them is a destination of the trip's zone type.
pub proof fn law_trip_done_at_destination(map: TileMap, p: MapPosition, zone: ZoneType)
    requires
        0 < p.x < WORLD_WIDTH as i32 - 1,
        0 < p.y < WORLD_HEIGHT as i32 - 1,
        low_at(map, MapPosition { x: p.x, y: (p.y - 1) as i32 }) is Some,
        low_at(map, MapPosition { x: (p.x + 1) as i32, y: p.y }) is Some,
        low_at(map, MapPosition { x: p.x, y: (p.y + 1) as i32 }) is Some,
        low_at(map, MapPosition { x: (p.x - 1) as i32, y: p.y }) is Some,
    ensures
        driving_done(map, p, zone) == Some(
            trip_destination(zone, low_at(map, MapPosition { x: p.x, y: (p.y - 1) as i32 }).unwrap())
                || trip_destination(zone, low_at(map, MapPosition { x: (p.x + 1) as i32, y: p.y }).unwrap())
                || trip_destination(zone, low_at(map, MapPosition { x: p.x, y: (p.y + 1) as i32 }).unwrap())
                || trip_destination(zone, low_at(map, MapPosition { x: (p.x - 1) as i32, y: p.y }).unwrap()),
        ),
{
    reveal(driving_done);
}

/// Indicator of an actual direction.
pub open spec fn is_option(d: MapPositionOffset) -> int {
    if d != MapPositionOffset::NoDirection {
        1
    } else {
        0
    }
}

proof fn lemma_count_four(o: Seq<MapPositionOffset>)
    requires
        o.len() == 4,
    ensures
        count_options(o) == is_option(o[0]) + is_option(o[1]) + is_option(o[2]) + is_option(o[3]),
{
    reveal_with_fuel(count_options, 5);
    assert(o.drop_last().drop_last().drop_last().drop_last().len() == 0);
}

/// A position with a tile on a map that fits has small non-negative
/// coordinates, so its pixel position fits too.
proof fn lemma_on_map_pixels(map: TileMap, p: MapPosition)
    requires
        traffic_map_fits(map),
        map.tile_at(p) is Some,
    ensures
        0 <= p.x < 0x80000,
        0 <= p.y < 0x80000,
{
    let size = map.strategy().size();
    let w = map.width() as int;
    let h = map.height() as int;
    let bx = (p.x as int) / size;
    let by = (p.y as int) / size;
    assert(1 <= size <= 8);
    assert(-0x8000_0000 <= bx <= 0x7fff_ffff) by (nonlinear_arith)
        requires
            1 <= size <= 8,
            bx == (p.x as int) / size,
            -0x8000_0000 <= p.x <= 0x7fff_ffff,
    ;
    assert(-0x8000_0000 <= by <= 0x7fff_ffff) by (nonlinear_arith)
        requires
            1 <= size <= 8,
            by == (p.y as int) / size,
            -0x8000_0000 <= p.y <= 0x7fff_ffff,
    ;
    assert(0 <= bx < w);
    assert(0 <= by < h);
    assert(0 <= p.x < 0x80000) by (nonlinear_arith)
        requires
            1 <= size <= 8,
            bx == (p.x as int) / size,
            0 <= bx < w,
            w <= 0x10000,
    ;
    assert(0 <= p.y < 0x80000) by (nonlinear_arith)
        requires
            1 <= size <= 8,
            by == (p.y as int) / size,
            0 <= by < h,
            h <= 0x10000,
    ;
}

/// A direction taken by a trip leads to a tile of the map, from which the trip
/// can go on.
proof fn lemma_random_driving_on_map(map: TileMap, from: MapPosition, rng: u64)
    requires
        traffic_map_fits(map),
    ensures
        ({
            let dir = random_driving(map, from, MapPositionOffset::NoDirection, rng).0;
            dir != MapPositionOffset::NoDirection ==> {
                &&& neighbor_driveable(map, from, dir)
                &&& drivable_from(step_towards(from, dir))
            }
        }),
{
    reveal(random_driving);
    let o = driving_options(map, from, MapPositionOffset::NoDirection);
    lemma_count_four(o);
    let dir = random_driving(map, from, MapPositionOffset::NoDirection, rng).0;
    if dir != MapPositionOffset::NoDirection {
        assert(dir == o[0] || dir == o[1] || dir == o[2] || dir == o[3]);
        assert(neighbor_driveable(map, from, dir));
    }
}

/// The four cardinal options of a trip at `from`, and how many are actual directions.
fn find_driving_options(
    map: &TileMap,
    from: &MapPosition,
    from_direction: &MapPositionOffset,
) -> (r: Result<(Vec<MapPositionOffset>, usize), String>)
    requires
        drivable_from(*from),
    ensures
        r matches Ok((v, c)) && v@ == driving_options(*map, *from, *from_direction) && c
            == count_options(v@),
{
    let ghost o = driving_options(*map, *from, *from_direction);
    let dirt = Tile::from_type(TileType::Dirt)?;
    proof {
        lemma_flag_constants();
    }
    let mut directions: Vec<MapPositionOffset> = Vec::new();
    let mut direction = MapPositionOffset::North;
    let mut count: usize = 0;
    let mut i: usize = 0;
    while i < 4
        invariant
            i <= 4,
            drivable_from(*from),
            dirt.raw() == 0,
            type_bits(0u16) == 0,
            o == driving_options(*map, *from, *from_direction),
            directions@ == o.subrange(0, i as int),
            i < 4 ==> direction == cardinal_at(i as int),
            count == count_options(directions@),
            count <= i,
        decreases 4 - i,
    {
        let ghost before = directions@;
        if direction != *from_direction {
            let adjacent_tile = map.get_neighboring_tile_at(from, &direction, dirt);
            if adjacent_tile.is_driveable() {
                // found a road in an allowed direction
                directions.push(direction);
                count = count + 1;
            } else {
                directions.push(MapPositionOffset::NoDirection);
            }
        } else {
            directions.push(MapPositionOffset::NoDirection);
        }
        assert(directions@.drop_last() =~= before);
        assert(directions@ =~= o.subrange(0, i + 1));
        direction = direction.rotated_90();
        i = i + 1;
    }
    assert(directions@ =~= o);
    Ok((directions, count))
}

/// First actual direction among the four options, from index `start` on,
/// wrapping around.
fn pick_option(directions: &Vec<MapPositionOffset>, start: usize) -> (r: MapPositionOffset)
    requires
        directions@.len() == 4,
        start < 4,
        count_options(directions@) >= 1,
    ensures
        r == cyclic_pick(directions@, start as int),
{
    let ghost o = directions@;
    proof {
        lemma_count_four(o);
    }
    let mut i = start;
    let ghost mut k: int = 0;
    while directions[i] == MapPositionOffset::NoDirection
        invariant
            i < 4,
            start < 4,
            o == directions@,
            o.len() == 4,
            count_options(o) == is_option(o[0]) + is_option(o[1]) + is_option(o[2]) + is_option(
                o[3],
            ),
            count_options(o) >= 1,
            0 <= k <= 3,
            i == (start + k) % 4,
            forall|j: int|
                0 <= j < k ==> #[trigger] wrapped_option(o, start as int, j)
                    == MapPositionOffset::NoDirection,
        decreases 3 - k,
    {
        proof {
            if k == 3 {
                assert(wrapped_option(o, start as int, 0) == MapPositionOffset::NoDirection);
                assert(wrapped_option(o, start as int, 1) == MapPositionOffset::NoDirection);
                assert(wrapped_option(o, start as int, 2) == MapPositionOffset::NoDirection);
                assert(false);
            }
        }
        let next = i + 1;
        i = next & 0x03;
        proof {
            lemma_usize_low_bits(next);
            k = k + 1;
        }
    }
    proof {
        if k >= 1 {
            assert(wrapped_option(o, start as int, 0) == MapPositionOffset::NoDirection);
        }
        if k >= 2 {
            assert(wrapped_option(o, start as int, 1) == MapPositionOffset::NoDirection);
        }
        if k >= 3 {
            assert(wrapped_option(o, start as int, 2) == MapPositionOffset::NoDirection);
        }
    }
    directions[i]
}

/// Offsets of the `z`-th tile around a 3 by 3 zone.
fn perimeter_road_edge(z: usize) -> (r: (i32, i32))
    requires
        z < 12,
    ensures
        r.0 == perimeter_road_edges_x()[z as int],
        r.1 == perimeter_road_edges_y()[z as int],
{
    let xs: [i32; 12] = [-1, 0, 1, 2, 2, 2, 1, 0, -1, -2, -2, -2];
    let ys: [i32; 12] = [-2, -2, -2, -1, 0, 1, 2, 2, 2, 1, 0, -1];
    proof {
        assert(xs@ =~= perimeter_road_edges_x());
        assert(ys@ =~= perimeter_road_edges_y());
    }
    (xs[z], ys[z])
}

/// Lowest and highest tile types that end a trip to the zone type.
fn driving_done_targets(zone: &ZoneType) -> (r: (usize, usize))
    ensures
        r.0 == driving_done_target_low(*zone),
        r.1 == driving_done_target_high(*zone),
{
    let index = match zone.to_usize() {
        Some(i) => i,
        None => 0,
    };
    let low: [TileType; 3] = [TileType::CommercialBase, TileType::House, TileType::House];
    let high: [TileType; 3] = [TileType::Nuclear, TileType::Port, TileType::CommercialBase];
    let l = match low[index].to_u16() {
        Some(v) => v,
        None => 0,
    };
    let h = match high[index].to_u16() {
        Some(v) => v,
        None => 0,
    };
    (l as usize, h as usize)
}

/// Type bits of the tile at the position, or an error when there is no tile.
fn low_tile_value(map: &TileMap, position: &MapPosition) -> (r: Result<usize, String>)
    ensures
        low_at(*map, *position) matches Some(z) ==> r == Ok::<usize, String>(z as usize),
        low_at(*map, *position) is None ==> r is Err,
{
    match map.get_tile_at(position) {
        Some(t) => Ok((t.get_raw() & TILE_LOW_MASK) as usize),
        None => Err(String::from_str("CityTraffic::is_driving_done cannot get tile map")),
    }
}

} // verus!
