pub mod effects;
pub mod toolbox;
pub mod utils;

use vstd::prelude::*;

use super::buildings::BuildingType;
use super::position::MapRectangle;
use super::tiles::{Tile, TILE_LOW_MASK};
use super::{cell_exists, lemma_write_changes_shape, same_shape, write_changes, MapPosition, TileMap};
use crate::utils::random::MicropolisRandom;
use effects::{build_outcome, building_fits};
use toolbox::{
    bulldozer_fits, bulldozer_result, forest_result, land_tool_result, network_outcome, network_result,
    park_result, water_result, tool_build_building, tool_bulldozer, tool_forest, tool_land,
    tool_network, tool_park, tool_rail, tool_road, tool_water, tool_wire,
};
use crate::map::connect::low_in;
use crate::map::generator::trees::smoothing_fits;
use crate::map::tiles_type::TileType;

verus! {

#[derive(Clone, Copy, Debug, PartialEq, Eq, Structural)]
pub enum ConnectTileCommand {
    /// Fix zone (connect wire, road and rail).
    Fix,
    /// Bulldoze and fix zone.
    Bulldoze,
    /// Lay road and fix zone.
    Road,
    /// Lay rail and fix zone.
    Rail,
    /// Lay wire and fix zone.
    Wire,
}

#[derive(Clone, Copy, Debug, PartialEq, Eq, Structural)]
pub enum EditingTool {
    Residential,
    Commercial,
    Industrial,
    FireStation,
    PoliceStation,
    Wire,
    Bulldozer,
    Railroad,
    Road,
    Stadium,
    Park,
    Seaport,
    CoalPower,
    NuclearPower,
    Airport,
    Network,
    Water,
    Land,
    Forest,
}

impl EditingTool {
    /// Price of one use of the tool: 100, whatever the tool.
    pub open spec fn price(self) -> int {
        100
    }

    /// Footprint (side length, in tiles) of the tool: 3, whatever the tool.
    pub open spec fn footprint(self) -> int {
        3
    }

    pub fn cost(self) -> (r: u32)
        ensures
            r == self.price(),
    {
        100
    }

    pub fn size(self) -> (r: u16)
        ensures
            r == self.footprint(),
    {
        3
    }
}

#[derive(Clone, Debug)]
pub enum ToolResult {
    /// User has not enough money for tool.
    NoMoney,
    /// Clear the area first.
    NeedBulldoze,
    /// Cannot build here.
    Failed,
    /// Build succeeded.
    Succeeded(ToolEffects),
}

impl ToolResult {
    pub fn is_success(&self) -> (r: bool)
        ensures
            r == (*self is Succeeded),
    {
        match self {
            ToolResult::Succeeded(_) => true,
            _ => false,
        }
    }

    pub fn effects(self) -> (r: Option<ToolEffects>)
        ensures
            self is Succeeded ==> r == Some(self->Succeeded_0),
            !(self is Succeeded) ==> r is None,
    {
        match self {
            ToolResult::Succeeded(effects) => Some(effects),
            _ => None,
        }
    }
}

/// Tile at the given position, with the given modifications laid over the map.
pub open spec fn value_in(
    changes: Map<MapPosition, Tile>,
    map: TileMap,
    position: MapPosition,
) -> Option<Tile> {
    if changes.dom().contains(position) {
        Some(changes[position])
    } else {
        map.tile_at(position)
    }
}

/// None of the entries has a cell in the grid.
pub open spec fn none_written(
    cells: Seq<Seq<Tile>>,
    strategy: super::MapClusteringStrategy,
    s: Seq<(MapPosition, Tile)>,
) -> bool {
    forall|j: int| 0 <= j < s.len() ==> !cell_exists(cells, strategy, #[trigger] s[j].0)
}

/// No two entries of the sequence share a position.
pub open spec fn distinct_positions(s: Seq<(MapPosition, Tile)>) -> bool {
    forall|i: int, j: int|
        0 <= i < s.len() && 0 <= j < s.len() && i != j ==> #[trigger] s[i].0 != #[trigger] s[j].0
}

/// The entries after setting the tile at a position: the entry for that
/// position is replaced in place, or a new entry is pushed at the end.
pub open spec fn list_set(s: Seq<(MapPosition, Tile)>, p: MapPosition, t: Tile) -> Seq<(MapPosition, Tile)> {
    if exists|i: int| 0 <= i < s.len() && #[trigger] s[i].0 == p {
        s.update(choose|i: int| 0 <= i < s.len() && #[trigger] s[i].0 == p, (p, t))
    } else {
        s.push((p, t))
    }
}

/// The position-to-tile map that the sequence of entries describes.
pub open spec fn entries_map(s: Seq<(MapPosition, Tile)>) -> Map<MapPosition, Tile> {
    Map::new(
        |p: MapPosition| exists|i: int| 0 <= i < s.len() && #[trigger] s[i].0 == p,
        |p: MapPosition| s[choose|i: int| 0 <= i < s.len() && #[trigger] s[i].0 == p].1,
    )
}

proof fn lemma_entries_map_at(s: Seq<(MapPosition, Tile)>, i: int)
    requires
        distinct_positions(s),
        0 <= i < s.len(),
    ensures
        entries_map(s).dom().contains(s[i].0),
        entries_map(s)[s[i].0] == s[i].1,
{
    let p = s[i].0;
    assert(s[i].0 == p);
    let c = choose|j: int| 0 <= j < s.len() && #[trigger] s[j].0 == p;
    assert(c == i);
}

proof fn lemma_entries_map_push(s: Seq<(MapPosition, Tile)>, p: MapPosition, t: Tile)
    requires
        distinct_positions(s),
        !entries_map(s).dom().contains(p),
    ensures
        distinct_positions(s.push((p, t))),
        entries_map(s.push((p, t))) =~= entries_map(s).insert(p, t),
{
    let s2 = s.push((p, t));
    assert forall|i: int| 0 <= i < s.len() implies #[trigger] s[i].0 != p by {
        if s[i].0 == p {
            assert(entries_map(s).dom().contains(p));
        }
    }
    assert(distinct_positions(s2));
    assert forall|q: MapPosition| #[trigger] entries_map(s2).dom().contains(q)
        == entries_map(s).insert(p, t).dom().contains(q) by {
        if entries_map(s).dom().contains(q) {
            let k = choose|j: int| 0 <= j < s.len() && #[trigger] s[j].0 == q;
            assert(s2[k].0 == q);
        }
        if entries_map(s2).dom().contains(q) && q != p {
            let k = choose|j: int| 0 <= j < s2.len() && #[trigger] s2[j].0 == q;
            assert(s[k].0 == q);
        }
        if q == p {
            assert(s2[s.len() as int].0 == p);
        }
    }
    assert forall|q: MapPosition| #[trigger] entries_map(s2).dom().contains(q) implies entries_map(
        s2,
    )[q] == entries_map(s).insert(p, t)[q] by {
        let k = choose|j: int| 0 <= j < s2.len() && #[trigger] s2[j].0 == q;
        lemma_entries_map_at(s2, k);
        if q != p {
            lemma_entries_map_at(s, k);
        }
    }
}

proof fn lemma_entries_map_update(s: Seq<(MapPosition, Tile)>, i: int, t: Tile)
    requires
        distinct_positions(s),
        0 <= i < s.len(),
    ensures
        distinct_positions(s.update(i, (s[i].0, t))),
        entries_map(s.update(i, (s[i].0, t))) =~= entries_map(s).insert(s[i].0, t),
{
    let p = s[i].0;
    let s2 = s.update(i, (p, t));
    assert(distinct_positions(s2));
    lemma_entries_map_at(s, i);
    assert forall|q: MapPosition| #[trigger] entries_map(s2).dom().contains(q)
        == entries_map(s).insert(p, t).dom().contains(q) by {
        if entries_map(s).dom().contains(q) {
            let k = choose|j: int| 0 <= j < s.len() && #[trigger] s[j].0 == q;
            assert(s2[k].0 == q);
        }
        if entries_map(s2).dom().contains(q) {
            let k = choose|j: int| 0 <= j < s2.len() && #[trigger] s2[j].0 == q;
            assert(s[k].0 == q);
        }
    }
    assert forall|q: MapPosition| #[trigger] entries_map(s2).dom().contains(q) implies entries_map(
        s2,
    )[q] == entries_map(s).insert(p, t)[q] by {
        let k = choose|j: int| 0 <= j < s2.len() && #[trigger] s2[j].0 == q;
        lemma_entries_map_at(s2, k);
        if k != i {
            lemma_entries_map_at(s, k);
        }
    }
}

/// Index of the entry for the given position, if there is one.
fn find_position(entries: &Vec<(MapPosition, Tile)>, position: &MapPosition) -> (r: Option<usize>)
    requires
        distinct_positions(entries@),
    ensures
        r matches Some(i) ==> i < entries@.len() && entries@[i as int].0 == *position,
        r is None ==> !entries_map(entries@).dom().contains(*position),
{
    let mut i: usize = 0;
    while i < entries.len()
        invariant
            i <= entries@.len(),
            forall|j: int| 0 <= j < i ==> #[trigger] entries@[j].0 != *position,
        decreases entries@.len() - i,
    {
        if entries[i].0 == *position {
            return Some(i);
        }
        i = i + 1;
    }
    None
}

/// Structure for storing effects of applying a tool to the world.
///
/// Tools do not modify the world directly: they collect their modifications
/// and cost here. Once the whole operation is done, the cost is known and the
/// modifications can be copied to the real map.
#[derive(Debug)]
pub struct ToolEffects {
    /// Ignore any incurred cost.
    free: bool,
    /// Accumulated cost of the modifications.
    cost: u32,
    /// Modifications in the world, at most one per position.
    modifications: Vec<(MapPosition, Tile)>,
}

impl ToolEffects {
    #[verifier::type_invariant]
    spec fn inv(self) -> bool {
        distinct_positions(self.modifications@)
    }

    /// Are the costs ignored?
    pub closed spec fn is_free(&self) -> bool {
        self.free
    }

    /// Accumulated cost.
    pub closed spec fn total_cost(&self) -> u32 {
        self.cost
    }

    /// Modifications, indexed by position.
    pub closed spec fn changes(&self) -> Map<MapPosition, Tile> {
        entries_map(self.modifications@)
    }

    /// Modifications in the order they are applied to the map.
    pub closed spec fn change_list(&self) -> Seq<(MapPosition, Tile)> {
        self.modifications@
    }

    /// The modifications, indexed by position, are those of the list.
    pub proof fn lemma_changes_listed(&self)
        ensures
            self.changes() == entries_map(self.change_list()),
    {
    }

    pub fn new(free: bool) -> (r: Self)
        ensures
            r.is_free() == free,
            r.total_cost() == 0,
            r.changes() == Map::<MapPosition, Tile>::empty(),
            r.change_list() == Seq::<(MapPosition, Tile)>::empty(),
    {
        let r = Self { free, cost: 0, modifications: Vec::new() };
        assert(r.changes() =~= Map::<MapPosition, Tile>::empty());
        r
    }

    pub fn add_cost(self, cost: u32) -> (r: Self)
        requires
            !self.is_free() ==> self.total_cost() + cost <= u32::MAX,
        ensures
            r.is_free() == self.is_free(),
            r.total_cost() == if self.is_free() {
                self.total_cost() as int
            } else {
                self.total_cost() + cost
            },
            r.changes() == self.changes(),
            r.change_list() == self.change_list(),
    {
        let mut effects = self;
        proof {
            use_type_invariant(&effects);
        }
        if !effects.free {
            effects.cost = effects.cost + cost;
        }
        effects
    }

    pub fn add_modification(self, position: &MapPosition, tile: Tile) -> (r: Self)
        ensures
            r.is_free() == self.is_free(),
            r.total_cost() == self.total_cost(),
            r.changes() == self.changes().insert(*position, tile),
            r.change_list() == list_set(self.change_list(), *position, tile),
    {
        let mut effects = self;
        effects.set_map_value_at(position, tile);
        effects
    }

    pub fn clear(&mut self)
        ensures
            final(self).is_free() == old(self).is_free(),
            final(self).total_cost() == 0,
            final(self).changes() == Map::<MapPosition, Tile>::empty(),
            final(self).change_list() == Seq::<(MapPosition, Tile)>::empty(),
    {
        proof {
            use_type_invariant(&*self);
        }
        self.cost = 0;
        self.modifications = Vec::new();
        assert(self.changes() =~= Map::<MapPosition, Tile>::empty());
    }

    /// Consume the given tool result to apply it to the current instance
    /// if it suceeded in order to continue modifications, or return the result as-is otherwise.
    pub fn chain_or_return(&mut self, result: ToolResult) -> (r: Option<ToolResult>)
        requires
            result is Succeeded ==> old(self).total_cost() + (if result->Succeeded_0.is_free() {
                0int
            } else {
                result->Succeeded_0.total_cost() as int
            }) <= u32::MAX,
        ensures
            result is Succeeded ==> {
                let other = result->Succeeded_0;
                &&& r is None
                &&& final(self).is_free() == (old(self).is_free() || other.is_free())
                &&& final(self).total_cost() == old(self).total_cost() + (if other.is_free() {
                    0int
                } else {
                    other.total_cost() as int
                })
                &&& final(self).changes() == old(self).changes().union_prefer_right(other.changes())
            },
            !(result is Succeeded) ==> r == Some(result) && *final(self) == *old(self),
    {
        match result {
            ToolResult::Succeeded(other) => {
                proof {
                    use_type_invariant(&other);
                    use_type_invariant(&*self);
                }
                self.free = self.free || other.free;
                self.cost = self.cost + if other.free {
                    0
                } else {
                    other.cost
                };
                let ghost start = self.changes();
                assert(start == old(self).changes());
                let mut i: usize = 0;
                while i < other.modifications.len()
                    invariant
                        i <= other.modifications@.len(),
                        distinct_positions(other.modifications@),
                        start == old(self).changes(),
                        self.free == (old(self).free || other.free),
                        self.cost == old(self).cost + (if other.free {
                            0int
                        } else {
                            other.cost as int
                        }),
                        self.changes() == start.union_prefer_right(
                            entries_map(other.modifications@.take(i as int)),
                        ),
                    decreases other.modifications@.len() - i,
                {
                    let (position, tile) = other.modifications[i];
                    proof {
                        let s = other.modifications@;
                        assert(s.take(i + 1) =~= s.take(i as int).push((position, tile)));
                        assert(distinct_positions(s.take(i as int)));
                        assert forall|j: int| 0 <= j < i implies #[trigger] s.take(i as int)[j].0
                            != position by {
                            assert(s[j].0 != s[i as int].0);
                        }
                        assert(!entries_map(s.take(i as int)).dom().contains(position));
                        lemma_entries_map_push(s.take(i as int), position, tile);
                    }
                    self.set_map_value_at(&position, tile);
                    proof {
                        assert(self.changes() =~= start.union_prefer_right(
                            entries_map(other.modifications@.take(i + 1)),
                        ));
                    }
                    i = i + 1;
                }
                proof {
                    assert(other.modifications@.take(i as int) =~= other.modifications@);
                }
                None
            },
            _ => Some(result),
        }
    }

    /// Perform the effects stored in the structure on the map.
    ///
    /// Returns `None` when no modification could be written (none at all
    /// included). Otherwise the effects are cleared and their cost, which
    /// the clearing has just reset to 0, is returned.
    #[must_use]
    pub fn modify_world(&mut self, map: &mut TileMap) -> (r: Option<u32>)
        ensures
            final(map).strategy() == old(map).strategy(),
            final(map).cells() == write_changes(old(map).cells(), old(map).strategy(), old(self).change_list()),
            none_written(old(map).cells(), old(map).strategy(), old(self).change_list()) ==> r is None
                && *final(self) == *old(self),
            !none_written(old(map).cells(), old(map).strategy(), old(self).change_list()) ==> r
                == Some(old(self).total_cost()) && final(self).is_free() == old(self).is_free()
                && final(self).total_cost() == 0 && final(self).changes() == Map::<
                MapPosition,
                Tile,
            >::empty(),
    {
        let ghost start = map.cells();
        let mut failed: usize = 0;
        let mut i: usize = 0;
        let n = self.modifications.len();
        while i < n
            invariant
                n == self.modifications@.len(),
                i <= n,
                failed <= i,
                map.strategy() == old(map).strategy(),
                map.cells() == write_changes(start, map.strategy(), self.modifications@.take(i as int)),
                self.modifications == old(self).modifications,
                self.free == old(self).free,
                self.cost == old(self).cost,
                (failed == i) == none_written(start, map.strategy(), self.modifications@.take(i as int)),
            decreases n - i,
        {
            let (position, tile) = self.modifications[i];
            let ghost before = map.cells();
            let modified = map.set_tile_at(&position, tile);
            proof {
                let s = self.modifications@;
                assert(s.take(i + 1).drop_last() =~= s.take(i as int));
                assert(s.take(i + 1).last() == (position, tile));
                lemma_write_changes_shape(start, map.strategy(), s.take(i as int));
                assert(cell_exists(before, map.strategy(), position) == cell_exists(start, map.strategy(), position));
                assert(none_written(start, map.strategy(), s.take(i + 1)) == (none_written(start, map.strategy(), s.take(i as int)) && !cell_exists(start, map.strategy(), position))) by {
                    let t = s.take(i + 1);
                    if none_written(start, map.strategy(), s.take(i as int)) && !cell_exists(start, map.strategy(), position) {
                        assert forall|j: int| 0 <= j < t.len() implies !cell_exists(start, map.strategy(), #[trigger] t[j].0) by {
                            if j < i {
                                assert(t[j] == s.take(i as int)[j]);
                            }
                        }
                    }
                    if none_written(start, map.strategy(), t) {
                        assert(t[i as int].0 == position);
                        assert forall|j: int| 0 <= j < i implies !cell_exists(start, map.strategy(), #[trigger] s.take(i as int)[j].0) by {
                            assert(t[j] == s.take(i as int)[j]);
                        }
                    }
                }
            }
            if !modified {
                failed = failed + 1;
            }
            i = i + 1;
        }
        proof {
            assert(self.modifications@.take(n as int) =~= self.modifications@);
        }
        if failed == n {
            return None;
        }
        let cost = self.cost;
        self.clear();
        Some(cost)
    }

    /// Apply the modifications if there are enough funds (the accumulated
    /// cost is not above them); the second part of the result is what
    /// `modify_world` returns.
    pub fn modify_world_if_enough_money(&mut self, map: &mut TileMap, total_funds: u32) -> (r: (
        bool,
        Option<u32>,
    ))
        ensures
            old(self).total_cost() > total_funds ==> !r.0 && r.1 is None && *final(self) == *old(self)
                && *final(map) == *old(map),
            old(self).total_cost() <= total_funds ==> r.0 && final(map).cells() == write_changes(
                old(map).cells(),
                old(map).strategy(),
                old(self).change_list(),
            ) && final(map).strategy() == old(map).strategy() && if none_written(
                old(map).cells(),
                old(map).strategy(),
                old(self).change_list(),
            ) {
                r.1 is None && *final(self) == *old(self)
            } else {
                r.1 == Some(old(self).total_cost()) && final(self).is_free() == old(self).is_free()
                    && final(self).total_cost() == 0 && final(self).changes() == Map::<MapPosition, Tile>::empty()
            },
    {
        if self.cost > total_funds {
            (false, None)
        } else {
            let cost = self.modify_world(map);
            (true, cost)
        }
    }

    /// Get the tile at the given position, keeping only its type bits.
    pub fn get_map_tile_at(&self, map: &TileMap, position: &MapPosition) -> (r: Option<Tile>)
        ensures
            r is Some <==> self.value_at(*map, *position) is Some,
            r matches Some(t) ==> t.raw() == (self.value_at(*map, *position).unwrap().raw()
                & 0x03ffu16) && t.wf(),
    {
        match self.get_map_value_at(map, position) {
            Some(tile) => match Tile::from_raw(tile.get_raw() & TILE_LOW_MASK) {
                Ok(t) => Some(t),
                Err(_) => None,
            },
            None => None,
        }
    }

    /// Tile at the given position, taking the modifications into account.
    pub open spec fn value_at(&self, map: TileMap, position: MapPosition) -> Option<Tile> {
        value_in(self.changes(), map, position)
    }

    /// Get a map value from the world at the given position.
    ///
    /// Unlike the simulation world, this method takes modifications made
    /// previously by other tools into account.
    pub fn get_map_value_at(&self, map: &TileMap, position: &MapPosition) -> (r: Option<Tile>)
        ensures
            r == self.value_at(*map, *position),
    {
        proof {
            use_type_invariant(self);
        }
        let mut i: usize = 0;
        while i < self.modifications.len()
            invariant
                i <= self.modifications@.len(),
                distinct_positions(self.modifications@),
                forall|j: int| 0 <= j < i ==> #[trigger] self.modifications@[j].0 != *position,
            decreases self.modifications@.len() - i,
        {
            if self.modifications[i].0 == *position {
                proof {
                    lemma_entries_map_at(self.modifications@, i as int);
                }
                return Some(self.modifications[i].1);
            }
            i = i + 1;
        }
        match map.get_tile_at(position) {
            Some(t) => Some(*t),
            None => None,
        }
    }

    /// Set a new map value at the given position.
    fn set_map_value_at(&mut self, position: &MapPosition, tile: Tile)
        ensures
            final(self).is_free() == old(self).is_free(),
            final(self).total_cost() == old(self).total_cost(),
            final(self).changes() == old(self).changes().insert(*position, tile),
            final(self).change_list() == list_set(old(self).change_list(), *position, tile),
    {
        proof {
            use_type_invariant(&*self);
        }
        let found = find_position(&self.modifications, position);
        let mut modifications: Vec<(MapPosition, Tile)> = Vec::new();
        std::mem::swap(&mut modifications, &mut self.modifications);
        match found {
            Some(i) => {
                proof {
                    lemma_entries_map_update(modifications@, i as int, tile);
                    let m = modifications@;
                    assert(m[i as int].0 == *position);
                    let c = choose|j: int| 0 <= j < m.len() && #[trigger] m[j].0 == *position;
                    assert(c == i);
                }
                modifications.set(i, (*position, tile));
            },
            None => {
                proof {
                    lemma_entries_map_push(modifications@, *position, tile);
                    let m = modifications@;
                    assert forall|j: int| 0 <= j < m.len() implies #[trigger] m[j].0 != *position by {
                        if m[j].0 == *position {
                            assert(entries_map(m).dom().contains(*position));
                        }
                    }
                }
                modifications.push((*position, tile));
            },
        }
        self.modifications = modifications;
    }
}

impl Clone for ToolEffects {
    fn clone(&self) -> (r: Self)
        ensures
            r.is_free() == self.is_free(),
            r.total_cost() == self.total_cost(),
            r.change_list() == self.change_list(),
            r.changes() == self.changes(),
    {
        proof {
            use_type_invariant(self);
        }
        let mut modifications: Vec<(MapPosition, Tile)> = Vec::new();
        let mut i: usize = 0;
        while i < self.modifications.len()
            invariant
                i <= self.modifications@.len(),
                modifications@ == self.modifications@.take(i as int),
            decreases self.modifications@.len() - i,
        {
            modifications.push(self.modifications[i]);
            i = i + 1;
        }
        assert(modifications@ =~= self.modifications@);
        ToolEffects { free: self.free, cost: self.cost, modifications }
    }
}

/// Building that a tool puts down, if it puts one down.
pub open spec fn building_of_tool(tool: EditingTool) -> Option<BuildingType> {
    match tool {
        EditingTool::Residential => Some(BuildingType::Residential),
        EditingTool::Commercial => Some(BuildingType::Commercial),
        EditingTool::Industrial => Some(BuildingType::Industrial),
        EditingTool::FireStation => Some(BuildingType::FireStation),
        EditingTool::PoliceStation => Some(BuildingType::PoliceStation),
        EditingTool::Stadium => Some(BuildingType::Stadium),
        EditingTool::Seaport => Some(BuildingType::Seaport),
        EditingTool::CoalPower => Some(BuildingType::CoalPowerPlant),
        EditingTool::NuclearPower => Some(BuildingType::NuclearPowerPlant),
        EditingTool::Airport => Some(BuildingType::Airport),
        _ => None,
    }
}

/// Footprint of the building of the given type.
pub open spec fn building_size(building: BuildingType) -> MapRectangle {
    MapRectangle { width: building.side(), height: building.side() }
}

/// Applying the tool at the position stays within 32-bit positions, 16-bit
/// tiles and 32-bit costs; laying roads, rails and wires is only accepted
/// outside the map.
pub open spec fn tool_fits(tool: EditingTool, map: TileMap, position: MapPosition) -> bool {
    match building_of_tool(tool) {
        Some(b) => building_fits(
            position,
            building_size(b),
            b.base_type().code() as u16,
            b.tool_of().price(),
            false,
            0,
        ),
        None => match tool {
            EditingTool::Road | EditingTool::Railroad | EditingTool::Wire => !map.spec_in_bounds(
                position,
            ),
            EditingTool::Bulldozer | EditingTool::Land => map.spec_in_bounds(position)
                ==> bulldozer_fits(position),
            EditingTool::Forest => map.spec_in_bounds(position) ==> bulldozer_fits(position)
                && smoothing_fits(position),
            _ => true,
        },
    }
}

/// What applying a tool gives, from the result `tool_result` of the tool
/// itself: a success whose cost is above the funds becomes a lack of money.
pub open spec fn money_checked(tool_result: Result<ToolResult, String>, total_funds: u32, r: Result<ToolResult, String>) -> bool {
    match tool_result {
        Ok(ToolResult::Succeeded(e)) => if e.total_cost() > total_funds {
            r matches Ok(ToolResult::NoMoney)
        } else {
            r matches Ok(ToolResult::Succeeded(e2)) && e2 == e
        },
        Ok(ToolResult::Failed) => r matches Ok(ToolResult::Failed),
        Ok(ToolResult::NeedBulldoze) => r matches Ok(ToolResult::NeedBulldoze),
        Ok(ToolResult::NoMoney) => r matches Ok(ToolResult::NoMoney),
        Err(_) => r is Err,
    }
}

/// What putting down a building of the given type centred at `center` gives
/// (see `build_outcome`): `Failed` outside the map; inside, an error, a
/// failure, a request to bulldoze, or the effects with the building, at the
/// cost of the bulldozing and of the building's tool.
pub open spec fn building_result(
    map: TileMap,
    center: MapPosition,
    building: BuildingType,
    effects: ToolEffects,
    auto_bulldoze: bool,
    r: Result<ToolResult, String>,
) -> bool {
    &&& !map.spec_in_bounds(center) ==> (r matches Ok(ToolResult::Failed))
    &&& map.spec_in_bounds(center) ==> {
        let o = build_outcome(
            effects.changes(),
            map,
            center,
            building_size(building),
            building.base_type().code() as u16,
            building.animated(),
            auto_bulldoze,
        );
        &&& (o.0 == 0 <==> r is Err)
        &&& (o.0 == 1 <==> (r matches Ok(ToolResult::Failed)))
        &&& (o.0 == 2 <==> (r matches Ok(ToolResult::NeedBulldoze)))
        &&& (o.0 == 3 <==> (r matches Ok(ToolResult::Succeeded(_))))
        &&& r matches Ok(ToolResult::Succeeded(e)) ==> e.changes() == o.1 && e.is_free()
            == effects.is_free() && e.total_cost() == effects.total_cost() + if effects.is_free() {
            0
        } else {
            o.2 + building.tool_of().price()
        }
    }
}

/// What the tool itself answers at the position, from the given effects
/// (the generator going from state `s0` to `s1`): each tool's own answer.
pub open spec fn tool_outcome(
    tool: EditingTool,
    map: TileMap,
    position: MapPosition,
    effects: ToolEffects,
    auto_bulldoze: bool,
    animations_enabled: bool,
    s0: u64,
    s1: u64,
    r: Result<ToolResult, String>,
) -> bool {
    match building_of_tool(tool) {
        Some(b) => building_result(map, position, b, effects, auto_bulldoze, r),
        None => match tool {
            EditingTool::Wire | EditingTool::Railroad | EditingTool::Road => r matches Ok(ToolResult::Failed),
            EditingTool::Bulldozer => bulldozer_result(map, position, effects, animations_enabled, r),
            EditingTool::Park => park_result(map, position, effects, s0, s1, r),
            EditingTool::Network => network_result(map, position, effects, r),
            EditingTool::Water => water_result(map, position, effects, r),
            EditingTool::Land => land_tool_result(map, position, effects, animations_enabled, r),
            EditingTool::Forest => forest_result(map, position, effects, animations_enabled, r),
            _ => false,
        },
    }
}

/// What applying a tool at the position (with the auto-bulldoze and
/// animation options and the funds) does: `before` and `after` are the map
/// before and after, `s0` and `s1` the generator states, `r` the result: the
/// tool's own answer from fresh (not free) effects, its success turned into
/// a lack of money when its cost is above the funds, and a success written
/// to the map.
pub open spec fn tool_applied(
    before: TileMap,
    after: TileMap,
    s0: u64,
    s1: u64,
    position: MapPosition,
    tool: EditingTool,
    auto_bulldoze: bool,
    animations_enabled: bool,
    total_funds: u32,
    r: Result<ToolResult, String>,
) -> bool {
    &&& after.strategy() == before.strategy()
    &&& (r matches Ok(ToolResult::Succeeded(e)) ==> e.total_cost() <= total_funds && after.cells()
            == write_changes(before.cells(), before.strategy(), e.change_list()))
    &&& (!(r matches Ok(ToolResult::Succeeded(_))) ==> after.cells() == before.cells())
    &&& exists|e0: ToolEffects, t: Result<ToolResult, String>|
        #![trigger tool_outcome(tool, before, position, e0, auto_bulldoze, animations_enabled, s0, s1, t)]
        {
            &&& e0.changes() == Map::<MapPosition, Tile>::empty()
            &&& !e0.is_free()
            &&& e0.total_cost() == 0
            &&& tool_outcome(tool, before, position, e0, auto_bulldoze, animations_enabled, s0, s1, t)
            &&& money_checked(t, total_funds, r)
        }
}

/// Apply the tool at the position and, if it succeeded at a cost not above
/// the funds, write its modifications to the map (see `tool_applied`).
pub fn apply_tool(
    rng: &mut MicropolisRandom,
    map: &mut TileMap,
    position: &MapPosition,
    tool: &EditingTool,
    auto_bulldoze: bool,
    animations_enabled: bool,
    total_funds: u32,
) -> (r: Result<ToolResult, String>)
    requires
        tool_fits(*tool, *old(map), *position),
    ensures
        final(rng).creation_seed() == old(rng).creation_seed(),
        tool_applied(
            *old(map),
            *final(map),
            old(rng).state(),
            final(rng).state(),
            *position,
            *tool,
            auto_bulldoze,
            animations_enabled,
            total_funds,
            r,
        ),
{
    // free tool / free terrain editing scenarios are not handled
    let effects = ToolEffects::new(false);
    let ghost e0 = effects;
    let result = match *tool {
        EditingTool::Residential => apply_build_building(map, position, BuildingType::Residential, effects, auto_bulldoze),
        EditingTool::Commercial => apply_build_building(map, position, BuildingType::Commercial, effects, auto_bulldoze),
        EditingTool::Industrial => apply_build_building(map, position, BuildingType::Industrial, effects, auto_bulldoze),
        EditingTool::FireStation => apply_build_building(map, position, BuildingType::FireStation, effects, auto_bulldoze),
        EditingTool::PoliceStation => apply_build_building(map, position, BuildingType::PoliceStation, effects, auto_bulldoze),
        EditingTool::Wire => tool_wire(map, position, effects, auto_bulldoze),
        EditingTool::Bulldozer => tool_bulldozer(rng, map, position, effects, auto_bulldoze, animations_enabled),
        EditingTool::Railroad => tool_rail(map, position, effects, auto_bulldoze),
        EditingTool::Road => tool_road(map, position, effects, auto_bulldoze),
        EditingTool::Stadium => apply_build_building(map, position, BuildingType::Stadium, effects, auto_bulldoze),
        EditingTool::Park => tool_park(rng, map, position, effects, auto_bulldoze),
        EditingTool::Seaport => apply_build_building(map, position, BuildingType::Seaport, effects, auto_bulldoze),
        EditingTool::CoalPower => apply_build_building(map, position, BuildingType::CoalPowerPlant, effects, auto_bulldoze),
        EditingTool::NuclearPower => apply_build_building(map, position, BuildingType::NuclearPowerPlant, effects, auto_bulldoze),
        EditingTool::Airport => apply_build_building(map, position, BuildingType::Airport, effects, auto_bulldoze),
        EditingTool::Network => tool_network(map, position, effects),
        EditingTool::Water => tool_water(map, position, effects),
        EditingTool::Land => tool_land(rng, map, position, effects, auto_bulldoze, animations_enabled),
        EditingTool::Forest => tool_forest(rng, map, position, effects, auto_bulldoze, animations_enabled),
    };
    proof {
        assert(tool_outcome(*tool, *old(map), *position, e0, auto_bulldoze, animations_enabled, old(rng).state(), rng.state(), result));
    }
    let result = match result {
        Ok(res) => res,
        Err(e) => {
            return Err(e);
        },
    };
    match result {
        ToolResult::Succeeded(effects) => {
            let mut chained_effects = effects.clone();
            let (applied, _) = chained_effects.modify_world_if_enough_money(map, total_funds);
            if applied {
                Ok(ToolResult::Succeeded(effects))
            } else {
                Ok(ToolResult::NoMoney)
            }
        },
        other => Ok(other),
    }
}

/// Put down the building of the given type, centred at `center`.
fn apply_build_building(
    map: &TileMap,
    center: &MapPosition,
    building: BuildingType,
    effects: ToolEffects,
    auto_bulldoze: bool,
) -> (r: Result<ToolResult, String>)
    requires
        building_fits(
            *center,
            building_size(building),
            building.base_type().code() as u16,
            building.tool_of().price(),
            effects.is_free(),
            effects.total_cost(),
        ),
    ensures
        building_result(*map, *center, building, effects, auto_bulldoze, r),
{
    let info = match building.info() {
        Ok(info) => info,
        Err(e) => {
            return Err(e);
        },
    };
    tool_build_building(map, center, effects, &info, auto_bulldoze)
}

/// Apply the tool at the position; the outcome itself (lack of money, need
/// to bulldoze, ...) is not reported, only errors.
pub fn tool_down(
    rng: &mut MicropolisRandom,
    map: &mut TileMap,
    position: &MapPosition,
    tool: &EditingTool,
    auto_bulldoze: bool,
    animations_enabled: bool,
    total_funds: u32,
) -> (r: Result<(), String>)
    requires
        tool_fits(*tool, *old(map), *position),
    ensures
        final(rng).creation_seed() == old(rng).creation_seed(),
        final(map).strategy() == old(map).strategy(),
        same_shape(final(map).cells(), old(map).cells()),
        !old(map).spec_in_bounds(*position) ==> r is Ok && final(map).cells() == old(map).cells(),
        old(map).spec_in_bounds(*position) ==> match building_of_tool(*tool) {
            Some(b) => (build_outcome(
                Map::empty(),
                *old(map),
                *position,
                building_size(b),
                b.base_type().code() as u16,
                b.animated(),
                auto_bulldoze,
            ).0 == 0 <==> r is Err),
            None => true,
        },
{
    let ghost before = map.cells();
    let result = apply_tool(rng, map, position, tool, auto_bulldoze, animations_enabled, total_funds);
    proof {
        if result is Ok && result->Ok_0 is Succeeded {
            lemma_write_changes_shape(before, map.strategy(), result->Ok_0->Succeeded_0.change_list());
        }
    }
    match result {
        Ok(ToolResult::NeedBulldoze) => {},  // the area must be bulldozed first
        Ok(ToolResult::NoMoney) => {},  // not enough funds
        Ok(_) => {},
        Err(e) => {
            return Err(e);
        },
    }
    Ok(())
}

} // verus!
