use vstd::prelude::*;

use crate::city::City;
use crate::map::tools::{apply_tool, tool_applied, tool_fits, EditingTool, ToolResult};
use crate::map::{MapPosition, TileMap};
use crate::utils::random::MicropolisRandom;

verus! {

pub struct MicropolisCoreOptions {
    animations_enabled: bool,
    sound_enabled: bool,
    auto_bulldoze: bool,
}

impl MicropolisCoreOptions {
    pub closed spec fn flags(&self) -> (bool, bool, bool) {
        (self.animations_enabled, self.sound_enabled, self.auto_bulldoze)
    }

    pub fn new(animations_enabled: bool, sound_enabled: bool, auto_bulldoze: bool) -> (r: Self)
        ensures
            r.flags() == (animations_enabled, sound_enabled, auto_bulldoze),
    {
        Self { animations_enabled, sound_enabled, auto_bulldoze }
    }
}

pub struct MicropolisCoreInterfacer {
    city: City,
    options: MicropolisCoreOptions,
}

impl MicropolisCoreInterfacer {
    pub closed spec fn the_city(&self) -> City {
        self.city
    }

    pub fn new(city: City, options: MicropolisCoreOptions) -> (r: Self)
        ensures
            r.the_city() == city,
    {
        Self { city, options }
    }

    /// Drag a tool from one tile to another.
    ///
    /// Big tools are not dragged but applied at the end of the drag; every
    /// tool covers three tiles or more (see `EditingTool::size`), so a drag
    /// applies the tool at `to` (see `tool_applied`), then marks the map as
    /// changed for the editors when that succeeded.
    pub fn tool_drag(
        &mut self,
        rng: &mut MicropolisRandom,
        map: &mut TileMap,
        from: &MapPosition,
        to: &MapPosition,
        tool: &EditingTool,
        auto_bulldoze: bool,
        animations_enabled: bool,
        total_funds: u32,
    ) -> (r: Result<(), String>)
        requires
            tool_fits(*tool, *old(map), *to),
            old(self).the_city().simulation().serial() < u32::MAX,
        ensures
            exists|result: Result<ToolResult, String>|
                {
                    &&& tool_applied(
                        *old(map),
                        *final(map),
                        old(rng).state(),
                        final(rng).state(),
                        *to,
                        *tool,
                        auto_bulldoze,
                        animations_enabled,
                        total_funds,
                        result,
                    )
                    &&& (r is Ok <==> result is Ok)
                },
            r is Ok ==> {
                &&& final(self).the_city().simulation().pass() == 0
                &&& final(self).the_city().simulation().serial() == old(
                    self,
                ).the_city().simulation().serial() + 1
            },
            r is Err ==> final(self).the_city() == old(self).the_city(),
            final(rng).creation_seed() == old(rng).creation_seed(),
    {
        // do not drag big tools
        if tool.size() > 1 {
            let result = apply_tool(rng, map, to, tool, auto_bulldoze, animations_enabled, total_funds);
            if let Err(e) = result {
                return Err(e);
            }
            // update editors overlapping this one
            self.city.get_sim_mut().reset_pass_counter();
            self.city.invalidate_map();
            return Ok(());
        }
        // no tool is smaller than three tiles
        vstd::pervasive::unreached()
    }
}

} // verus!
