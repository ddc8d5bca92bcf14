pub mod loader;

use vstd::prelude::*;

use super::tiles_type::tile_type_of;
use crate::utils::bits::{lemma_u16_tile_bits, lemma_u16_type_bits_pair};
use super::{Tile, TileMap, TileType};
use loader::{
    link_lines, load_lines, load_sequences, parsed_lines, sequences_of, TileAnimatorSequences,
    MAX_TILE_VALUE,
};

verus! {

/// A tile after one animation step: an animated tile takes the next value of
/// its type in the sequences, keeping its status bits.
pub open spec fn animated(t: Tile, sequences: Seq<u16>) -> Tile {
    if t.raw() & 0x0800u16 != 0 {
        Tile::of_raw(sequences[(t.raw() & 0x03ffu16) as int] | (t.raw() & 0xFC00u16))
    } else {
        t
    }
}

/// An animation step keeps the status bits of every tile and leaves a tile
/// without the animation bit as it is, for sequences of tile values.
pub proof fn law_animation_keeps_status(t: Tile, sequences: Seq<u16>)
    requires
        t.wf(),
        sequences.len() == MAX_TILE_VALUE,
        forall|i: int| 0 <= i < MAX_TILE_VALUE ==> #[trigger] sequences[i] < MAX_TILE_VALUE,
    ensures
        animated(t, sequences).raw() & 0xFC00u16 == t.raw() & 0xFC00u16,
        t.raw() & 0x0800u16 == 0 ==> animated(t, sequences) == t,
{
    let r = t.raw();
    lemma_u16_tile_bits(r);
    lemma_u16_type_bits_pair(r, r & 0x03ffu16);
    if r & 0x0800u16 != 0 {
        let v = sequences[(r & 0x03ffu16) as int];
        lemma_u16_type_bits_pair(r, v);
        Tile::lemma_of_raw_value(v | (r & 0xFC00u16));
    }
}

/// The grid after one animation step of every tile.
pub open spec fn animated_cells(cells: Seq<Seq<Tile>>, sequences: Seq<u16>) -> Seq<Seq<Tile>> {
    Seq::new(cells.len(), |i: int| Seq::new(cells[i].len(), |j: int| animated(cells[i][j], sequences)))
}

pub struct TileMapAnimator {
    sequences: TileAnimatorSequences,
}

impl TileMapAnimator {
    /// Next value of each tile value.
    pub closed spec fn sequences(&self) -> Seq<u16> {
        self.sequences@
    }

    /// There is a next value for each tile value.
    pub open spec fn wf(&self) -> bool {
        self.sequences().len() == MAX_TILE_VALUE
    }

    /// The animator of the sequences listed in the lines of an animation
    /// sequences resource (see `loader::load_lines`).
    pub fn load(lines: &Vec<String>) -> (r: Result<Self, String>)
        ensures
            ({
                let texts = lines@.map_values(|l: String| l@);
                match parsed_lines(texts) {
                    Some(p) => match link_lines(p, p.len() as int) {
                        Some(next) => r matches Ok(a) && a.wf() && a.sequences() == sequences_of(next),
                        None => r is Err,
                    },
                    None => r is Err,
                }
            }),
    {
        let parsed = load_lines(lines)?;
        let sequences = load_sequences(parsed)?;
        Ok(Self { sequences })
    }

    /// Advance the animated tiles of the map by one step.
    pub fn animate_world(&self, map: &mut TileMap) -> (r: Result<(), String>)
        requires
            self.wf(),
        ensures
            r is Ok,
            final(map).cells() == animated_cells(old(map).cells(), self.sequences()),
            final(map).strategy() == old(map).strategy(),
    {
        proof {
            old(map).lemma_cells_of_grid();
        }
        let ghost start = map.cells();
        let data = map.tiles_mut();
        let mut x: usize = 0;
        while x < data.len()
            invariant
                x <= data@.len(),
                self.wf(),
                data@.len() == start.len(),
                forall|i: int| 0 <= i < x ==> #[trigger] data@[i]@ == Seq::new(
                    start[i].len(),
                    |j: int| animated(start[i][j], self.sequences()),
                ),
                forall|i: int| x <= i < start.len() ==> #[trigger] data@[i]@ == start[i],
            decreases start.len() - x,
        {
            let mut y: usize = 0;
            let height = data[x].len();
            while y < height
                invariant
                    x < data@.len(),
                    self.wf(),
                    data@.len() == start.len(),
                    height == start[x as int].len(),
                    y <= height,
                    data@[x as int]@.len() == height,
                    forall|j: int|
                        0 <= j < y ==> #[trigger] data@[x as int]@[j] == animated(
                            start[x as int][j],
                            self.sequences(),
                        ),
                    forall|j: int| y <= j < height ==> #[trigger] data@[x as int]@[j] == start[x as int][j],
                    forall|i: int| 0 <= i < x ==> #[trigger] data@[i]@ == Seq::new(
                        start[i].len(),
                        |j: int| animated(start[i][j], self.sequences()),
                    ),
                    forall|i: int| x < i < start.len() ==> #[trigger] data@[i]@ == start[i],
                decreases height - y,
            {
                let tile_raw = data[x][y].get_raw();
                if tile_raw & 0x0800 != 0x00 {
                    let tile_flags = tile_raw & 0xFC00;
                    let low = tile_raw & 0x03ff;
                    proof {
                        assert(tile_raw & 0x03ffu16 <= 0x03ff) by (bit_vector);
                    }
                    let next = self.sequences[low as usize];
                    let tile = Tile::from_raw(next | tile_flags)?;
                    proof {
                        Tile::lemma_of_raw(tile);
                    }
                    data[x][y] = tile;
                }
                y = y + 1;
            }
            assert(data@[x as int]@ =~= Seq::new(
                start[x as int].len(),
                |j: int| animated(start[x as int][j], self.sequences()),
            ));
            x = x + 1;
        }
        assert(map.cells() =~= animated_cells(start, self.sequences()));
        Ok(())
    }

    /// Type of the tile that follows the tile value `index` in the animation.
    pub fn next_animated_tile(&self, index: usize) -> (r: Option<TileType>)
        ensures
            index >= self.sequences().len() ==> r is None,
            index < self.sequences().len() ==> r == tile_type_of(self.sequences()[index as int] as int),
    {
        if index >= self.sequences.len() {
            None
        } else {
            TileType::from_u16(self.sequences[index])
        }
    }
}

} // verus!
