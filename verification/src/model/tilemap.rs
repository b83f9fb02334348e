//! The grid world representation: a rectangle of cells, each referring to a
//! shared tile definition by value of its (immutable) definition.

use crate::math::UVec2;
use crate::model::repository::Resource;
use crate::model::tile::Tile;
use crate::model::ResourceId;
use vstd::prelude::*;

verus! {

/// A grid cell: the tile definition placed there.
#[derive(Clone, Copy, Debug, PartialEq, Eq, Structural)]
pub struct PlacedTile {
    tile: Tile,
}

impl PlacedTile {
    pub fn new(tile: &Tile) -> (p: PlacedTile)
        ensures
            p.spec_tile() == *tile,
    {
        Self { tile: *tile }
    }

    pub closed spec fn spec_tile(&self) -> Tile {
        self.tile
    }

    pub fn tile(&self) -> (t: &Tile)
        ensures
            *t == self.spec_tile(),
    {
        &self.tile
    }
}

/// A rectangular grid of placed tiles. `sizes.x` is the width (length of every
/// row), `sizes.y` the height (number of rows); the size is fixed at
/// construction and never recomputed.
pub struct Tilemap {
    id: ResourceId,
    tiles: Vec<Vec<PlacedTile>>,
    sizes: UVec2,
}

impl Tilemap {
    /// The grid as a sequence of rows of cells.
    pub closed spec fn grid(&self) -> Seq<Seq<PlacedTile>> {
        self.tiles@.map_values(|row: Vec<PlacedTile>| row@)
    }

    pub closed spec fn spec_width(&self) -> u32 {
        self.sizes.x
    }

    pub closed spec fn spec_height(&self) -> u32 {
        self.sizes.y
    }

    /// The recorded size matches the grid: `spec_height()` rows, each of
    /// length `spec_width()`. Constructors establish this and every method
    /// preserves it.
    pub open spec fn wf(&self) -> bool {
        &&& self.grid().len() == self.spec_height()
        &&& forall|y: int|
            0 <= y < self.grid().len() ==> (#[trigger] self.grid()[y]).len() == self.spec_width()
    }

    /// A fresh `sizes.x` by `sizes.y` grid with every cell holding
    /// `empty_tile`.
    pub fn new(id: ResourceId, sizes: UVec2, empty_tile: &Tile) -> (t: Tilemap)
        ensures
            t.wf(),
            t.spec_id() == id,
            t.spec_width() == sizes.x,
            t.spec_height() == sizes.y,
            forall|y: int, x: int|
                0 <= y < sizes.y && 0 <= x < sizes.x ==> (#[trigger] t.grid()[y][x]).spec_tile()
                    == *empty_tile,
    {
        let mut tiles: Vec<Vec<PlacedTile>> = Vec::new();
        let mut y: u32 = 0;
        while y < sizes.y
            invariant
                y <= sizes.y,
                tiles@.len() == y,
                forall|r: int|
                    0 <= r < y ==> (#[trigger] tiles@[r])@.len() == sizes.x,
                forall|r: int, c: int|
                    0 <= r < y && 0 <= c < sizes.x ==> (#[trigger] tiles@[r]@[c]).spec_tile()
                        == *empty_tile,
            decreases sizes.y - y,
        {
            let mut row: Vec<PlacedTile> = Vec::new();
            let mut x: u32 = 0;
            while x < sizes.x
                invariant
                    x <= sizes.x,
                    row@.len() == x,
                    forall|c: int|
                        0 <= c < x ==> (#[trigger] row@[c]).spec_tile() == *empty_tile,
                decreases sizes.x - x,
            {
                row.push(PlacedTile::new(empty_tile));
                x = x + 1;
            }
            tiles.push(row);
            y = y + 1;
        }
        Tilemap { id, tiles, sizes }
    }

    /// Builds a grid from explicit rows. The size is taken from the input:
    /// the height is the number of rows, the width the length of the first
    /// row, and all rows must have that same length.
    pub fn from_raw_tilemap(id: ResourceId, raw_tilemap: &Vec<Vec<Tile>>) -> (t: Tilemap)
        requires
            raw_tilemap@.len() > 0,
            raw_tilemap@.len() <= u32::MAX,
            raw_tilemap@[0]@.len() <= u32::MAX,
            forall|y: int|
                0 <= y < raw_tilemap@.len() ==> (#[trigger] raw_tilemap@[y])@.len()
                    == raw_tilemap@[0]@.len(),
        ensures
            t.wf(),
            t.spec_id() == id,
            t.spec_width() == raw_tilemap@[0]@.len(),
            t.spec_height() == raw_tilemap@.len(),
            forall|y: int, x: int|
                0 <= y < t.spec_height() && 0 <= x < t.spec_width() ==> (#[trigger] t.grid(
                )[y][x]).spec_tile() == raw_tilemap@[y]@[x],
    {
        let width: u32 = raw_tilemap[0].len() as u32;
        let height: u32 = raw_tilemap.len() as u32;
        let mut tiles: Vec<Vec<PlacedTile>> = Vec::new();
        let mut y: usize = 0;
        while y < raw_tilemap.len()
            invariant
                y <= raw_tilemap@.len(),
                raw_tilemap@.len() <= u32::MAX,
                tiles@.len() == y,
                width == raw_tilemap@[0]@.len(),
                forall|r: int|
                    0 <= r < raw_tilemap@.len() ==> (#[trigger] raw_tilemap@[r])@.len() == width,
                forall|r: int|
                    0 <= r < y ==> (#[trigger] tiles@[r])@.len() == width,
                forall|r: int, c: int|
                    0 <= r < y && 0 <= c < width ==> (#[trigger] tiles@[r]@[c]).spec_tile()
                        == raw_tilemap@[r]@[c],
            decreases raw_tilemap@.len() - y,
        {
            let source_row = &raw_tilemap[y];
            let mut row: Vec<PlacedTile> = Vec::new();
            let mut x: usize = 0;
            while x < source_row.len()
                invariant
                    x <= source_row@.len(),
                    row@.len() == x,
                    forall|c: int|
                        0 <= c < x ==> (#[trigger] row@[c]).spec_tile() == source_row@[c],
                decreases source_row@.len() - x,
            {
                row.push(PlacedTile::new(&source_row[x]));
                x = x + 1;
            }
            tiles.push(row);
            y = y + 1;
        }
        Tilemap { id, tiles, sizes: UVec2 { x: width, y: height } }
    }

    /// Bounds-checked cell lookup: `Some` exactly on `0 <= x < width` and
    /// `0 <= y < height`, `None` everywhere else.
    pub fn get_tile(&self, position: UVec2) -> (r: Option<&PlacedTile>)
        requires
            self.wf(),
        ensures
            match r {
                Some(p) => {
                    &&& position.x < self.spec_width()
                    &&& position.y < self.spec_height()
                    &&& *p == self.grid()[position.y as int][position.x as int]
                },
                None => position.x >= self.spec_width() || position.y >= self.spec_height(),
            },
    {
        proof {
            assert(forall|y: int|
                0 <= y < self.grid().len() ==> #[trigger] self.grid()[y] == self.tiles@[y]@);
        }
        if (position.y as usize) < self.tiles.len() {
            let row = &self.tiles[position.y as usize];
            proof {
                assert(*row == self.tiles@[position.y as int]);
                assert(self.grid()[position.y as int] == self.tiles@[position.y as int]@);
                assert(row@.len() == self.spec_width());
            }
            if (position.x as usize) < row.len() {
                Some(&row[position.x as usize])
            } else {
                None
            }
        } else {
            None
        }
    }

    /// Replaces the cell at `position` when it is in bounds; a row index past
    /// the height leaves the grid unchanged.
    pub fn set_tile(&mut self, position: UVec2, tile: &Tile)
        requires
            old(self).wf(),
            position.y < old(self).spec_height() ==> position.x < old(self).spec_width(),
        ensures
            final(self).wf(),
            final(self).spec_id() == old(self).spec_id(),
            final(self).spec_width() == old(self).spec_width(),
            final(self).spec_height() == old(self).spec_height(),
            position.y < old(self).spec_height() ==> final(self).grid()[position.y as int][position.x as int].spec_tile() == *tile,
            forall|y2: int, x2: int|
                0 <= y2 < old(self).spec_height() && 0 <= x2 < old(self).spec_width() && !(y2
                    == position.y as int && x2 == position.x as int) ==> final(self).grid()[y2][x2]
                    == old(self).grid()[y2][x2],
    {
        if (position.y as usize) < self.tiles.len() {
            proof {
                assert(old(self).grid()[position.y as int] == old(self).tiles@[position.y as int]@);
                assert(old(self).tiles@[position.y as int]@.len() == old(self).spec_width());
            }
            self.tiles[position.y as usize][position.x as usize] = PlacedTile::new(tile);
            proof {
                let py = position.y as int;
                let px = position.x as int;
                assert forall|y2: int| 0 <= y2 < self.grid().len() implies (
                #[trigger] self.grid()[y2]).len() == self.spec_width() by {
                    assert(self.grid()[y2] == self.tiles@[y2]@);
                    assert(old(self).grid()[y2] == old(self).tiles@[y2]@);
                    if y2 != py {
                        assert(self.tiles@[y2] == old(self).tiles@[y2]);
                    }
                }
                assert(self.grid()[py] == self.tiles@[py]@);
                assert forall|y2: int, x2: int|
                    0 <= y2 < old(self).spec_height() && 0 <= x2 < old(self).spec_width() && !(y2
                        == py && x2 == px) implies final(self).grid()[y2][x2] == old(
                    self,
                ).grid()[y2][x2] by {
                    assert(self.grid()[y2] == self.tiles@[y2]@);
                    assert(old(self).grid()[y2] == old(self).tiles@[y2]@);
                    if y2 != py {
                        assert(self.tiles@[y2] == old(self).tiles@[y2]);
                    }
                }
            }
        }
    }

    pub fn sizes(&self) -> (s: UVec2)
        ensures
            s.x == self.spec_width(),
            s.y == self.spec_height(),
    {
        self.sizes
    }
}

impl Resource for Tilemap {
    closed spec fn spec_id(&self) -> u32 {
        self.id
    }

    fn id(&self) -> (r: u32) {
        self.id
    }
}

} // verus!
