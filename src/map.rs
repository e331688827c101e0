//! The tile map: a 128 by 64 grid of sprite numbers.
use vstd::prelude::*;

verus! {

/// Width of the map, in tiles.
pub const MAP_WIDTH: usize = 128;

/// Height of the map, in tiles.
pub const MAP_HEIGHT: usize = 64;

/// Number of tiles of the map.
pub const MAP_TILES: usize = 8192;

/// Whether `(x, y)` lies inside the map.
pub open spec fn tile_in_bounds(x: int, y: int) -> bool {
    0 <= x < 128 && 0 <= y < 64
}

/// Row-major position of tile `(x, y)`.
pub open spec fn tile_index(x: int, y: int) -> int {
    y * 128 + x
}

/// The tile at `(x, y)`; a read outside the map gives 0.
pub open spec fn tile_at(m: Seq<u8>, x: int, y: int) -> u8 {
    if tile_in_bounds(x, y) {
        m[tile_index(x, y)]
    } else {
        0
    }
}

/// `m` with `t` placed at `(x, y)`; a write outside the map changes nothing.
pub open spec fn tile_put(m: Seq<u8>, x: int, y: int, t: u8) -> Seq<u8> {
    if tile_in_bounds(x, y) {
        m.update(tile_index(x, y), t)
    } else {
        m
    }
}

/// A grid of sprite numbers, row-major.
#[derive(Debug)]
pub struct TileMap {
    tiles: Vec<u8>,
}

impl View for TileMap {
    type V = Seq<u8>;

    closed spec fn view(&self) -> Seq<u8> {
        self.tiles@
    }
}

impl TileMap {
    /// Every map has `MAP_TILES` tiles.
    pub open spec fn wf(&self) -> bool {
        self@.len() == 8192
    }

    /// A map of tile 0 everywhere.
    pub fn new() -> (r: TileMap)
        ensures
            r.wf(),
            r@ == Seq::new(8192, |i: int| 0u8),
    {
        let mut tiles: Vec<u8> = Vec::new();
        let mut i: usize = 0;
        while i < MAP_TILES
            invariant
                i <= 8192,
                tiles@ == Seq::new(i as nat, |j: int| 0u8),
            decreases 8192 - i,
        {
            tiles.push(0);
            i = i + 1;
        }
        TileMap { tiles }
    }

    /// A map holding `tiles` in row-major order, when there are exactly `MAP_TILES`.
    pub fn from_tiles(tiles: Vec<u8>) -> (r: Option<TileMap>)
        ensures
            tiles@.len() == 8192 <==> r is Some,
            r matches Some(m) ==> m.wf() && m@ == tiles@,
    {
        if tiles.len() == MAP_TILES {
            Some(TileMap { tiles })
        } else {
            None
        }
    }

    /// The tiles in row-major order.
    pub fn tiles(&self) -> (r: &[u8])
        ensures
            r@ == self@,
    {
        self.tiles.as_slice()
    }

    /// The tile at `(x, y)`, or 0 outside the map.
    pub fn mget(&self, x: i64, y: i64) -> (r: u8)
        requires
            self.wf(),
        ensures
            r == tile_at(self@, x as int, y as int),
    {
        if 0 <= x && x < 128 && 0 <= y && y < 64 {
            self.tiles[(y * 128 + x) as usize]
        } else {
            0
        }
    }

    /// Places tile `t` at `(x, y)`; a write outside the map is ignored.
    pub fn mset(&mut self, x: i64, y: i64, t: u8)
        requires
            old(self).wf(),
        ensures
            final(self).wf(),
            final(self)@ == tile_put(old(self)@, x as int, y as int, t),
    {
        if 0 <= x && x < 128 && 0 <= y && y < 64 {
            self.tiles.set((y * 128 + x) as usize, t);
        }
    }
}

} // verus!
