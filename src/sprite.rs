//! Sprites: fixed 8 by 8 grids of palette colors, addressed row-major.
use vstd::prelude::*;

use crate::hex::{decode_hex, encode_hex, hex_digit, hex_value};

verus! {

/// A palette index.
pub type Color = u8;

/// Width and height of every sprite, in cells.
pub const SPRITE_SIDE: usize = 8;

/// Number of cells of every sprite.
pub const SPRITE_CELLS: usize = 64;

/// Whether `(x, y)` lies inside a sprite.
pub open spec fn in_bounds(x: int, y: int) -> bool {
    0 <= x < 8 && 0 <= y < 8
}

/// Row-major position of cell `(x, y)`.
pub open spec fn cell_index(x: int, y: int) -> int {
    y * 8 + x
}

/// `s` with `c` written at `(x, y)`; a write outside the sprite changes nothing.
pub open spec fn put(s: Seq<Color>, x: int, y: int, c: Color) -> Seq<Color> {
    if in_bounds(x, y) {
        s.update(cell_index(x, y), c)
    } else {
        s
    }
}

/// The color at `(x, y)`; a read outside the sprite gives color 0.
pub open spec fn get(s: Seq<Color>, x: int, y: int) -> Color {
    if in_bounds(x, y) {
        s[cell_index(x, y)]
    } else {
        0
    }
}

/// A whole-sprite rearrangement of cells.
#[derive(Clone, Copy, Debug, PartialEq, Eq, Structural)]
pub enum Transform {
    FlipVertically,
    FlipHorizontally,
    ShiftUp,
    ShiftDown,
    ShiftLeft,
    ShiftRight,
}

/// The cell whose color lands on cell `i` under `t`. Shifts wrap around.
pub open spec fn source_index(t: Transform, i: int) -> int {
    let x = i % 8;
    let y = i / 8;
    match t {
        Transform::FlipVertically => (7 - y) * 8 + x,
        Transform::FlipHorizontally => y * 8 + (7 - x),
        Transform::ShiftUp => ((y + 1) % 8) * 8 + x,
        Transform::ShiftDown => ((y + 7) % 8) * 8 + x,
        Transform::ShiftLeft => y * 8 + (x + 1) % 8,
        Transform::ShiftRight => y * 8 + (x + 7) % 8,
    }
}

/// Writing a sprite of palette colors as text and reading it back gives the same cells.
pub proof fn law_hex_round_trip(cells: Seq<Color>)
    requires
        cells.len() == 64,
        forall|i: int| 0 <= i < 64 ==> cells[i] < 16,
    ensures
        forall|i: int| 0 <= i < 64 ==> #[trigger] hex_value(hex_digit(cells[i])) == Some(cells[i]),
{
}

/// The cells of `s` rearranged by `t`.
pub open spec fn transformed(s: Seq<Color>, t: Transform) -> Seq<Color> {
    Seq::new(64, |i: int| s[source_index(t, i)])
}

fn source_of(t: Transform, i: usize) -> (r: usize)
    requires
        i < 64,
    ensures
        r == source_index(t, i as int),
        r < 64,
{
    let x = i % 8;
    let y = i / 8;
    match t {
        Transform::FlipVertically => (7 - y) * 8 + x,
        Transform::FlipHorizontally => y * 8 + (7 - x),
        Transform::ShiftUp => ((y + 1) % 8) * 8 + x,
        Transform::ShiftDown => ((y + 7) % 8) * 8 + x,
        Transform::ShiftLeft => y * 8 + (x + 1) % 8,
        Transform::ShiftRight => y * 8 + (x + 7) % 8,
    }
}

/// An 8 by 8 grid of colors.
#[derive(Debug)]
pub struct Sprite {
    pixels: Vec<Color>,
}

impl View for Sprite {
    type V = Seq<Color>;

    closed spec fn view(&self) -> Seq<Color> {
        self.pixels@
    }
}

impl Sprite {
    /// Every sprite has exactly 64 cells.
    pub open spec fn wf(&self) -> bool {
        self@.len() == 64
    }

    /// A sprite with every cell of color 0.
    pub fn new() -> (r: Sprite)
        ensures
            r.wf(),
            r@ == Seq::new(64, |i: int| 0u8),
    {
        let mut pixels: Vec<Color> = Vec::new();
        let mut i: usize = 0;
        while i < SPRITE_CELLS
            invariant
                i <= 64,
                pixels@ == Seq::new(i as nat, |j: int| 0u8),
            decreases 64 - i,
        {
            pixels.push(0);
            i = i + 1;
        }
        let r = Sprite { pixels };
        assert(r@ =~= Seq::new(64, |j: int| 0u8));
        r
    }

    /// A sprite holding `cells` in row-major order, when there are exactly 64.
    pub fn from_cells(cells: Vec<Color>) -> (r: Option<Sprite>)
        ensures
            cells@.len() == 64 <==> r.is_some(),
            r matches Some(s) ==> s.wf() && s@ == cells@,
    {
        if cells.len() == SPRITE_CELLS {
            Some(Sprite { pixels: cells })
        } else {
            None
        }
    }

    /// A sprite with the same cells.
    pub fn duplicate(&self) -> (r: Sprite)
        ensures
            r@ == self@,
    {
        let r = Sprite { pixels: self.pixels.clone() };
        assert(r@ =~= self@);
        r
    }

    /// A copy of the cells in row-major order.
    pub fn to_cells(&self) -> (r: Vec<Color>)
        ensures
            r@ == self@,
    {
        let r = self.pixels.clone();
        assert(r@ =~= self@);
        r
    }

    /// A sprite read from its text form: 64 hexadecimal digits, one per cell in row-major
    /// order. `None` when there are not exactly 64 bytes or one is not a digit.
    pub fn from_hex(text: &[u8]) -> (r: Option<Sprite>)
        ensures
            r is Some <==> (text@.len() == 64 && forall|i: int| 0 <= i < 64 ==> (#[trigger] hex_value(text@[i])) is Some),
            r matches Some(s) ==> s.wf() && forall|i: int| 0 <= i < 64 ==> #[trigger] hex_value(text@[i]) == Some(s@[i]),
    {
        if text.len() != SPRITE_CELLS {
            return None;
        }
        let mut pixels: Vec<Color> = Vec::new();
        let mut i: usize = 0;
        while i < SPRITE_CELLS
            invariant
                i <= 64,
                text@.len() == 64,
                pixels@.len() == i,
                forall|j: int| 0 <= j < i ==> #[trigger] hex_value(text@[j]) == Some(pixels@[j]),
            decreases 64 - i,
        {
            match decode_hex(text[i]) {
                Some(v) => pixels.push(v),
                None => {
                    return None;
                },
            }
            i = i + 1;
        }
        Some(Sprite { pixels })
    }

    /// The text form: one lower-case hexadecimal digit per cell, in row-major order.
    /// Colors are palette indices below 16; of a larger one the low four bits are written.
    pub fn to_hex(&self) -> (r: Vec<u8>)
        requires
            self.wf(),
        ensures
            r@ == Seq::new(64, |i: int| hex_digit(self@[i])),
    {
        let mut text: Vec<u8> = Vec::new();
        let mut i: usize = 0;
        while i < SPRITE_CELLS
            invariant
                i <= 64,
                self@.len() == 64,
                text@ == Seq::new(i as nat, |j: int| hex_digit(self@[j])),
            decreases 64 - i,
        {
            text.push(encode_hex(self.pixels[i]));
            i = i + 1;
            assert(text@ =~= Seq::new(i as nat, |j: int| hex_digit(self@[j])));
        }
        text
    }

    /// The cells in row-major order.
    pub fn cells(&self) -> (r: &[Color])
        ensures
            r@ == self@,
    {
        self.pixels.as_slice()
    }

    /// The color at `(x, y)`, or 0 outside the sprite.
    pub fn pget(&self, x: i64, y: i64) -> (r: Color)
        requires
            self.wf(),
        ensures
            r == get(self@, x as int, y as int),
    {
        if 0 <= x && x < 8 && 0 <= y && y < 8 {
            self.pixels[(y * 8 + x) as usize]
        } else {
            0
        }
    }

    /// Writes `c` at `(x, y)`; a write outside the sprite is ignored.
    pub fn pset(&mut self, x: i64, y: i64, c: Color)
        requires
            old(self).wf(),
        ensures
            final(self)@ == put(old(self)@, x as int, y as int, c),
            final(self).wf(),
    {
        if 0 <= x && x < 8 && 0 <= y && y < 8 {
            self.pixels.set((y * 8 + x) as usize, c);
        }
    }

    /// A new sprite with the cells of this one rearranged by `t`.
    pub fn transformed(&self, t: Transform) -> (r: Sprite)
        requires
            self.wf(),
        ensures
            r.wf(),
            r@ == transformed(self@, t),
    {
        let mut pixels: Vec<Color> = Vec::new();
        let mut i: usize = 0;
        while i < SPRITE_CELLS
            invariant
                i <= 64,
                self@.len() == 64,
                pixels@ == transformed(self@, t).subrange(0, i as int),
            decreases 64 - i,
        {
            let src = source_of(t, i);
            pixels.push(self.pixels[src]);
            i = i + 1;
            assert(pixels@ =~= transformed(self@, t).subrange(0, i as int));
        }
        assert(pixels@ =~= transformed(self@, t));
        Sprite { pixels }
    }
}

/// An ordered collection of sprites, addressed by index.
#[derive(Debug)]
pub struct SpriteSheet {
    sprites: Vec<Sprite>,
}

impl View for SpriteSheet {
    type V = Seq<Seq<Color>>;

    closed spec fn view(&self) -> Seq<Seq<Color>> {
        self.sprites@.map_values(|s: Sprite| s@)
    }
}

/// Every sprite of the sheet has 64 cells.
pub open spec fn sheet_wf(sheet: Seq<Seq<Color>>) -> bool {
    forall|i: int| 0 <= i < sheet.len() ==> #[trigger] sheet[i].len() == 64
}

impl SpriteSheet {
    pub open spec fn wf(&self) -> bool {
        sheet_wf(self@)
    }

    /// A sheet of `count` sprites, every cell of color 0.
    pub fn new(count: usize) -> (r: SpriteSheet)
        ensures
            r.wf(),
            r@.len() == count,
            forall|i: int| 0 <= i < count ==> #[trigger] r@[i] == Seq::new(64, |j: int| 0u8),
    {
        let mut sprites: Vec<Sprite> = Vec::new();
        let mut i: usize = 0;
        while i < count
            invariant
                i <= count,
                sprites@.len() == i,
                forall|j: int| 0 <= j < i ==> #[trigger] sprites@[j]@ == Seq::new(64, |k: int| 0u8),
            decreases count - i,
        {
            sprites.push(Sprite::new());
            i = i + 1;
        }
        SpriteSheet { sprites }
    }

    /// A sheet of `sprites`, when each of them has 64 cells.
    pub fn from_sprites(sprites: Vec<Sprite>) -> (r: Option<SpriteSheet>)
        ensures
            r is Some <==> (forall|i: int| 0 <= i < sprites@.len() ==> (#[trigger] sprites@[i]).wf()),
            r matches Some(sheet) ==> sheet.wf() && sheet@ == sprites@.map_values(|s: Sprite| s@),
    {
        let mut i: usize = 0;
        while i < sprites.len()
            invariant
                i <= sprites@.len(),
                forall|j: int| 0 <= j < i ==> (#[trigger] sprites@[j]).wf(),
            decreases sprites@.len() - i,
        {
            if sprites[i].cells().len() != SPRITE_CELLS {
                return None;
            }
            i = i + 1;
        }
        Some(SpriteSheet { sprites })
    }

    /// Number of sprites.
    pub fn len(&self) -> (r: usize)
        ensures
            r == self@.len(),
    {
        self.sprites.len()
    }

    /// The sprite at `index`.
    pub fn get_sprite(&self, index: usize) -> (r: &Sprite)
        requires
            index < self@.len(),
        ensures
            r@ == self@[index as int],
    {
        &self.sprites[index]
    }

    /// Replaces the sprite at `index` by `sprite`.
    pub fn set_sprite(&mut self, index: usize, sprite: Sprite)
        requires
            index < old(self)@.len(),
        ensures
            final(self)@ == old(self)@.update(index as int, sprite@),
    {
        self.sprites.set(index, sprite);
        assert(self@ =~= old(self)@.update(index as int, sprite@));
    }

    /// Writes `c` at `(x, y)` of sprite `index`; a write outside the sprite is ignored.
    pub fn pset(&mut self, index: usize, x: i64, y: i64, c: Color)
        requires
            index < old(self)@.len(),
            old(self).wf(),
        ensures
            final(self)@ == old(self)@.update(index as int, put(old(self)@[index as int], x as int, y as int, c)),
            final(self).wf(),
    {
        assert(self.sprites@[index as int]@ == self@[index as int]);
        self.sprites[index].pset(x, y, c);
        assert(self@ =~= old(self)@.update(index as int, put(old(self)@[index as int], x as int, y as int, c)));
    }
}

} // verus!
