//! A one-sprite buffer for copy and paste.
use vstd::prelude::*;

use crate::history::{edit_recorded, redo_edit, snapshot_changes, Command, Edit};
use crate::sprite::{Color, Sprite, SpriteSheet};

verus! {

/// `s` with its leading cells overwritten by `buffer`, up to the shorter of the two.
pub open spec fn pasted(buffer: Seq<Color>, s: Seq<Color>) -> Seq<Color> {
    Seq::new(s.len(), |i: int| if i < buffer.len() { buffer[i] } else { s[i] })
}

/// Holds the cells of one sprite, row-major. It starts out all color 0.
#[derive(Debug)]
pub struct Clipboard {
    data: Vec<Color>,
}

impl View for Clipboard {
    type V = Seq<Color>;

    closed spec fn view(&self) -> Seq<Color> {
        self.data@
    }
}

impl Clipboard {
    /// An empty clipboard: 64 cells of color 0.
    pub fn new() -> (r: Clipboard)
        ensures
            r@ == Seq::new(64, |i: int| 0u8),
    {
        let empty = Sprite::new();
        Clipboard { data: empty.to_cells() }
    }

    /// The buffered cells, row-major.
    pub fn cells(&self) -> (r: &[Color])
        ensures
            r@ == self@,
    {
        self.data.as_slice()
    }

    /// Overwrites the buffer with the cells of `sprite`.
    pub fn copy_sprite(&mut self, sprite: &Sprite)
        ensures
            final(self)@ == sprite@,
    {
        self.data = sprite.to_cells();
    }

    /// Writes the buffer into `sprite`, cell by cell in row-major order.
    pub fn paste_into(&self, sprite: &mut Sprite)
        requires
            old(sprite).wf(),
        ensures
            final(sprite).wf(),
            final(sprite)@ == pasted(self@, old(sprite)@),
    {
        let n = self.data.len();
        let mut i: usize = 0;
        while i < 64 && i < n
            invariant
                n == self@.len(),
                i <= 64,
                sprite.wf(),
                sprite@ == Seq::new(64, |j: int| if j < i && j < n { self@[j] } else { old(sprite)@[j] }),
            decreases 64 - i,
        {
            sprite.pset((i % 8) as i64, (i / 8) as i64, self.data[i]);
            i = i + 1;
            assert(sprite@ =~= Seq::new(64, |j: int| if j < i && j < n { self@[j] } else { old(sprite)@[j] }));
        }
        assert(sprite@ =~= pasted(self@, old(sprite)@));
    }

    /// Pastes the buffer into sprite `index` of `sheet` and returns the command that
    /// records it, holding the prior color of every cell, so that undoing it restores
    /// the sprite.
    pub fn paste_into_sheet(&self, sheet: &mut SpriteSheet, index: usize) -> (r: Command)
        requires
            old(sheet).wf(),
            index < old(sheet)@.len(),
        ensures
            final(sheet).wf(),
            final(sheet)@ == old(sheet)@.update(index as int, pasted(self@, old(sheet)@[index as int])),
            final(sheet)@ == redo_edit(old(sheet)@, r@),
            edit_recorded(old(sheet)@, r@),
            r@ == (Edit {
                sprite: index as int,
                changes: snapshot_changes(old(sheet)@[index as int], pasted(self@, old(sheet)@[index as int])),
            }),
    {
        let mut after = sheet.get_sprite(index).duplicate();
        self.paste_into(&mut after);
        Command::commit(sheet, index, after)
    }
}

/// Copying a sprite and pasting into another sprite makes the second equal to the first,
/// whatever it held before.
pub proof fn law_copy_then_paste(copied: Seq<Color>, target: Seq<Color>)
    requires
        copied.len() == 64,
        target.len() == 64,
    ensures
        pasted(copied, target) == copied,
{
    assert(pasted(copied, target) =~= copied);
}

} // verus!
