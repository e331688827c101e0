//! Editing-session engine of a small pixel-art editor: keyboard chords,
//! brush strokes and an undo/redo history over 8 by 8 sprites, with the tile map and
//! sprite flags the editor also writes.
//!
//! Every edit is recorded with the prior color of each cell it wrote, so undo
//! restores multi-cell brush strokes exactly, not only their anchor cell. Reads
//! outside a sprite give color 0 and writes outside it are ignored.
use vstd::prelude::*;

pub mod brush;
pub mod chord;
pub mod clipboard;
pub mod flags;
pub mod hex;
pub mod history;
pub mod input;
pub mod map;
pub mod session;
pub mod sprite;

pub use input::{Key, KeyState, KeyboardEvent, Keys, MouseButton, MouseEvent};

use session::Editor;
use sprite::SpriteSheet;

verus! {

/// Number of sprites in a sheet that starts blank: four pages of 64.
pub const SHEET_SPRITES: usize = 256;

/// The state an editing session starts from: the sprite sheet that was loaded, or a
/// blank sheet of `SHEET_SPRITES` sprites when none was or it holds no sprite, and a
/// fresh editor that works on it.
pub fn run_app(sprite_sheet: Option<SpriteSheet>) -> (r: (Editor, SpriteSheet))
    requires
        sprite_sheet matches Some(s) ==> s.wf(),
    ensures
        r.0.ready(r.1@),
        r.0@.selected == 0,
        r.0@.history.past.len() == 0,
        r.0@.history.future.len() == 0,
        r.1@ == match sprite_sheet {
            Some(s) if s@.len() > 0 => s@,
            _ => Seq::new(SHEET_SPRITES as nat, |i: int| Seq::new(64, |j: int| 0u8)),
        },
{
    let sheet = match sprite_sheet {
        Some(s) if s.len() > 0 => s,
        _ => {
            let blank = SpriteSheet::new(SHEET_SPRITES);
            assert(blank@ =~= Seq::new(SHEET_SPRITES as nat, |i: int| Seq::new(64, |j: int| 0u8)));
            blank
        },
    };
    (Editor::init(), sheet)
}

} // verus!
