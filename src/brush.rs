//! Brush shapes and the application of one stroke to a sprite.
use vstd::prelude::*;

use crate::history::{edit_recorded, recorded, redo_changes, redo_edit, Command, Edit, PixelChange};
use crate::sprite::{get, in_bounds, put, Color, SpriteSheet};

verus! {

/// Whether one of the first `k` offsets of `offsets`, placed at `(ax, ay)`, lands on `(x, y)`.
pub open spec fn covered_by(offsets: Seq<(i32, i32)>, k: int, ax: int, ay: int, x: int, y: int) -> bool {
    exists|j: int| 0 <= j < k && ax + (#[trigger] offsets[j]).0 == x && ay + offsets[j].1 == y
}

/// Sprite `s` after a stroke of `offsets` at `(ax, ay)` in color `c`: each cell that an
/// offset lands on takes `c`, every other cell keeps its color.
pub open spec fn stamped(s: Seq<Color>, offsets: Seq<(i32, i32)>, ax: int, ay: int, c: Color) -> Seq<Color> {
    Seq::new(
        64,
        |i: int|
            if covered_by(offsets, offsets.len() as int, ax, ay, i % 8, i / 8) {
                c
            } else {
                s[i]
            },
    )
}

/// The changes a stroke of `offsets` at `(ax, ay)` in color `c` makes to `s`: one for
/// each offset that lands inside the sprite, in the order of the offsets, each holding
/// the color its cell had when it was written.
pub open spec fn stroke_changes(s: Seq<Color>, offsets: Seq<(i32, i32)>, ax: int, ay: int, c: Color) -> Seq<PixelChange>
    decreases offsets.len(),
{
    if offsets.len() == 0 {
        Seq::empty()
    } else {
        let p = stroke_changes(s, offsets.drop_last(), ax, ay, c);
        let x = ax + offsets.last().0;
        let y = ay + offsets.last().1;
        if in_bounds(x, y) {
            p.push(PixelChange { x: x as i64, y: y as i64, before: get(redo_changes(s, p), x, y), after: c })
        } else {
            p
        }
    }
}

/// A stamp pattern: the cells it paints, as offsets from the anchor cell.
#[derive(Debug)]
pub struct BrushShape {
    offsets: Vec<(i32, i32)>,
}

impl View for BrushShape {
    type V = Seq<(i32, i32)>;

    closed spec fn view(&self) -> Seq<(i32, i32)> {
        self.offsets@
    }
}

impl BrushShape {
    /// A brush with the given offsets.
    pub fn from_offsets(offsets: Vec<(i32, i32)>) -> (r: BrushShape)
        ensures
            r@ == offsets@,
    {
        BrushShape { offsets }
    }

    /// The single-cell brush.
    pub fn tiny() -> (r: BrushShape)
        ensures
            r@ == seq![(0i32, 0i32)],
    {
        let mut offsets: Vec<(i32, i32)> = Vec::new();
        offsets.push((0, 0));
        assert(offsets@ =~= seq![(0i32, 0i32)]);
        BrushShape { offsets }
    }

    /// The anchor and its four neighbours.
    pub fn plus() -> (r: BrushShape)
        ensures
            r@ == seq![(0i32, 0i32), (-1i32, 0i32), (1i32, 0i32), (0i32, -1i32), (0i32, 1i32)],
    {
        let mut offsets: Vec<(i32, i32)> = Vec::new();
        offsets.push((0, 0));
        offsets.push((-1, 0));
        offsets.push((1, 0));
        offsets.push((0, -1));
        offsets.push((0, 1));
        assert(offsets@ =~= seq![(0i32, 0i32), (-1i32, 0i32), (1i32, 0i32), (0i32, -1i32), (0i32, 1i32)]);
        BrushShape { offsets }
    }

    /// A 2 by 2 square with the anchor at its top left.
    pub fn square() -> (r: BrushShape)
        ensures
            r@ == seq![(0i32, 0i32), (1i32, 0i32), (0i32, 1i32), (1i32, 1i32)],
    {
        let mut offsets: Vec<(i32, i32)> = Vec::new();
        offsets.push((0, 0));
        offsets.push((1, 0));
        offsets.push((0, 1));
        offsets.push((1, 1));
        assert(offsets@ =~= seq![(0i32, 0i32), (1i32, 0i32), (0i32, 1i32), (1i32, 1i32)]);
        BrushShape { offsets }
    }

    /// The offsets, in order.
    pub fn offsets(&self) -> (r: &[(i32, i32)])
        ensures
            r@ == self@,
    {
        self.offsets.as_slice()
    }
}

/// Paints `brush` at `(ax, ay)` of sprite `sprite` in `color` and returns the command
/// that records it. Cells that fall outside the sprite are skipped. The command holds
/// the prior color of every cell written, so taking it back restores the whole stroke.
pub fn apply_stroke(sheet: &mut SpriteSheet, sprite: usize, ax: i32, ay: i32, color: Color, brush: &BrushShape) -> (r: Command)
    requires
        old(sheet).wf(),
        sprite < old(sheet)@.len(),
    ensures
        final(sheet).wf(),
        r@ == (Edit {
            sprite: sprite as int,
            changes: stroke_changes(old(sheet)@[sprite as int], brush@, ax as int, ay as int, color),
        }),
        final(sheet)@ == old(sheet)@.update(
            sprite as int,
            stamped(old(sheet)@[sprite as int], brush@, ax as int, ay as int, color),
        ),
        final(sheet)@ == redo_edit(old(sheet)@, r@),
        edit_recorded(old(sheet)@, r@),
{
    let ghost s0 = sheet@[sprite as int];
    let ghost offs = brush@;
    let mut changes: Vec<PixelChange> = Vec::new();
    let n = brush.offsets.len();
    let mut k: usize = 0;
    while k < n
        invariant
            n == offs.len(),
            offs == brush@,
            k <= n,
            sprite < sheet@.len(),
            sheet@.len() == old(sheet)@.len(),
            sheet.wf(),
            s0 == old(sheet)@[sprite as int],
            s0.len() == 64,
            sheet@ == old(sheet)@.update(sprite as int, sheet@[sprite as int]),
            sheet@[sprite as int] == redo_changes(s0, changes@),
            recorded(s0, changes@),
            changes@ == stroke_changes(s0, offs.subrange(0, k as int), ax as int, ay as int, color),
            sheet@[sprite as int] == Seq::new(
                64,
                |i: int|
                    if covered_by(offs, k as int, ax as int, ay as int, i % 8, i / 8) {
                        color
                    } else {
                        s0[i]
                    },
            ),
        decreases n - k,
    {
        let (dx, dy) = brush.offsets[k];
        let x = ax as i64 + dx as i64;
        let y = ay as i64 + dy as i64;
        let ghost prev_changes = changes@;
        if 0 <= x && x < 8 && 0 <= y && y < 8 {
            let before = sheet.get_sprite(sprite).pget(x, y);
            sheet.pset(sprite, x, y, color);
            changes.push(PixelChange { x, y, before, after: color });
            proof {
                assert(changes@.drop_last() =~= prev_changes);
            }
        }
        proof {
            assert(offs.subrange(0, k + 1).drop_last() =~= offs.subrange(0, k as int));
            assert(sheet@ =~= old(sheet)@.update(sprite as int, sheet@[sprite as int]));
            assert forall|i: int| 0 <= i < 64 implies
                #[trigger] covered_by(offs, k + 1, ax as int, ay as int, i % 8, i / 8)
                    == (covered_by(offs, k as int, ax as int, ay as int, i % 8, i / 8)
                        || (i % 8 == x && i / 8 == y)) by {
                if covered_by(offs, k + 1, ax as int, ay as int, i % 8, i / 8) {
                    let j = choose|j: int| 0 <= j < k + 1 && ax + (#[trigger] offs[j]).0 == i % 8 && ay + offs[j].1 == i / 8;
                    if j < k {
                        assert(covered_by(offs, k as int, ax as int, ay as int, i % 8, i / 8));
                    }
                }
                if covered_by(offs, k as int, ax as int, ay as int, i % 8, i / 8) {
                    let j = choose|j: int| 0 <= j < k && ax + (#[trigger] offs[j]).0 == i % 8 && ay + offs[j].1 == i / 8;
                    assert(0 <= j < k + 1);
                }
                if i % 8 == x && i / 8 == y {
                    assert(0 <= k < k + 1 && ax + offs[k as int].0 == i % 8 && ay + offs[k as int].1 == i / 8);
                }
            }
            assert(sheet@[sprite as int] =~= Seq::new(
                64,
                |i: int|
                    if covered_by(offs, k + 1, ax as int, ay as int, i % 8, i / 8) {
                        color
                    } else {
                        s0[i]
                    },
            ));
        }
        k = k + 1;
    }
    let r = Command::new(sprite, changes);
    proof {
        assert(sheet@[sprite as int] =~= stamped(s0, offs, ax as int, ay as int, color));
        assert(offs.subrange(0, n as int) =~= offs);
        assert(sheet@ =~= redo_edit(old(sheet)@, r@));
    }
    r
}

} // verus!
