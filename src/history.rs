//! Reversible edits and the undo/redo history that holds them.
use vstd::prelude::*;

use crate::sprite::{get, put, sheet_wf, Color, Sprite, SpriteSheet};

verus! {

/// One cell of one sprite that changed from `before` to `after`.
#[derive(Clone, Copy, Debug, PartialEq, Eq, Structural)]
pub struct PixelChange {
    pub x: i64,
    pub y: i64,
    pub before: Color,
    pub after: Color,
}

/// `s` with the forward values of `cs` written in order.
pub open spec fn redo_changes(s: Seq<Color>, cs: Seq<PixelChange>) -> Seq<Color>
    decreases cs.len(),
{
    if cs.len() == 0 {
        s
    } else {
        let c = cs.last();
        put(redo_changes(s, cs.drop_last()), c.x as int, c.y as int, c.after)
    }
}

/// `s` with the prior values of `cs` written, the last change first.
pub open spec fn undo_changes(s: Seq<Color>, cs: Seq<PixelChange>) -> Seq<Color>
    decreases cs.len(),
{
    if cs.len() == 0 {
        s
    } else {
        let c = cs.last();
        undo_changes(put(s, c.x as int, c.y as int, c.before), cs.drop_last())
    }
}

/// Whether each change of `cs` names as `before` the color its cell held in `s`
/// once the earlier changes were made: `cs` was taken down while editing `s`.
pub open spec fn recorded(s: Seq<Color>, cs: Seq<PixelChange>) -> bool
    decreases cs.len(),
{
    if cs.len() == 0 {
        true
    } else {
        let c = cs.last();
        &&& recorded(s, cs.drop_last())
        &&& get(redo_changes(s, cs.drop_last()), c.x as int, c.y as int) == c.before
    }
}

/// One change for each of the 64 cells, in row-major order, from `b` to `a`.
pub open spec fn snapshot_changes(b: Seq<Color>, a: Seq<Color>) -> Seq<PixelChange> {
    Seq::new(64, |i: int| PixelChange { x: (i % 8) as i64, y: (i / 8) as i64, before: b[i], after: a[i] })
}

/// What a command is: the sprite it edits and the changes to that sprite.
pub struct Edit {
    pub sprite: int,
    pub changes: Seq<PixelChange>,
}

/// The sheet after `e` is made; an edit of a sprite that is not there changes nothing.
pub open spec fn redo_edit(sheet: Seq<Seq<Color>>, e: Edit) -> Seq<Seq<Color>> {
    if 0 <= e.sprite < sheet.len() {
        sheet.update(e.sprite, redo_changes(sheet[e.sprite], e.changes))
    } else {
        sheet
    }
}

/// The sheet after `e` is taken back.
pub open spec fn undo_edit(sheet: Seq<Seq<Color>>, e: Edit) -> Seq<Seq<Color>> {
    if 0 <= e.sprite < sheet.len() {
        sheet.update(e.sprite, undo_changes(sheet[e.sprite], e.changes))
    } else {
        sheet
    }
}

/// Whether `e` was taken down while editing `sheet`.
pub open spec fn edit_recorded(sheet: Seq<Seq<Color>>, e: Edit) -> bool {
    0 <= e.sprite < sheet.len() && recorded(sheet[e.sprite], e.changes)
}

pub proof fn lemma_redo_changes_len(s: Seq<Color>, cs: Seq<PixelChange>)
    requires
        s.len() == 64,
    ensures
        redo_changes(s, cs).len() == s.len(),
    decreases cs.len(),
{
    if cs.len() > 0 {
        lemma_redo_changes_len(s, cs.drop_last());
    }
}

/// Taking back changes recorded on `s` after making them gives `s` again.
pub proof fn lemma_undo_redo_changes(s: Seq<Color>, cs: Seq<PixelChange>)
    requires
        s.len() == 64,
        recorded(s, cs),
    ensures
        undo_changes(redo_changes(s, cs), cs) == s,
    decreases cs.len(),
{
    if cs.len() > 0 {
        let c = cs.last();
        let p = cs.drop_last();
        let r = redo_changes(s, p);
        lemma_redo_changes_len(s, p);
        lemma_undo_redo_changes(s, p);
        assert(put(put(r, c.x as int, c.y as int, c.after), c.x as int, c.y as int, c.before) =~= r);
    }
}

/// Taking back an edit recorded on `sheet` after making it gives `sheet` again.
pub proof fn lemma_undo_redo_edit(sheet: Seq<Seq<Color>>, e: Edit)
    requires
        sheet_wf(sheet),
        edit_recorded(sheet, e),
    ensures
        undo_edit(redo_edit(sheet, e), e) == sheet,
{
    lemma_undo_redo_changes(sheet[e.sprite], e.changes);
    assert(undo_edit(redo_edit(sheet, e), e) =~= sheet);
}

/// An atomic, reversible edit of one sprite.
#[derive(Debug)]
pub struct Command {
    sprite: usize,
    changes: Vec<PixelChange>,
}

impl View for Command {
    type V = Edit;

    closed spec fn view(&self) -> Edit {
        Edit { sprite: self.sprite as int, changes: self.changes@ }
    }
}

impl Command {
    /// A command that makes `changes`, in order, to sprite `sprite`.
    pub fn new(sprite: usize, changes: Vec<PixelChange>) -> (r: Command)
        ensures
            r@ == (Edit { sprite: sprite as int, changes: changes@ }),
    {
        Command { sprite, changes }
    }

    /// A command that changes one cell of sprite `sprite`.
    pub fn pixel_changed(sprite: usize, x: i64, y: i64, before: Color, after: Color) -> (r: Command)
        ensures
            r@ == (Edit { sprite: sprite as int, changes: seq![PixelChange { x, y, before, after }] }),
    {
        let mut changes: Vec<PixelChange> = Vec::new();
        changes.push(PixelChange { x, y, before, after });
        assert(changes@ =~= seq![PixelChange { x, y, before, after }]);
        Command { sprite, changes }
    }

    /// A command that turns sprite `sprite` from `before` into `after`, with one
    /// change for each cell, in row-major order.
    pub fn between(sprite: usize, before: &Sprite, after: &Sprite) -> (r: Command)
        requires
            before.wf(),
            after.wf(),
        ensures
            r@ == (Edit { sprite: sprite as int, changes: snapshot_changes(before@, after@) }),
            recorded(before@, r@.changes),
            redo_changes(before@, r@.changes) == after@,
    {
        let ghost b = before@;
        let ghost a = after@;
        let cells_b = before.cells();
        let cells_a = after.cells();
        let mut changes: Vec<PixelChange> = Vec::new();
        let mut i: usize = 0;
        while i < 64
            invariant
                i <= 64,
                cells_b@ == b,
                cells_a@ == a,
                b.len() == 64,
                a.len() == 64,
                changes@ == snapshot_changes(b, a).subrange(0, i as int),
                recorded(b, changes@),
                redo_changes(b, changes@) == Seq::new(64, |j: int| if j < i { a[j] } else { b[j] }),
            decreases 64 - i,
        {
            let ghost prev = changes@;
            let x = (i % 8) as i64;
            let y = (i / 8) as i64;
            changes.push(PixelChange { x, y, before: cells_b[i], after: cells_a[i] });
            assert(changes@.drop_last() =~= prev);
            i = i + 1;
            assert(changes@ =~= snapshot_changes(b, a).subrange(0, i as int));
            assert(redo_changes(b, changes@) =~= Seq::new(64, |j: int| if j < i { a[j] } else { b[j] }));
        }
        assert(redo_changes(b, changes@) =~= a);
        assert(changes@ =~= snapshot_changes(b, a));
        Command { sprite, changes }
    }

    /// Replaces sprite `index` of `sheet` by `after` and returns the command that records it.
    pub fn commit(sheet: &mut SpriteSheet, index: usize, after: Sprite) -> (r: Command)
        requires
            old(sheet).wf(),
            index < old(sheet)@.len(),
            after.wf(),
        ensures
            final(sheet).wf(),
            final(sheet)@ == old(sheet)@.update(index as int, after@),
            final(sheet)@ == redo_edit(old(sheet)@, r@),
            edit_recorded(old(sheet)@, r@),
            r@ == (Edit { sprite: index as int, changes: snapshot_changes(old(sheet)@[index as int], after@) }),
    {
        let r = Command::between(index, sheet.get_sprite(index), &after);
        sheet.set_sprite(index, after);
        assert(sheet@ =~= redo_edit(old(sheet)@, r@));
        r
    }

    /// The sprite this command edits.
    pub fn sprite(&self) -> (r: usize)
        ensures
            r == self@.sprite,
    {
        self.sprite
    }

    /// The cell changes, in the order they were made.
    pub fn changes(&self) -> (r: &[PixelChange])
        ensures
            r@ == self@.changes,
    {
        self.changes.as_slice()
    }

    /// Writes the forward value of each change, first to last.
    pub fn apply_forward(&self, sheet: &mut SpriteSheet)
        requires
            old(sheet).wf(),
        ensures
            final(sheet).wf(),
            final(sheet)@ == redo_edit(old(sheet)@, self@),
    {
        if self.sprite < sheet.len() {
            let ghost s0 = sheet@[self.sprite as int];
            let n = self.changes.len();
            let mut k: usize = 0;
            while k < n
                invariant
                    n == self.changes@.len(),
                    k <= n,
                    self.sprite < sheet@.len(),
                    sheet@.len() == old(sheet)@.len(),
                    sheet.wf(),
                    s0.len() == 64,
                    sheet@ == old(sheet)@.update(
                        self.sprite as int,
                        redo_changes(s0, self.changes@.subrange(0, k as int)),
                    ),
                decreases n - k,
            {
                let c = self.changes[k];
                sheet.pset(self.sprite, c.x, c.y, c.after);
                proof {
                    let p = self.changes@.subrange(0, k as int + 1);
                    assert(p.drop_last() =~= self.changes@.subrange(0, k as int));
                    assert(sheet@ =~= old(sheet)@.update(self.sprite as int, redo_changes(s0, p)));
                }
                k = k + 1;
            }
            assert(self.changes@.subrange(0, n as int) =~= self.changes@);
            assert(sheet@ =~= redo_edit(old(sheet)@, self@));
        }
    }

    /// Writes the prior value of each change, last to first.
    pub fn apply_inverse(&self, sheet: &mut SpriteSheet)
        requires
            old(sheet).wf(),
        ensures
            final(sheet).wf(),
            final(sheet)@ == undo_edit(old(sheet)@, self@),
    {
        if self.sprite < sheet.len() {
            let ghost s0 = sheet@[self.sprite as int];
            let mut k: usize = self.changes.len();
            assert(self.changes@.subrange(0, k as int) =~= self.changes@);
            while k > 0
                invariant
                    k <= self.changes@.len(),
                    self.sprite < sheet@.len(),
                    sheet@.len() == old(sheet)@.len(),
                    sheet.wf(),
                    s0.len() == 64,
                    sheet@ == old(sheet)@.update(self.sprite as int, sheet@[self.sprite as int]),
                    undo_changes(s0, self.changes@) == undo_changes(
                        sheet@[self.sprite as int],
                        self.changes@.subrange(0, k as int),
                    ),
                decreases k,
            {
                let c = self.changes[k - 1];
                sheet.pset(self.sprite, c.x, c.y, c.before);
                proof {
                    let p = self.changes@.subrange(0, k as int);
                    assert(p.drop_last() =~= self.changes@.subrange(0, k - 1));
                    assert(sheet@ =~= old(sheet)@.update(self.sprite as int, sheet@[self.sprite as int]));
                }
                k = k - 1;
            }
            assert(sheet@ =~= undo_edit(old(sheet)@, self@));
        }
    }
}

/// What a history is: edits that can be taken back (most recent last) and
/// edits that were taken back and can be made again (most recent last).
pub struct HistoryModel {
    pub past: Seq<Edit>,
    pub future: Seq<Edit>,
}

/// The history after `e` is recorded: any edit that could be made again is dropped.
pub open spec fn pushed(h: HistoryModel, e: Edit) -> HistoryModel {
    HistoryModel { past: h.past.push(e), future: Seq::empty() }
}

/// History and sheet after an undo; with nothing to take back, both stay as they are.
pub open spec fn undo_step(h: HistoryModel, sheet: Seq<Seq<Color>>) -> (HistoryModel, Seq<Seq<Color>>) {
    if h.past.len() == 0 {
        (h, sheet)
    } else {
        let e = h.past.last();
        (HistoryModel { past: h.past.drop_last(), future: h.future.push(e) }, undo_edit(sheet, e))
    }
}

/// History and sheet after a redo; with nothing to make again, both stay as they are.
pub open spec fn redo_step(h: HistoryModel, sheet: Seq<Seq<Color>>) -> (HistoryModel, Seq<Seq<Color>>) {
    if h.future.len() == 0 {
        (h, sheet)
    } else {
        let e = h.future.last();
        (HistoryModel { past: h.past.push(e), future: h.future.drop_last() }, redo_edit(sheet, e))
    }
}

/// The sprite named in the notice of an undo or redo that acts on `edits`.
pub open spec fn top_sprite(edits: Seq<Edit>) -> Option<usize> {
    if edits.len() == 0 {
        None
    } else {
        Some(edits.last().sprite as usize)
    }
}

/// The undo/redo history of an editing session.
#[derive(Debug)]
pub struct Commands {
    past: Vec<Command>,
    future: Vec<Command>,
}

impl View for Commands {
    type V = HistoryModel;

    closed spec fn view(&self) -> HistoryModel {
        HistoryModel {
            past: self.past@.map_values(|c: Command| c@),
            future: self.future@.map_values(|c: Command| c@),
        }
    }
}

impl Commands {
    /// An empty history.
    pub fn new() -> (r: Commands)
        ensures
            r@.past.len() == 0,
            r@.future.len() == 0,
    {
        Commands { past: Vec::new(), future: Vec::new() }
    }

    /// Number of edits that can be taken back.
    pub fn undo_len(&self) -> (r: usize)
        ensures
            r == self@.past.len(),
    {
        self.past.len()
    }

    /// Number of edits that can be made again.
    pub fn redo_len(&self) -> (r: usize)
        ensures
            r == self@.future.len(),
    {
        self.future.len()
    }

    /// Records `command`, which was already made; the redo entries are dropped.
    pub fn push(&mut self, command: Command)
        ensures
            final(self)@ == pushed(old(self)@, command@),
    {
        let ghost e = command@;
        self.past.push(command);
        self.future = Vec::new();
        assert(self@.past =~= old(self)@.past.push(e));
        assert(self@.future =~= Seq::<Edit>::empty());
    }

    /// Takes back the most recent edit, if any, and returns the sprite it touched.
    pub fn undo(&mut self, sheet: &mut SpriteSheet) -> (r: Option<usize>)
        requires
            old(sheet).wf(),
        ensures
            final(sheet).wf(),
            (final(self)@, final(sheet)@) == undo_step(old(self)@, old(sheet)@),
            r == top_sprite(old(self)@.past),
    {
        match self.past.pop() {
            None => None,
            Some(command) => {
                command.apply_inverse(sheet);
                let sprite = command.sprite;
                self.future.push(command);
                assert(self@.past =~= old(self)@.past.drop_last());
                assert(self@.future =~= old(self)@.future.push(old(self)@.past.last()));
                Some(sprite)
            },
        }
    }

    /// Makes again the most recently undone edit, if any, and returns the sprite it touched.
    pub fn redo(&mut self, sheet: &mut SpriteSheet) -> (r: Option<usize>)
        requires
            old(sheet).wf(),
        ensures
            final(sheet).wf(),
            (final(self)@, final(sheet)@) == redo_step(old(self)@, old(sheet)@),
            r == top_sprite(old(self)@.future),
    {
        match self.future.pop() {
            None => None,
            Some(command) => {
                command.apply_forward(sheet);
                let sprite = command.sprite;
                self.past.push(command);
                assert(self@.future =~= old(self)@.future.drop_last());
                assert(self@.past =~= old(self)@.past.push(old(self)@.future.last()));
                Some(sprite)
            },
        }
    }
}

/// The sheet after the edits `es` are made in order.
pub open spec fn sheet_after(sheet: Seq<Seq<Color>>, es: Seq<Edit>) -> Seq<Seq<Color>>
    decreases es.len(),
{
    if es.len() == 0 {
        sheet
    } else {
        redo_edit(sheet_after(sheet, es.drop_last()), es.last())
    }
}

/// The history after the edits `es` are recorded in order.
pub open spec fn pushed_all(h: HistoryModel, es: Seq<Edit>) -> HistoryModel
    decreases es.len(),
{
    if es.len() == 0 {
        h
    } else {
        pushed(pushed_all(h, es.drop_last()), es.last())
    }
}

/// Whether each edit of `es` was taken down on the sheet the earlier ones left.
pub open spec fn chain_recorded(sheet: Seq<Seq<Color>>, es: Seq<Edit>) -> bool
    decreases es.len(),
{
    if es.len() == 0 {
        true
    } else {
        chain_recorded(sheet, es.drop_last()) && edit_recorded(sheet_after(sheet, es.drop_last()), es.last())
    }
}

/// History and sheet after `n` undos.
pub open spec fn undo_times(h: HistoryModel, sheet: Seq<Seq<Color>>, n: nat) -> (HistoryModel, Seq<Seq<Color>>)
    decreases n,
{
    if n == 0 {
        (h, sheet)
    } else {
        let (h1, s1) = undo_step(h, sheet);
        undo_times(h1, s1, (n - 1) as nat)
    }
}

pub proof fn lemma_redo_edit_wf(sheet: Seq<Seq<Color>>, e: Edit)
    requires
        sheet_wf(sheet),
    ensures
        sheet_wf(redo_edit(sheet, e)),
        redo_edit(sheet, e).len() == sheet.len(),
{
    if 0 <= e.sprite < sheet.len() {
        lemma_redo_changes_len(sheet[e.sprite], e.changes);
    }
}

pub proof fn lemma_sheet_after_wf(sheet: Seq<Seq<Color>>, es: Seq<Edit>)
    requires
        sheet_wf(sheet),
    ensures
        sheet_wf(sheet_after(sheet, es)),
    decreases es.len(),
{
    if es.len() > 0 {
        lemma_sheet_after_wf(sheet, es.drop_last());
        lemma_redo_edit_wf(sheet_after(sheet, es.drop_last()), es.last());
    }
}

pub proof fn lemma_pushed_all_past(h: HistoryModel, es: Seq<Edit>)
    ensures
        pushed_all(h, es).past == h.past + es,
    decreases es.len(),
{
    if es.len() > 0 {
        lemma_pushed_all_past(h, es.drop_last());
        assert(h.past + es =~= (h.past + es.drop_last()).push(es.last()));
    }
}

proof fn lemma_undo_times_after_edits(past: Seq<Edit>, future: Seq<Edit>, sheet: Seq<Seq<Color>>, es: Seq<Edit>)
    requires
        sheet_wf(sheet),
        chain_recorded(sheet, es),
    ensures
        undo_times(HistoryModel { past: past + es, future }, sheet_after(sheet, es), es.len()).0.past == past,
        undo_times(HistoryModel { past: past + es, future }, sheet_after(sheet, es), es.len()).1 == sheet,
    decreases es.len(),
{
    if es.len() == 0 {
        assert(past + es =~= past);
    } else {
        let e = es.last();
        let p = es.drop_last();
        lemma_sheet_after_wf(sheet, p);
        lemma_undo_redo_edit(sheet_after(sheet, p), e);
        assert((past + es).drop_last() =~= past + p);
        lemma_undo_times_after_edits(past, future.push(e), sheet, p);
    }
}

/// Undoing as many times as edits were made and recorded takes the sheet back to
/// what it was before the first of them, and the undo stack back to what it held then.
pub proof fn law_undo_reverts_edits(h: HistoryModel, sheet: Seq<Seq<Color>>, es: Seq<Edit>)
    requires
        sheet_wf(sheet),
        chain_recorded(sheet, es),
    ensures
        undo_times(pushed_all(h, es), sheet_after(sheet, es), es.len()).1 == sheet,
        undo_times(pushed_all(h, es), sheet_after(sheet, es), es.len()).0.past == h.past,
{
    lemma_pushed_all_past(h, es);
    lemma_undo_times_after_edits(h.past, pushed_all(h, es).future, sheet, es);
}

/// A redo right after an undo of the latest edit gives back the sheet as that edit
/// left it, and the same history.
pub proof fn law_redo_after_undo(h: HistoryModel, before: Seq<Seq<Color>>)
    requires
        h.past.len() > 0,
        sheet_wf(before),
        edit_recorded(before, h.past.last()),
    ensures
        ({
            let edited = redo_edit(before, h.past.last());
            let (h1, s1) = undo_step(h, edited);
            redo_step(h1, s1) == (h, edited)
        }),
{
    let e = h.past.last();
    lemma_undo_redo_edit(before, e);
    let (h1, s1) = undo_step(h, redo_edit(before, e));
    assert(h1.past.push(e) =~= h.past);
    assert(h1.future.drop_last() =~= h.future);
}

/// A push after one or more undos leaves nothing to redo.
pub proof fn law_push_after_undo_drops_redo(h: HistoryModel, sheet: Seq<Seq<Color>>, n: nat, e: Edit)
    requires
        n >= 1,
    ensures
        pushed(undo_times(h, sheet, n).0, e).future.len() == 0,
        pushed(undo_times(h, sheet, n).0, e).past == undo_times(h, sheet, n).0.past.push(e),
{
}

} // verus!
