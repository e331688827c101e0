//! The editing session: routes key events to the chord recognizer, chord actions and
//! brush strokes to the sprite sheet, and every edit through the undo/redo history.
use vstd::prelude::*;

use crate::brush::{apply_stroke, stamped, stroke_changes, BrushShape};
use crate::chord::{
    chord_matches, fired, held_after, is_modifier, table_wf, Chord, KeyCombos, RecognizerModel,
};
use crate::clipboard::{pasted, Clipboard};
use crate::history::{
    chain_recorded, edit_recorded, law_undo_reverts_edits, pushed, pushed_all, sheet_after, undo_times, redo_edit, redo_step, snapshot_changes, top_sprite, undo_step, Command, Commands, Edit,
    HistoryModel,
};
use crate::input::{Key, KeyState, KeyboardEvent};
use crate::flags::{flag_bit, with_flag, Flags};
use crate::map::{tile_put, TileMap};
use crate::sprite::{sheet_wf, transformed, Color, Sprite, SpriteSheet, Transform};

verus! {

/// The two editing modes.
#[derive(Clone, Copy, Debug, PartialEq, Eq, Structural)]
pub enum Tab {
    SpriteEditor,
    MapEditor,
}

/// The other mode: with two modes, previous and next both switch.
pub open spec fn other_tab(t: Tab) -> Tab {
    match t {
        Tab::SpriteEditor => Tab::MapEditor,
        Tab::MapEditor => Tab::SpriteEditor,
    }
}

impl Tab {
    /// The mode before this one.
    pub fn previous(self) -> (r: Tab)
        ensures
            r == other_tab(self),
    {
        match self {
            Tab::SpriteEditor => Tab::MapEditor,
            Tab::MapEditor => Tab::SpriteEditor,
        }
    }

    /// The mode after this one.
    pub fn next(self) -> (r: Tab)
        ensures
            r == other_tab(self),
    {
        match self {
            Tab::SpriteEditor => Tab::MapEditor,
            Tab::MapEditor => Tab::SpriteEditor,
        }
    }
}

/// What a chord can ask the editor to do.
#[derive(Clone, Copy, Debug, PartialEq, Eq, Structural)]
pub enum KeyComboAction {
    Copy,
    Paste,
    FlipVertically,
    FlipHorizontally,
    Undo,
    Redo,
    Save,
    PreviousTab,
    NextTab,
}

/// A direction in which a sprite's cells can be moved by one, wrapping around.
#[derive(Clone, Copy, Debug, PartialEq, Eq, Structural)]
pub enum ShiftDirection {
    Up,
    Down,
    Left,
    Right,
}

/// The shift a key asks for: W, S, A and D.
pub open spec fn shift_for(key: Key) -> Option<ShiftDirection> {
    match key {
        Key::W => Some(ShiftDirection::Up),
        Key::D => Some(ShiftDirection::Right),
        Key::S => Some(ShiftDirection::Down),
        Key::A => Some(ShiftDirection::Left),
        _ => None,
    }
}

/// The rearrangement of cells a shift makes.
pub open spec fn shift_transform(d: ShiftDirection) -> Transform {
    match d {
        ShiftDirection::Up => Transform::ShiftUp,
        ShiftDirection::Down => Transform::ShiftDown,
        ShiftDirection::Left => Transform::ShiftLeft,
        ShiftDirection::Right => Transform::ShiftRight,
    }
}

impl ShiftDirection {
    /// The shift that `key` asks for, if any.
    pub fn from_key(key: &Key) -> (r: Option<ShiftDirection>)
        ensures
            r == shift_for(*key),
    {
        match key {
            Key::W => Some(ShiftDirection::Up),
            Key::D => Some(ShiftDirection::Right),
            Key::S => Some(ShiftDirection::Down),
            Key::A => Some(ShiftDirection::Left),
            _ => None,
        }
    }

    /// The rearrangement of cells this shift makes.
    pub fn transform(&self) -> (r: Transform)
        ensures
            r == shift_transform(*self),
    {
        match self {
            ShiftDirection::Up => Transform::ShiftUp,
            ShiftDirection::Down => Transform::ShiftDown,
            ShiftDirection::Left => Transform::ShiftLeft,
            ShiftDirection::Right => Transform::ShiftRight,
        }
    }

    /// Moves the cells of `sprite` by one in this direction, wrapping around.
    pub fn shift(&self, sprite: &mut Sprite)
        requires
            old(sprite).wf(),
        ensures
            final(sprite).wf(),
            final(sprite)@ == transformed(old(sprite)@, shift_transform(*self)),
    {
        *sprite = sprite.transformed(self.transform());
    }
}

/// What the surroundings are to do after an event: tell the user, or save.
#[derive(Clone, Copy, Debug, PartialEq, Eq, Structural)]
pub enum Effect {
    Nothing,
    /// The selected sprite was copied.
    Copied,
    /// The clipboard was pasted into the selected sprite.
    Pasted,
    /// An edit of the given sprite was taken back.
    Undid(usize),
    /// An edit of the given sprite was made again.
    Redid(usize),
    /// The sprite sheet and the rest of the project are to be saved.
    Save,
}

/// What an editor is.
pub struct EditorModel {
    pub tab: Tab,
    pub selected: int,
    pub combos: RecognizerModel<KeyComboAction>,
    pub clipboard: Seq<Color>,
    pub history: HistoryModel,
    pub brush: Seq<(i32, i32)>,
}

/// Editor and sheet after the selected sprite is replaced by `after` as one edit.
pub open spec fn replaced(m: EditorModel, sheet: Seq<Seq<Color>>, after: Seq<Color>) -> (EditorModel, Seq<Seq<Color>>) {
    let e = Edit { sprite: m.selected, changes: snapshot_changes(sheet[m.selected], after) };
    (EditorModel { history: pushed(m.history, e), ..m }, sheet.update(m.selected, after))
}

/// Editor, sheet and effect after `a` is carried out.
pub open spec fn after_action(m: EditorModel, sheet: Seq<Seq<Color>>, a: KeyComboAction) -> (EditorModel, Seq<Seq<Color>>, Effect) {
    let cur = sheet[m.selected];
    match a {
        KeyComboAction::Copy => (EditorModel { clipboard: cur, ..m }, sheet, Effect::Copied),
        KeyComboAction::Paste => {
            let (m1, s1) = replaced(m, sheet, pasted(m.clipboard, cur));
            (m1, s1, Effect::Pasted)
        },
        KeyComboAction::FlipVertically => {
            let (m1, s1) = replaced(m, sheet, transformed(cur, Transform::FlipVertically));
            (m1, s1, Effect::Nothing)
        },
        KeyComboAction::FlipHorizontally => {
            let (m1, s1) = replaced(m, sheet, transformed(cur, Transform::FlipHorizontally));
            (m1, s1, Effect::Nothing)
        },
        KeyComboAction::Undo => {
            let (h1, s1) = undo_step(m.history, sheet);
            let effect = match top_sprite(m.history.past) {
                Some(i) => Effect::Undid(i),
                None => Effect::Nothing,
            };
            (EditorModel { history: h1, ..m }, s1, effect)
        },
        KeyComboAction::Redo => {
            let (h1, s1) = redo_step(m.history, sheet);
            let effect = match top_sprite(m.history.future) {
                Some(i) => Effect::Redid(i),
                None => Effect::Nothing,
            };
            (EditorModel { history: h1, ..m }, s1, effect)
        },
        KeyComboAction::Save => (m, sheet, Effect::Save),
        KeyComboAction::PreviousTab => (EditorModel { tab: other_tab(m.tab), ..m }, sheet, Effect::Nothing),
        KeyComboAction::NextTab => (EditorModel { tab: other_tab(m.tab), ..m }, sheet, Effect::Nothing),
    }
}

/// Editor, sheet and effect after a key event reaches the chord recognizer; the effect
/// is `None` when no chord fired.
pub open spec fn after_key_combos(m: EditorModel, sheet: Seq<Seq<Color>>, event: KeyboardEvent) -> (EditorModel, Seq<Seq<Color>>, Option<Effect>) {
    let down = event.state == KeyState::Down;
    let held = held_after(m.combos.held, event.key, down);
    let m1 = EditorModel { combos: RecognizerModel { chords: m.combos.chords, held }, ..m };
    let action = if down {
        fired(m.combos.chords, event.key, held.remove(event.key))
    } else {
        None
    };
    match action {
        Some(a) => {
            let (m2, s2, e) = after_action(m1, sheet, a);
            (m2, s2, Some(e))
        },
        None => (m1, sheet, None),
    }
}

/// Editor, sheet and effect after a key event: the chord that matches fires, if any;
/// then W, A, S or D going down shifts the selected sprite, whether a chord fired or not.
/// The effect is the chord's, or `Nothing` when none fired.
pub open spec fn after_key(m: EditorModel, sheet: Seq<Seq<Color>>, event: KeyboardEvent) -> (EditorModel, Seq<Seq<Color>>, Effect) {
    let (m1, s1, e) = after_key_combos(m, sheet, event);
    let effect = match e {
        Some(e) => e,
        None => Effect::Nothing,
    };
    if event.state == KeyState::Down && shift_for(event.key) is Some {
        let t = shift_transform(shift_for(event.key)->0);
        let (m2, s2) = replaced(m1, s1, transformed(s1[m1.selected], t));
        (m2, s2, effect)
    } else {
        (m1, s1, effect)
    }
}

/// Editor and sheet after the Undo action is carried out `n` times.
pub open spec fn undo_presses(m: EditorModel, sheet: Seq<Seq<Color>>, n: nat) -> (EditorModel, Seq<Seq<Color>>)
    decreases n,
{
    if n == 0 {
        (m, sheet)
    } else {
        let (m1, s1, _) = after_action(m, sheet, KeyComboAction::Undo);
        undo_presses(m1, s1, (n - 1) as nat)
    }
}

proof fn lemma_undo_presses(m: EditorModel, sheet: Seq<Seq<Color>>, n: nat)
    ensures
        undo_presses(m, sheet, n).0.history == undo_times(m.history, sheet, n).0,
        undo_presses(m, sheet, n).1 == undo_times(m.history, sheet, n).1,
    decreases n,
{
    if n > 0 {
        let (m1, s1, _) = after_action(m, sheet, KeyComboAction::Undo);
        lemma_undo_presses(m1, s1, (n - 1) as nat);
    }
}

/// Edits made one after another, each recorded on the sheet the earlier ones left (as
/// `edit_sprite`, `shift_sprite` and the editing chords record them), are all taken
/// back by as many presses of Undo: every cell gets back the color it had before the
/// first edit, also a cell edited several times, and the undo stack is as it was.
pub proof fn law_undo_presses_revert_edits(m: EditorModel, sheet: Seq<Seq<Color>>, es: Seq<Edit>)
    requires
        sheet_wf(sheet),
        chain_recorded(sheet, es),
    ensures
        undo_presses(EditorModel { history: pushed_all(m.history, es), ..m }, sheet_after(sheet, es), es.len()).1
            == sheet,
        undo_presses(EditorModel { history: pushed_all(m.history, es), ..m }, sheet_after(sheet, es), es.len()).0.history.past
            == m.history.past,
{
    law_undo_reverts_edits(m.history, sheet, es);
    lemma_undo_presses(EditorModel { history: pushed_all(m.history, es), ..m }, sheet_after(sheet, es), es.len());
}

/// Whether carrying out `a` records a new edit.
pub open spec fn makes_edit(a: KeyComboAction) -> bool {
    a == KeyComboAction::Paste || a == KeyComboAction::FlipVertically || a == KeyComboAction::FlipHorizontally
}

/// The latest edit of `h` was taken down on `before` and turns it into `after`.
pub open spec fn edit_made(before: Seq<Seq<Color>>, after: Seq<Seq<Color>>, h: HistoryModel) -> bool {
    &&& h.past.len() > 0
    &&& edit_recorded(before, h.past.last())
    &&& after == redo_edit(before, h.past.last())
}

/// The chords an editor starts with, in registration order.
pub open spec fn editor_chords() -> Seq<(KeyComboAction, Key, Set<Key>)> {
    let control = set![Key::Control];
    let alt = set![Key::Alt];
    seq![
        (KeyComboAction::Copy, Key::C, control),
        (KeyComboAction::Paste, Key::V, control),
        (KeyComboAction::Undo, Key::Z, control),
        (KeyComboAction::Redo, Key::Y, control),
        (KeyComboAction::Save, Key::S, control),
        (KeyComboAction::FlipVertically, Key::V, Set::empty()),
        (KeyComboAction::FlipHorizontally, Key::F, Set::empty()),
        (KeyComboAction::PreviousTab, Key::LeftArrow, alt),
        (KeyComboAction::NextTab, Key::RightArrow, alt),
    ]
}

/// Whether `chords` holds exactly the first `n` chords of `editor_chords()`.
pub open spec fn holds_editor_chords(chords: Seq<Chord<KeyComboAction>>, n: int) -> bool {
    &&& chords.len() == n
    &&& forall|i: int|
        0 <= i < n ==> ((#[trigger] chords[i]).action, chords[i].trigger, chords[i].modifiers@)
            == editor_chords()[i]
}

/// Registers the next chord of `editor_chords()`, which cannot clash with those before it.
fn register_next(combos: &mut KeyCombos<KeyComboAction>, action: KeyComboAction, key: Key, modifier: Option<Key>)
    requires
        old(combos).wf(),
        old(combos)@.chords.len() < 9,
        holds_editor_chords(old(combos)@.chords, old(combos)@.chords.len() as int),
        editor_chords()[old(combos)@.chords.len() as int] == (
            action,
            key,
            match modifier {
                Some(m) => set![m],
                None => Set::<Key>::empty(),
            },
        ),
        modifier matches Some(m) ==> is_modifier(m),
    ensures
        final(combos).wf(),
        final(combos)@.held == old(combos)@.held,
        holds_editor_chords(final(combos)@.chords, old(combos)@.chords.len() as int + 1),
{
    let mut modifiers: Vec<Key> = Vec::new();
    if let Some(m) = modifier {
        modifiers.push(m);
    }
    let ghost n = old(combos)@.chords.len() as int;
    let ghost t = modifiers@.to_set();
    proof {
        match modifier {
            Some(m) => {
                assert(modifiers@[0] == m);
                assert(t =~= set![m]);
            },
            None => {
                assert(t =~= Set::<Key>::empty());
            },
        }
    }
    proof {
        let table = editor_chords();
        assert forall|i: int| 0 <= i < n implies !(#[trigger] table[i].1 == key && table[i].2 == t) by {
            if table[i].1 == key {
                assert(table[i].2.contains(Key::Control) != t.contains(Key::Control));
            }
        }
        assert forall|i: int| 0 <= i < n implies !chord_matches(#[trigger] old(combos)@.chords[i], key, t) by {
            assert(old(combos)@.chords[i].trigger == table[i].1);
        }
    }
    let _ = combos.register(action, key, modifiers.as_slice());
    proof {
        assert forall|i: int| 0 <= i < n + 1 implies ((#[trigger] combos@.chords[i]).action, combos@.chords[i].trigger, combos@.chords[i].modifiers@)
            == editor_chords()[i] by {
            if i < n {
                assert(combos@.chords[i] == combos@.chords.drop_last()[i]);
            }
        }
    }
}

/// The editor's state apart from the sprite sheet, which it edits but does not own.
#[derive(Debug)]
pub struct Editor {
    tab: Tab,
    selected_sprite: usize,
    key_combos: KeyCombos<KeyComboAction>,
    clipboard: Clipboard,
    commands: Commands,
    brush_size: BrushShape,
}

impl View for Editor {
    type V = EditorModel;

    closed spec fn view(&self) -> EditorModel {
        EditorModel {
            tab: self.tab,
            selected: self.selected_sprite as int,
            combos: self.key_combos@,
            clipboard: self.clipboard@,
            history: self.commands@,
            brush: self.brush_size@,
        }
    }
}

impl Editor {
    /// A fresh editor: sprite mode, sprite 0 selected, the single-cell brush, an empty
    /// clipboard and history, nothing held, and the chords of `editor_chords()`.
    pub fn init() -> (r: Editor)
        ensures
            r.wf(),
            r@.tab == Tab::SpriteEditor,
            r@.selected == 0,
            r@.brush == seq![(0i32, 0i32)],
            r@.clipboard == Seq::new(64, |i: int| 0u8),
            r@.history.past.len() == 0,
            r@.history.future.len() == 0,
            r@.combos.held == Set::<Key>::empty(),
            holds_editor_chords(r@.combos.chords, 9),
    {
        let mut key_combos = KeyCombos::new();
        register_next(&mut key_combos, KeyComboAction::Copy, Key::C, Some(Key::Control));
        register_next(&mut key_combos, KeyComboAction::Paste, Key::V, Some(Key::Control));
        register_next(&mut key_combos, KeyComboAction::Undo, Key::Z, Some(Key::Control));
        register_next(&mut key_combos, KeyComboAction::Redo, Key::Y, Some(Key::Control));
        register_next(&mut key_combos, KeyComboAction::Save, Key::S, Some(Key::Control));
        register_next(&mut key_combos, KeyComboAction::FlipVertically, Key::V, None);
        register_next(&mut key_combos, KeyComboAction::FlipHorizontally, Key::F, None);
        register_next(&mut key_combos, KeyComboAction::PreviousTab, Key::LeftArrow, Some(Key::Alt));
        register_next(&mut key_combos, KeyComboAction::NextTab, Key::RightArrow, Some(Key::Alt));
        Editor {
            tab: Tab::SpriteEditor,
            selected_sprite: 0,
            key_combos,
            clipboard: Clipboard::new(),
            commands: Commands::new(),
            brush_size: BrushShape::tiny(),
        }
    }

    /// The chord table is well formed.
    pub open spec fn wf(&self) -> bool {
        table_wf(self@.combos.chords)
    }

    /// Whether the editor can work on `sheet`: both well formed, and the selected sprite there.
    pub open spec fn ready(&self, sheet: Seq<Seq<Color>>) -> bool {
        self.wf() && sheet_wf(sheet) && 0 <= self@.selected < sheet.len()
    }

    /// Hands `key_event` to the chord recognizer and carries out the action of the chord
    /// that fires, if one does; returns its effect, or `None` when no chord fired.
    pub fn handle_key_combos(&mut self, key_event: KeyboardEvent, sheet: &mut SpriteSheet) -> (r: Option<Effect>)
        requires
            old(self).ready(old(sheet)@),
        ensures
            final(self).ready(final(sheet)@),
            (final(self)@, final(sheet)@, r) == after_key_combos(old(self)@, old(sheet)@, key_event),
    {
        match self.key_combos.on_event(key_event) {
            Some(action) => Some(self.handle_key_combo(action, sheet)),
            None => None,
        }
    }

    /// Handles one key event: the chord that matches fires, if any; then W, A, S or D
    /// going down shifts the selected sprite, whether a chord fired or not.
    pub fn on_key(&mut self, key_event: KeyboardEvent, sheet: &mut SpriteSheet) -> (r: Effect)
        requires
            old(self).ready(old(sheet)@),
        ensures
            final(self).ready(final(sheet)@),
            (final(self)@, final(sheet)@, r) == after_key(old(self)@, old(sheet)@, key_event),
    {
        let effect = match self.handle_key_combos(key_event, sheet) {
            Some(effect) => effect,
            None => Effect::Nothing,
        };
        if key_event.state == KeyState::Down {
            if let Some(direction) = ShiftDirection::from_key(&key_event.key) {
                self.shift_sprite(direction, sheet);
            }
        }
        effect
    }

    /// Moves the cells of the selected sprite by one in `shift_direction`, as one edit.
    pub fn shift_sprite(&mut self, shift_direction: ShiftDirection, sheet: &mut SpriteSheet)
        requires
            old(self).ready(old(sheet)@),
        ensures
            final(self).ready(final(sheet)@),
            (final(self)@, final(sheet)@) == replaced(
                old(self)@,
                old(sheet)@,
                transformed(old(sheet)@[old(self)@.selected], shift_transform(shift_direction)),
            ),
            edit_made(old(sheet)@, final(sheet)@, final(self)@.history),
    {
        let mut after = sheet.get_sprite(self.selected_sprite).duplicate();
        shift_direction.shift(&mut after);
        let command = Command::commit(sheet, self.selected_sprite, after);
        self.commands.push(command);
    }

    /// Paints the current brush at `(x, y)` of the selected sprite in `color`, as one edit
    /// that undo takes back cell by cell.
    pub fn edit_sprite(&mut self, x: i32, y: i32, color: Color, sheet: &mut SpriteSheet)
        requires
            old(self).ready(old(sheet)@),
        ensures
            final(self).ready(final(sheet)@),
            final(sheet)@ == old(sheet)@.update(
                old(self)@.selected,
                stamped(old(sheet)@[old(self)@.selected], old(self)@.brush, x as int, y as int, color),
            ),
            final(self)@ == (EditorModel {
                history: pushed(
                    old(self)@.history,
                    Edit {
                        sprite: old(self)@.selected,
                        changes: stroke_changes(old(sheet)@[old(self)@.selected], old(self)@.brush, x as int, y as int, color),
                    },
                ),
                ..old(self)@
            }),
            edit_made(old(sheet)@, final(sheet)@, final(self)@.history),
    {
        let command = apply_stroke(sheet, self.selected_sprite, x, y, color, &self.brush_size);
        self.commands.push(command);
    }

    /// Turns flag `flag_index` of the selected sprite over.
    pub fn toggle_flag(&self, flag_index: u8, flags: &mut Flags)
        requires
            0 <= self@.selected < old(flags)@.len(),
            flag_index < 8,
        ensures
            final(flags)@ == old(flags)@.update(
                self@.selected,
                with_flag(
                    old(flags)@[self@.selected],
                    flag_index,
                    !flag_bit(old(flags)@[self@.selected], flag_index),
                ),
            ),
    {
        let value = flags.fget_n(self.selected_sprite, flag_index);
        flags.fset(self.selected_sprite, flag_index, !value);
    }

    /// Places the selected sprite's number on tile `(x, y)` of `map`; a tile outside the
    /// map is ignored. Sprite numbers above 255 are placed as their value modulo 256.
    pub fn click_map_tile(&self, x: i64, y: i64, map: &mut TileMap)
        requires
            old(map).wf(),
        ensures
            final(map).wf(),
            final(map)@ == tile_put(old(map)@, x as int, y as int, (self@.selected % 256) as u8),
    {
        map.mset(x, y, (self.selected_sprite % 256) as u8);
    }

    /// A press at `(x, y)` of the surface the current mode edits: in sprite mode a
    /// stroke of the brush in `color` on the selected sprite, in map mode the selected
    /// sprite placed on that map tile.
    pub fn pointer_down(&mut self, x: i32, y: i32, color: Color, sheet: &mut SpriteSheet, map: &mut TileMap)
        requires
            old(self).ready(old(sheet)@),
            old(map).wf(),
        ensures
            final(self).ready(final(sheet)@),
            final(map).wf(),
            old(self)@.tab == Tab::SpriteEditor ==> {
                &&& final(map)@ == old(map)@
                &&& final(sheet)@ == old(sheet)@.update(
                    old(self)@.selected,
                    stamped(old(sheet)@[old(self)@.selected], old(self)@.brush, x as int, y as int, color),
                )
                &&& final(self)@ == (EditorModel {
                    history: pushed(
                        old(self)@.history,
                        Edit {
                            sprite: old(self)@.selected,
                            changes: stroke_changes(old(sheet)@[old(self)@.selected], old(self)@.brush, x as int, y as int, color),
                        },
                    ),
                    ..old(self)@
                })
            },
            old(self)@.tab == Tab::MapEditor ==> {
                &&& final(map)@ == tile_put(old(map)@, x as int, y as int, (old(self)@.selected % 256) as u8)
                &&& final(sheet)@ == old(sheet)@
                &&& final(self)@ == old(self)@
            },
    {
        match self.tab {
            Tab::SpriteEditor => self.edit_sprite(x, y, color, sheet),
            Tab::MapEditor => self.click_map_tile(x as i64, y as i64, map),
        }
    }

    /// Selects sprite `index` when `sheet` has it; returns whether it did.
    pub fn select_sprite(&mut self, index: usize, sheet: &SpriteSheet) -> (r: bool)
        requires
            old(self).ready(sheet@),
        ensures
            final(self).ready(sheet@),
            r == (index < sheet@.len()),
            final(self)@ == (EditorModel {
                selected: if r { index as int } else { old(self)@.selected },
                ..old(self)@
            }),
    {
        if index < sheet.len() {
            self.selected_sprite = index;
            true
        } else {
            false
        }
    }

    /// Switches to `brush`.
    pub fn select_brush(&mut self, brush: BrushShape)
        ensures
            final(self).wf() == old(self).wf(),
            final(self)@ == (EditorModel { brush: brush@, ..old(self)@ }),
    {
        self.brush_size = brush;
    }

    /// Switches to `tab`.
    pub fn select_tab(&mut self, tab: Tab)
        ensures
            final(self).wf() == old(self).wf(),
            final(self)@ == (EditorModel { tab, ..old(self)@ }),
    {
        self.tab = tab;
    }

    /// The current mode.
    pub fn tab(&self) -> (r: Tab)
        ensures
            r == self@.tab,
    {
        self.tab
    }

    /// The selected sprite.
    pub fn selected_sprite(&self) -> (r: usize)
        ensures
            r == self@.selected,
    {
        self.selected_sprite
    }

    /// The undo/redo history.
    pub fn commands(&self) -> (r: &Commands)
        ensures
            r@ == self@.history,
    {
        &self.commands
    }

    /// The clipboard.
    pub fn clipboard(&self) -> (r: &Clipboard)
        ensures
            r@ == self@.clipboard,
    {
        &self.clipboard
    }

    /// The chord recognizer.
    pub fn key_combos(&self) -> (r: &KeyCombos<KeyComboAction>)
        ensures
            r@ == self@.combos,
    {
        &self.key_combos
    }

    /// The current brush.
    pub fn brush(&self) -> (r: &BrushShape)
        ensures
            r@ == self@.brush,
    {
        &self.brush_size
    }

    /// Carries out `key_combo` on the selected sprite of `sheet`.
    pub fn handle_key_combo(&mut self, key_combo: KeyComboAction, sheet: &mut SpriteSheet) -> (r: Effect)
        requires
            old(self).ready(old(sheet)@),
        ensures
            final(self).ready(final(sheet)@),
            (final(self)@, final(sheet)@, r) == after_action(old(self)@, old(sheet)@, key_combo),
            makes_edit(key_combo) ==> edit_made(old(sheet)@, final(sheet)@, final(self)@.history),
    {
        let sel = self.selected_sprite;
        match key_combo {
            KeyComboAction::Copy => {
                self.clipboard.copy_sprite(sheet.get_sprite(sel));
                Effect::Copied
            },
            KeyComboAction::Paste => {
                let command = self.clipboard.paste_into_sheet(sheet, sel);
                self.commands.push(command);
                Effect::Pasted
            },
            KeyComboAction::FlipVertically => {
                let after = sheet.get_sprite(sel).transformed(Transform::FlipVertically);
                let command = Command::commit(sheet, sel, after);
                self.commands.push(command);
                Effect::Nothing
            },
            KeyComboAction::FlipHorizontally => {
                let after = sheet.get_sprite(sel).transformed(Transform::FlipHorizontally);
                let command = Command::commit(sheet, sel, after);
                self.commands.push(command);
                Effect::Nothing
            },
            KeyComboAction::Undo => {
                match self.commands.undo(sheet) {
                    Some(i) => Effect::Undid(i),
                    None => Effect::Nothing,
                }
            },
            KeyComboAction::Redo => {
                match self.commands.redo(sheet) {
                    Some(i) => Effect::Redid(i),
                    None => Effect::Nothing,
                }
            },
            KeyComboAction::Save => Effect::Save,
            KeyComboAction::PreviousTab => {
                self.tab = self.tab.previous();
                Effect::Nothing
            },
            KeyComboAction::NextTab => {
                self.tab = self.tab.next();
                Effect::Nothing
            },
        }
    }
}

} // verus!
