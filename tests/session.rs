use pixel_editor::brush::BrushShape;
use pixel_editor::flags::Flags;
use pixel_editor::map::TileMap;
use pixel_editor::session::{Editor, Effect, KeyComboAction, ShiftDirection, Tab};
use pixel_editor::sprite::{Sprite, SpriteSheet, Transform};
use pixel_editor::{Key, KeyState, KeyboardEvent};

fn down(key: Key) -> KeyboardEvent {
    KeyboardEvent { key, state: KeyState::Down }
}

fn up(key: Key) -> KeyboardEvent {
    KeyboardEvent { key, state: KeyState::Up }
}

fn cells(sheet: &SpriteSheet, i: usize) -> Vec<u8> {
    sheet.get_sprite(i).cells().to_vec()
}

#[test]
fn end_to_end_set_undo_redo() {
    let mut sheet = SpriteSheet::new(4);
    let mut editor = Editor::init();
    editor.edit_sprite(0, 0, 1, &mut sheet);
    assert_eq!(sheet.get_sprite(0).pget(0, 0), 1);
    assert_eq!(editor.commands().undo_len(), 1);
    assert_eq!(editor.handle_key_combo(KeyComboAction::Undo, &mut sheet), Effect::Undid(0));
    assert_eq!(cells(&sheet, 0), vec![0u8; 64]);
    assert_eq!(editor.handle_key_combo(KeyComboAction::Redo, &mut sheet), Effect::Redid(0));
    let mut expected = vec![0u8; 64];
    expected[0] = 1;
    assert_eq!(cells(&sheet, 0), expected);
}

#[test]
fn chords_drive_undo_and_redo() {
    let mut sheet = SpriteSheet::new(1);
    let mut editor = Editor::init();
    editor.edit_sprite(2, 3, 7, &mut sheet);
    assert_eq!(editor.on_key(down(Key::Control), &mut sheet), Effect::Nothing);
    assert_eq!(editor.on_key(down(Key::Z), &mut sheet), Effect::Undid(0));
    assert_eq!(sheet.get_sprite(0).pget(2, 3), 0);
    assert_eq!(editor.on_key(up(Key::Z), &mut sheet), Effect::Nothing);
    assert_eq!(editor.on_key(down(Key::Y), &mut sheet), Effect::Redid(0));
    assert_eq!(sheet.get_sprite(0).pget(2, 3), 7);
    assert_eq!(editor.on_key(down(Key::S), &mut sheet), Effect::Save);
    assert_eq!(sheet.get_sprite(0).pget(2, 3), 0);
    assert_eq!(sheet.get_sprite(0).pget(2, 4), 7);
}

#[test]
fn undo_with_nothing_to_undo() {
    let mut sheet = SpriteSheet::new(1);
    let mut editor = Editor::init();
    assert_eq!(editor.handle_key_combo(KeyComboAction::Undo, &mut sheet), Effect::Nothing);
    assert_eq!(editor.handle_key_combo(KeyComboAction::Redo, &mut sheet), Effect::Nothing);
}

#[test]
fn copy_paste_between_sprites_is_undoable() {
    let mut sheet = SpriteSheet::new(2);
    let mut editor = Editor::init();
    editor.select_brush(BrushShape::plus());
    editor.edit_sprite(4, 4, 3, &mut sheet);
    assert_eq!(editor.on_key(down(Key::Control), &mut sheet), Effect::Nothing);
    assert_eq!(editor.on_key(down(Key::C), &mut sheet), Effect::Copied);
    assert!(editor.select_sprite(1, &sheet));
    sheet.pset(1, 0, 0, 9);
    assert_eq!(editor.on_key(down(Key::V), &mut sheet), Effect::Pasted);
    assert_eq!(cells(&sheet, 1), cells(&sheet, 0));
    assert_eq!(editor.on_key(down(Key::Z), &mut sheet), Effect::Undid(1));
    assert_eq!(sheet.get_sprite(1).pget(0, 0), 9);
    assert_eq!(sheet.get_sprite(1).pget(4, 4), 0);
}

#[test]
fn bare_v_flips_and_control_v_pastes() {
    let mut sheet = SpriteSheet::new(1);
    let mut editor = Editor::init();
    editor.edit_sprite(1, 0, 5, &mut sheet);
    assert_eq!(editor.on_key(down(Key::V), &mut sheet), Effect::Nothing);
    assert_eq!(sheet.get_sprite(0).pget(1, 7), 5);
    assert_eq!(sheet.get_sprite(0).pget(1, 0), 0);
    assert_eq!(editor.commands().undo_len(), 2);
    editor.on_key(down(Key::Control), &mut sheet);
    assert_eq!(editor.on_key(down(Key::V), &mut sheet), Effect::Pasted);
    assert_eq!(cells(&sheet, 0), vec![0u8; 64]);
}

#[test]
fn flip_horizontally_chord() {
    let mut sheet = SpriteSheet::new(1);
    let mut editor = Editor::init();
    editor.edit_sprite(0, 2, 4, &mut sheet);
    editor.on_key(down(Key::F), &mut sheet);
    assert_eq!(sheet.get_sprite(0).pget(7, 2), 4);
    assert_eq!(sheet.get_sprite(0).pget(0, 2), 0);
}

#[test]
fn wasd_shifts_selected_sprite() {
    let mut sheet = SpriteSheet::new(1);
    let mut editor = Editor::init();
    editor.edit_sprite(0, 0, 2, &mut sheet);
    editor.on_key(down(Key::D), &mut sheet);
    assert_eq!(sheet.get_sprite(0).pget(1, 0), 2);
    editor.on_key(down(Key::S), &mut sheet);
    assert_eq!(sheet.get_sprite(0).pget(1, 1), 2);
    editor.on_key(down(Key::W), &mut sheet);
    editor.on_key(down(Key::A), &mut sheet);
    assert_eq!(sheet.get_sprite(0).pget(0, 0), 2);
    editor.handle_key_combo(KeyComboAction::Undo, &mut sheet);
    assert_eq!(sheet.get_sprite(0).pget(1, 0), 2);
}

#[test]
fn control_s_saves_and_shifts_down() {
    let mut sheet = SpriteSheet::new(1);
    let mut editor = Editor::init();
    editor.edit_sprite(0, 0, 2, &mut sheet);
    editor.on_key(down(Key::Control), &mut sheet);
    assert_eq!(editor.on_key(down(Key::S), &mut sheet), Effect::Save);
    assert_eq!(sheet.get_sprite(0).pget(0, 0), 0);
    assert_eq!(sheet.get_sprite(0).pget(0, 1), 2);
    assert_eq!(editor.commands().undo_len(), 2);
}

#[test]
fn key_up_of_shift_key_does_nothing() {
    let mut sheet = SpriteSheet::new(1);
    let mut editor = Editor::init();
    editor.edit_sprite(0, 0, 2, &mut sheet);
    assert_eq!(editor.on_key(up(Key::D), &mut sheet), Effect::Nothing);
    assert_eq!(sheet.get_sprite(0).pget(0, 0), 2);
    assert_eq!(editor.commands().undo_len(), 1);
}

#[test]
fn pointer_in_sprite_mode_paints() {
    let mut sheet = SpriteSheet::new(2);
    let mut map = TileMap::new();
    let mut editor = Editor::init();
    editor.pointer_down(3, 2, 6, &mut sheet, &mut map);
    assert_eq!(sheet.get_sprite(0).pget(3, 2), 6);
    assert_eq!(map.mget(3, 2), 0);
    assert_eq!(editor.commands().undo_len(), 1);
}

#[test]
fn pointer_in_map_mode_places_selected_sprite() {
    let mut sheet = SpriteSheet::new(300);
    let mut map = TileMap::new();
    let mut editor = Editor::init();
    assert!(editor.select_sprite(17, &sheet));
    editor.select_tab(Tab::MapEditor);
    editor.pointer_down(100, 40, 6, &mut sheet, &mut map);
    assert_eq!(map.mget(100, 40), 17);
    assert_eq!(sheet.get_sprite(17).cells().to_vec(), vec![0u8; 64]);
    assert_eq!(editor.commands().undo_len(), 0);
    editor.pointer_down(128, 0, 6, &mut sheet, &mut map);
    assert_eq!(map.mget(128, 0), 0);
    assert!(editor.select_sprite(260, &sheet));
    editor.click_map_tile(0, 0, &mut map);
    assert_eq!(map.mget(0, 0), 4);
}

#[test]
fn toggle_flag_of_selected_sprite() {
    let sheet = SpriteSheet::new(4);
    let mut flags = Flags::new(4);
    let mut editor = Editor::init();
    assert!(editor.select_sprite(2, &sheet));
    editor.toggle_flag(3, &mut flags);
    assert!(flags.fget_n(2, 3));
    assert!(!flags.fget_n(2, 2));
    assert!(!flags.fget_n(1, 3));
    editor.toggle_flag(3, &mut flags);
    assert!(!flags.fget_n(2, 3));
}

#[test]
fn alt_arrows_switch_tabs() {
    let mut sheet = SpriteSheet::new(1);
    let mut editor = Editor::init();
    assert_eq!(editor.tab(), Tab::SpriteEditor);
    editor.on_key(down(Key::Alt), &mut sheet);
    editor.on_key(down(Key::RightArrow), &mut sheet);
    assert_eq!(editor.tab(), Tab::MapEditor);
    editor.on_key(down(Key::LeftArrow), &mut sheet);
    assert_eq!(editor.tab(), Tab::SpriteEditor);
    editor.on_key(up(Key::Alt), &mut sheet);
    editor.on_key(down(Key::RightArrow), &mut sheet);
    assert_eq!(editor.tab(), Tab::SpriteEditor);
}

#[test]
fn init_registers_nine_chords() {
    let editor = Editor::init();
    assert_eq!(editor.key_combos().len(), 9);
    assert_eq!(editor.selected_sprite(), 0);
    assert_eq!(editor.brush().offsets().to_vec(), vec![(0, 0)]);
    assert_eq!(editor.clipboard().cells().to_vec(), vec![0u8; 64]);
}

#[test]
fn select_sprite_outside_sheet_is_refused() {
    let sheet = SpriteSheet::new(2);
    let mut editor = Editor::init();
    assert!(!editor.select_sprite(2, &sheet));
    assert_eq!(editor.selected_sprite(), 0);
    assert!(editor.select_sprite(1, &sheet));
    assert_eq!(editor.selected_sprite(), 1);
}

#[test]
fn tab_previous_and_next_toggle() {
    assert_eq!(Tab::SpriteEditor.next(), Tab::MapEditor);
    assert_eq!(Tab::MapEditor.next(), Tab::SpriteEditor);
    assert_eq!(Tab::SpriteEditor.previous(), Tab::MapEditor);
    assert_eq!(Tab::MapEditor.previous(), Tab::SpriteEditor);
}

#[test]
fn shift_direction_from_key_and_shift() {
    assert_eq!(ShiftDirection::from_key(&Key::W), Some(ShiftDirection::Up));
    assert_eq!(ShiftDirection::from_key(&Key::A), Some(ShiftDirection::Left));
    assert_eq!(ShiftDirection::from_key(&Key::S), Some(ShiftDirection::Down));
    assert_eq!(ShiftDirection::from_key(&Key::D), Some(ShiftDirection::Right));
    assert_eq!(ShiftDirection::from_key(&Key::Q), None);
    let mut s = Sprite::from_cells((0..64).map(|i| i as u8).collect()).unwrap();
    let expected = s.transformed(Transform::ShiftRight);
    ShiftDirection::Right.shift(&mut s);
    assert_eq!(s.cells(), expected.cells());
}

#[test]
fn run_app_keeps_loaded_sheet() {
    let mut cells = vec![0u8; 64];
    cells[5] = 3;
    let sprite = Sprite::from_cells(cells.clone()).unwrap();
    let sheet = SpriteSheet::from_sprites(vec![sprite, Sprite::new()]).unwrap();
    let (editor, sheet) = pixel_editor::run_app(Some(sheet));
    assert_eq!(sheet.len(), 2);
    assert_eq!(sheet.get_sprite(0).cells().to_vec(), cells);
    assert_eq!(editor.selected_sprite(), 0);
    assert_eq!(editor.commands().undo_len(), 0);
}

#[test]
fn run_app_without_sheet_starts_blank() {
    let (editor, sheet) = pixel_editor::run_app(None);
    assert_eq!(sheet.len(), pixel_editor::SHEET_SPRITES);
    assert_eq!(sheet.len(), 256);
    assert_eq!(sheet.get_sprite(255).cells().to_vec(), vec![0u8; 64]);
    assert_eq!(editor.tab(), Tab::SpriteEditor);
    let (_, sheet) = pixel_editor::run_app(Some(SpriteSheet::from_sprites(vec![]).unwrap()));
    assert_eq!(sheet.len(), 256);
}
