use pixel_editor::brush::{apply_stroke, BrushShape};
use pixel_editor::history::{Command, Commands};
use pixel_editor::sprite::{Sprite, SpriteSheet, Transform};

fn cells(sheet: &SpriteSheet, i: usize) -> Vec<u8> {
    sheet.get_sprite(i).cells().to_vec()
}

#[test]
fn undo_after_edits_restores_every_cell() {
    let mut sheet = SpriteSheet::new(2);
    let mut history = Commands::new();
    let start0 = cells(&sheet, 0);
    let start1 = cells(&sheet, 1);
    let brush = BrushShape::plus();
    let c1 = apply_stroke(&mut sheet, 0, 3, 3, 5, &brush);
    history.push(c1);
    let c2 = apply_stroke(&mut sheet, 0, 4, 3, 9, &brush);
    history.push(c2);
    let c3 = apply_stroke(&mut sheet, 1, 0, 0, 2, &BrushShape::square());
    history.push(c3);
    assert_ne!(cells(&sheet, 0), start0);
    assert_eq!(history.undo(&mut sheet), Some(1));
    assert_eq!(history.undo(&mut sheet), Some(0));
    assert_eq!(history.undo(&mut sheet), Some(0));
    assert_eq!(cells(&sheet, 0), start0);
    assert_eq!(cells(&sheet, 1), start1);
    assert_eq!(history.undo_len(), 0);
    assert_eq!(history.redo_len(), 3);
}

#[test]
fn overlapping_offsets_undo_exactly() {
    let mut sheet = SpriteSheet::new(1);
    sheet.pset(0, 2, 2, 7);
    let before = cells(&sheet, 0);
    let brush = BrushShape::from_offsets(vec![(0, 0), (0, 0), (1, 0)]);
    let mut history = Commands::new();
    let c = apply_stroke(&mut sheet, 0, 2, 2, 4, &brush);
    assert_eq!(c.changes().len(), 3);
    assert_eq!(c.changes()[0].before, 7);
    assert_eq!(c.changes()[1].before, 4);
    history.push(c);
    history.undo(&mut sheet);
    assert_eq!(cells(&sheet, 0), before);
    assert_eq!(sheet.get_sprite(0).pget(2, 2), 7);
}

#[test]
fn redo_after_undo_reproduces_edit() {
    let mut sheet = SpriteSheet::new(1);
    let mut history = Commands::new();
    let c = apply_stroke(&mut sheet, 0, 6, 1, 3, &BrushShape::plus());
    history.push(c);
    let edited = cells(&sheet, 0);
    assert_eq!(history.undo(&mut sheet), Some(0));
    assert_ne!(cells(&sheet, 0), edited);
    assert_eq!(history.redo(&mut sheet), Some(0));
    assert_eq!(cells(&sheet, 0), edited);
    assert_eq!(history.undo_len(), 1);
    assert_eq!(history.redo_len(), 0);
}

#[test]
fn push_after_undo_discards_redo() {
    let mut sheet = SpriteSheet::new(1);
    let mut history = Commands::new();
    for i in 0..3 {
        let c = apply_stroke(&mut sheet, 0, i, 0, 1, &BrushShape::tiny());
        history.push(c);
    }
    history.undo(&mut sheet);
    history.undo(&mut sheet);
    assert_eq!(history.redo_len(), 2);
    let c = apply_stroke(&mut sheet, 0, 7, 7, 2, &BrushShape::tiny());
    history.push(c);
    assert_eq!(history.redo_len(), 0);
    assert_eq!(history.undo_len(), 2);
    let before = cells(&sheet, 0);
    assert_eq!(history.redo(&mut sheet), None);
    assert_eq!(cells(&sheet, 0), before);
}

#[test]
fn undo_and_redo_on_empty_history_do_nothing() {
    let mut sheet = SpriteSheet::new(1);
    sheet.pset(0, 1, 1, 3);
    let before = cells(&sheet, 0);
    let mut history = Commands::new();
    assert_eq!(history.undo(&mut sheet), None);
    assert_eq!(history.redo(&mut sheet), None);
    assert_eq!(cells(&sheet, 0), before);
}

#[test]
fn pixel_changed_command_applies_both_ways() {
    let mut sheet = SpriteSheet::new(1);
    let c = Command::pixel_changed(0, 3, 4, 0, 9);
    c.apply_forward(&mut sheet);
    assert_eq!(sheet.get_sprite(0).pget(3, 4), 9);
    c.apply_inverse(&mut sheet);
    assert_eq!(sheet.get_sprite(0).pget(3, 4), 0);
}

#[test]
fn command_between_snapshots_covers_all_cells() {
    let mut cells_a = vec![0u8; 64];
    cells_a[0] = 1;
    cells_a[63] = 2;
    let a = Sprite::from_cells(cells_a).unwrap();
    let b = a.transformed(Transform::FlipVertically);
    let c = Command::between(0, &a, &b);
    assert_eq!(c.changes().len(), 64);
    assert_eq!(c.sprite(), 0);
    let mut sheet = SpriteSheet::new(1);
    sheet.set_sprite(0, a.duplicate());
    c.apply_forward(&mut sheet);
    assert_eq!(cells(&sheet, 0), b.cells().to_vec());
    c.apply_inverse(&mut sheet);
    assert_eq!(cells(&sheet, 0), a.cells().to_vec());
}

#[test]
fn command_for_missing_sprite_changes_nothing() {
    let mut sheet = SpriteSheet::new(1);
    let c = Command::pixel_changed(5, 0, 0, 0, 3);
    c.apply_forward(&mut sheet);
    assert_eq!(cells(&sheet, 0), vec![0u8; 64]);
}
