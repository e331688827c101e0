use pixel_editor::brush::{apply_stroke, BrushShape};
use pixel_editor::clipboard::Clipboard;
use pixel_editor::flags::Flags;
use pixel_editor::hex::{bytes_from_hex, bytes_to_hex};
use pixel_editor::history::Commands;
use pixel_editor::map::TileMap;
use pixel_editor::sprite::{Sprite, SpriteSheet, Transform};
use pixel_editor::Keys;

fn numbered() -> Sprite {
    Sprite::from_cells((0..64).map(|i| i as u8).collect()).unwrap()
}

#[test]
fn plus_brush_writes_three_cells_only() {
    let mut sheet = SpriteSheet::new(1);
    let brush = BrushShape::from_offsets(vec![(0, 0), (-1, 0), (1, 0)]);
    let c = apply_stroke(&mut sheet, 0, 4, 4, 6, &brush);
    let s = sheet.get_sprite(0);
    for y in 0..8i64 {
        for x in 0..8i64 {
            let expected = if y == 4 && (3..=5).contains(&x) { 6 } else { 0 };
            assert_eq!(s.pget(x, y), expected, "cell ({x}, {y})");
        }
    }
    assert_eq!(c.changes().len(), 3);
}

#[test]
fn stroke_skips_cells_outside_sprite() {
    let mut sheet = SpriteSheet::new(1);
    let c = apply_stroke(&mut sheet, 0, 0, 7, 5, &BrushShape::plus());
    let s = sheet.get_sprite(0);
    assert_eq!(s.pget(0, 7), 5);
    assert_eq!(s.pget(1, 7), 5);
    assert_eq!(s.pget(0, 6), 5);
    assert_eq!(s.cells().iter().filter(|&&c| c == 5).count(), 3);
    assert_eq!(c.changes().len(), 3);
}

#[test]
fn stroke_with_anchor_outside_writes_inside_cells() {
    let mut sheet = SpriteSheet::new(1);
    apply_stroke(&mut sheet, 0, -1, 0, 8, &BrushShape::plus());
    let s = sheet.get_sprite(0);
    assert_eq!(s.pget(0, 0), 8);
    assert_eq!(s.cells().iter().filter(|&&c| c == 8).count(), 1);
}

#[test]
fn square_brush_at_corner() {
    let mut sheet = SpriteSheet::new(1);
    apply_stroke(&mut sheet, 0, 7, 7, 1, &BrushShape::square());
    let s = sheet.get_sprite(0);
    assert_eq!(s.pget(7, 7), 1);
    assert_eq!(s.cells().iter().filter(|&&c| c == 1).count(), 1);
}

#[test]
fn out_of_bounds_reads_and_writes() {
    let mut s = Sprite::new();
    s.pset(8, 0, 3);
    s.pset(-1, 2, 3);
    s.pset(0, 100, 3);
    assert_eq!(s.cells().to_vec(), vec![0u8; 64]);
    assert_eq!(s.pget(9, 9), 0);
    assert_eq!(s.pget(-1, 0), 0);
    s.pset(7, 7, 4);
    assert_eq!(s.pget(7, 7), 4);
    assert_eq!(s.cells()[63], 4);
}

#[test]
fn from_cells_needs_sixty_four() {
    assert!(Sprite::from_cells(vec![0; 63]).is_none());
    assert!(Sprite::from_cells(vec![0; 65]).is_none());
    assert!(Sprite::from_cells(vec![1; 64]).is_some());
}

#[test]
fn copy_then_paste_makes_sprites_equal() {
    let source = numbered();
    let mut target = Sprite::from_cells(vec![9; 64]).unwrap();
    let mut clipboard = Clipboard::new();
    clipboard.copy_sprite(&source);
    clipboard.paste_into(&mut target);
    assert_eq!(target.cells(), source.cells());
}

#[test]
fn empty_clipboard_pastes_color_zero() {
    let mut target = Sprite::from_cells(vec![9; 64]).unwrap();
    Clipboard::new().paste_into(&mut target);
    assert_eq!(target.cells().to_vec(), vec![0u8; 64]);
}

#[test]
fn transforms_move_cells() {
    let s = numbered();
    let fv = s.transformed(Transform::FlipVertically);
    assert_eq!(fv.pget(0, 0), 56);
    assert_eq!(fv.pget(3, 7), 3);
    let fh = s.transformed(Transform::FlipHorizontally);
    assert_eq!(fh.pget(0, 0), 7);
    assert_eq!(fh.pget(7, 2), 16);
    let up = s.transformed(Transform::ShiftUp);
    assert_eq!(up.pget(0, 0), 8);
    assert_eq!(up.pget(2, 7), 2);
    let down = s.transformed(Transform::ShiftDown);
    assert_eq!(down.pget(0, 0), 56);
    assert_eq!(down.pget(1, 1), 1);
    let left = s.transformed(Transform::ShiftLeft);
    assert_eq!(left.pget(0, 0), 1);
    assert_eq!(left.pget(7, 0), 0);
    let right = s.transformed(Transform::ShiftRight);
    assert_eq!(right.pget(0, 0), 7);
    assert_eq!(right.pget(1, 0), 0);
}

#[test]
fn sheet_starts_blank() {
    let sheet = SpriteSheet::new(3);
    assert_eq!(sheet.len(), 3);
    for i in 0..3 {
        assert_eq!(sheet.get_sprite(i).cells().to_vec(), vec![0u8; 64]);
    }
}

#[test]
fn keys_reset_clears_buttons() {
    let mut keys = Keys::new();
    keys.x = Some(true);
    keys.mouse = Some(false);
    keys.reset();
    assert_eq!(keys, Keys::new());
    assert_eq!(keys.x, None);
}

#[test]
fn hex_text_round_trip() {
    let s = Sprite::from_cells((0..64).map(|i| (i % 16) as u8).collect()).unwrap();
    let text = s.to_hex();
    assert_eq!(&text[..16], b"0123456789abcdef");
    let back = Sprite::from_hex(&text).unwrap();
    assert_eq!(back.cells(), s.cells());
}

#[test]
fn hex_text_accepts_upper_case() {
    let mut text = vec![b'0'; 64];
    text[0] = b'F';
    text[1] = b'a';
    let s = Sprite::from_hex(&text).unwrap();
    assert_eq!(s.pget(0, 0), 15);
    assert_eq!(s.pget(1, 0), 10);
}

#[test]
fn hex_text_rejects_bad_input() {
    assert!(Sprite::from_hex(&vec![b'0'; 63]).is_none());
    let mut text = vec![b'0'; 64];
    text[10] = b'g';
    assert!(Sprite::from_hex(&text).is_none());
}

#[test]
fn hex_text_writes_low_bits_of_large_colors() {
    let s = Sprite::from_cells(vec![0x1c; 64]).unwrap();
    assert_eq!(s.to_hex(), vec![b'c'; 64]);
}

#[test]
fn paste_into_sheet_returns_undoable_command() {
    let mut sheet = SpriteSheet::new(2);
    sheet.pset(1, 2, 2, 9);
    let before = sheet.get_sprite(1).cells().to_vec();
    let mut clipboard = Clipboard::new();
    clipboard.copy_sprite(&numbered());
    let command = clipboard.paste_into_sheet(&mut sheet, 1);
    assert_eq!(command.sprite(), 1);
    assert_eq!(command.changes().len(), 64);
    assert_eq!(sheet.get_sprite(1).cells(), numbered().cells());
    let mut history = Commands::new();
    history.push(command);
    history.undo(&mut sheet);
    assert_eq!(sheet.get_sprite(1).cells().to_vec(), before);
}

#[test]
fn map_reads_and_writes() {
    let mut map = TileMap::new();
    map.mset(127, 63, 5);
    map.mset(-1, 0, 5);
    map.mset(0, 64, 5);
    assert_eq!(map.mget(127, 63), 5);
    assert_eq!(map.mget(-1, 0), 0);
    assert_eq!(map.mget(0, 64), 0);
    assert!(TileMap::from_tiles(vec![0; 8191]).is_none());
    assert!(TileMap::from_tiles(vec![0; 8192]).is_some());
}

#[test]
fn flags_set_one_bit() {
    let mut flags = Flags::new(2);
    flags.fset(0, 7, true);
    flags.fset(0, 0, true);
    assert!(flags.fget_n(0, 7) && flags.fget_n(0, 0));
    assert!(!flags.fget_n(0, 1));
    flags.fset(0, 7, false);
    assert!(!flags.fget_n(0, 7) && flags.fget_n(0, 0));
    assert!(!flags.fget_n(1, 0));
}

#[test]
fn bytes_hex_round_trip() {
    let bytes = vec![0x00, 0x7f, 0xa5, 0xff];
    let text = bytes_to_hex(&bytes);
    assert_eq!(text, b"007fa5ff".to_vec());
    assert_eq!(bytes_from_hex(&text), Some(bytes));
    assert_eq!(bytes_from_hex(b"0A"), Some(vec![10]));
}

#[test]
fn bytes_hex_rejects_bad_text() {
    assert_eq!(bytes_from_hex(b"abc"), None);
    assert_eq!(bytes_from_hex(b"0g"), None);
    assert_eq!(bytes_from_hex(b""), Some(vec![]));
}
