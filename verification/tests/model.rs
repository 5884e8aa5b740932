use hexgrid::decode::Endian;
use hexgrid::model::{AppEvent, HexData, Selection, VIEW_BYTES};

fn sample_bytes() -> Vec<u8> {
    let mut bytes = vec![0u8; VIEW_BYTES];
    for (i, b) in bytes.iter_mut().enumerate() {
        *b = i as u8;
    }
    bytes
}

fn fresh(data_len: usize) -> HexData {
    HexData::new(data_len, &sample_bytes(), VIEW_BYTES)
}

#[test]
fn new_pairs_bytes_with_offsets() {
    let hex = fresh(1000);
    assert_eq!(hex.view.len(), VIEW_BYTES);
    assert_eq!(hex.view[0], (0, 0));
    assert_eq!(hex.view[5], (5, 5));
    assert_eq!(hex.view[127], (127, 127));
    assert_eq!(hex.view_start, 0);
    assert_eq!(hex.seek_pos, VIEW_BYTES);
    assert!(!hex.view_changed);
    assert_eq!(hex.endian, Endian::LittleEndian);
    assert_eq!(hex.selection.data_len, 1000);
    assert_eq!(hex.selection.columns, 8);
    assert_eq!(hex.selection.cursor, 0);
    assert_eq!(hex.selection.anchor, 0);
    assert!(!hex.selection.dragging);
    assert_eq!(hex.inspector.num_u32, 0);
}

#[test]
fn selection_start_end_are_min_max() {
    let sel = Selection { data_len: 100, columns: 8, anchor: 30, cursor: 12, dragging: false };
    assert_eq!(sel.start(), 12);
    assert_eq!(sel.end(), 30);
    let sel = Selection { data_len: 100, columns: 8, anchor: 3, cursor: 40, dragging: false };
    assert_eq!(sel.start(), 3);
    assert_eq!(sel.end(), 40);
    let sel = Selection { data_len: 100, columns: 8, anchor: 7, cursor: 7, dragging: false };
    assert_eq!(sel.start(), 7);
    assert_eq!(sel.end(), 7);
}

#[test]
fn right_moves_cursor_and_anchor() {
    let mut hex = fresh(1000);
    let r = hex.event(&AppEvent::SelectionRight, false);
    assert_eq!(hex.selection.cursor, 1);
    assert_eq!(hex.selection.anchor, 1);
    assert!(r.handled);
    assert!(r.reload_inspector);
    assert!(!r.reload_view);
}

#[test]
fn shift_right_keeps_anchor() {
    let mut hex = fresh(1000);
    hex.event(&AppEvent::SelectionRight, true);
    hex.event(&AppEvent::SelectionRight, true);
    assert_eq!(hex.selection.cursor, 2);
    assert_eq!(hex.selection.anchor, 0);
}

#[test]
fn right_clamps_at_end() {
    let mut hex = fresh(10);
    hex.event(&AppEvent::Selection(9), false);
    let r = hex.event(&AppEvent::SelectionRight, false);
    assert_eq!(hex.selection.cursor, 9);
    assert_eq!(hex.selection.anchor, 9);
    assert!(r.handled);
}

#[test]
fn right_scrolls_past_window_edge() {
    let mut hex = fresh(1000);
    hex.event(&AppEvent::Selection(127), false);
    let r = hex.event(&AppEvent::SelectionRight, false);
    assert_eq!(hex.selection.cursor, 128);
    assert_eq!(hex.view_start, 8);
    assert!(r.reload_view);
}

#[test]
fn left_stops_at_zero() {
    let mut hex = fresh(1000);
    let r = hex.event(&AppEvent::SelectionLeft, false);
    assert_eq!(hex.selection.cursor, 0);
    assert_eq!(hex.selection.anchor, 0);
    assert_eq!(hex.view_start, 0);
    assert!(r.handled);
    assert!(!r.reload_view);
}

#[test]
fn left_scrolls_back_past_window_edge() {
    let mut hex = fresh(1000);
    hex.event(&AppEvent::Test, false); // window now starts at 8
    hex.event(&AppEvent::Selection(8), false);
    let r = hex.event(&AppEvent::SelectionLeft, false);
    assert_eq!(hex.selection.cursor, 7);
    assert_eq!(hex.view_start, 0);
    assert!(r.reload_view);
}

#[test]
fn up_moves_one_row_or_stays() {
    let mut hex = fresh(1000);
    hex.event(&AppEvent::Selection(20), false);
    hex.event(&AppEvent::SelectionUp, false);
    assert_eq!(hex.selection.cursor, 12);
    hex.event(&AppEvent::Selection(3), false);
    hex.event(&AppEvent::SelectionUp, false);
    assert_eq!(hex.selection.cursor, 3); // first row: unmoved
}

#[test]
fn down_moves_one_row_or_stays() {
    let mut hex = fresh(30);
    hex.event(&AppEvent::Selection(5), false);
    hex.event(&AppEvent::SelectionDown, false);
    assert_eq!(hex.selection.cursor, 13);
    hex.event(&AppEvent::Selection(25), false);
    hex.event(&AppEvent::SelectionDown, false);
    assert_eq!(hex.selection.cursor, 25); // 25 + 8 >= 30: unmoved
}

#[test]
fn down_respects_columns_setting() {
    let mut hex = fresh(1000);
    hex.event(&AppEvent::SetColumns(16), false);
    assert_eq!(hex.selection.columns, 16);
    hex.event(&AppEvent::Selection(10), false);
    hex.event(&AppEvent::SelectionDown, false);
    assert_eq!(hex.selection.cursor, 26);
}

#[test]
fn set_cursor_leaves_anchor() {
    let mut hex = fresh(1000);
    hex.event(&AppEvent::Selection(4), false);
    let r = hex.event(&AppEvent::SetCursor(9), false);
    assert_eq!(hex.selection.cursor, 9);
    assert_eq!(hex.selection.anchor, 4);
    assert!(r.handled);
    assert!(!r.reload_inspector);
}

#[test]
fn drag_and_drop_toggle_dragging() {
    let mut hex = fresh(1000);
    hex.event(&AppEvent::SelectionDrag, false);
    assert!(hex.selection.dragging);
    hex.event(&AppEvent::SelectionDrop, false);
    assert!(!hex.selection.dragging);
}

#[test]
fn endian_events_switch_and_reload() {
    let mut hex = fresh(1000);
    let r = hex.event(&AppEvent::SetBigEndian, false);
    assert_eq!(hex.endian, Endian::BigEndian);
    assert!(r.reload_inspector);
    let r = hex.event(&AppEvent::SetLittleEndian, false);
    assert_eq!(hex.endian, Endian::LittleEndian);
    assert!(r.reload_inspector);
}

#[test]
fn test_event_scrolls_one_line() {
    let mut hex = fresh(1000);
    let r = hex.event(&AppEvent::Test, false);
    assert_eq!(hex.view_start, 8);
    assert!(r.handled);
    assert!(r.reload_view);
}

#[test]
fn unhandled_events_change_nothing() {
    let mut hex = fresh(1000);
    hex.event(&AppEvent::Selection(17), true);
    for ev in [
        AppEvent::SelectionStart,
        AppEvent::SelectionEnd,
        AppEvent::SelectionPageUp,
        AppEvent::SelectionPageDown,
    ] {
        let r = hex.event(&ev, false);
        assert!(!r.handled);
        assert!(!r.reload_view);
        assert!(!r.reload_inspector);
        assert_eq!(hex.selection.cursor, 17);
        assert_eq!(hex.view_start, 0);
    }
}

#[test]
fn read_view_pairs_new_offsets() {
    let mut hex = fresh(1000);
    hex.event(&AppEvent::Test, false);
    let mut bytes = vec![0u8; VIEW_BYTES];
    bytes[0] = 0xaa;
    bytes[127] = 0xbb;
    hex.read_view(&bytes);
    assert_eq!(hex.view.len(), VIEW_BYTES);
    assert_eq!(hex.view[0], (8, 0xaa));
    assert_eq!(hex.view[127], (135, 0xbb));
}

#[test]
fn next_and_prev_line_move_window() {
    let mut hex = fresh(1000);
    hex.next_line();
    hex.next_line();
    assert_eq!(hex.view_start, 16);
    hex.prev_line();
    assert_eq!(hex.view_start, 8);
}

#[test]
fn inspector_little_endian() {
    let mut hex = fresh(1000);
    let bytes = vec![0x78, 0x56, 0x34, 0x12, 0, 0, 0, 0];
    hex.calc_inspector(&bytes);
    assert_eq!(hex.inspector.num_u8, 0x78);
    assert_eq!(hex.inspector.num_i8, 0x78);
    assert_eq!(hex.inspector.num_u16, 0x5678);
    assert_eq!(hex.inspector.num_i16, 0x5678);
    assert_eq!(hex.inspector.num_u32, 0x12345678);
    assert_eq!(hex.inspector.num_i32, 0x12345678);
}

#[test]
fn inspector_big_endian() {
    let mut hex = fresh(1000);
    hex.event(&AppEvent::SetBigEndian, false);
    let bytes = vec![0xff, 0xfe, 0xff, 0xff, 0, 0, 0, 0];
    hex.calc_inspector(&bytes);
    assert_eq!(hex.inspector.num_u8, 0xff);
    assert_eq!(hex.inspector.num_i8, -1);
    assert_eq!(hex.inspector.num_u16, 0xfffe);
    assert_eq!(hex.inspector.num_i16, -2);
    assert_eq!(hex.inspector.num_u32, 0xfffeffff);
    assert_eq!(hex.inspector.num_i32, -65537);
}

#[test]
fn inspector_keeps_selection_and_view() {
    let mut hex = fresh(1000);
    hex.event(&AppEvent::Selection(42), false);
    let bytes = vec![1, 2, 3, 4, 5, 6, 7, 8];
    hex.calc_inspector(&bytes);
    assert_eq!(hex.selection.cursor, 42);
    assert_eq!(hex.view_start, 0);
    assert_eq!(hex.view[3], (3, 3));
}
