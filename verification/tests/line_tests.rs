use rim::line::Line;

#[test]
fn ascii_line_basic() {
    let line = Line::from("abc");
    assert!(!line.is_empty());
    assert_eq!(line.fragment_len(), 3);
    assert_eq!(line.cell_length(), 3);
    assert_eq!(line.get_display_string(0..3), "abc");
    assert_eq!(line.get_display_string(0..100), "abc");
}

#[test]
fn empty_line() {
    let line = Line::from("");
    assert!(line.is_empty());
    assert_eq!(line.fragment_len(), 0);
    assert_eq!(line.cell_length(), 0);
    assert_eq!(line.get_display_string(0..10), "");
}

#[test]
fn empty_window_yields_nothing() {
    let line = Line::from("abc");
    assert_eq!(line.get_display_string(2..2), "");
    assert_eq!(line.get_display_string(3..1), "");
}

#[test]
fn mixed_width_full_slice() {
    // 'A' is half width (1 cell), '漢' full width (2 cells), 'B' half width:
    // 4 cells, 3 graphemes in total.
    let line = Line::from("A漢B");
    assert_eq!(line.fragment_len(), 3);
    assert_eq!(line.cell_length(), 4);
    assert_eq!(line.get_display_string(0..4), "A漢B");
}

#[test]
fn full_width_exactly_in_window() {
    // The span [1, 3) of 漢 lies exactly inside the window [1, 3): the
    // glyph crosses neither boundary, so it renders whole.
    let line = Line::from("A漢B");
    assert_eq!(line.get_display_string(1..3), "漢");
}

#[test]
fn full_width_straddles_left_boundary() {
    // 漢 spans [1, 3); the window starts at 2, cutting the glyph, so a
    // single truncation marker stands in for it.
    let line = Line::from("A漢B");
    assert_eq!(line.get_display_string(2..4), "·B");
}

#[test]
fn full_width_straddles_right_boundary() {
    // 漢 spans [1, 3); the window ends at 2, cutting the glyph.
    let line = Line::from("A漢B");
    assert_eq!(line.get_display_string(0..2), "A·");
}

#[test]
fn zero_width_cluster_gets_marker() {
    // A zero width space occupies no columns on its own; the line gives it
    // half width and a visible replacement marker.
    let line = Line::from("\u{200B}");
    assert_eq!(line.fragment_len(), 1);
    assert_eq!(line.cell_length(), 1);
    assert_eq!(line.get_display_string(0..1), "·");
}

#[test]
fn combining_mark_stays_with_base() {
    // "e" followed by a combining acute accent is one grapheme cluster, not
    // two; a plain "x" follows as a second cluster.
    let line = Line::from("e\u{301}x");
    assert_eq!(line.fragment_len(), 2);
    assert_eq!(line.cell_length(), 2);
}

#[test]
fn grapheme_offset_by_cell() {
    let line = Line::from("A漢B");
    assert_eq!(line.get_grapheme_offset(0), 0);
    assert_eq!(line.get_grapheme_offset(1), 1);
    assert_eq!(line.get_grapheme_offset(2), 1);
    assert_eq!(line.get_grapheme_offset(3), 2);
    assert_eq!(line.get_grapheme_offset(4), 3);
}

#[test]
fn byte_offset_is_cell_width() {
    // Despite the name, the unit is display cells: the widths of the
    // fragments before the given grapheme index.
    let line = Line::from("A漢B");
    assert_eq!(line.get_byte_offset(0), 0);
    assert_eq!(line.get_byte_offset(1), 1);
    assert_eq!(line.get_byte_offset(2), 3);
    assert_eq!(line.get_byte_offset(3), 4);
    assert_eq!(line.get_byte_offset(100), 4);
}

#[test]
fn full_slice_reproduces_rendering() {
    // Concatenating the full-range slice reproduces the rendering: one
    // display character per cluster, zero-width clusters as markers.
    let line = Line::from("a漢\u{200B}b");
    let full = line.get_display_string(0..line.cell_length());
    assert_eq!(full, "a漢·b");
}
