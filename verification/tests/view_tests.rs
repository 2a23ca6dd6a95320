use rim::editorcommand::{Direction, EditorCommand};
use rim::geometry::Size;
use rim::view::{View, INFO_SECTION_SIZE};

fn lines(strs: &[&str]) -> Vec<String> {
    strs.iter().map(|s| s.to_string()).collect()
}

#[test]
fn new_view_defaults() {
    let v = View::new(Size { height: 10, width: 40 });
    assert_eq!(v.get_mode(), rim::view::ViewMode::Normal);
    assert_eq!(v.location.x, 0);
    assert_eq!(v.location.y, 0);
    assert_eq!(v.scroll_offset.x, 0);
    assert_eq!(v.scroll_offset.y, 0);
    assert!(v.needs_redraw_buffer);
}

#[test]
fn cursor_position_sits_below_info_band() {
    let v = View::new(Size { height: 10, width: 40 });
    let p = v.get_cursor_position();
    assert_eq!(p.x, 0);
    assert_eq!(p.y, INFO_SECTION_SIZE);
}

#[test]
fn log_entry_format_pads_short_tags() {
    let mut v = View::new(Size { height: 10, width: 40 });
    v.log_event("INFO", "hello");
    v.log_event("KEY", "x pressed");
    let plan = v.render();
    assert_eq!(plan[0].text.as_str(), "[INFO] hello");
    assert_eq!(plan[1].text.as_str(), "[KEY ] x pressed");
    assert_eq!(plan[2].text.as_str(), "");
}

#[test]
fn log_queue_keeps_last_five() {
    let mut v = View::new(Size { height: 10, width: 40 });
    for i in 0..7 {
        v.log_event("INFO", &format!("entry {i}"));
    }
    let plan = v.render();
    assert_eq!(plan[0].text.as_str(), "[INFO] entry 2");
    assert_eq!(plan[4].text.as_str(), "[INFO] entry 6");
}

#[test]
fn resize_message_format() {
    let mut v = View::new(Size { height: 10, width: 40 });
    v.handle_command(EditorCommand::Resize(Size { height: 24, width: 80 }));
    assert_eq!(v.size.height, 24);
    assert_eq!(v.size.width, 80);
    assert!(v.needs_redraw_buffer);
    let plan = v.render();
    assert_eq!(
        plan[0].text.as_str(),
        "[INFO] Change window size to { height: 24 }, { width:  80 }"
    );
}

#[test]
fn too_small_terminal_shows_warning() {
    let mut v = View::new(Size { height: 4, width: 40 });
    let plan = v.render();
    assert_eq!(plan.len(), 4);
    assert_eq!(
        plan[0].text.as_str(),
        "Terminal size too small, please resize the window"
    );
    assert_eq!(plan[1].text.as_str(), "");
    assert!(v.needs_redraw_buffer);
}

#[test]
fn welcome_screen_on_empty_document() {
    let mut v = View::new(Size { height: 11, width: 40 });
    let plan = v.render();
    assert_eq!(plan.len(), 11);
    // Document rows start below the information band; the banner sits a
    // third of the way down the content region.
    let start_index = (11 - INFO_SECTION_SIZE) / 3;
    let banner_row = INFO_SECTION_SIZE + start_index;
    assert_eq!(
        plan[banner_row].text.as_str(),
        "~     rim editor -- version 0.1.0"
    );
    assert_eq!(plan[banner_row + 1].text.as_str(), "~");
    assert!(plan[banner_row + 2]
        .text
        .as_str()
        .contains("Press <Ctrl+h> for help"));
    assert_eq!(plan[INFO_SECTION_SIZE].text.as_str(), "~");
}

#[test]
fn document_rows_render_visible_window() {
    let mut v = View::new(Size { height: 8, width: 4 });
    v.load_file("doc.txt", Some(lines(&["A漢B", "xy"])));
    let plan = v.render();
    assert_eq!(plan.len(), 8);
    assert_eq!(plan[5].text.as_str(), "A漢B");
    assert_eq!(plan[6].text.as_str(), "xy");
    assert_eq!(plan[7].text.as_str(), "~");
    assert!(!v.needs_redraw_buffer);
}

#[test]
fn clean_view_repaints_only_info_band() {
    let mut v = View::new(Size { height: 8, width: 40 });
    v.load_file("doc.txt", Some(lines(&["a"])));
    let first = v.render();
    assert_eq!(first.len(), 8);
    let second = v.render();
    assert_eq!(second.len(), INFO_SECTION_SIZE);
}

#[test]
fn down_scrolls_by_minimum_needed() {
    // Three visible document rows below the information band; moving Down
    // three times from row 0 scrolls only once the cursor would leave the
    // window, and then by exactly one row.
    let mut v = View::new(Size { height: INFO_SECTION_SIZE + 3, width: 10 });
    v.load_file("doc.txt", Some(lines(&["a", "b", "c"])));
    v.render();
    v.handle_command(EditorCommand::Move(Direction::Down));
    assert_eq!(v.location.y, 1);
    assert_eq!(v.scroll_offset.y, 0);
    v.handle_command(EditorCommand::Move(Direction::Down));
    assert_eq!(v.location.y, 2);
    assert_eq!(v.scroll_offset.y, 0);
    v.handle_command(EditorCommand::Move(Direction::Down));
    assert_eq!(v.location.y, 3);
    assert_eq!(v.scroll_offset.y, 1);
    assert!(v.needs_redraw_buffer);
}

#[test]
fn reveal_without_movement_leaves_flag_clear() {
    let mut v = View::new(Size { height: INFO_SECTION_SIZE + 3, width: 10 });
    v.load_file("doc.txt", Some(lines(&["a", "b", "c"])));
    v.render();
    assert!(!v.needs_redraw_buffer);
    v.handle_command(EditorCommand::Move(Direction::Down));
    // The cursor stayed inside the window: no scroll, no repaint.
    assert_eq!(v.scroll_offset.y, 0);
    assert!(!v.needs_redraw_buffer);
}

#[test]
fn left_at_column_zero_wraps_to_previous_row_end() {
    let mut v = View::new(Size { height: 10, width: 40 });
    v.load_file("doc.txt", Some(lines(&["ab", "cde"])));
    v.handle_command(EditorCommand::Move(Direction::Down));
    assert_eq!(v.location.y, 1);
    assert_eq!(v.location.x, 0);
    v.handle_command(EditorCommand::Move(Direction::Left));
    assert_eq!(v.location.y, 0);
    assert_eq!(v.location.x, 2);
}

#[test]
fn right_at_end_of_last_row_stays_clamped() {
    let mut v = View::new(Size { height: 10, width: 40 });
    v.load_file("doc.txt", Some(lines(&["ab", "cde"])));
    v.handle_command(EditorCommand::Move(Direction::Down));
    v.handle_command(EditorCommand::Move(Direction::End));
    assert_eq!(v.location.x, 3);
    assert_eq!(v.location.y, 1);
    // Right at the end of the last row wraps the row index forward, but the
    // clamp keeps it at the line count.
    v.handle_command(EditorCommand::Move(Direction::Right));
    assert_eq!(v.location.y, 2);
    assert_eq!(v.location.x, 0);
    v.handle_command(EditorCommand::Move(Direction::Right));
    assert_eq!(v.location.y, 2);
    assert_eq!(v.location.x, 0);
}

#[test]
fn moving_to_shorter_row_truncates_column() {
    let mut v = View::new(Size { height: 10, width: 40 });
    v.load_file("doc.txt", Some(lines(&["abcdef", "xy"])));
    v.handle_command(EditorCommand::Move(Direction::End));
    assert_eq!(v.location.x, 6);
    v.handle_command(EditorCommand::Move(Direction::Down));
    assert_eq!(v.location.y, 1);
    assert_eq!(v.location.x, 2);
}

#[test]
fn horizontal_scroll_is_minimal() {
    let mut v = View::new(Size { height: 10, width: 3 });
    v.load_file("doc.txt", Some(lines(&["abcdef"])));
    v.render();
    for _ in 0..3 {
        v.handle_command(EditorCommand::Move(Direction::Right));
    }
    // Columns 0..3 are visible; column 3 lies just outside.
    assert_eq!(v.location.x, 3);
    assert_eq!(v.scroll_offset.x, 1);
}

#[test]
fn successful_load_raises_redraw_flag() {
    let mut v = View::new(Size { height: 8, width: 40 });
    v.load_file("doc.txt", Some(lines(&["old content"])));
    v.render();
    assert!(!v.needs_redraw_buffer);
    // Replacing the buffer is a content change: the next frame must repaint
    // the document region.
    v.load_file("doc.txt", Some(lines(&["new content"])));
    assert!(v.needs_redraw_buffer);
    let plan = v.render();
    assert_eq!(plan[5].text.as_str(), "new content");
    // A failed load changes no visible cell and leaves the flag untouched.
    v.load_file("missing.txt", None);
    assert!(!v.needs_redraw_buffer);
}

#[test]
fn load_failure_keeps_buffer_and_logs_once() {
    let mut v = View::new(Size { height: 8, width: 40 });
    v.load_file("doc.txt", Some(lines(&["keep me"])));
    v.load_file("missing.txt", None);
    let plan = v.render();
    // The previous buffer is intact.
    assert_eq!(plan[5].text.as_str(), "keep me");
    // Exactly one more entry was recorded, after the successful open.
    assert_eq!(plan[0].text.as_str(), "[INFO] \"doc.txt\" opened.");
    assert_eq!(
        plan[1].text.as_str(),
        "[INFO] Could not open \"missing.txt\"."
    );
    assert_eq!(plan[2].text.as_str(), "");
}

#[test]
fn page_down_moves_a_screenful_minus_one() {
    let mut v = View::new(Size { height: INFO_SECTION_SIZE + 4, width: 40 });
    let many: Vec<String> = (0..20).map(|i| format!("line {i}")).collect();
    v.load_file("doc.txt", Some(many));
    v.handle_command(EditorCommand::Move(Direction::PageDown));
    assert_eq!(v.location.y, 3);
    v.handle_command(EditorCommand::Move(Direction::PageUp));
    assert_eq!(v.location.y, 0);
}

#[test]
fn other_event_is_logged() {
    let mut v = View::new(Size { height: 10, width: 40 });
    v.handle_command(EditorCommand::OtherEvent("FocusGained".to_string()));
    let plan = v.render();
    assert_eq!(plan[0].text.as_str(), "[OTH ] FocusGained");
}

#[test]
fn non_press_key_events_not_logged_by_default() {
    let mut v = View::new(Size { height: 10, width: 40 });
    v.handle_command(EditorCommand::OtherKeyCommand("release".to_string()));
    let plan = v.render();
    assert_eq!(plan[0].text.as_str(), "");
}

#[test]
fn cursor_position_accounts_for_scroll() {
    let mut v = View::new(Size { height: INFO_SECTION_SIZE + 3, width: 10 });
    let many: Vec<String> = (0..10).map(|i| format!("line {i}")).collect();
    v.load_file("doc.txt", Some(many));
    for _ in 0..4 {
        v.handle_command(EditorCommand::Move(Direction::Down));
    }
    // Cursor on document row 4, scrolled so rows 2..5 are visible.
    assert_eq!(v.location.y, 4);
    assert_eq!(v.scroll_offset.y, 2);
    let p = v.get_cursor_position();
    assert_eq!(p.y, (4 - 2) + INFO_SECTION_SIZE);
    assert_eq!(p.x, 0);
}

#[test]
fn up_at_top_and_left_at_origin_stay_put() {
    let mut v = View::new(Size { height: 10, width: 40 });
    v.load_file("doc.txt", Some(lines(&["ab"])));
    v.handle_command(EditorCommand::Move(Direction::Up));
    assert_eq!(v.location.y, 0);
    v.handle_command(EditorCommand::Move(Direction::Left));
    assert_eq!(v.location.x, 0);
    assert_eq!(v.location.y, 0);
}

#[test]
fn scrolling_left_back_to_start() {
    let mut v = View::new(Size { height: 10, width: 3 });
    v.load_file("doc.txt", Some(lines(&["abcdef"])));
    v.handle_command(EditorCommand::Move(Direction::End));
    assert_eq!(v.location.x, 6);
    assert_eq!(v.scroll_offset.x, 4);
    v.handle_command(EditorCommand::Move(Direction::Home));
    assert_eq!(v.location.x, 0);
    assert_eq!(v.scroll_offset.x, 0);
}

#[test]
fn too_small_terminal_keeps_redraw_flag() {
    let mut v = View::new(Size { height: 2, width: 10 });
    assert!(v.needs_redraw_buffer);
    let plan = v.render();
    assert_eq!(plan.len(), 2);
    // The warning path never touches the document repaint flag.
    assert!(v.needs_redraw_buffer);
}

#[test]
fn help_command_logs_hint() {
    let mut v = View::new(Size { height: 10, width: 40 });
    v.handle_command(EditorCommand::Help);
    let plan = v.render();
    assert_eq!(
        plan[0].text.as_str(),
        "[HELP] Press <Ctrl+q> to quit the editor"
    );
}
