use hygg::commands::CommandOutcome;
use hygg::event_handler::KeyOutcome;
use hygg::display::{CursorPlacement, CursorShape};
use hygg::core_types::{BufferState, EditorMode, SplitPosition, ViewMode};
use hygg::editor::Editor;
use hygg::keys::{Key, KeyCode};

fn lines(v: &[&str]) -> Vec<String> {
    v.iter().map(|s| s.to_string()).collect()
}

fn create_test_editor() -> Editor {
    Editor::new(lines(&["Line 1", "Line 2", "Line 3", "Line 4", "Line 5"]), 80, 80, 24, 0)
}

fn numbered(n: usize) -> Vec<String> {
    (0..n).map(|i| format!("line {}", i)).collect()
}

#[test]
fn test_command_execution_mode() {
    let mut editor = create_test_editor();
    assert_eq!(editor.editor_state.mode, EditorMode::Normal);
    editor.editor_state.mode = EditorMode::Command;
    editor.editor_state.mode = EditorMode::CommandExecution;
    editor.editor_state.command_buffer.push('!');
    assert_eq!(editor.editor_state.mode, EditorMode::CommandExecution);
    assert_eq!(editor.editor_state.command_buffer, "!");
}

#[test]
fn test_buffer_state_preservation() {
    let mut editor = create_test_editor();
    editor.offset = 2;
    editor.cursor_x = 3;
    editor.cursor_y = 1;
    editor.editor_state.search_query = "test".to_string();
    editor.save_current_buffer_state();
    editor.offset = 0;
    editor.cursor_x = 0;
    editor.cursor_y = 0;
    editor.editor_state.search_query.clear();
    editor.load_buffer_state(0);
    assert_eq!(editor.offset, 2);
    assert_eq!(editor.cursor_x, 3);
    assert_eq!(editor.cursor_y, 1);
    assert_eq!(editor.editor_state.search_query, "test");
}

#[test]
fn new_editor_starts_with_one_buffer() {
    let e = create_test_editor();
    assert_eq!(e.buffers.len(), 1);
    assert_eq!(e.active_buffer, 0);
    assert_eq!(e.view_mode, ViewMode::Normal);
    assert_eq!(e.cursor_y, 12);
    assert_eq!(e.total_lines, 5);
    assert_eq!(e.buffers[0].viewport_height, 23);
    assert_eq!(e.settings.split_ratio_percent, 70);
    assert_eq!(e.get_cursor_position(), (4, 0));
    assert_eq!(e.calculate_dimensions(), 23);
    assert!(!e.can_close_buffer());
    assert!(!e.is_in_split_view());
}

#[test]
fn load_moves_cursor_back_onto_document() {
    let mut e = create_test_editor();
    e.offset = 3;
    e.cursor_y = 4;
    e.save_current_buffer_state();
    e.load_buffer_state(0);
    // 3 + 4 is past the 5 lines: the view moves back to show the last line.
    assert_eq!(e.offset, 0);
    assert_eq!(e.cursor_y, 4);
}

#[test]
fn overlay_round_trip_restores_document() {
    let mut e = create_test_editor();
    e.cursor_y = 2;
    e.cursor_x = 1;
    e.create_overlay("ls", lines(&["a", "b"]));
    assert_eq!(e.active_buffer, 1);
    assert_eq!(e.view_mode, ViewMode::Overlay);
    assert_eq!(e.lines, lines(&["a", "b"]));
    assert_eq!(e.total_lines, 2);
    assert_eq!(e.offset, 0);
    assert_eq!(e.cursor_y, 0);
    assert_eq!(e.buffers[1].command, Some("ls".to_string()));
    assert_eq!(e.buffers[1].overlay_level, 1);
    assert!(e.can_close_buffer());
    assert!(e.close_overlay());
    assert_eq!(e.view_mode, ViewMode::Normal);
    assert_eq!(e.buffers.len(), 1);
    assert_eq!(e.lines, lines(&["Line 1", "Line 2", "Line 3", "Line 4", "Line 5"]));
    assert_eq!(e.cursor_y, 2);
    assert_eq!(e.cursor_x, 1);
    assert!(!e.close_overlay());
}

#[test]
fn overlay_validates_lines() {
    let mut e = create_test_editor();
    e.create_overlay("x", Vec::new());
    assert_eq!(e.lines, lines(&["No content available", "Press :q to exit"]));
    e.create_overlay("y", vec!["ok".to_string(), "bad\0line".to_string(), String::new()]);
    assert_eq!(e.lines, lines(&["ok", "INVALID_LINE", ""]));
    assert_eq!(e.buffers.len(), 2);
    assert_eq!(e.buffers[1].command, Some("y".to_string()));
}

#[test]
fn split_dimensions_and_panes() {
    let mut e = Editor::new(numbered(20), 80, 80, 11, 0);
    e.cursor_y = 3;
    e.create_horizontal_split("ls", lines(&["x", "y"]));
    assert_eq!(e.view_mode, ViewMode::HorizontalSplit);
    assert_eq!(e.buffers.len(), 2);
    assert_eq!(e.buffers[0].viewport_height, 7);
    assert_eq!(e.buffers[0].split_position, SplitPosition::Top);
    assert_eq!(e.buffers[1].viewport_height, 3);
    assert_eq!(e.buffers[1].split_position, SplitPosition::Bottom);
    assert!(e.buffers[1].is_split_buffer);
    assert_eq!(e.active_buffer, 1);
    assert_eq!(e.active_pane, 1);
    assert_eq!(e.lines, lines(&["x", "y"]));
    assert_eq!((e.offset, e.cursor_x, e.cursor_y), (0, 0, 0));
    assert_eq!(e.get_effective_viewport_height(), 3);
    e.switch_split_pane(0);
    assert_eq!(e.active_buffer, 0);
    assert_eq!(e.active_pane, 0);
    assert_eq!(e.lines, numbered(20));
    assert_eq!(e.cursor_y, 3);
    assert!(e.render.buffer_just_switched);
    assert!(e.close_split());
    assert_eq!(e.view_mode, ViewMode::Normal);
    assert_eq!(e.buffers.len(), 1);
    assert_eq!(e.buffers[0].viewport_height, 10);
    assert_eq!(e.buffers[0].split_height, None);
    assert!(!e.close_split());
}

#[test]
fn split_round_trip_restores_document() {
    let mut e = Editor::new(numbered(20), 80, 80, 24, 0);
    e.offset = 4;
    e.cursor_y = 6;
    e.cursor_x = 2;
    e.create_horizontal_split("cmd", lines(&["out"]));
    assert!(e.close_split());
    assert_eq!((e.offset, e.cursor_y, e.cursor_x), (4, 6, 2));
    assert_eq!(e.lines, numbered(20));
}

#[test]
fn center_cursor_in_buffer_centres_line() {
    let mut e = Editor::new(numbered(100), 80, 80, 11, 0);
    e.offset = 40;
    e.cursor_y = 0;
    e.center_cursor_in_buffer();
    // viewport 10: line 40 goes to row 5.
    assert_eq!(e.offset, 35);
    assert_eq!(e.cursor_y, 5);
}

#[test]
fn moving_down_and_up_centres() {
    let mut e = Editor::new(numbered(30), 80, 80, 11, 0);
    e.cursor_y = 0;
    e.move_cursor_down();
    assert_eq!((e.offset, e.cursor_y), (0, 1));
    for _ in 0..5 {
        e.move_cursor_down();
    }
    assert_eq!((e.offset, e.cursor_y), (1, 5));
    assert!(e.render.cursor_moved);
    e.move_cursor_up();
    assert_eq!((e.offset, e.cursor_y), (0, 5));
    e.offset = 0;
    e.cursor_y = 0;
    let before = (e.offset, e.cursor_y);
    e.move_cursor_up();
    assert_eq!((e.offset, e.cursor_y), before);
    e.offset = 29;
    e.move_cursor_down();
    assert_eq!(e.offset, 29);
}

#[test]
fn moving_down_keeps_column_on_shorter_line() {
    let mut e = Editor::new(lines(&["hello", "hi"]), 80, 80, 24, 0);
    e.cursor_y = 0;
    e.cursor_x = 4;
    e.move_cursor_down();
    assert_eq!(e.cursor_x, 1);
    e.move_cursor_right();
    assert_eq!(e.cursor_x, 1);
    e.move_cursor_left();
    assert_eq!(e.cursor_x, 0);
    e.move_cursor_left();
    assert_eq!(e.cursor_x, 0);
}

#[test]
fn goto_line_centres_and_finds_text() {
    let mut v = numbered(30);
    v[20] = "   indented".to_string();
    let mut e = Editor::new(v, 80, 80, 11, 0);
    e.goto_line_with_overscroll(20);
    assert_eq!((e.offset, e.cursor_y, e.cursor_x), (15, 5, 3));
    e.goto_line_with_overscroll(100);
    assert_eq!((e.offset, e.cursor_y), (24, 5));
    e.goto_line_with_overscroll(2);
    assert_eq!((e.offset, e.cursor_y), (0, 2));
    assert!(e.render.needs_redraw);
}

#[test]
fn half_pages_and_pages() {
    let mut e = Editor::new(numbered(30), 80, 80, 11, 0);
    e.cursor_y = 0;
    e.half_page_down();
    assert_eq!((e.offset, e.cursor_y), (0, 5));
    e.half_page_down();
    assert_eq!((e.offset, e.cursor_y), (5, 5));
    e.half_page_up();
    assert_eq!((e.offset, e.cursor_y), (0, 5));
    e.offset = 0;
    e.cursor_y = 0;
    assert_eq!(e.handle_page_navigation(Key::plain(KeyCode::PageDown)), Some(false));
    assert_eq!((e.offset, e.cursor_y), (2, 5));
    assert_eq!(e.handle_page_navigation(Key::plain(KeyCode::PageUp)), Some(false));
    assert_eq!((e.offset, e.cursor_y), (0, 0));
    assert_eq!(e.handle_page_navigation(Key::plain(KeyCode::Char('d'))), None);
}

#[test]
fn centring_with_and_without_overscroll() {
    let mut e = Editor::new(numbered(30), 80, 80, 11, 0);
    e.offset = 27;
    e.cursor_y = 2;
    e.center_cursor();
    assert_eq!((e.offset, e.cursor_y), (24, 5));
    e.offset = 27;
    e.cursor_y = 2;
    e.center_cursor_with_overscroll(false);
    assert_eq!((e.offset, e.cursor_y), (20, 9));
}

#[test]
fn screen_positions() {
    let mut e = Editor::new(numbered(30), 80, 80, 11, 0);
    e.offset = 3;
    assert_eq!(e.get_screen_position('H'), (3, 0));
    assert_eq!(e.get_screen_position('M'), (8, 0));
    assert_eq!(e.get_screen_position('L'), (12, 0));
    e.offset = 25;
    assert_eq!(e.get_screen_position('L'), (29, 0));
}

#[test]
fn line_starts_and_ends() {
    let e = Editor::new(lines(&["", "   ", "  foo bar!!  ", "x"]), 80, 80, 24, 0);
    assert_eq!(e.find_next_line_start(0), (2, 2));
    assert_eq!(e.find_next_line_start(3), (3, 0));
    assert_eq!(e.find_next_line_start(9), (3, 0));
    assert_eq!(e.find_prev_line_end(2), (2, 9));
    assert_eq!(e.find_prev_line_end(1), (1, 0));
    assert_eq!(e.find_prev_line_end(7), (0, 0));
    let e2 = Editor::new(lines(&["  foo bar  "]), 80, 80, 24, 0);
    assert_eq!(e2.find_prev_line_end(0), (0, 6));
}

#[test]
fn paragraph_boundaries() {
    let mut e = Editor::new(lines(&["a", "b", "", "c", "d", "", "e"]), 80, 80, 24, 0);
    e.cursor_y = 0;
    assert_eq!(e.find_paragraph_boundary(true), (3, 0));
    e.cursor_y = 4;
    assert_eq!(e.find_paragraph_boundary(false), (2, 0));
    e.cursor_y = 1;
    assert_eq!(e.find_paragraph_boundary(false), (0, 0));
    e.cursor_y = 6;
    assert_eq!(e.find_paragraph_boundary(true), (6, 0));
}

#[test]
fn sentence_boundaries() {
    let mut e = Editor::new(lines(&["Hello world. Next one! End"]), 80, 80, 24, 0);
    e.cursor_y = 0;
    e.cursor_x = 0;
    assert_eq!(e.find_sentence_boundary(true), (0, 13));
    e.cursor_x = 25;
    assert_eq!(e.find_sentence_boundary(false), (0, 22));
    e.cursor_x = 3;
    assert_eq!(e.find_sentence_boundary(false), (0, 0));
    e.cursor_x = 23;
    assert_eq!(e.find_sentence_boundary(true), (0, 25));
    let mut e2 = Editor::new(lines(&["One.", "  Two"]), 80, 80, 24, 0);
    e2.cursor_y = 0;
    assert_eq!(e2.find_sentence_boundary(true), (1, 2));
}

#[test]
fn status_line_texts() {
    let mut e = Editor::new(numbered(20), 80, 80, 11, 0);
    e.cursor_y = 3;
    e.cursor_x = 4;
    assert_eq!(e.mode_indicator(), "");
    assert_eq!(e.position_info(), "4: 5 (4/20)");
    assert_eq!(
        e.cursor_position_for_display(2),
        CursorPlacement::At { column: 6, row: 3, shape: CursorShape::BlinkingBlock }
    );
    e.set_active_mode(EditorMode::VisualLine);
    assert_eq!(e.mode_indicator(), "-- VISUAL LINE --");
    e.set_active_mode(EditorMode::Search);
    e.buffers[0].command_buffer = "ab".to_string();
    e.buffers[0].command_cursor_pos = 2;
    assert_eq!(e.mode_indicator(), "/ab");
    assert_eq!(
        e.cursor_position_for_display(2),
        CursorPlacement::At { column: 3, row: 10, shape: CursorShape::BlinkingBar }
    );
    e.settings.show_cursor = false;
    assert_eq!(e.cursor_position_for_display(2), CursorPlacement::Hidden);
    assert!(!e.shows_progress());
    e.settings.show_progress = true;
    assert!(e.shows_progress());
    e.settings.show_cursor = true;
    e.set_active_mode(EditorMode::Normal);
    e.create_horizontal_split("ls", lines(&["out"]));
    assert_eq!(
        e.cursor_position_for_display(0),
        CursorPlacement::At { column: 0, row: 8, shape: CursorShape::BlinkingBlock }
    );
    e.switch_split_pane(0);
    e.create_overlay("help", lines(&["x"]));
    assert!(e.position_info().starts_with(" [Overlay: help]  "));
}

#[test]
fn word_motion_target_is_centred() {
    let mut e = Editor::new(numbered(30), 80, 80, 11, 0);
    e.cursor_y = 0;
    e.move_to_word_boundary((20, 3));
    assert_eq!((e.offset, e.cursor_y, e.cursor_x), (15, 5, 3));
    e.move_to_word_boundary((2, 1));
    assert_eq!((e.offset, e.cursor_y, e.cursor_x), (0, 2, 1));
}

fn plain(c: char) -> Key {
    Key::plain(KeyCode::Char(c))
}

#[test]
fn normal_mode_keys_reach_their_handlers() {
    let mut e = Editor::new(numbered(50), 80, 80, 11, 0);
    e.cursor_y = 0;
    // A count then `G` goes to that line.
    assert_eq!(e.handle_normal_mode_event(plain('1'), None), (false, false));
    assert_eq!(e.handle_normal_mode_event(plain('2'), None), (false, false));
    assert_eq!(e.nav.number_prefix, "12");
    assert_eq!(e.handle_normal_mode_event(plain('G'), None), (false, false));
    assert_eq!(e.get_cursor_position().0, 11);
    assert_eq!(e.nav.number_prefix, "");
    // `j` moves down; an unknown key changes nothing but the count.
    e.handle_normal_mode_event(plain('j'), None);
    assert_eq!(e.get_cursor_position().0, 12);
    e.nav.number_prefix = "3".to_string();
    assert_eq!(e.handle_normal_mode_event(plain('z'), None), (false, false));
    assert_eq!(e.nav.number_prefix, "");
    assert_eq!(e.get_cursor_position().0, 12);
    // `gg` goes to the top; `g` alone waits for its second key.
    e.handle_normal_mode_event(plain('g'), None);
    assert_eq!(e.get_cursor_position().0, 12);
    e.handle_normal_mode_event(plain('g'), Some(plain('g')));
    assert_eq!(e.get_cursor_position().0, 0);
    // Setting a mark asks for the marks to be saved.
    assert_eq!(e.handle_normal_mode_event(plain('m'), Some(plain('a'))), (false, true));
    // `:` opens the command line, `v` starts a selection.
    e.handle_normal_mode_event(plain(':'), None);
    assert_eq!(e.get_active_mode(), EditorMode::Command);
}

#[test]
fn normal_mode_pane_command() {
    let mut e = Editor::new(numbered(30), 80, 80, 24, 0);
    e.create_horizontal_split("ls", lines(&["a", "b"]));
    assert_eq!(e.view_mode, ViewMode::HorizontalSplit);
    e.handle_normal_mode_event(Key::with_ctrl(KeyCode::Char(' ')), None);
    assert!(e.nav.tmux_prefix_active);
    e.handle_normal_mode_event(plain('k'), None);
    assert!(!e.nav.tmux_prefix_active);
    assert_eq!(e.active_pane, 0);
    e.handle_normal_mode_event(Key::with_ctrl(KeyCode::Char(' ')), None);
    e.handle_normal_mode_event(plain('j'), None);
    assert_eq!(e.active_pane, 1);
}

#[test]
fn page_and_navigation_keys() {
    let mut e = Editor::new(numbered(100), 80, 80, 21, 0);
    e.cursor_y = 0;
    assert_eq!(e.handle_page_movement_keys(Key::plain(KeyCode::PageDown)), Some(false));
    assert_eq!(e.get_cursor_position().0, 17);
    assert_eq!(e.handle_page_movement_keys(plain('d')), None);
    assert_eq!(e.handle_navigation_keys(Key::with_ctrl(KeyCode::Char('d')), None), (Some(false), false));
    assert_eq!(e.get_cursor_position().0, 27);
    assert_eq!(e.handle_navigation_keys(plain('q'), None), (None, false));
}

#[test]
fn command_line_keys() {
    let mut e = Editor::new(numbered(5), 80, 80, 24, 0);
    assert!(matches!(e.handle_event(plain(':'), None), KeyOutcome::Continue { save_marks: false }));
    assert_eq!(e.get_active_mode(), EditorMode::Command);
    e.handle_event(plain('q'), None);
    e.handle_event(plain('x'), None);
    assert_eq!(e.editor_state.command_buffer, "qx");
    assert_eq!(e.buffers[0].command_buffer, "qx");
    e.handle_event(Key::plain(KeyCode::Backspace), None);
    assert_eq!(e.editor_state.command_buffer, "q");
    assert_eq!(e.editor_state.command_cursor_pos, 1);
    assert!(matches!(
        e.handle_event(Key::plain(KeyCode::Enter), None),
        KeyOutcome::Command(CommandOutcome::Exit)
    ));
    // Esc closes the command line.
    let mut f = Editor::new(numbered(5), 80, 80, 24, 0);
    f.handle_event(plain(':'), None);
    f.handle_event(plain('p'), None);
    f.handle_event(Key::plain(KeyCode::Esc), None);
    assert_eq!(f.get_active_mode(), EditorMode::Normal);
    assert_eq!(f.editor_state.command_buffer, "");
    // Backspace on an empty line closes it too.
    f.handle_event(plain(':'), None);
    f.handle_event(Key::plain(KeyCode::Backspace), None);
    assert_eq!(f.get_active_mode(), EditorMode::Normal);
}

#[test]
fn events_by_mode() {
    let mut e = Editor::new(numbered(30), 80, 80, 11, 0);
    e.cursor_y = 0;
    assert!(matches!(e.handle_event(plain('j'), None), KeyOutcome::Continue { save_marks: false }));
    assert_eq!(e.get_cursor_position().0, 1);
    // A search finds its match as it is typed and keeps it on Enter.
    e.handle_event(plain('/'), None);
    assert_eq!(e.get_active_mode(), EditorMode::Search);
    for c in "line 2".chars() {
        e.handle_event(plain(c), None);
    }
    e.handle_event(Key::plain(KeyCode::Enter), None);
    assert_eq!(e.get_active_mode(), EditorMode::Normal);
    assert_eq!(e.editor_state.current_match, Some((2, 0, 6)));
    // Visual selection is left with Esc; other keys there are left alone.
    e.handle_event(plain('v'), None);
    assert_eq!(e.get_active_mode(), EditorMode::VisualChar);
    assert!(matches!(e.handle_event(plain('j'), None), KeyOutcome::Ignored));
    e.handle_event(Key::plain(KeyCode::Esc), None);
    assert_eq!(e.get_active_mode(), EditorMode::Normal);
    assert_eq!(e.editor_state.selection_start, None);
    assert!(e.matches_centrable(true));
    assert!(e.preview_ok());
    assert!(e.centre_ok(3, false));
}

#[test]
fn next_match_in_short_document() {
    // A document shorter than the screen whose first line matches.
    let mut v = numbered(15);
    v[0] = "alpha".to_string();
    let mut e = Editor::new(v, 80, 80, 24, 0);
    e.offset = 0;
    e.cursor_y = 5;
    e.editor_state.search_query = "alpha".to_string();
    assert!(e.matches_centrable(true));
    assert!(matches!(e.handle_event(plain('n'), None), KeyOutcome::Continue { save_marks: false }));
    assert_eq!(e.editor_state.current_match, Some((0, 0, 5)));
    assert_eq!(e.get_cursor_position(), (0, 0));
    // With an empty query `n` changes nothing.
    let mut f = Editor::new(numbered(15), 80, 80, 24, 0);
    f.cursor_y = 3;
    assert!(f.matches_centrable(true));
    f.handle_event(plain('n'), None);
    assert_eq!(f.cursor_y, 3);
    assert_eq!(f.editor_state.current_match, None);
}

#[test]
fn yank_operator_keys() {
    let mut e = Editor::new(numbered(10), 80, 80, 24, 0);
    assert_eq!(e.handle_search_visual_keys(plain('y'), None), Some(false));
    assert_eq!(e.editor_state.operator_pending, Some('y'));
    assert_eq!(e.handle_search_visual_keys(plain('y'), None), Some(false));
    assert_eq!(e.editor_state.operator_pending, None);
    let shift_y = Key { code: KeyCode::Char('y'), ctrl: false, alt: false, shift: true };
    assert_eq!(e.handle_search_visual_keys(shift_y, None), Some(false));
    assert_eq!(e.editor_state.operator_pending, None);
    assert_eq!(e.handle_search_visual_keys(plain('i'), None), Some(false));
    assert_eq!(e.handle_search_visual_keys(plain('x'), None), None);
    // In normal mode a pending operator takes the next key.
    e.handle_event(plain('y'), None);
    assert_eq!(e.editor_state.operator_pending, Some('y'));
    e.cursor_y = 4;
    e.handle_event(plain('j'), None);
    assert_eq!(e.editor_state.operator_pending, None);
    assert_eq!(e.cursor_y, 4);
    assert_eq!(e.handle_operator_pending(plain('j')), None);
    // `i` after a pending `v` selects the inner word.
    let mut w = Editor::new(lines(&["hello world"]), 80, 80, 24, 0);
    w.offset = 0;
    w.cursor_y = 0;
    w.cursor_x = 7;
    w.editor_state.operator_pending = Some('v');
    assert_eq!(w.handle_search_visual_keys(plain('i'), Some(plain('w'))), Some(false));
    assert_eq!(w.editor_state.selection_start, Some((0, 6)));
    assert_eq!(w.editor_state.operator_pending, None);
}

#[test]
fn second_keys() {
    let mut e = Editor::new(numbered(10), 80, 80, 24, 0);
    assert!(e.takes_second_key(plain('g')));
    assert!(e.takes_second_key(plain('m')));
    assert!(e.takes_second_key(plain('\'')));
    assert!(!e.takes_second_key(plain('j')));
    e.editor_state.operator_pending = Some('y');
    assert!(!e.takes_second_key(plain('g')));
    e.editor_state.operator_pending = None;
    e.handle_event(plain(':'), None);
    assert!(!e.takes_second_key(plain('g')));
}

#[test]
fn star_and_hash_search_word_under_cursor() {
    let mut e = Editor::new(lines(&["alpha beta", "gamma", "beta delta", "alpha"]), 80, 80, 24, 0);
    e.offset = 0;
    e.cursor_y = 0;
    e.cursor_x = 7;
    assert_eq!(e.get_word_under_cursor(), Some("beta".to_string()));
    assert!(e.word_search_centrable(true));
    assert_eq!(e.handle_search_visual_keys(plain('*'), None), Some(false));
    assert_eq!(e.editor_state.search_query, "beta");
    assert!(e.editor_state.search_direction);
    assert_eq!(e.editor_state.current_match, Some((2, 0, 4)));
    assert_eq!(e.get_cursor_position(), (2, 0));
    // `#` searches backward from the current match for the word under the
    // cursor, wrapping around.
    e.cursor_y = 3;
    e.cursor_x = 2;
    assert!(matches!(e.handle_event(plain('#'), None), KeyOutcome::Continue { save_marks: false }));
    assert_eq!(e.editor_state.search_query, "alpha");
    assert!(!e.editor_state.search_direction);
    assert_eq!(e.editor_state.current_match, Some((0, 0, 5)));
    assert_eq!(e.get_cursor_position(), (0, 0));
    // `n` then goes on in the direction `#` set.
    e.handle_event(plain('n'), None);
    assert_eq!(e.editor_state.current_match, Some((3, 0, 5)));
}

#[test]
fn star_without_a_word_changes_nothing() {
    let mut e = Editor::new(lines(&["alpha beta", "x", "", "(beta)"]), 80, 80, 24, 0);
    e.offset = 0;
    e.cursor_y = 0;
    e.cursor_x = 5;
    assert_eq!(e.get_word_under_cursor(), None);
    assert_eq!(e.handle_search_visual_keys(plain('*'), None), Some(false));
    assert_eq!(e.editor_state.search_query, "");
    assert_eq!(e.editor_state.current_match, None);
    assert_eq!(e.get_cursor_position(), (0, 5));
    e.cursor_y = 2;
    e.cursor_x = 0;
    assert_eq!(e.get_word_under_cursor(), None);
    e.cursor_y = 3;
    assert_eq!(e.get_word_under_cursor(), None);
    // A column past the end counts as the last character.
    e.cursor_y = 1;
    e.cursor_x = 40;
    assert_eq!(e.get_word_under_cursor(), Some("x".to_string()));
}

#[test]
fn word_under_cursor_runs_over_word_characters() {
    let mut e = Editor::new(lines(&["see foo_bar2.baz now"]), 80, 80, 24, 0);
    e.offset = 0;
    e.cursor_y = 0;
    e.cursor_x = 6;
    assert_eq!(e.get_word_under_cursor(), Some("foo_bar2".to_string()));
    e.cursor_x = 14;
    assert_eq!(e.get_word_under_cursor(), Some("baz".to_string()));
}
