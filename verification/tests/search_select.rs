use hygg::core_types::EditorMode;
use hygg::editor::Editor;
use hygg::keys::{Key, KeyCode};

fn numbered(n: usize) -> Vec<String> {
    (0..n).map(|i| format!("line {}", i)).collect()
}

fn lines(v: &[&str]) -> Vec<String> {
    v.iter().map(|s| s.to_string()).collect()
}

fn editor_at(v: &[&str], y: usize, x: usize) -> Editor {
    let mut e = Editor::new(lines(v), 80, 80, 24, 0);
    e.offset = 0;
    e.cursor_y = y;
    e.cursor_x = x;
    e
}

#[test]
fn first_and_next_matches() {
    let mut e = editor_at(&["alpha", "Beta gamma", "delta beta"], 0, 0);
    e.editor_state.search_query = "beta".to_string();
    e.find_first_match(true);
    assert_eq!(e.editor_state.current_match, Some((1, 0, 4)));
    assert_eq!(e.buffers[0].current_match, Some((1, 0, 4)));
    e.find_next_match(true);
    assert_eq!(e.editor_state.current_match, Some((2, 6, 10)));
    e.find_next_match(true);
    assert_eq!(e.editor_state.current_match, Some((1, 0, 4)));
    e.find_next_match(false);
    assert_eq!(e.editor_state.current_match, Some((2, 6, 10)));
}

#[test]
fn first_match_on_cursor_line() {
    let mut e = editor_at(&["one two one", "x"], 0, 1);
    e.editor_state.search_query = "ONE".to_string();
    e.find_first_match(true);
    assert_eq!(e.editor_state.current_match, Some((0, 8, 11)));
    assert_eq!(e.buffers[0].current_match, None);
    e.cursor_x = 8;
    e.find_first_match(false);
    assert_eq!(e.editor_state.current_match, Some((0, 0, 3)));
}

#[test]
fn missing_query_changes_nothing() {
    let mut e = editor_at(&["abc"], 0, 0);
    e.editor_state.search_query = "zzz".to_string();
    e.find_first_match(true);
    assert_eq!(e.editor_state.current_match, None);
    e.find_next_match(true);
    assert_eq!(e.editor_state.current_match, None);
    e.editor_state.search_query = String::new();
    e.editor_state.current_match = Some((0, 0, 1));
    e.find_first_match(true);
    assert_eq!(e.editor_state.current_match, Some((0, 0, 1)));
}

#[test]
fn preview_match_and_centre() {
    let mut e = editor_at(&["alpha", "Beta gamma", "delta beta"], 0, 0);
    e.find_preview_match("GAM", true);
    assert_eq!(e.editor_state.search_preview_match, Some((1, 5, 8)));
    assert_eq!((e.offset, e.cursor_y, e.cursor_x), (0, 1, 5));
    e.editor_state.search_original_cursor = Some((0, 0));
    e.editor_state.search_original_offset = Some(0);
    e.find_preview_match("nothing", true);
    assert_eq!(e.editor_state.search_preview_match, None);
    assert_eq!((e.offset, e.cursor_y, e.cursor_x), (0, 0, 0));
    e.find_preview_match("", true);
    assert_eq!(e.editor_state.search_preview_match, None);
}

#[test]
fn centre_on_match_in_long_document() {
    let v: Vec<String> = (0..100).map(|i| format!("l{}", i)).collect();
    let mut e = Editor::new(v, 80, 80, 11, 0);
    e.editor_state.current_match = Some((50, 1, 2));
    e.center_on_match();
    assert_eq!((e.offset, e.cursor_y, e.cursor_x), (45, 5, 1));
    e.editor_state.current_match = Some((98, 0, 1));
    e.center_on_match();
    assert_eq!((e.offset, e.cursor_y), (90, 8));
    assert!(e.has_search_match_on_line(8));
    assert!(!e.has_search_match_on_line(7));
}

#[test]
fn typing_a_search() {
    let mut e = editor_at(&["alpha", "Beta gamma", "delta beta"], 0, 0);
    assert_eq!(e.handle_search_visual_keys(Key::plain(KeyCode::Char('/')), None), Some(false));
    assert_eq!(e.get_active_mode(), EditorMode::Search);
    assert!(e.editor_state.search_preview_active);
    assert!(!e.handle_search_mode_event(Key::plain(KeyCode::Char('d'))));
    assert!(!e.handle_search_mode_event(Key::plain(KeyCode::Char('e'))));
    assert_eq!(e.editor_state.command_buffer, "de");
    assert_eq!(e.buffers[0].command_buffer, "de");
    assert_eq!(e.editor_state.search_preview_match, Some((2, 0, 2)));
    assert!(!e.handle_search_mode_event(Key::plain(KeyCode::Backspace)));
    assert_eq!(e.editor_state.command_buffer, "d");
    assert!(!e.handle_search_mode_event(Key::plain(KeyCode::Char('e'))));
    assert!(!e.handle_search_mode_event(Key::plain(KeyCode::Enter)));
    assert_eq!(e.editor_state.search_query, "de");
    assert_eq!(e.editor_state.current_match, Some((2, 0, 2)));
    assert_eq!(e.get_active_mode(), EditorMode::Normal);
    assert_eq!(e.editor_state.command_buffer, "");
    assert_eq!(e.editor_state.search_preview_match, None);
    assert_eq!((e.offset, e.cursor_y, e.cursor_x), (0, 2, 0));
}

#[test]
fn escaping_a_search_goes_back() {
    let mut e = editor_at(&["alpha", "Beta gamma", "delta beta"], 0, 0);
    e.handle_search_visual_keys(Key::plain(KeyCode::Char('/')), None);
    e.handle_search_mode_event(Key::plain(KeyCode::Char('g')));
    assert_eq!(e.cursor_y, 1);
    e.handle_search_mode_event(Key::plain(KeyCode::Esc));
    assert_eq!((e.offset, e.cursor_y, e.cursor_x), (0, 0, 0));
    assert_eq!(e.get_active_mode(), EditorMode::Normal);
    assert!(!e.editor_state.search_preview_active);
}

#[test]
fn escape_after_many_keys_keeps_committed_query() {
    let mut e = editor_at(&["alpha", "Beta gamma", "delta beta", "omega"], 0, 0);
    e.cursor_x = 2;
    e.editor_state.search_query = "alpha".to_string();
    assert_eq!(e.handle_search_visual_keys(Key::plain(KeyCode::Char('/')), None), Some(false));
    for c in ['d', 'e', 'l'] {
        assert!(!e.handle_search_mode_event(Key::plain(KeyCode::Char(c))));
    }
    assert!(!e.handle_search_mode_event(Key::plain(KeyCode::Backspace)));
    assert!(!e.handle_search_mode_event(Key::plain(KeyCode::Char('g'))));
    assert!(!e.handle_search_mode_event(Key::plain(KeyCode::Esc)));
    assert_eq!((e.offset, e.cursor_y, e.cursor_x), (0, 0, 2));
    assert_eq!(e.get_active_mode(), EditorMode::Normal);
    assert!(!e.editor_state.search_preview_active);
    assert_eq!(e.editor_state.search_preview_match, None);
    assert_eq!(e.editor_state.search_query, "alpha");
}

#[test]
fn n_moves_between_matches() {
    let mut e = editor_at(&["ab", "xab", "ab"], 0, 0);
    e.editor_state.search_query = "ab".to_string();
    e.editor_state.current_match = Some((0, 0, 2));
    assert_eq!(e.handle_search_visual_keys(Key::plain(KeyCode::Char('n')), None), Some(false));
    assert_eq!(e.editor_state.current_match, Some((1, 1, 3)));
    assert_eq!((e.cursor_y, e.cursor_x), (1, 1));
    e.handle_search_visual_keys(Key::plain(KeyCode::Char('N')), None);
    assert_eq!(e.editor_state.current_match, Some((0, 0, 2)));
}

#[test]
fn selections_and_text() {
    let mut e = editor_at(&["hello world", "second line", "third"], 0, 6);
    e.start_selection();
    assert_eq!(e.editor_state.selection_start, Some((0, 6)));
    assert_eq!(e.buffers[0].selection_end, Some((0, 6)));
    e.cursor_y = 2;
    e.cursor_x = 3;
    e.update_selection();
    assert_eq!(e.editor_state.selection_end, Some((2, 3)));
    assert_eq!(e.get_selected_text(), "world\nsecond line\nthi");
    e.editor_state.mode = EditorMode::VisualLine;
    assert_eq!(e.get_selected_text(), "hello world\nsecond line\nthird");
    e.editor_state.mode = EditorMode::VisualChar;
    e.editor_state.selection_start = Some((1, 9));
    e.editor_state.selection_end = Some((1, 2));
    assert_eq!(e.get_selected_text(), "cond li");
    assert!(e.has_selection_on_line(1));
    assert!(!e.has_selection_on_line(0));
    e.save_visual_selection();
    e.clear_selection();
    assert_eq!(e.editor_state.selection_start, None);
    assert_eq!(e.get_selected_text(), "");
}

#[test]
fn selecting_words() {
    let mut e = editor_at(&["hello world", "a.b..c  d"], 0, 1);
    e.select_inner_word(false);
    assert_eq!(e.editor_state.selection_start, Some((0, 0)));
    assert_eq!(e.editor_state.selection_end, Some((0, 5)));
    e.select_around_word(false);
    assert_eq!(e.editor_state.selection_end, Some((0, 6)));
    e.cursor_x = 8;
    e.select_around_word(false);
    assert_eq!(e.editor_state.selection_start, Some((0, 6)));
    assert_eq!(e.editor_state.selection_end, Some((0, 11)));
    e.cursor_y = 1;
    e.cursor_x = 3;
    e.select_inner_word(false);
    assert_eq!(e.editor_state.selection_start, Some((1, 3)));
    assert_eq!(e.editor_state.selection_end, Some((1, 5)));
    e.select_inner_word(true);
    assert_eq!(e.editor_state.selection_start, Some((1, 0)));
    assert_eq!(e.editor_state.selection_end, Some((1, 6)));
    e.cursor_x = 6;
    e.editor_state.selection_start = None;
    e.select_inner_word(false);
    assert_eq!(e.editor_state.selection_start, None);
}

#[test]
fn selecting_between_delimiters() {
    let mut e = editor_at(&["foo(bar, (baz)) qux"], 0, 5);
    e.select_inner_parentheses();
    assert_eq!(e.editor_state.selection_start, Some((0, 4)));
    assert_eq!(e.editor_state.selection_end, Some((0, 14)));
    e.select_around_parentheses();
    assert_eq!(e.editor_state.selection_start, Some((0, 3)));
    assert_eq!(e.editor_state.selection_end, Some((0, 15)));
    assert_eq!(e.buffers[0].selection_end, Some((0, 15)));
    e.editor_state.selection_start = None;
    e.select_inner_braces();
    assert_eq!(e.editor_state.selection_start, None);
    let mut e2 = editor_at(&["a{", "b", "}c"], 1, 0);
    e2.select_inner_braces();
    assert_eq!(e2.editor_state.selection_start, Some((0, 2)));
    assert_eq!(e2.editor_state.selection_end, Some((2, 0)));
    let mut e3 = editor_at(&["[x]"], 0, 1);
    e3.select_inner_brackets();
    assert_eq!(e3.editor_state.selection_start, Some((0, 1)));
    assert_eq!(e3.editor_state.selection_end, Some((0, 2)));
    e3.select_around_brackets();
    assert_eq!(e3.editor_state.selection_start, Some((0, 0)));
    assert_eq!(e3.editor_state.selection_end, Some((0, 3)));
    let mut e4 = editor_at(&["[]"], 0, 0);
    e4.select_around_brackets();
    assert_eq!(e4.editor_state.selection_start, None);
}

#[test]
fn restore_visual_selection_moves_to_end() {
    let mut e = editor_at(&["aaa", "bbb", "ccc"], 0, 0);
    e.editor_state.last_visual_start = Some((0, 1));
    e.editor_state.last_visual_end = Some((2, 2));
    e.editor_state.last_visual_mode = Some(EditorMode::VisualChar);
    e.restore_visual_selection();
    assert_eq!(e.get_active_mode(), EditorMode::VisualChar);
    assert_eq!(e.editor_state.selection_start, Some((0, 1)));
    assert_eq!(e.get_cursor_position(), (2, 2));
}

#[test]
fn pane_selection_and_highlight_rows() {
    let mut e = Editor::new(numbered(20), 80, 80, 24, 0);
    e.offset = 2;
    e.editor_state.selection_start = Some((5, 1));
    e.editor_state.selection_end = Some((3, 0));
    assert!(e.has_pane_selection_on_line(0, 1));
    assert!(e.has_pane_selection_on_line(0, 3));
    assert!(!e.has_pane_selection_on_line(0, 4));
    assert!(!e.has_pane_selection_on_line(0, 0));
    assert!(!e.has_pane_selection_on_line(7, 1));
    e.cursor_y = 4;
    assert!(e.highlights_row(4));
    assert!(!e.highlights_row(3));
    e.settings.show_highlighter = false;
    assert!(!e.highlights_row(4));
    e.editor_state.current_match = Some((6, 2, 5));
    assert_eq!(e.search_highlight_on_row(4), Some((2, 5)));
    assert_eq!(e.search_highlight_on_row(3), None);
    e.editor_state.search_preview_active = true;
    e.editor_state.search_preview_match = Some((3, 0, 1));
    assert_eq!(e.search_highlight_on_row(1), Some((0, 1)));
    assert_eq!(e.search_highlight_on_row(4), None);
}

#[test]
fn pane_selection_columns_by_mode() {
    let mut e = Editor::new(numbered(20), 80, 80, 24, 0);
    e.offset = 0;
    e.editor_state.selection_start = Some((4, 3));
    e.editor_state.selection_end = Some((2, 5));
    // First, middle and last lines of a selection made upwards.
    assert_eq!(e.pane_selection_columns(0, 2, 10), Some((5, 10)));
    assert_eq!(e.pane_selection_columns(0, 3, 10), Some((0, 10)));
    assert_eq!(e.pane_selection_columns(0, 4, 10), Some((0, 3)));
    assert_eq!(e.pane_selection_columns(0, 5, 10), None);
    // Columns are kept within the line.
    assert_eq!(e.pane_selection_columns(0, 2, 4), Some((4, 4)));
    // A selection on one line, made leftwards.
    e.editor_state.selection_start = Some((1, 7));
    e.editor_state.selection_end = Some((1, 2));
    assert_eq!(e.pane_selection_columns(0, 1, 10), Some((2, 7)));
    // Line mode takes whole lines.
    e.editor_state.mode = EditorMode::VisualLine;
    assert_eq!(e.pane_selection_columns(0, 1, 10), Some((0, 10)));
    assert_eq!(e.pane_selection_columns(3, 1, 10), None);
}

#[test]
fn demo_hint_box_layout() {
    let mut e = Editor::new(numbered(3), 80, 80, 24, 0);
    assert_eq!(e.demo_hint_box(80, 24), None);
    e.demo.hint_text = Some("jump between words\nw=next b=back e=end".to_string());
    // Two lines, the longest 19 characters: a box 25 wide and 4 high.
    assert_eq!(e.demo_hint_box(80, 24), Some((27, 18, 25, 4)));
    assert_eq!(e.demo_hint_box(10, 3), Some((0, 0, 25, 4)));
    assert_eq!(hygg::demo_executor::hint_line_padding(19, 18), (2, 3));
    assert_eq!(hygg::demo_executor::hint_line_padding(19, 19), (2, 2));
}

#[test]
fn selection_drawn_in_single_view() {
    let mut e = Editor::new(numbered(20), 80, 80, 24, 0);
    e.offset = 0;
    e.editor_state.selection_start = Some((2, 3));
    e.editor_state.selection_end = Some((4, 5));
    // Not in a visual mode: nothing is drawn as selected.
    assert_eq!(e.selection_on_row(3, 10), None);
    e.editor_state.mode = EditorMode::VisualChar;
    assert_eq!(e.selection_on_row(2, 10), Some((3, 10)));
    assert_eq!(e.selection_on_row(3, 10), Some((0, 10)));
    assert_eq!(e.selection_on_row(4, 10), Some((0, 5)));
    assert_eq!(e.selection_on_row(5, 10), None);
    // A selection made upwards takes its end lines whole.
    e.editor_state.selection_start = Some((4, 5));
    e.editor_state.selection_end = Some((2, 3));
    assert_eq!(e.selection_on_row(2, 10), Some((0, 10)));
    assert_eq!(e.selection_on_row(4, 10), Some((0, 10)));
    // One line: between the ends, kept within the line.
    e.editor_state.selection_start = Some((1, 8));
    e.editor_state.selection_end = Some((1, 2));
    assert_eq!(e.selection_on_row(1, 6), Some((2, 6)));
    assert_eq!(e.selection_on_row(2, 6), None);
    e.editor_state.mode = EditorMode::VisualLine;
    assert_eq!(e.selection_on_row(1, 6), Some((0, 6)));
}
