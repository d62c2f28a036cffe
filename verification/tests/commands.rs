use hygg::info_screen::{info_screen_lines, TutorialStepText};
use hygg::shell::{check_shell_command, is_allowed_command};
use hygg::online::{
    file_content_url, file_uuid, is_lock_conflict, lock_url, parse_col, progress_url,
    release_url, strip_carriage_returns, update_url, upload_file_name, upload_url,
};
use hygg::bookmarks::{bookmarks_file_name, find_mark, set_mark, BookmarkData};
use hygg::commands::{classify_command, handle_command, CommandKind, CommandOutcome};
use hygg::config::{default_config_content, merged_config_content, parse_bool_setting, AppConfig};
use hygg::core_types::{EditorMode, ViewMode};
use hygg::debug::{debug_log_error, debug_log_event, debug_log_state, log_line};
use hygg::demo::{get_demo_content_by_id, get_marketing_demo_content, list_all_demos};
use hygg::editor::Editor;
use hygg::keys::{Key, KeyCode};
use hygg::shell::{shell_output_lines, ShellOutcome};

fn lines(v: &[&str]) -> Vec<String> {
    v.iter().map(|s| s.to_string()).collect()
}

fn editor_with(v: &[&str], cmd: &str) -> Editor {
    let mut e = Editor::new(lines(v), 80, 80, 24, 0);
    e.offset = 0;
    e.cursor_y = 0;
    e.editor_state.mode = EditorMode::Command;
    e.editor_state.command_buffer = cmd.to_string();
    e.buffers[0].command_buffer = cmd.to_string();
    e
}

#[test]
fn handle_command_quits_and_toggles() {
    let mut show = true;
    assert!(handle_command("  q ", &mut show));
    assert!(show);
    assert!(!handle_command("z", &mut show));
    assert!(!show);
    assert!(!handle_command("help", &mut show));
    assert!(!show);
}

#[test]
fn commands_are_classified() {
    assert_eq!(classify_command("quit"), CommandKind::Quit);
    assert_eq!(classify_command("!ls"), CommandKind::Shell);
    assert_eq!(classify_command("p"), CommandKind::Progress);
    assert_eq!(classify_command("c"), CommandKind::Cursor);
    assert_eq!(classify_command("commands"), CommandKind::Help);
    assert_eq!(classify_command("tutorial"), CommandKind::Tutorial);
    assert_eq!(classify_command("tutorial  7"), CommandKind::TutorialStep(7));
    assert_eq!(classify_command("tutorial on"), CommandKind::Tutorial);
    assert_eq!(classify_command("continue"), CommandKind::Next);
    assert_eq!(classify_command("previous"), CommandKind::Back);
    assert_eq!(classify_command("h"), CommandKind::Highlight);
    assert_eq!(classify_command("nohlsearch"), CommandKind::Nohl);
    assert_eq!(classify_command("author"), CommandKind::Credits);
    assert_eq!(classify_command("about"), CommandKind::About);
    assert_eq!(classify_command("z"), CommandKind::Other);
}

#[test]
fn quit_leaves_from_the_document() {
    let mut e = editor_with(&["a"], " q ");
    assert!(matches!(e.execute_command(), CommandOutcome::Exit));
    assert_eq!(e.editor_state.command_buffer, " q ");
}

#[test]
fn quit_closes_overlay_and_split() {
    let mut e = editor_with(&["a", "b"], "");
    e.create_overlay("help", lines(&["x"]));
    e.editor_state.command_buffer = "q".to_string();
    assert!(matches!(e.execute_command(), CommandOutcome::Continue));
    assert_eq!(e.view_mode, ViewMode::Normal);
    assert_eq!(e.buffers.len(), 1);
    assert_eq!(e.editor_state.command_buffer, "");
    e.create_horizontal_split("ls", lines(&["out"]));
    e.editor_state.command_buffer = "exit".to_string();
    assert!(matches!(e.execute_command(), CommandOutcome::Continue));
    assert_eq!(e.view_mode, ViewMode::Normal);
    assert_eq!(e.buffers.len(), 1);
    assert_eq!(e.lines, lines(&["a", "b"]));
}

#[test]
fn setting_commands() {
    let mut e = editor_with(&["a"], "p");
    assert!(matches!(e.execute_command(), CommandOutcome::SaveConfig));
    assert!(e.settings.show_progress);
    assert_eq!(e.get_active_mode(), EditorMode::Normal);
    assert_eq!(e.buffers[0].command_buffer, "");
    e.editor_state.command_buffer = "cursor".to_string();
    assert!(matches!(e.execute_command(), CommandOutcome::SaveConfig));
    assert!(!e.settings.show_cursor);
    e.editor_state.command_buffer = "z".to_string();
    assert!(matches!(e.execute_command(), CommandOutcome::SaveConfig));
    assert!(!e.settings.show_highlighter);
    let c = e.current_config();
    assert_eq!(c.enable_line_highlighter, Some(false));
    assert_eq!(c.show_cursor, Some(false));
    assert_eq!(c.show_progress, Some(true));
    assert_eq!(c.enable_tutorial, None);
    e.editor_state.command_buffer = "unknown".to_string();
    assert!(matches!(e.execute_command(), CommandOutcome::Continue));
    assert_eq!(e.editor_state.command_buffer, "unknown");
}

#[test]
fn shell_and_unavailable_commands() {
    let mut e = editor_with(&["a"], "!ls -la");
    match e.execute_command() {
        CommandOutcome::RunShell(s) => assert_eq!(s, "ls -la"),
        _ => panic!("expected a shell command"),
    }
    e.editor_state.command_buffer = "tutorial 3".to_string();
    assert!(matches!(e.execute_command(), CommandOutcome::Unavailable(CommandKind::TutorialStep(3))));
    assert_eq!(e.editor_state.command_buffer, "");
}

#[test]
fn nohl_clears_search() {
    let mut e = editor_with(&["a"], "nohl");
    e.editor_state.search_query = "a".to_string();
    e.editor_state.current_match = Some((0, 0, 1));
    e.buffers[0].search_query = "a".to_string();
    assert!(matches!(e.execute_command(), CommandOutcome::Continue));
    assert_eq!(e.editor_state.search_query, "");
    assert_eq!(e.editor_state.current_match, None);
    assert_eq!(e.buffers[0].search_query, "");
}

#[test]
fn shell_output_is_laid_out() {
    let out = ShellOutcome::Finished {
        stdout: "a\nb\r\n".to_string(),
        stderr: "err\n".to_string(),
        success: false,
        code: Some(2),
    };
    assert_eq!(
        shell_output_lines("ls", &out),
        lines(&["$ ls", "a", "b", "--- stderr ---", "err", "--- exit status: 2 ---"])
    );
    let quiet = ShellOutcome::Finished {
        stdout: String::new(),
        stderr: String::new(),
        success: false,
        code: None,
    };
    assert_eq!(shell_output_lines("x", &quiet), lines(&["$ x", "(no output)", "--- exit status: -1 ---"]));
    let fine = ShellOutcome::Finished {
        stdout: "one\n\ntwo".to_string(),
        stderr: String::new(),
        success: true,
        code: Some(0),
    };
    assert_eq!(shell_output_lines("y", &fine), lines(&["$ y", "one", "", "two"]));
    assert_eq!(
        shell_output_lines("y", &ShellOutcome::Failed("boom".to_string())),
        lines(&["$ y", "Error: boom"])
    );
    let rejected = shell_output_lines("rm x", &ShellOutcome::Rejected("not allowed".to_string()));
    assert_eq!(rejected.len(), 8);
    assert_eq!(rejected[1], "Security Error: not allowed");
}

#[test]
fn shell_output_shown_in_split() {
    let mut e = editor_with(&["a"], "!echo hi");
    let out = ShellOutcome::Finished {
        stdout: "hi\n".to_string(),
        stderr: String::new(),
        success: true,
        code: Some(0),
    };
    e.show_shell_output("echo hi", &out);
    e.finish_shell_command();
    assert_eq!(e.view_mode, ViewMode::HorizontalSplit);
    assert_eq!(e.lines, lines(&["$ echo hi", "hi"]));
    assert_eq!(e.get_active_mode(), EditorMode::Normal);
    assert_eq!(e.editor_state.command_buffer, "");
}

#[test]
fn config_file_content() {
    assert_eq!(
        default_config_content(),
        "ENABLE_TUTORIAL=true\nENABLE_LINE_HIGHLIGHTER=true\nSHOW_CURSOR=true\nSHOW_PROGRESS=false\nTUTORIAL_SHOWN=false\n"
    );
    assert_eq!(merged_config_content(&AppConfig::default(), &AppConfig::default()), default_config_content());
    let new = AppConfig {
        enable_tutorial: None,
        enable_line_highlighter: Some(false),
        show_cursor: None,
        show_progress: Some(true),
        tutorial_shown: None,
    };
    let saved = AppConfig {
        enable_tutorial: Some(false),
        enable_line_highlighter: Some(true),
        show_cursor: Some(false),
        show_progress: None,
        tutorial_shown: Some(true),
    };
    assert_eq!(
        merged_config_content(&new, &saved),
        "ENABLE_TUTORIAL=false\nENABLE_LINE_HIGHLIGHTER=false\nSHOW_CURSOR=false\nSHOW_PROGRESS=true\nTUTORIAL_SHOWN=true\n"
    );
    assert_eq!(parse_bool_setting("true"), Some(true));
    assert_eq!(parse_bool_setting("false"), Some(false));
    assert_eq!(parse_bool_setting("yes"), None);
}

#[test]
fn marks_are_set_and_found() {
    let mut data = BookmarkData::new();
    set_mark(&mut data.marks, 'a', (1, 2));
    set_mark(&mut data.marks, 'b', (3, 4));
    set_mark(&mut data.marks, 'a', (5, 6));
    assert_eq!(data.marks.len(), 2);
    assert_eq!(find_mark(&data.marks, 'a'), Some((5, 6)));
    assert_eq!(find_mark(&data.marks, 'b'), Some((3, 4)));
    assert_eq!(find_mark(&data.marks, 'c'), None);
    assert_eq!(bookmarks_file_name(1234), "1234.json");
}

#[test]
fn marks_in_the_editor() {
    let v: Vec<String> = (0..40).map(|i| format!("l{}", i)).collect();
    let mut e = Editor::new(v, 80, 80, 11, 0);
    e.cursor_y = 0;
    e.cursor_x = 1;
    let (r, save) = e.handle_mark_keys(Key::plain(KeyCode::Char('m')), Some(Key::plain(KeyCode::Char('x'))));
    assert_eq!(r, Some(false));
    assert!(save);
    assert_eq!(e.nav.marks, vec![('x', (0, 1))]);
    e.goto_line_with_overscroll(30);
    let (r, save) = e.handle_mark_keys(Key::plain(KeyCode::Char('\'')), Some(Key::plain(KeyCode::Char('x'))));
    assert_eq!(r, Some(false));
    assert!(!save);
    assert_eq!(e.get_cursor_position(), (0, 1));
    assert_eq!(e.nav.previous_position, Some((30, 0)));
    e.handle_mark_keys(Key::plain(KeyCode::Char('\'')), Some(Key::plain(KeyCode::Char('\''))));
    assert_eq!(e.get_cursor_position(), (30, 0));
    let (r, save) = e.handle_mark_keys(Key::plain(KeyCode::Char('m')), Some(Key::plain(KeyCode::Char('X'))));
    assert_eq!((r, save), (Some(false), false));
    assert_eq!(e.handle_mark_keys(Key::plain(KeyCode::Char('m')), None), (None, false));
}

#[test]
fn control_keys() {
    let mut e = Editor::new(lines(&["one", "two"]), 80, 80, 24, 0);
    assert_eq!(e.handle_control_keys(Key::plain(KeyCode::Char(':'))), Some(false));
    assert_eq!(e.get_active_mode(), EditorMode::Command);
    assert_eq!(e.handle_control_keys(Key::plain(KeyCode::Char('4'))), Some(false));
    assert_eq!(e.nav.number_prefix, "4");
    assert_eq!(e.handle_control_keys(Key::plain(KeyCode::Char('x'))), None);
    assert_eq!(e.handle_control_keys(Key::with_ctrl(KeyCode::Char('f'))), Some(false));
    assert_eq!(e.get_active_mode(), EditorMode::Search);
    assert!(e.editor_state.search_direction);
    assert_eq!(e.handle_control_keys(Key::with_ctrl(KeyCode::Char('a'))), Some(false));
    assert_eq!(e.get_active_mode(), EditorMode::VisualLine);
    assert_eq!(e.editor_state.selection_start, Some((0, 0)));
    assert_eq!(e.editor_state.selection_end, Some((1, 3)));
    e.create_overlay("o", lines(&["x"]));
    assert_eq!(e.handle_control_keys(Key::with_ctrl(KeyCode::Char('c'))), Some(false));
    assert_eq!(e.view_mode, ViewMode::Normal);
    e.handle_number_prefix_clearing(Key::plain(KeyCode::Char('G')));
    assert_eq!(e.nav.number_prefix, "4");
    e.handle_number_prefix_clearing(Key::plain(KeyCode::Char('j')));
    assert_eq!(e.nav.number_prefix, "");
}

#[test]
fn pane_keys() {
    let mut e = Editor::new(lines(&["one", "two"]), 80, 80, 24, 0);
    e.create_horizontal_split("ls", lines(&["out"]));
    assert_eq!(e.handle_control_keys(Key::with_alt(KeyCode::Char('k'))), Some(false));
    assert_eq!(e.active_pane, 0);
    assert_eq!(e.handle_control_keys(Key::with_ctrl(KeyCode::Char(' '))), Some(false));
    assert!(e.nav.tmux_prefix_active);
    assert_eq!(e.handle_tmux_prefix(Key::plain(KeyCode::Down)), Some(false));
    assert_eq!(e.active_pane, 1);
    assert!(!e.nav.tmux_prefix_active);
    assert_eq!(e.handle_tmux_prefix(Key::plain(KeyCode::Char('x'))), Some(false));
    assert_eq!(e.view_mode, ViewMode::Normal);
    assert_eq!(e.handle_tmux_prefix(Key::plain(KeyCode::Char('z'))), None);
}

#[test]
fn jump_keys() {
    let v: Vec<String> = (0..40).map(|i| format!("  l{}", i)).collect();
    let mut e = Editor::new(v, 80, 80, 11, 0);
    e.cursor_y = 0;
    e.nav.number_prefix = "3".to_string();
    assert_eq!(e.handle_jump_keys(Key::plain(KeyCode::Char('G')), None), Some(false));
    assert_eq!(e.get_cursor_position(), (2, 2));
    assert_eq!(e.nav.number_prefix, "");
    e.handle_jump_keys(Key::plain(KeyCode::Char('G')), None);
    assert_eq!(e.get_cursor_position(), (39, 2));
    e.handle_jump_keys(Key::plain(KeyCode::Char('$')), None);
    assert_eq!(e.cursor_x, 4);
    e.handle_jump_keys(Key::plain(KeyCode::Char('0')), None);
    assert_eq!(e.cursor_x, 0);
    e.handle_jump_keys(Key::plain(KeyCode::Char('^')), None);
    assert_eq!(e.cursor_x, 2);
    assert_eq!(e.handle_jump_keys(Key::plain(KeyCode::Char('g')), None), None);
    e.handle_jump_keys(Key::plain(KeyCode::Char('g')), Some(Key::plain(KeyCode::Char('g'))));
    assert_eq!(e.get_cursor_position(), (0, 2));
    assert_eq!(e.handle_jump_keys(Key::plain(KeyCode::Char('q')), None), None);
}

#[test]
fn motion_keys() {
    let mut e = Editor::new(lines(&["a", "b", "", "c"]), 80, 80, 24, 0);
    e.cursor_y = 0;
    assert_eq!(e.handle_text_object_keys(Key::plain(KeyCode::Char('}'))), Some(false));
    assert_eq!(e.get_cursor_position(), (3, 0));
    assert_eq!(e.handle_text_object_keys(Key::plain(KeyCode::Char('H'))), Some(false));
    assert_eq!(e.get_cursor_position(), (0, 0));
    assert_eq!(e.handle_basic_movement_keys(Key::plain(KeyCode::Char('j'))), Some(false));
    assert_eq!(e.get_cursor_position(), (1, 0));
    assert_eq!(e.handle_basic_movement_keys(Key::plain(KeyCode::Up)), Some(false));
    assert_eq!(e.get_cursor_position(), (0, 0));
    assert_eq!(e.handle_basic_movement_keys(Key::plain(KeyCode::Char('w'))), None);
    assert_eq!(e.handle_text_object_keys(Key::plain(KeyCode::Char('w'))), None);
    assert_eq!(e.handle_search_visual_keys(Key::plain(KeyCode::Char('v')), None), Some(false));
    assert_eq!(e.get_active_mode(), EditorMode::VisualChar);
    assert_eq!(e.editor_state.selection_start, Some((0, 0)));
}

#[test]
fn debug_messages() {
    assert_eq!(debug_log_event("start", "ok"), "EVENT: start | ok");
    assert_eq!(debug_log_state("mode", "Normal"), "STATE: mode = Normal");
    assert_eq!(debug_log_error("bad"), "ERROR: bad");
    assert_eq!(log_line("12:00:00.000", "editor", "hi"), "[12:00:00.000] [editor] hi");
}

#[test]
fn demos() {
    let demos = list_all_demos();
    assert_eq!(demos.len(), 5);
    assert_eq!(demos[0], (0, "Marketing Demo", "Comprehensive feature showcase"));
    assert_eq!(demos[4], (4, "Workflow Demo", "Document processing workflow"));
    let text = get_marketing_demo_content();
    assert!(text.starts_with("# The Art of Reading in the Digital Age"));
    assert_eq!(get_demo_content_by_id(3), text);
}

#[test]
fn online_identifiers_and_addresses() {
    assert_eq!(file_uuid(0x0102030405060708), "01020304-0506-0708-0102-030405060708");
    assert_eq!(file_uuid(0xfedcba9876543210), "fedcba98-7654-3210-fedc-ba9876543210");
    assert_eq!(file_content_url("/a/b/notes.txt"), "http://localhost:3001/file/notes.txt");
    assert_eq!(file_content_url("/"), "http://localhost:3001/file/sample.txt");
    assert_eq!(upload_file_name("docs/x.md"), Ok("x.md".to_string()));
    assert_eq!(upload_file_name(".."), Err("Invalid file path: ..".to_string()));
    assert_eq!(lock_url(), "http://localhost:3001/progress/lock");
    assert_eq!(update_url(), "http://localhost:3001/progress/update");
    assert_eq!(release_url(), "http://localhost:3001/progress/release");
    assert_eq!(upload_url(), "http://localhost:3001/file/upload");
    assert_eq!(progress_url("abc"), "http://localhost:3001/progress/abc");
    assert!(is_lock_conflict("File is locked by bob"));
    assert!(!is_lock_conflict("Server error"));
    assert_eq!(strip_carriage_returns("a\r\nb\r"), "a\nb");
    assert_eq!(parse_col(Some("80")), 80);
    assert_eq!(parse_col(Some("+7")), 7);
    assert_eq!(parse_col(Some("wide")), 110);
    assert_eq!(parse_col(None), 110);
}

#[test]
fn shell_commands_are_checked() {
    assert_eq!(check_shell_command("ls -la /tmp"), Ok(vec!["ls".to_string(), "-la".to_string(), "/tmp".to_string()]));
    assert_eq!(check_shell_command("  grep  TODO  a.md "), Ok(vec!["grep".to_string(), "TODO".to_string(), "a.md".to_string()]));
    assert_eq!(check_shell_command("rm -rf /"), Err("Command not allowed: rm".to_string()));
    assert_eq!(check_shell_command("   "), Err("Empty command".to_string()));
    assert!(is_allowed_command("ps"));
    assert!(!is_allowed_command("sh"));
    let lines = shell_output_lines("rm x", &ShellOutcome::Rejected("Command not allowed: rm".to_string()));
    assert_eq!(lines[0], "$ rm x");
    assert_eq!(lines[1], "Security Error: Command not allowed: rm");
}

#[test]
fn highlight_command_clears_selection() {
    let mut e = editor_with(&["a", "b", "c"], "h");
    e.editor_state.selection_start = Some((0, 0));
    e.editor_state.selection_end = Some((1, 0));
    assert!(matches!(e.execute_command(), CommandOutcome::Unavailable(CommandKind::Highlight)));
    assert_eq!(e.editor_state.selection_start, None);
    assert!(e.tutorial.highlight_created);
    assert_eq!(e.editor_state.mode, EditorMode::Normal);
    assert_eq!(e.editor_state.command_buffer, "");
}

#[test]
fn information_screens() {
    let step = TutorialStepText {
        title: "Credits".to_string(),
        instructions: lines(&["Made by people", "Type :next to go on", "Thanks"]),
        practice_text: lines(&["github"]),
    };
    let expected = lines(&[
        "━━━ Credits ━━━",
        "",
        "Made by people",
        "Thanks",
        "",
        "github",
        "",
        "Type :q to close this screen",
    ]);
    assert_eq!(info_screen_lines(&step), expected);
    let mut e = editor_with(&["doc"], "credits");
    assert!(!e.handle_credits_command(Some(&step)));
    assert_eq!(e.buffers.len(), 2);
    assert_eq!(e.buffers[1].lines, expected);
    assert_eq!(e.editor_state.mode, EditorMode::Normal);
    let mut f = editor_with(&["doc"], "about");
    assert!(!f.handle_about_command(None));
    assert_eq!(f.buffers.len(), 1);
    assert_eq!(f.editor_state.command_buffer, "");
}
