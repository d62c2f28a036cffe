use hygg::demo::{get_demo_by_id, get_marketing_demo_content};
use hygg::demo_components::{get_component, list_all_components};
use hygg::demo_script::{DemoAction, DemoScript};
use hygg::demo_tutorial_test::create_tutorial_test_script;
use hygg::editor::Editor;
use hygg::keys::{Key, KeyCode};

fn lines(v: &[&str]) -> Vec<String> {
    v.iter().map(|s| s.to_string()).collect()
}

fn numbered(n: usize) -> Vec<String> {
    (0..n).map(|i| format!("line {}", i)).collect()
}

fn ch(c: char) -> Key {
    Key::plain(KeyCode::Char(c))
}

#[test]
fn test_get_component_valid() {
    let component = get_component("basic_navigation");
    assert!(component.is_some());
    let component = component.unwrap();
    assert_eq!(component.id, "basic_navigation");
    assert_eq!(component.name, "Basic Navigation");
}

#[test]
fn test_get_component_invalid() {
    let component = get_component("nonexistent_component");
    assert!(component.is_none());
}

#[test]
fn test_list_all_components_count() {
    let components = list_all_components();
    assert!(components.len() >= 22);
}

#[test]
fn test_component_actions_not_empty() {
    let component = get_component("select_paragraph").unwrap();
    assert!(!component.actions.is_empty());
}

#[test]
fn test_new_components_exist() {
    assert!(get_component("simple_jjj_navigation").is_some());
    assert!(get_component("search_cargo").is_some());
    assert!(get_component("execute_cat_with_paste").is_some());
    assert!(get_component("advanced_navigation").is_some());
    assert!(get_component("multi_select").is_some());
    assert!(get_component("split_view").is_some());
}

#[test]
fn test_from_components() {
    let demo = DemoScript::from_components(&["intro_message", "final_message"]);
    assert!(!demo.actions.is_empty());
}

#[test]
fn test_marketing_demo_has_correct_components() {
    let demo = DemoScript::marketing_demo();
    assert!(!demo.actions.is_empty());
}

#[test]
fn test_from_components_with_invalid_id() {
    let demo = DemoScript::from_components(&["intro_message", "invalid_component", "final_message"]);
    assert!(!demo.actions.is_empty());
}

#[test]
fn components_listed_are_found_by_id() {
    let all = list_all_components();
    assert_eq!(all.len(), 25);
    for c in &all {
        let found = get_component(c.id).unwrap();
        assert_eq!(found.id, c.id);
        assert_eq!(found.actions, c.actions);
    }
}

#[test]
fn scenes_are_joined_in_order() {
    let demo = DemoScript::from_components(&["intro_message", "invalid_component", "final_message"]);
    assert_eq!(
        demo.actions,
        vec![
            DemoAction::Wait(2000),
            DemoAction::ShowHint(
                "hygg - simplifying the way you read\n\nTransform your terminal into a powerful document reader\n\ngithub.com/kruserr/hygg"
                    .to_string(),
                5000
            ),
            DemoAction::Wait(4000),
        ]
    );
    let empty = DemoScript::from_components(&["nothing"]);
    assert!(empty.actions.is_empty());
}

#[test]
fn scene_with_control_key() {
    let c = get_component("yank_and_execute").unwrap();
    assert_eq!(c.actions.len(), 18);
    assert_eq!(c.actions[14], DemoAction::KeyWithModifiers(Key::with_ctrl(KeyCode::Char('v'))));
    let m = get_component("search_cargo").unwrap();
    assert_eq!(m.actions[4], DemoAction::TypeString("Cargo".to_string(), 100));
}

#[test]
fn demos_by_id() {
    for id in 0..5 {
        assert!(get_demo_by_id(id).is_some());
    }
    assert!(get_demo_by_id(5).is_none());
    let marketing = get_demo_by_id(0).unwrap();
    assert_eq!(marketing.actions, DemoScript::marketing_demo().actions);
    let speed = DemoScript::speed_demo();
    let intro = get_component("intro_message").unwrap();
    let nav = get_component("basic_navigation").unwrap();
    assert_eq!(speed.actions[0], intro.actions[0]);
    assert_eq!(speed.actions[1..1 + nav.actions.len()].to_vec(), nav.actions);
}

#[test]
fn tutorial_scripts() {
    let t = DemoScript::tutorial_test();
    assert_eq!(t.actions.len(), 103);
    assert_eq!(t.actions[2], DemoAction::Key(KeyCode::Char('j')));
    assert_eq!(t.actions[102], DemoAction::Wait(1000));
    let s = create_tutorial_test_script();
    assert_eq!(s.actions.len(), 97);
    assert_eq!(s.actions[3], DemoAction::Key(KeyCode::Char(':')));
    let b = DemoScript::beginner_tutorial();
    assert_eq!(b.actions.len(), 4);
    assert_eq!(b.actions[3], DemoAction::Checkpoint("Waiting for user to practice j/k".to_string()));
    assert_eq!(DemoScript::power_user_demo().actions.len() > 0, true);
    assert_eq!(DemoScript::minimal_demo().actions.len() > 0, true);
    assert_eq!(DemoScript::workflow_demo().actions.len() > 0, true);
}

#[test]
fn starting_a_demo_loads_its_text() {
    let mut e = Editor::new(lines(&["short"]), 80, 80, 24, 0);
    e.start_demo_mode(0, 1000);
    let text = get_marketing_demo_content();
    let expected: Vec<String> = text.lines().map(|l| l.to_string()).collect();
    assert_eq!(e.lines, expected);
    assert_eq!(e.buffers[0].lines, expected);
    assert_eq!(e.total_lines, expected.len());
    assert_eq!(e.offset, 0);
    assert_eq!(e.cursor_y, 12);
    assert!(e.tutorial.demo_mode);
    assert_eq!(e.demo.action_index, 0);
    assert_eq!(e.demo.last_action_time, Some(1000));

    let mut long = Editor::new(numbered(20), 80, 80, 24, 0);
    long.start_demo_mode(9, 5);
    assert!(!long.tutorial.demo_mode);
    assert!(long.demo.script.is_none());
    assert_eq!(long.lines, numbered(20));
}

#[test]
fn marketing_demo_plays_in_time() {
    let mut e = Editor::new(numbered(30), 80, 80, 24, 0);
    e.start_demo_mode(0, 1000);
    // The opening pause lasts two seconds.
    assert_eq!(e.check_demo_progress(2999), None);
    assert_eq!(e.demo.action_index, 0);
    // Then a hint is shown.
    assert_eq!(e.check_demo_progress(3000), None);
    assert_eq!(
        e.demo.hint_text.as_deref(),
        Some("select entire paragraphs\nwith a single command")
    );
    assert_eq!(e.demo.hint_until, Some(6500));
    assert_eq!(e.calculate_demo_hint_height(), 4);
    assert_eq!(e.demo.action_index, 2);
    // Half a second later the motion `vip` is pressed key by key.
    assert_eq!(e.check_demo_progress(3499), None);
    assert_eq!(e.check_demo_progress(3500), Some(ch('v')));
    assert_eq!(e.check_demo_progress(3500), Some(ch('i')));
    assert_eq!(e.check_demo_progress(3500), Some(ch('p')));
    assert_eq!(e.check_demo_progress(3500), None);
    assert!(!e.should_exit_after_demo());
    e.expire_demo_hint(6500);
    assert!(e.demo.hint_text.is_some());
    e.expire_demo_hint(6501);
    assert!(e.demo.hint_text.is_none());
    assert_eq!(e.demo.hint_until, None);
}

#[test]
fn typed_text_and_end_of_demo() {
    let mut e = Editor::new(numbered(30), 80, 80, 24, 0);
    e.tutorial.demo_mode = true;
    e.demo.script = Some(DemoScript {
        actions: vec![
            DemoAction::Checkpoint("start".to_string()),
            DemoAction::TypeString("ab".to_string(), 10),
            DemoAction::Key(KeyCode::Enter),
        ],
    });
    e.demo.last_action_time = Some(100);
    assert_eq!(e.check_demo_progress(105), None);
    assert_eq!(e.demo.action_index, 1);
    assert_eq!(e.check_demo_progress(114), None);
    assert_eq!(e.check_demo_progress(115), Some(ch('a')));
    assert_eq!(e.check_demo_progress(120), None);
    assert_eq!(e.check_demo_progress(125), Some(ch('b')));
    assert_eq!(e.check_demo_progress(135), Some(Key::plain(KeyCode::Enter)));
    assert_eq!(e.check_demo_progress(200), None);
    assert!(!e.tutorial.demo_mode);
    assert!(e.demo.script.is_none());
    assert_eq!(e.demo.action_index, 3);
    assert!(e.should_exit_after_demo());
    assert_eq!(e.check_demo_progress(300), None);
}

#[test]
fn motion_keys_and_hint_height() {
    let e = Editor::new(numbered(3), 80, 80, 24, 0);
    assert_eq!(e.parse_vim_motion("gg"), vec![ch('g'), ch('g')]);
    assert_eq!(e.parse_vim_motion(""), Vec::<Key>::new());
    assert_eq!(e.calculate_demo_hint_height(), 0);
}

#[test]
fn main_loop_decisions() {
    let mut e = Editor::new(numbered(40), 60, 100, 21, 0);
    assert_eq!(e.center_offset(), 20);
    assert_eq!(e.poll_timeout_millis(), 16);
    e.check_needs_redraw();
    assert_eq!(e.poll_timeout_millis(), 250);
    assert!(e.should_center_before_draw(false, true));
    assert!(!e.should_center_before_draw(true, true));
    e.offset = 5;
    e.cursor_y = 3;
    assert_eq!(e.progress_to_save(), Some((8, 5, 3)));
    assert_eq!(e.progress_to_save(), None);
    e.handle_resize(50, 11);
    assert_eq!((e.width, e.height), (50, 11));
    assert_eq!((e.offset, e.cursor_y), (5, 3));
    assert!(e.render.force_clear);
    e.render.initial_setup_complete = true;
    e.handle_resize(50, 11);
    assert_eq!((e.offset, e.cursor_y), (3, 5));
    assert_eq!(e.center_offset(), 0);
}

#[test]
fn unknown_scene_ids_are_reported() {
    let ids = ["intro_message", "invalid_component", "final_message", "nope"];
    assert_eq!(DemoScript::unknown_component_ids(&ids), vec!["invalid_component", "nope"]);
    assert!(DemoScript::unknown_component_ids(&["intro_message"]).is_empty());
}
