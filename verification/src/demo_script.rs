//! Scripted demos: sequences of key presses, pauses and hints that the
//! reader plays back by itself.

use vstd::prelude::*;
use crate::demo_components::{component_spec, get_component};
use crate::keys::{Key, KeyCode};
use crate::text::string_of;

verus! {

/// One step of a demo. Durations are in milliseconds.
#[derive(Clone, Debug, PartialEq, Eq)]
pub enum DemoAction {
    /// A pause.
    Wait(u64),
    /// A key press.
    Key(KeyCode),
    /// A key press with modifiers held.
    KeyWithModifiers(Key),
    /// A text typed one character at a time, with the delay before each.
    TypeString(String, u64),
    /// A hint shown for the given time.
    ShowHint(String, u64),
    /// A named point in the script, which does nothing.
    Checkpoint(String),
    /// The keys of a vim motion, such as `vip`, pressed one after another.
    VimMotion(String),
}

/// A demo step with its texts taken as characters.
pub enum DemoActionView {
    Wait(u64),
    Key(KeyCode),
    KeyWithModifiers(Key),
    TypeString(Seq<char>, u64),
    ShowHint(Seq<char>, u64),
    Checkpoint(Seq<char>),
    VimMotion(Seq<char>),
}

impl View for DemoAction {
    type V = DemoActionView;

    open spec fn view(&self) -> DemoActionView {
        match self {
            DemoAction::Wait(d) => DemoActionView::Wait(*d),
            DemoAction::Key(c) => DemoActionView::Key(*c),
            DemoAction::KeyWithModifiers(k) => DemoActionView::KeyWithModifiers(*k),
            DemoAction::TypeString(s, d) => DemoActionView::TypeString(s@, *d),
            DemoAction::ShowHint(s, d) => DemoActionView::ShowHint(s@, *d),
            DemoAction::Checkpoint(s) => DemoActionView::Checkpoint(s@),
            DemoAction::VimMotion(s) => DemoActionView::VimMotion(s@),
        }
    }
}

/// The steps, each taken by its view.
pub open spec fn actions_view(a: Seq<DemoAction>) -> Seq<DemoActionView> {
    a.map_values(|x: DemoAction| x@)
}

/// A scene of a demo: an id to find it by, a name, a description and its
/// steps.
#[derive(Clone, Debug)]
pub struct DemoComponent {
    pub id: &'static str,
    pub name: &'static str,
    pub description: &'static str,
    pub actions: Vec<DemoAction>,
}

/// A scene with its texts taken as characters.
pub struct ComponentView {
    pub id: Seq<char>,
    pub name: Seq<char>,
    pub description: Seq<char>,
    pub actions: Seq<DemoActionView>,
}

impl View for DemoComponent {
    type V = ComponentView;

    open spec fn view(&self) -> ComponentView {
        ComponentView {
            id: self.id@,
            name: self.name@,
            description: self.description@,
            actions: actions_view(self.actions@),
        }
    }
}

/// A demo: the steps it plays, in order.
#[derive(Debug)]
pub struct DemoScript {
    pub actions: Vec<DemoAction>,
}

impl View for DemoScript {
    type V = Seq<DemoActionView>;

    open spec fn view(&self) -> Seq<DemoActionView> {
        actions_view(self.actions@)
    }
}

/// The ids, taken as characters.
pub open spec fn ids_view(ids: Seq<&str>) -> Seq<Seq<char>> {
    ids.map_values(|id: &str| id@)
}

/// The steps of the scenes with the given ids, one scene after another;
/// an id that names no scene adds nothing.
pub open spec fn components_actions(ids: Seq<Seq<char>>) -> Seq<DemoActionView>
    decreases ids.len(),
{
    if ids.len() == 0 {
        Seq::empty()
    } else {
        components_actions(ids.drop_last()) + match component_spec(ids.last()) {
            Some(c) => c.actions,
            None => Seq::empty(),
        }
    }
}

/// The ids, in order, that name no scene.
pub open spec fn unknown_ids(ids: Seq<Seq<char>>) -> Seq<Seq<char>>
    decreases ids.len(),
{
    if ids.len() == 0 {
        Seq::empty()
    } else {
        unknown_ids(ids.drop_last()) + if component_spec(ids.last()) is None {
            seq![ids.last()]
        } else {
            Seq::empty()
        }
    }
}

/// The scenes of the marketing demo.
pub open spec fn marketing_ids() -> Seq<Seq<char>> {
    seq![
        "intro_message"@,
        "select_paragraph"@,
        "highlight_selection"@,
        "execute_ls"@,
        "simple_jjj_navigation"@,
        "search_cargo"@,
        "yank_line"@,
        "execute_cat_with_paste"@,
        "final_message"@,
    ]
}

/// The scenes of the short demo.
pub open spec fn speed_ids() -> Seq<Seq<char>> {
    seq![
        "intro_message"@,
        "basic_navigation"@,
        "word_navigation"@,
        "select_paragraph"@,
        "highlight_selection"@,
        "final_message_short"@,
    ]
}

/// The scenes of the demo for experienced users.
pub open spec fn power_user_ids() -> Seq<Seq<char>> {
    seq![
        "intro_message"@,
        "paragraph_navigation"@,
        "search_navigation"@,
        "visual_char_mode"@,
        "yank_selection"@,
        "execute_ls"@,
        "yank_and_execute"@,
        "execute_grep"@,
        "final_message"@,
    ]
}

/// The scenes of the minimal demo.
pub open spec fn minimal_ids() -> Seq<Seq<char>> {
    seq![
        "intro_message"@,
        "basic_navigation"@,
        "select_word"@,
        "highlight_selection"@,
        "clear_highlights"@,
        "final_message_short"@,
    ]
}

/// The scenes of the workflow demo.
pub open spec fn workflow_ids() -> Seq<Seq<char>> {
    seq![
        "intro_message"@,
        "basic_navigation"@,
        "visual_char_mode"@,
        "yank_selection"@,
        "execute_cat"@,
        "select_line"@,
        "highlight_selection"@,
        "final_message"@,
    ]
}

/// The steps of the beginners' introduction.
pub open spec fn beginner_actions() -> Seq<DemoActionView> {
    seq![
        DemoActionView::ShowHint("Welcome to hygg! Let's learn the basics."@, 3000),
        DemoActionView::Wait(1000),
        DemoActionView::ShowHint("Use j/k to move down/up (try it now!)"@, 5000),
        DemoActionView::Checkpoint("Waiting for user to practice j/k"@),
    ]
}

/// `:next` typed with pauses, to go on to the next step.
pub open spec fn next_command_paced() -> Seq<DemoActionView> {
    seq![
        DemoActionView::Key(KeyCode::Char(':')),
        DemoActionView::Wait(100),
        DemoActionView::Key(KeyCode::Char('n')),
        DemoActionView::Key(KeyCode::Char('e')),
        DemoActionView::Key(KeyCode::Char('x')),
        DemoActionView::Key(KeyCode::Char('t')),
        DemoActionView::Key(KeyCode::Enter),
        DemoActionView::Wait(500),
    ]
}

/// Step one: a move down.
pub open spec fn tt_welcome() -> Seq<DemoActionView> {
    seq![
        DemoActionView::Wait(500),
        DemoActionView::Wait(500),
        DemoActionView::Key(KeyCode::Char('j')),
        DemoActionView::Wait(500),
    ]
}

/// Step two: a selection, yanked.
pub open spec fn tt_visual() -> Seq<DemoActionView> {
    seq![
        DemoActionView::Key(KeyCode::Char('v')),
        DemoActionView::Wait(200),
        DemoActionView::Key(KeyCode::Char('w')),
        DemoActionView::Wait(200),
        DemoActionView::Key(KeyCode::Char('y')),
        DemoActionView::Wait(500),
    ]
}

/// Step three: a paragraph selected and highlighted.
pub open spec fn tt_text_object() -> Seq<DemoActionView> {
    seq![
        DemoActionView::VimMotion("vip"@),
        DemoActionView::Wait(500),
        DemoActionView::Key(KeyCode::Char(':')),
        DemoActionView::Wait(100),
        DemoActionView::Key(KeyCode::Char('h')),
        DemoActionView::Key(KeyCode::Enter),
        DemoActionView::Wait(500),
    ]
}

/// Step four: a search.
pub open spec fn tt_search() -> Seq<DemoActionView> {
    seq![
        DemoActionView::Key(KeyCode::Char('/')),
        DemoActionView::Wait(200),
        DemoActionView::Key(KeyCode::Char('s')),
        DemoActionView::Key(KeyCode::Char('p')),
        DemoActionView::Key(KeyCode::Char('e')),
        DemoActionView::Key(KeyCode::Char('c')),
        DemoActionView::Key(KeyCode::Char('i')),
        DemoActionView::Key(KeyCode::Char('a')),
        DemoActionView::Key(KeyCode::Char('l')),
        DemoActionView::Key(KeyCode::Enter),
        DemoActionView::Wait(500),
    ]
}

/// Step five: a bookmark set.
pub open spec fn tt_bookmark() -> Seq<DemoActionView> {
    seq![
        DemoActionView::Key(KeyCode::Char('m')),
        DemoActionView::Wait(200),
        DemoActionView::Key(KeyCode::Char('a')),
        DemoActionView::Wait(500),
    ]
}

/// Step six: a shell command.
pub open spec fn tt_shell() -> Seq<DemoActionView> {
    seq![
        DemoActionView::Key(KeyCode::Char(':')),
        DemoActionView::Wait(100),
        DemoActionView::Key(KeyCode::Char('!')),
        DemoActionView::Key(KeyCode::Char('e')),
        DemoActionView::Key(KeyCode::Char('c')),
        DemoActionView::Key(KeyCode::Char('h')),
        DemoActionView::Key(KeyCode::Char('o')),
        DemoActionView::Key(KeyCode::Char(' ')),
        DemoActionView::Key(KeyCode::Char('h')),
        DemoActionView::Key(KeyCode::Char('e')),
        DemoActionView::Key(KeyCode::Char('l')),
        DemoActionView::Key(KeyCode::Char('l')),
        DemoActionView::Key(KeyCode::Char('o')),
        DemoActionView::Key(KeyCode::Char(' ')),
        DemoActionView::Key(KeyCode::Char('w')),
        DemoActionView::Key(KeyCode::Char('o')),
        DemoActionView::Key(KeyCode::Char('r')),
        DemoActionView::Key(KeyCode::Char('l')),
        DemoActionView::Key(KeyCode::Char('d')),
        DemoActionView::Key(KeyCode::Enter),
        DemoActionView::Wait(1000),
    ]
}

/// The last step: Enter ends the tutorial.
pub open spec fn tt_finish() -> Seq<DemoActionView> {
    seq![
        DemoActionView::Key(KeyCode::Enter),
        DemoActionView::Wait(1000),
    ]
}

/// The steps of the scripted run through the tutorial.
pub open spec fn tutorial_test_actions() -> Seq<DemoActionView> {
    tt_welcome() + next_command_paced() + tt_visual() + next_command_paced() + tt_text_object() + next_command_paced() + tt_search() + next_command_paced() + tt_bookmark() + next_command_paced() + tt_shell() + next_command_paced() + tt_finish()
}

/// A vector of ids with the given views.
fn id_list(ids: &[&'static str]) -> (v: Vec<&'static str>)
    ensures
        v@ == ids@,
{
    let mut v: Vec<&'static str> = Vec::new();
    let mut i: usize = 0;
    while i < ids.len()
        invariant
            i <= ids@.len(),
            v@ == ids@.take(i as int),
        decreases ids@.len() - i,
    {
        v.push(ids[i]);
        proof {
            assert(ids@.take(i + 1) =~= ids@.take(i as int).push(ids@[i as int]));
        }
        i += 1;
    }
    proof {
        assert(ids@.take(ids@.len() as int) =~= ids@);
    }
    v
}

impl DemoScript {
    /// The demo made of the scenes with the given ids, in order; ids that
    /// name no scene are passed over.
    pub fn from_components(component_ids: &[&str]) -> (s: Self)
        ensures
            s@ == components_actions(ids_view(component_ids@)),
    {
        let ghost ids = ids_view(component_ids@);
        let mut actions: Vec<DemoAction> = Vec::new();
        let mut i: usize = 0;
        while i < component_ids.len()
            invariant
                i <= component_ids@.len(),
                ids == ids_view(component_ids@),
                actions_view(actions@) == components_actions(ids.take(i as int)),
            decreases component_ids@.len() - i,
        {
            let id = component_ids[i];
            let ghost before = actions@;
            proof {
                assert(ids.take(i + 1).drop_last() =~= ids.take(i as int));
                assert(ids.take(i + 1).last() == id@);
            }
            match get_component(id) {
                Some(component) => {
                    let mut more = component.actions;
                    let ghost added = more@;
                    actions.append(&mut more);
                    proof {
                        assert(actions_view(before + added) =~= actions_view(before) + actions_view(added));
                    }
                },
                None => {},
            }
            i += 1;
        }
        proof {
            assert(ids.take(component_ids@.len() as int) =~= ids);
        }
        DemoScript { actions }
    }

    /// The ids among `component_ids` that name no scene, in order: those
    /// `from_components` passes over, for the caller to warn of.
    pub fn unknown_component_ids<'a>(component_ids: &[&'a str]) -> (r: Vec<&'a str>)
        ensures
            ids_view(r@) == unknown_ids(ids_view(component_ids@)),
    {
        let ghost ids = ids_view(component_ids@);
        let mut r: Vec<&'a str> = Vec::new();
        let mut i: usize = 0;
        while i < component_ids.len()
            invariant
                i <= component_ids@.len(),
                ids == ids_view(component_ids@),
                ids_view(r@) == unknown_ids(ids.take(i as int)),
            decreases component_ids@.len() - i,
        {
            let id = component_ids[i];
            proof {
                assert(ids.take(i + 1).drop_last() =~= ids.take(i as int));
                assert(ids.take(i + 1).last() == id@);
            }
            let ghost before = r@;
            if get_component(id).is_none() {
                r.push(id);
                assert(ids_view(r@) =~= ids_view(before) + seq![id@]);
            } else {
                assert(unknown_ids(ids.take(i + 1)) =~= unknown_ids(ids.take(i as int)));
            }
            i += 1;
        }
        proof {
            assert(ids.take(component_ids@.len() as int) =~= ids);
        }
        r
    }

    /// The demo that shows the reader's main features.
    pub fn marketing_demo() -> (s: Self)
        ensures
            s@ == components_actions(marketing_ids()),
    {
        let ids = id_list(
            &[
                "intro_message",
                "select_paragraph",
                "highlight_selection",
                "execute_ls",
                "simple_jjj_navigation",
                "search_cargo",
                "yank_line",
                "execute_cat_with_paste",
                "final_message",
            ],
        );
        let s = Self::from_components(ids.as_slice());
        assert(ids_view(ids@) =~= marketing_ids());
        s
    }
    /// The short demo for sharing.
    pub fn speed_demo() -> (s: Self)
        ensures
            s@ == components_actions(speed_ids()),
    {
        let ids = id_list(
            &[
                "intro_message",
                "basic_navigation",
                "word_navigation",
                "select_paragraph",
                "highlight_selection",
                "final_message_short",
            ],
        );
        let s = Self::from_components(ids.as_slice());
        assert(ids_view(ids@) =~= speed_ids());
        s
    }

    /// The demo of the features for experienced users.
    pub fn power_user_demo() -> (s: Self)
        ensures
            s@ == components_actions(power_user_ids()),
    {
        let ids = id_list(
            &[
                "intro_message",
                "paragraph_navigation",
                "search_navigation",
                "visual_char_mode",
                "yank_selection",
                "execute_ls",
                "yank_and_execute",
                "execute_grep",
                "final_message",
            ],
        );
        let s = Self::from_components(ids.as_slice());
        assert(ids_view(ids@) =~= power_user_ids());
        s
    }

    /// The demo of plain reading.
    pub fn minimal_demo() -> (s: Self)
        ensures
            s@ == components_actions(minimal_ids()),
    {
        let ids = id_list(
            &[
                "intro_message",
                "basic_navigation",
                "select_word",
                "highlight_selection",
                "clear_highlights",
                "final_message_short",
            ],
        );
        let s = Self::from_components(ids.as_slice());
        assert(ids_view(ids@) =~= minimal_ids());
        s
    }

    /// The demo of a document workflow.
    pub fn workflow_demo() -> (s: Self)
        ensures
            s@ == components_actions(workflow_ids()),
    {
        let ids = id_list(
            &[
                "intro_message",
                "basic_navigation",
                "visual_char_mode",
                "yank_selection",
                "execute_cat",
                "select_line",
                "highlight_selection",
                "final_message",
            ],
        );
        let s = Self::from_components(ids.as_slice());
        assert(ids_view(ids@) =~= workflow_ids());
        s
    }

    /// The first steps of an introduction for beginners.
    pub fn beginner_tutorial() -> (s: Self)
        ensures
            s@ == beginner_actions(),
    {
        let mut actions: Vec<DemoAction> = Vec::new();
        actions.push(DemoAction::ShowHint(string_of("Welcome to hygg! Let's learn the basics."), 3000));
        actions.push(DemoAction::Wait(1000));
        actions.push(DemoAction::ShowHint(string_of("Use j/k to move down/up (try it now!)"), 5000));
        actions.push(DemoAction::Checkpoint(string_of("Waiting for user to practice j/k")));
        let s = DemoScript { actions };
        assert(s@ =~= beginner_actions());
        s
    }

    /// A scripted run through every step of the interactive tutorial.
    #[verifier::rlimit(40)]
    pub fn tutorial_test() -> (s: Self)
        ensures
            s@ == tutorial_test_actions(),
    {
        let mut actions: Vec<DemoAction> = Vec::new();
        actions.push(DemoAction::Wait(500));
        actions.push(DemoAction::Wait(500));
        actions.push(DemoAction::Key(KeyCode::Char('j')));
        actions.push(DemoAction::Wait(500));
        assert(actions_view(actions@) =~= tt_welcome());
        actions.push(DemoAction::Key(KeyCode::Char(':')));
        actions.push(DemoAction::Wait(100));
        actions.push(DemoAction::Key(KeyCode::Char('n')));
        actions.push(DemoAction::Key(KeyCode::Char('e')));
        actions.push(DemoAction::Key(KeyCode::Char('x')));
        actions.push(DemoAction::Key(KeyCode::Char('t')));
        actions.push(DemoAction::Key(KeyCode::Enter));
        actions.push(DemoAction::Wait(500));
        assert(actions_view(actions@) =~= tt_welcome() + next_command_paced());
        actions.push(DemoAction::Key(KeyCode::Char('v')));
        actions.push(DemoAction::Wait(200));
        actions.push(DemoAction::Key(KeyCode::Char('w')));
        actions.push(DemoAction::Wait(200));
        actions.push(DemoAction::Key(KeyCode::Char('y')));
        actions.push(DemoAction::Wait(500));
        assert(actions_view(actions@) =~= tt_welcome() + next_command_paced() + tt_visual());
        actions.push(DemoAction::Key(KeyCode::Char(':')));
        actions.push(DemoAction::Wait(100));
        actions.push(DemoAction::Key(KeyCode::Char('n')));
        actions.push(DemoAction::Key(KeyCode::Char('e')));
        actions.push(DemoAction::Key(KeyCode::Char('x')));
        actions.push(DemoAction::Key(KeyCode::Char('t')));
        actions.push(DemoAction::Key(KeyCode::Enter));
        actions.push(DemoAction::Wait(500));
        assert(actions_view(actions@) =~= tt_welcome() + next_command_paced() + tt_visual() + next_command_paced());
        actions.push(DemoAction::VimMotion(string_of("vip")));
        actions.push(DemoAction::Wait(500));
        actions.push(DemoAction::Key(KeyCode::Char(':')));
        actions.push(DemoAction::Wait(100));
        actions.push(DemoAction::Key(KeyCode::Char('h')));
        actions.push(DemoAction::Key(KeyCode::Enter));
        actions.push(DemoAction::Wait(500));
        assert(actions_view(actions@) =~= tt_welcome() + next_command_paced() + tt_visual() + next_command_paced() + tt_text_object());
        actions.push(DemoAction::Key(KeyCode::Char(':')));
        actions.push(DemoAction::Wait(100));
        actions.push(DemoAction::Key(KeyCode::Char('n')));
        actions.push(DemoAction::Key(KeyCode::Char('e')));
        actions.push(DemoAction::Key(KeyCode::Char('x')));
        actions.push(DemoAction::Key(KeyCode::Char('t')));
        actions.push(DemoAction::Key(KeyCode::Enter));
        actions.push(DemoAction::Wait(500));
        assert(actions_view(actions@) =~= tt_welcome() + next_command_paced() + tt_visual() + next_command_paced() + tt_text_object() + next_command_paced());
        actions.push(DemoAction::Key(KeyCode::Char('/')));
        actions.push(DemoAction::Wait(200));
        actions.push(DemoAction::Key(KeyCode::Char('s')));
        actions.push(DemoAction::Key(KeyCode::Char('p')));
        actions.push(DemoAction::Key(KeyCode::Char('e')));
        actions.push(DemoAction::Key(KeyCode::Char('c')));
        actions.push(DemoAction::Key(KeyCode::Char('i')));
        actions.push(DemoAction::Key(KeyCode::Char('a')));
        actions.push(DemoAction::Key(KeyCode::Char('l')));
        actions.push(DemoAction::Key(KeyCode::Enter));
        actions.push(DemoAction::Wait(500));
        assert(actions_view(actions@) =~= tt_welcome() + next_command_paced() + tt_visual() + next_command_paced() + tt_text_object() + next_command_paced() + tt_search());
        actions.push(DemoAction::Key(KeyCode::Char(':')));
        actions.push(DemoAction::Wait(100));
        actions.push(DemoAction::Key(KeyCode::Char('n')));
        actions.push(DemoAction::Key(KeyCode::Char('e')));
        actions.push(DemoAction::Key(KeyCode::Char('x')));
        actions.push(DemoAction::Key(KeyCode::Char('t')));
        actions.push(DemoAction::Key(KeyCode::Enter));
        actions.push(DemoAction::Wait(500));
        assert(actions_view(actions@) =~= tt_welcome() + next_command_paced() + tt_visual() + next_command_paced() + tt_text_object() + next_command_paced() + tt_search() + next_command_paced());
        actions.push(DemoAction::Key(KeyCode::Char('m')));
        actions.push(DemoAction::Wait(200));
        actions.push(DemoAction::Key(KeyCode::Char('a')));
        actions.push(DemoAction::Wait(500));
        assert(actions_view(actions@) =~= tt_welcome() + next_command_paced() + tt_visual() + next_command_paced() + tt_text_object() + next_command_paced() + tt_search() + next_command_paced() + tt_bookmark());
        actions.push(DemoAction::Key(KeyCode::Char(':')));
        actions.push(DemoAction::Wait(100));
        actions.push(DemoAction::Key(KeyCode::Char('n')));
        actions.push(DemoAction::Key(KeyCode::Char('e')));
        actions.push(DemoAction::Key(KeyCode::Char('x')));
        actions.push(DemoAction::Key(KeyCode::Char('t')));
        actions.push(DemoAction::Key(KeyCode::Enter));
        actions.push(DemoAction::Wait(500));
        assert(actions_view(actions@) =~= tt_welcome() + next_command_paced() + tt_visual() + next_command_paced() + tt_text_object() + next_command_paced() + tt_search() + next_command_paced() + tt_bookmark() + next_command_paced());
        actions.push(DemoAction::Key(KeyCode::Char(':')));
        actions.push(DemoAction::Wait(100));
        actions.push(DemoAction::Key(KeyCode::Char('!')));
        actions.push(DemoAction::Key(KeyCode::Char('e')));
        actions.push(DemoAction::Key(KeyCode::Char('c')));
        actions.push(DemoAction::Key(KeyCode::Char('h')));
        actions.push(DemoAction::Key(KeyCode::Char('o')));
        actions.push(DemoAction::Key(KeyCode::Char(' ')));
        actions.push(DemoAction::Key(KeyCode::Char('h')));
        actions.push(DemoAction::Key(KeyCode::Char('e')));
        actions.push(DemoAction::Key(KeyCode::Char('l')));
        actions.push(DemoAction::Key(KeyCode::Char('l')));
        actions.push(DemoAction::Key(KeyCode::Char('o')));
        actions.push(DemoAction::Key(KeyCode::Char(' ')));
        actions.push(DemoAction::Key(KeyCode::Char('w')));
        actions.push(DemoAction::Key(KeyCode::Char('o')));
        actions.push(DemoAction::Key(KeyCode::Char('r')));
        actions.push(DemoAction::Key(KeyCode::Char('l')));
        actions.push(DemoAction::Key(KeyCode::Char('d')));
        actions.push(DemoAction::Key(KeyCode::Enter));
        actions.push(DemoAction::Wait(1000));
        assert(actions_view(actions@) =~= tt_welcome() + next_command_paced() + tt_visual() + next_command_paced() + tt_text_object() + next_command_paced() + tt_search() + next_command_paced() + tt_bookmark() + next_command_paced() + tt_shell());
        actions.push(DemoAction::Key(KeyCode::Char(':')));
        actions.push(DemoAction::Wait(100));
        actions.push(DemoAction::Key(KeyCode::Char('n')));
        actions.push(DemoAction::Key(KeyCode::Char('e')));
        actions.push(DemoAction::Key(KeyCode::Char('x')));
        actions.push(DemoAction::Key(KeyCode::Char('t')));
        actions.push(DemoAction::Key(KeyCode::Enter));
        actions.push(DemoAction::Wait(500));
        assert(actions_view(actions@) =~= tt_welcome() + next_command_paced() + tt_visual() + next_command_paced() + tt_text_object() + next_command_paced() + tt_search() + next_command_paced() + tt_bookmark() + next_command_paced() + tt_shell() + next_command_paced());
        actions.push(DemoAction::Key(KeyCode::Enter));
        actions.push(DemoAction::Wait(1000));
        assert(actions_view(actions@) =~= tt_welcome() + next_command_paced() + tt_visual() + next_command_paced() + tt_text_object() + next_command_paced() + tt_search() + next_command_paced() + tt_bookmark() + next_command_paced() + tt_shell() + next_command_paced() + tt_finish());
        DemoScript { actions }
    }
}

} // verus!
