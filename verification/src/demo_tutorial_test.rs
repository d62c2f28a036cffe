//! A demo script that runs through the interactive tutorial, for testing it.

use vstd::prelude::*;
use crate::demo_script::{DemoAction, DemoActionView, DemoScript, actions_view};
use crate::keys::KeyCode;

verus! {

/// `:next` typed, to go on to the next step.
pub open spec fn next_command() -> Seq<DemoActionView> {
    seq![
        DemoActionView::Key(KeyCode::Char(':')),
        DemoActionView::Key(KeyCode::Char('n')),
        DemoActionView::Key(KeyCode::Char('e')),
        DemoActionView::Key(KeyCode::Char('x')),
        DemoActionView::Key(KeyCode::Char('t')),
        DemoActionView::Key(KeyCode::Enter),
        DemoActionView::Wait(500),
    ]
}

/// Step one: a move down.
pub open spec fn ts_welcome() -> Seq<DemoActionView> {
    seq![
        DemoActionView::Wait(500),
        DemoActionView::Key(KeyCode::Char('j')),
        DemoActionView::Wait(300),
    ]
}

/// Step two: a selection, yanked.
pub open spec fn ts_visual() -> Seq<DemoActionView> {
    seq![
        DemoActionView::Key(KeyCode::Char('v')),
        DemoActionView::Wait(200),
        DemoActionView::Key(KeyCode::Char('w')),
        DemoActionView::Wait(200),
        DemoActionView::Key(KeyCode::Char('y')),
        DemoActionView::Wait(300),
    ]
}

/// Step three: a paragraph selected and highlighted.
pub open spec fn ts_text_object() -> Seq<DemoActionView> {
    seq![
        DemoActionView::Key(KeyCode::Char('v')),
        DemoActionView::Wait(200),
        DemoActionView::Key(KeyCode::Char('i')),
        DemoActionView::Key(KeyCode::Char('p')),
        DemoActionView::Wait(300),
        DemoActionView::Key(KeyCode::Char(':')),
        DemoActionView::Key(KeyCode::Char('h')),
        DemoActionView::Key(KeyCode::Enter),
        DemoActionView::Wait(500),
    ]
}

/// Step four: a search.
pub open spec fn ts_search() -> Seq<DemoActionView> {
    seq![
        DemoActionView::Key(KeyCode::Char('/')),
        DemoActionView::Wait(200),
        DemoActionView::Key(KeyCode::Char('s')),
        DemoActionView::Key(KeyCode::Char('p')),
        DemoActionView::Key(KeyCode::Char('e')),
        DemoActionView::Key(KeyCode::Char('c')),
        DemoActionView::Key(KeyCode::Char('i')),
        DemoActionView::Key(KeyCode::Char('a')),
        DemoActionView::Key(KeyCode::Char('l')),
        DemoActionView::Key(KeyCode::Enter),
        DemoActionView::Wait(500),
    ]
}

/// Step five: a bookmark set.
pub open spec fn ts_bookmark() -> Seq<DemoActionView> {
    seq![
        DemoActionView::Key(KeyCode::Char('m')),
        DemoActionView::Wait(200),
        DemoActionView::Key(KeyCode::Char('a')),
        DemoActionView::Wait(500),
    ]
}

/// Step six: a shell command.
pub open spec fn ts_shell() -> Seq<DemoActionView> {
    seq![
        DemoActionView::Key(KeyCode::Char(':')),
        DemoActionView::Key(KeyCode::Char('!')),
        DemoActionView::Key(KeyCode::Char('e')),
        DemoActionView::Key(KeyCode::Char('c')),
        DemoActionView::Key(KeyCode::Char('h')),
        DemoActionView::Key(KeyCode::Char('o')),
        DemoActionView::Key(KeyCode::Char(' ')),
        DemoActionView::Key(KeyCode::Char('h')),
        DemoActionView::Key(KeyCode::Char('e')),
        DemoActionView::Key(KeyCode::Char('l')),
        DemoActionView::Key(KeyCode::Char('l')),
        DemoActionView::Key(KeyCode::Char('o')),
        DemoActionView::Key(KeyCode::Char(' ')),
        DemoActionView::Key(KeyCode::Char('w')),
        DemoActionView::Key(KeyCode::Char('o')),
        DemoActionView::Key(KeyCode::Char('r')),
        DemoActionView::Key(KeyCode::Char('l')),
        DemoActionView::Key(KeyCode::Char('d')),
        DemoActionView::Key(KeyCode::Enter),
        DemoActionView::Wait(1000),
    ]
}

/// The last step: Enter ends the tutorial.
pub open spec fn ts_finish() -> Seq<DemoActionView> {
    seq![
        DemoActionView::Key(KeyCode::Enter),
        DemoActionView::Wait(1000),
    ]
}

/// The steps of the tutorial test script.
pub open spec fn tutorial_test_script_actions() -> Seq<DemoActionView> {
    ts_welcome() + next_command() + ts_visual() + next_command() + ts_text_object() + next_command() + ts_search() + next_command() + ts_bookmark() + next_command() + ts_shell() + next_command() + ts_finish()
}

/// The script that presses through each step of the tutorial.
#[verifier::rlimit(40)]
pub fn create_tutorial_test_script() -> (s: DemoScript)
    ensures
        s@ == tutorial_test_script_actions(),
{
    let mut actions: Vec<DemoAction> = Vec::new();
    actions.push(DemoAction::Wait(500));
    actions.push(DemoAction::Key(KeyCode::Char('j')));
    actions.push(DemoAction::Wait(300));
    assert(actions_view(actions@) =~= ts_welcome());
    actions.push(DemoAction::Key(KeyCode::Char(':')));
    actions.push(DemoAction::Key(KeyCode::Char('n')));
    actions.push(DemoAction::Key(KeyCode::Char('e')));
    actions.push(DemoAction::Key(KeyCode::Char('x')));
    actions.push(DemoAction::Key(KeyCode::Char('t')));
    actions.push(DemoAction::Key(KeyCode::Enter));
    actions.push(DemoAction::Wait(500));
    assert(actions_view(actions@) =~= ts_welcome() + next_command());
    actions.push(DemoAction::Key(KeyCode::Char('v')));
    actions.push(DemoAction::Wait(200));
    actions.push(DemoAction::Key(KeyCode::Char('w')));
    actions.push(DemoAction::Wait(200));
    actions.push(DemoAction::Key(KeyCode::Char('y')));
    actions.push(DemoAction::Wait(300));
    assert(actions_view(actions@) =~= ts_welcome() + next_command() + ts_visual());
    actions.push(DemoAction::Key(KeyCode::Char(':')));
    actions.push(DemoAction::Key(KeyCode::Char('n')));
    actions.push(DemoAction::Key(KeyCode::Char('e')));
    actions.push(DemoAction::Key(KeyCode::Char('x')));
    actions.push(DemoAction::Key(KeyCode::Char('t')));
    actions.push(DemoAction::Key(KeyCode::Enter));
    actions.push(DemoAction::Wait(500));
    assert(actions_view(actions@) =~= ts_welcome() + next_command() + ts_visual() + next_command());
    actions.push(DemoAction::Key(KeyCode::Char('v')));
    actions.push(DemoAction::Wait(200));
    actions.push(DemoAction::Key(KeyCode::Char('i')));
    actions.push(DemoAction::Key(KeyCode::Char('p')));
    actions.push(DemoAction::Wait(300));
    actions.push(DemoAction::Key(KeyCode::Char(':')));
    actions.push(DemoAction::Key(KeyCode::Char('h')));
    actions.push(DemoAction::Key(KeyCode::Enter));
    actions.push(DemoAction::Wait(500));
    assert(actions_view(actions@) =~= ts_welcome() + next_command() + ts_visual() + next_command() + ts_text_object());
    actions.push(DemoAction::Key(KeyCode::Char(':')));
    actions.push(DemoAction::Key(KeyCode::Char('n')));
    actions.push(DemoAction::Key(KeyCode::Char('e')));
    actions.push(DemoAction::Key(KeyCode::Char('x')));
    actions.push(DemoAction::Key(KeyCode::Char('t')));
    actions.push(DemoAction::Key(KeyCode::Enter));
    actions.push(DemoAction::Wait(500));
    assert(actions_view(actions@) =~= ts_welcome() + next_command() + ts_visual() + next_command() + ts_text_object() + next_command());
    actions.push(DemoAction::Key(KeyCode::Char('/')));
    actions.push(DemoAction::Wait(200));
    actions.push(DemoAction::Key(KeyCode::Char('s')));
    actions.push(DemoAction::Key(KeyCode::Char('p')));
    actions.push(DemoAction::Key(KeyCode::Char('e')));
    actions.push(DemoAction::Key(KeyCode::Char('c')));
    actions.push(DemoAction::Key(KeyCode::Char('i')));
    actions.push(DemoAction::Key(KeyCode::Char('a')));
    actions.push(DemoAction::Key(KeyCode::Char('l')));
    actions.push(DemoAction::Key(KeyCode::Enter));
    actions.push(DemoAction::Wait(500));
    assert(actions_view(actions@) =~= ts_welcome() + next_command() + ts_visual() + next_command() + ts_text_object() + next_command() + ts_search());
    actions.push(DemoAction::Key(KeyCode::Char(':')));
    actions.push(DemoAction::Key(KeyCode::Char('n')));
    actions.push(DemoAction::Key(KeyCode::Char('e')));
    actions.push(DemoAction::Key(KeyCode::Char('x')));
    actions.push(DemoAction::Key(KeyCode::Char('t')));
    actions.push(DemoAction::Key(KeyCode::Enter));
    actions.push(DemoAction::Wait(500));
    assert(actions_view(actions@) =~= ts_welcome() + next_command() + ts_visual() + next_command() + ts_text_object() + next_command() + ts_search() + next_command());
    actions.push(DemoAction::Key(KeyCode::Char('m')));
    actions.push(DemoAction::Wait(200));
    actions.push(DemoAction::Key(KeyCode::Char('a')));
    actions.push(DemoAction::Wait(500));
    assert(actions_view(actions@) =~= ts_welcome() + next_command() + ts_visual() + next_command() + ts_text_object() + next_command() + ts_search() + next_command() + ts_bookmark());
    actions.push(DemoAction::Key(KeyCode::Char(':')));
    actions.push(DemoAction::Key(KeyCode::Char('n')));
    actions.push(DemoAction::Key(KeyCode::Char('e')));
    actions.push(DemoAction::Key(KeyCode::Char('x')));
    actions.push(DemoAction::Key(KeyCode::Char('t')));
    actions.push(DemoAction::Key(KeyCode::Enter));
    actions.push(DemoAction::Wait(500));
    assert(actions_view(actions@) =~= ts_welcome() + next_command() + ts_visual() + next_command() + ts_text_object() + next_command() + ts_search() + next_command() + ts_bookmark() + next_command());
    actions.push(DemoAction::Key(KeyCode::Char(':')));
    actions.push(DemoAction::Key(KeyCode::Char('!')));
    actions.push(DemoAction::Key(KeyCode::Char('e')));
    actions.push(DemoAction::Key(KeyCode::Char('c')));
    actions.push(DemoAction::Key(KeyCode::Char('h')));
    actions.push(DemoAction::Key(KeyCode::Char('o')));
    actions.push(DemoAction::Key(KeyCode::Char(' ')));
    actions.push(DemoAction::Key(KeyCode::Char('h')));
    actions.push(DemoAction::Key(KeyCode::Char('e')));
    actions.push(DemoAction::Key(KeyCode::Char('l')));
    actions.push(DemoAction::Key(KeyCode::Char('l')));
    actions.push(DemoAction::Key(KeyCode::Char('o')));
    actions.push(DemoAction::Key(KeyCode::Char(' ')));
    actions.push(DemoAction::Key(KeyCode::Char('w')));
    actions.push(DemoAction::Key(KeyCode::Char('o')));
    actions.push(DemoAction::Key(KeyCode::Char('r')));
    actions.push(DemoAction::Key(KeyCode::Char('l')));
    actions.push(DemoAction::Key(KeyCode::Char('d')));
    actions.push(DemoAction::Key(KeyCode::Enter));
    actions.push(DemoAction::Wait(1000));
    assert(actions_view(actions@) =~= ts_welcome() + next_command() + ts_visual() + next_command() + ts_text_object() + next_command() + ts_search() + next_command() + ts_bookmark() + next_command() + ts_shell());
    actions.push(DemoAction::Key(KeyCode::Char(':')));
    actions.push(DemoAction::Key(KeyCode::Char('n')));
    actions.push(DemoAction::Key(KeyCode::Char('e')));
    actions.push(DemoAction::Key(KeyCode::Char('x')));
    actions.push(DemoAction::Key(KeyCode::Char('t')));
    actions.push(DemoAction::Key(KeyCode::Enter));
    actions.push(DemoAction::Wait(500));
    assert(actions_view(actions@) =~= ts_welcome() + next_command() + ts_visual() + next_command() + ts_text_object() + next_command() + ts_search() + next_command() + ts_bookmark() + next_command() + ts_shell() + next_command());
    actions.push(DemoAction::Key(KeyCode::Enter));
    actions.push(DemoAction::Wait(1000));
    assert(actions_view(actions@) =~= ts_welcome() + next_command() + ts_visual() + next_command() + ts_text_object() + next_command() + ts_search() + next_command() + ts_bookmark() + next_command() + ts_shell() + next_command() + ts_finish());
    DemoScript { actions }
}

} // verus!
