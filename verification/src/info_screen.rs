//! The information screens `:credits` and `:about`: a step of the tutorial
//! shown in the overlay.

use vstd::prelude::*;
use crate::editor::Editor;
use crate::justify::strings_view;
use crate::search::{find_exec, str_find};
use crate::text::{chars_of, push_str, string_of};

verus! {

/// The text of a tutorial step: its title, its instructions and the text
/// to practise on.
#[derive(Debug)]
pub struct TutorialStepText {
    pub title: String,
    pub instructions: Vec<String>,
    pub practice_text: Vec<String>,
}

/// The step given, if any.
pub open spec fn step_of(s: Option<&TutorialStepText>) -> Option<TutorialStepText> {
    match s {
        Some(x) => Some(*x),
        None => None,
    }
}

/// The lines that do not mention `:next`, in order.
pub open spec fn without_next(ls: Seq<Seq<char>>) -> Seq<Seq<char>>
    decreases ls.len(),
{
    if ls.len() == 0 {
        Seq::empty()
    } else {
        without_next(ls.drop_last()) + if str_find(ls.last(), ":next"@) is None {
            seq![ls.last()]
        } else {
            Seq::empty()
        }
    }
}

/// The lines of an information screen for a step: the title between
/// rules, a blank line, the instructions that do not mention `:next`, a
/// blank line, the practice text, a blank line, and how to close it.
pub open spec fn info_screen_text(
    title: Seq<char>,
    instructions: Seq<Seq<char>>,
    practice: Seq<Seq<char>>,
) -> Seq<Seq<char>> {
    seq!["━━━ "@ + title + " ━━━"@, seq![]] + without_next(instructions) + seq![seq![]] + practice
        + seq![seq![], "Type :q to close this screen"@]
}

/// The lines of the information screen for `step` (see
/// `info_screen_text`).
pub fn info_screen_lines(step: &TutorialStepText) -> (r: Vec<String>)
    ensures
        strings_view(r@) == info_screen_text(
            step.title@,
            strings_view(step.instructions@),
            strings_view(step.practice_text@),
        ),
{
    let mut lines: Vec<String> = Vec::new();
    let mut head = string_of("━━━ ");
    push_str(&mut head, step.title.as_str());
    push_str(&mut head, " ━━━");
    let ghost hv = head@;
    lines.push(head);
    lines.push(String::new());
    let ghost start = strings_view(lines@);
    assert(start =~= seq![hv, seq![]]);
    let ghost ins = strings_view(step.instructions@);
    let marker = chars_of(":next");
    let mut i: usize = 0;
    while i < step.instructions.len()
        invariant
            i <= ins.len(),
            ins == strings_view(step.instructions@),
            marker@ == ":next"@,
            strings_view(lines@) == start + without_next(ins.take(i as int)),
        decreases ins.len() - i,
    {
        let line = step.instructions[i].as_str();
        let hs = chars_of(line);
        let ghost before = strings_view(lines@);
        proof {
            assert(ins.take(i + 1).drop_last() =~= ins.take(i as int));
            assert(ins.take(i + 1).last() == line@);
        }
        if find_exec(&hs, &marker).is_none() {
            lines.push(string_of(line));
            assert(strings_view(lines@) =~= before + seq![line@]);
            assert(strings_view(lines@) =~= start + without_next(ins.take(i + 1)));
        } else {
            assert(without_next(ins.take(i + 1)) =~= without_next(ins.take(i as int)));
        }
        i += 1;
    }
    proof {
        assert(ins.take(ins.len() as int) =~= ins);
    }
    let ghost upto = strings_view(lines@);
    lines.push(String::new());
    let ghost mid = strings_view(lines@);
    assert(mid =~= upto + seq![seq![]]);
    let ghost pr = strings_view(step.practice_text@);
    let mut j: usize = 0;
    while j < step.practice_text.len()
        invariant
            j <= pr.len(),
            pr == strings_view(step.practice_text@),
            strings_view(lines@) == mid + pr.take(j as int),
        decreases pr.len() - j,
    {
        let ghost before = strings_view(lines@);
        let x = string_of(step.practice_text[j].as_str());
        lines.push(x);
        assert(strings_view(lines@) =~= before.push(pr[j as int]));
        assert(pr.take(j + 1) =~= pr.take(j as int).push(pr[j as int]));
        assert(strings_view(lines@) =~= mid + pr.take(j + 1));
        j += 1;
    }
    assert(pr.take(pr.len() as int) =~= pr);
    let ghost body = strings_view(lines@);
    lines.push(String::new());
    lines.push(string_of("Type :q to close this screen"));
    assert(strings_view(lines@) =~= body + seq![seq![], "Type :q to close this screen"@]);
    assert(strings_view(lines@) =~= info_screen_text(step.title@, ins, pr));
    lines
}

impl Editor {
    /// Whether `post` is this editor with the command line closed after
    /// an information screen named `name` was shown for `step`, if there
    /// is a step (see `shows_overlay` and `finished_command`).
    pub open spec fn info_screen_shown(self, name: Seq<char>, step: Option<TutorialStepText>, post: Editor) -> bool {
        match step {
            Some(s) => exists|shown: Editor|
                self.shows_overlay(
                    name,
                    info_screen_text(s.title@, strings_view(s.instructions@), strings_view(s.practice_text@)),
                    shown,
                ) && #[trigger] shown.finished_command(post),
            None => self.finished_command(post),
        }
    }

    /// Shows the information screen `name` for `step`, if there is one,
    /// and closes the command line (see `info_screen_shown`).
    fn show_info_screen(&mut self, name: &str, step: Option<&TutorialStepText>)
        ensures
            old(self).info_screen_shown(name@, step_of(step), *final(self)),
    {
        match step {
            Some(s) => {
                let lines = info_screen_lines(s);
                self.create_overlay(name, lines);
                let ghost shown = *self;
                self.finish_command();
                assert(shown.finished_command(*self));
            },
            None => {
                self.finish_command();
            },
        }
    }

    /// `:credits`: the last step of the tutorial, given as `credits_step`,
    /// shown in the overlay (see `info_screen_shown`); returns `false`, the
    /// reader goes on.
    pub fn handle_credits_command(&mut self, credits_step: Option<&TutorialStepText>) -> (r: bool)
        ensures
            !r,
            old(self).info_screen_shown("credits"@, step_of(credits_step), *final(self)),
    {
        self.show_info_screen("credits", credits_step);
        false
    }

    /// `:about`: the first step of the tutorial, given as `welcome_step`,
    /// shown in the overlay (see `info_screen_shown`); returns `false`, the
    /// reader goes on.
    pub fn handle_about_command(&mut self, welcome_step: Option<&TutorialStepText>) -> (r: bool)
        ensures
            !r,
            old(self).info_screen_shown("about"@, step_of(welcome_step), *final(self)),
    {
        self.show_info_screen("about", welcome_step);
        false
    }
}

} // verus!
