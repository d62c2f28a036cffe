//! Commands typed after `:`: what each one is, and what the editor does
//! for it. Running a shell command and writing the settings file are left
//! to the program, which the outcome of a command tells what to do.

use vstd::prelude::*;
use crate::config::AppConfig;
use crate::core_types::{BufferState, BufferView, EditorMode, EditorState, EditorStateView, ViewMode};
use crate::editor::{Editor, RenderState, Settings, TutorialState};
use crate::overlay::buffer_views;
use crate::search_keys::reset_command_line;
use crate::text::{
    chars_of, eq_str, parse_usize, parse_usize_spec, starts_with_char, string_of, trim, trim_string,
};

verus! {

/// What a command is.
#[derive(Clone, Copy, Debug, PartialEq, Eq, Structural)]
pub enum CommandKind {
    /// `q`, `quit`, `exit`.
    Quit,
    /// `!` and a shell command.
    Shell,
    /// `p`: show or hide the reading progress.
    Progress,
    /// `cursor`, `c`: show or hide the cursor.
    Cursor,
    /// `help`, `commands`.
    Help,
    /// `tutorial`, possibly followed by something that is not a step.
    Tutorial,
    /// `tutorial` and a step number.
    TutorialStep(usize),
    /// `next`, `continue`.
    Next,
    /// `back`, `prev`, `previous`.
    Back,
    /// `h`: highlight the selection.
    Highlight,
    /// `nohl`, `nohlsearch`: clear the search.
    Nohl,
    /// `credits`, `author`.
    Credits,
    /// `about`.
    About,
    /// Anything else.
    Other,
}

/// What the program is to do once a command has run.
#[derive(Debug)]
pub enum CommandOutcome {
    /// Go on.
    Continue,
    /// Leave the reader.
    Exit,
    /// Run this shell command and show what it printed
    /// (`show_shell_output`, then `finish_shell_command`).
    RunShell(String),
    /// Write the settings (`current_config`), then go on.
    SaveConfig,
    /// The command needs the interactive tutorial, the help text or the
    /// highlights; the command line has been cleared.
    Unavailable(CommandKind),
}

/// The kind of the trimmed command `t`.
pub open spec fn command_kind(t: Seq<char>) -> CommandKind {
    if t == "q"@ || t == "quit"@ || t == "exit"@ {
        CommandKind::Quit
    } else if t.len() > 0 && t[0] == '!' {
        CommandKind::Shell
    } else if t == "p"@ {
        CommandKind::Progress
    } else if t == "cursor"@ || t == "c"@ {
        CommandKind::Cursor
    } else if t == "help"@ || t == "commands"@ {
        CommandKind::Help
    } else if t.len() >= 8 && t.take(8) == "tutorial"@ {
        let rest = trim(t.skip(8));
        if rest.len() > 0 {
            match parse_usize_spec(rest) {
                Some(n) => CommandKind::TutorialStep(n),
                None => CommandKind::Tutorial,
            }
        } else {
            CommandKind::Tutorial
        }
    } else if t == "next"@ || t == "continue"@ {
        CommandKind::Next
    } else if t == "back"@ || t == "prev"@ || t == "previous"@ {
        CommandKind::Back
    } else if t == "h"@ {
        CommandKind::Highlight
    } else if t == "nohl"@ || t == "nohlsearch"@ {
        CommandKind::Nohl
    } else if t == "credits"@ || t == "author"@ {
        CommandKind::Credits
    } else if t == "about"@ {
        CommandKind::About
    } else {
        CommandKind::Other
    }
}

/// Whether `s` starts with `prefix`.
fn starts_with_str(s: &str, prefix: &str) -> (r: bool)
    ensures
        r == (s@.len() >= prefix@.len() && s@.take(prefix@.len() as int) == prefix@),
{
    let n = prefix.unicode_len();
    if s.unicode_len() < n {
        return false;
    }
    let mut i: usize = 0;
    while i < n
        invariant
            n == prefix@.len() <= s@.len(),
            i <= n,
            forall|k: int| 0 <= k < i ==> s@[k] == prefix@[k],
        decreases n - i,
    {
        if s.get_char(i) != prefix.get_char(i) {
            assert(s@.take(n as int)[i as int] != prefix@[i as int]);
            return false;
        }
        i = i + 1;
    }
    assert(s@.take(n as int) =~= prefix@);
    true
}

/// The characters of `s` from index `x` on.
fn skip_string(s: &str, x: usize) -> (r: String)
    requires
        x <= s@.len(),
    ensures
        r@ == s@.skip(x as int),
{
    let n = s.unicode_len();
    let mut r = String::new();
    let mut i = x;
    while i < n
        invariant
            n == s@.len(),
            x <= i <= n,
            r@ == s@.subrange(x as int, i as int),
        decreases n - i,
    {
        crate::text::push_char(&mut r, s.get_char(i));
        i = i + 1;
        assert(r@ =~= s@.subrange(x as int, i as int));
    }
    assert(s@.subrange(x as int, n as int) =~= s@.skip(x as int));
    r
}

/// The kind of the trimmed command `t` (see `command_kind`).
pub fn classify_command(t: &str) -> (k: CommandKind)
    ensures
        k == command_kind(t@),
{
    if eq_str(t, "q") || eq_str(t, "quit") || eq_str(t, "exit") {
        CommandKind::Quit
    } else if starts_with_char(t, '!') {
        CommandKind::Shell
    } else if eq_str(t, "p") {
        CommandKind::Progress
    } else if eq_str(t, "cursor") || eq_str(t, "c") {
        CommandKind::Cursor
    } else if eq_str(t, "help") || eq_str(t, "commands") {
        CommandKind::Help
    } else if starts_with_str(t, "tutorial") {
        proof {
            reveal_strlit("tutorial");
        }
        let rest = trim_string(skip_string(t, 8).as_str());
        if rest.as_str().unicode_len() > 0 {
            let digits = chars_of(rest.as_str());
            match parse_usize(digits.as_slice()) {
                Some(n) => CommandKind::TutorialStep(n),
                None => CommandKind::Tutorial,
            }
        } else {
            CommandKind::Tutorial
        }
    } else if eq_str(t, "next") || eq_str(t, "continue") {
        CommandKind::Next
    } else if eq_str(t, "back") || eq_str(t, "prev") || eq_str(t, "previous") {
        CommandKind::Back
    } else if eq_str(t, "h") {
        CommandKind::Highlight
    } else if eq_str(t, "nohl") || eq_str(t, "nohlsearch") {
        CommandKind::Nohl
    } else if eq_str(t, "credits") || eq_str(t, "author") {
        CommandKind::Credits
    } else if eq_str(t, "about") {
        CommandKind::About
    } else {
        CommandKind::Other
    }
}

/// Runs the editor commands that need nothing but the highlighter
/// setting: `q` asks to quit (`true`), `z` shows or hides the line
/// highlighter; anything else does nothing. The command is trimmed first.
pub fn handle_command(command: &str, show_highlighter: &mut bool) -> (quit: bool)
    ensures
        quit == (trim(command@) == "q"@),
        *final(show_highlighter) == (if trim(command@) == "z"@ {
            !*old(show_highlighter)
        } else {
            *old(show_highlighter)
        }),
{
    let t = trim_string(command);
    proof {
        reveal_strlit("q");
        reveal_strlit("z");
    }
    let is_q = eq_str(t.as_str(), "q");
    let is_z = eq_str(t.as_str(), "z");
    assert(is_q == (trim(command@) == "q"@));
    assert(is_z == (trim(command@) == "z"@));
    if is_z {
        *show_highlighter = !*show_highlighter;
    }
    is_q
}

impl Editor {
    /// Whether `post` is this editor with the command finished: normal
    /// mode and an empty command line, here and in the active buffer.
    pub open spec fn finished_command(self, post: Editor) -> bool {
        &&& buffer_views(post.buffers@) == reset_command_line(
            buffer_views(self.buffers@),
            self.active_buffer,
        )
        &&& post.editor_state@ == (EditorStateView {
            mode: EditorMode::Normal,
            command_buffer: seq![],
            command_cursor_pos: 0,
            ..self.editor_state@
        })
        &&& post == (Editor { buffers: post.buffers, editor_state: post.editor_state, ..self })
    }

    /// Whether `:q` closes the split: the view is split and the command
    /// output (buffer 2 under the tutorial, 1 otherwise) is active.
    pub open spec fn quits_split(self) -> bool {
        self.view_mode == ViewMode::HorizontalSplit && self.active_buffer == (if self.tutorial.active {
            2usize
        } else {
            1usize
        })
    }

    /// The settings as they are to be saved: the line highlighter, the
    /// cursor and the progress; the others left as saved.
    pub open spec fn config_of(self) -> AppConfig {
        AppConfig {
            enable_tutorial: None,
            enable_line_highlighter: Some(self.settings.show_highlighter),
            show_cursor: Some(self.settings.show_cursor),
            show_progress: Some(self.settings.show_progress),
            tutorial_shown: None,
        }
    }

    /// This editor with the search cleared, here and in the active buffer.
    pub open spec fn search_cleared(self, post: Editor) -> bool {
        let bv = buffer_views(self.buffers@);
        &&& buffer_views(post.buffers@) == (if self.active_buffer < bv.len() {
            bv.update(
                self.active_buffer as int,
                BufferView { search_query: seq![], current_match: None, ..bv[self.active_buffer as int] },
            )
        } else {
            bv
        })
        &&& post.editor_state@ == (EditorStateView {
            search_query: seq![],
            current_match: None,
            ..self.editor_state@
        })
        &&& post == (Editor { buffers: post.buffers, editor_state: post.editor_state, ..self })
    }
}

/// Finishes the command in buffer `i`, if there is one: normal mode and an
/// empty command line.
fn reset_buffer_command(bs: &mut Vec<BufferState>, i: usize)
    ensures
        buffer_views(final(bs)@) == reset_command_line(buffer_views(old(bs)@), i),
{
    if i < bs.len() {
        bs[i].mode = EditorMode::Normal;
        bs[i].command_buffer = String::new();
        bs[i].command_cursor_pos = 0;
    }
    assert(buffer_views(bs@) =~= reset_command_line(buffer_views(old(bs)@), i));
}

impl Editor {
    /// Finishes a command: normal mode and an empty command line, here and
    /// in the active buffer.
    pub fn finish_command(&mut self)
        ensures
            old(self).finished_command(*final(self)),
    {
        self.editor_state.mode = EditorMode::Normal;
        self.editor_state.command_buffer = String::new();
        self.editor_state.command_cursor_pos = 0;
        let i = self.active_buffer;
        reset_buffer_command(&mut self.buffers, i);
    }

    /// The settings to save (see `config_of`).
    pub fn current_config(&self) -> (c: AppConfig)
        ensures
            c == self.config_of(),
    {
        AppConfig {
            enable_tutorial: None,
            enable_line_highlighter: Some(self.settings.show_highlighter),
            show_cursor: Some(self.settings.show_cursor),
            show_progress: Some(self.settings.show_progress),
            tutorial_shown: None,
        }
    }

    /// `:p` shows or hides the reading progress and finishes the command;
    /// the settings are then to be saved.
    pub fn handle_progress_command(&mut self) -> (quit: bool)
        ensures
            !quit,
            (Editor {
                settings: Settings { show_progress: !old(self).settings.show_progress, ..old(self).settings },
                ..*old(self)
            }).finished_command(*final(self)),
    {
        self.settings.show_progress = !self.settings.show_progress;
        self.finish_command();
        false
    }

    /// `:cursor` shows or hides the cursor and finishes the command; the
    /// settings are then to be saved.
    pub fn handle_cursor_command(&mut self) -> (quit: bool)
        ensures
            !quit,
            (Editor {
                settings: Settings { show_cursor: !old(self).settings.show_cursor, ..old(self).settings },
                ..*old(self)
            }).finished_command(*final(self)),
    {
        self.settings.show_cursor = !self.settings.show_cursor;
        self.finish_command();
        false
    }

    /// `:nohl` clears the search, here and in the active buffer, finishes
    /// the command and asks for a redraw.
    pub fn handle_nohl_command(&mut self) -> (quit: bool)
        ensures
            !quit,
            exists|cleared: Editor, finished: Editor|
                #[trigger] old(self).search_cleared(cleared) && #[trigger] cleared.finished_command(
                    finished,
                ) && *final(self) == (Editor {
                    render: RenderState { needs_redraw: true, ..finished.render },
                    ..finished
                }),
    {
        self.editor_state.search_query = String::new();
        self.editor_state.current_match = None;
        let i = self.active_buffer;
        if i < self.buffers.len() {
            self.buffers[i].search_query = String::new();
            self.buffers[i].current_match = None;
        }
        proof {
            let bv = buffer_views(old(self).buffers@);
            assert(buffer_views(self.buffers@) =~= (if i < bv.len() {
                bv.update(
                    i as int,
                    BufferView { search_query: seq![], current_match: None, ..bv[i as int] },
                )
            } else {
                bv
            }));
        }
        let ghost cleared = *self;
        self.finish_command();
        let ghost finished = *self;
        self.mark_dirty();
        assert(old(self).search_cleared(cleared) && cleared.finished_command(finished));
        false
    }

    /// Whether `r` and `post` are what `execute_command` gives for the command line.
    pub open spec fn command_ran(self, r: CommandOutcome, post: Editor) -> bool {
        &&& (({
                    let t = trim(self.editor_state.command_buffer@);
                    match command_kind(t) {
                        CommandKind::Quit => if self.quits_split() {
                            r is Continue && exists|closed: Editor|
                                #[trigger] self.split_closed(closed) && closed.finished_command(
                                    post,
                                )
                        } else if self.buffers@.len() > 1 {
                            r is Continue && exists|closed: Editor|
                                #[trigger] self.closes_overlay(closed) && closed.finished_command(
                                    post,
                                )
                        } else {
                            r is Exit && post == self
                        },
                        CommandKind::Shell => (r matches CommandOutcome::RunShell(s) && s@ == t.skip(1))
                            && post == self,
                        CommandKind::Progress => r is SaveConfig && (Editor {
                            settings: Settings {
                                show_progress: !self.settings.show_progress,
                                ..self.settings
                            },
                            ..self
                        }).finished_command(post),
                        CommandKind::Cursor => r is SaveConfig && (Editor {
                            settings: Settings {
                                show_cursor: !self.settings.show_cursor,
                                ..self.settings
                            },
                            ..self
                        }).finished_command(post),
                        CommandKind::Nohl => r is Continue && exists|cleared: Editor, finished: Editor|
                            #[trigger] self.search_cleared(cleared)
                                && #[trigger] cleared.finished_command(finished) && post == (
                            Editor {
                                render: RenderState { needs_redraw: true, ..finished.render },
                                ..finished
                            }),
                        CommandKind::Other => if t == "z"@ {
                            r is SaveConfig && post == (Editor {
                                settings: Settings {
                                    show_highlighter: !self.settings.show_highlighter,
                                    ..self.settings
                                },
                                ..self
                            })
                        } else {
                            r is Continue && post == self
                        },
                        CommandKind::Highlight => (r matches CommandOutcome::Unavailable(u) && u == CommandKind::Highlight)
                        && exists|cleared: Editor|
                        self.highlight_counted().selection_cleared(cleared)
                            && #[trigger] cleared.finished_command(post),
                    k => (r matches CommandOutcome::Unavailable(u) && u == k)
                            && self.finished_command(post),
                    }
                }))
    }

    /// This editor with a highlight counted for the tutorial.
    pub open spec fn highlight_counted(self) -> Editor {
        Editor { tutorial: TutorialState { highlight_created: true, ..self.tutorial }, ..self }
    }

    /// `:h`: the selection is cleared, the tutorial counts a highlight, and
    /// the command line is closed. Making the highlight itself is not part
    /// of this library, so `execute_command` reports the command as
    /// unavailable.
    pub fn handle_highlight_command(&mut self)
        ensures
            exists|cleared: Editor|
                old(self).highlight_counted().selection_cleared(cleared)
                    && #[trigger] cleared.finished_command(*final(self)),
    {
        self.tutorial.highlight_created = true;
        let ghost flagged = *self;
        self.clear_selection();
        let ghost cleared = *self;
        self.finish_command();
        assert(flagged.selection_cleared(cleared) && cleared.finished_command(*self));
    }

    /// Runs the command on the command line, trimmed (see `command_kind`):
    /// - `q` closes the split when its command output is active, else the
    ///   overlay when there is more than one buffer, finishing the command,
    ///   and otherwise asks to leave the reader;
    /// - `!cmd` asks for `cmd` to be run;
    /// - `p`, `cursor` and `nohl` run as `handle_progress_command`,
    ///   `handle_cursor_command` and `handle_nohl_command`, the first two
    ///   asking for the settings to be saved;
    /// - the tutorial, help, highlight, credits and about commands finish
    ///   the command and report that they are unavailable;
    /// - anything else runs as `handle_command`, `z` asking for the
    ///   settings to be saved.
    pub fn execute_command(&mut self) -> (r: CommandOutcome)
        ensures
            old(self).command_ran(r, *final(self)),
    {
        let t = trim_string(self.editor_state.command_buffer.as_str());
        let k = classify_command(t.as_str());
        match k {
            CommandKind::Quit => {
                let in_command_buffer = if self.tutorial.active {
                    self.active_buffer == 2
                } else {
                    self.active_buffer == 1
                };
                if self.view_mode == ViewMode::HorizontalSplit && in_command_buffer {
                    self.close_split();
                    let ghost closed = *self;
                    self.finish_command();
                    assert(old(self).split_closed(closed));
                    CommandOutcome::Continue
                } else if self.can_close_buffer() {
                    self.close_overlay();
                    let ghost closed = *self;
                    self.finish_command();
                    assert(old(self).closes_overlay(closed));
                    CommandOutcome::Continue
                } else {
                    CommandOutcome::Exit
                }
            },
            CommandKind::Shell => CommandOutcome::RunShell(skip_string(t.as_str(), 1)),
            CommandKind::Progress => {
                self.handle_progress_command();
                CommandOutcome::SaveConfig
            },
            CommandKind::Cursor => {
                self.handle_cursor_command();
                CommandOutcome::SaveConfig
            },
            CommandKind::Nohl => {
                self.handle_nohl_command();
                CommandOutcome::Continue
            },
            CommandKind::Highlight => {
                self.handle_highlight_command();
                CommandOutcome::Unavailable(CommandKind::Highlight)
            },
            CommandKind::Other => {
                let _quit = handle_command(t.as_str(), &mut self.settings.show_highlighter);
                proof {
                    reveal_strlit("q");
                    reveal_strlit("z");
                    crate::text::lemma_trim_idempotent(old(self).editor_state.command_buffer@);
                    assert(trim(t@) == t@);
                }
                if eq_str(t.as_str(), "z") {
                    CommandOutcome::SaveConfig
                } else {
                    CommandOutcome::Continue
                }
            },
            _ => {
                self.finish_command();
                CommandOutcome::Unavailable(k)
            },
        }
    }
}

} // verus!
