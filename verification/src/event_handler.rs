//! Routing a key press to the handler of the active mode. The handlers
//! need the document and the screen below 2^30 lines; this module checks
//! that before calling them, and leaves a key that cannot be handled
//! alone.

use vstd::prelude::*;
use crate::commands::CommandOutcome;
use crate::core_types::{BufferView, EditorMode, EditorStateView};
use crate::editor::{Editor, RenderState};
use crate::keys::{Key, KeyCode};
use crate::overlay::buffer_views;
use crate::search_keys::{
    end_buffer_search, reset_command_line, set_buffer_command, with_buffer_command, without_last,
};
use crate::text::{push_char, string_of};

verus! {

/// What handling a key asks of the caller.
#[derive(Debug)]
pub enum KeyOutcome {
    /// Go on; when `save_marks` the bookmarks changed and are to be
    /// written.
    Continue { save_marks: bool },
    /// A command was entered on the command line and ran (see
    /// `execute_command`); the caller does what it asks.
    Command(CommandOutcome),
    /// The key was left alone: the active mode takes no keys here, or a
    /// check the handler needs failed.
    Ignored,
}

impl Editor {
    /// Whether the keys of normal mode can be handled for `key`.
    pub open spec fn normal_key_ok(self, key: Key) -> bool {
        &&& self.current_line() <= usize::MAX
        &&& (key.code == KeyCode::Char('n') ==> self.can_centre_matches(self.editor_state.search_direction))
        &&& (key.code == KeyCode::Char('N') ==> self.can_centre_matches(!self.editor_state.search_direction))
        &&& (key.code == KeyCode::Char('*') ==> self.can_search_word(true))
        &&& (key.code == KeyCode::Char('#') ==> self.can_search_word(false))
        &&& (key.code == KeyCode::Char('(') ==> self.lines@.len() > 0)
        &&& (key.code == KeyCode::Char(')') ==> self.cursor_x < usize::MAX)
    }

    /// Whether the keys of the search line can be handled for `key`.
    pub open spec fn search_key_ok(self, key: Key) -> bool {
        &&& self.can_preview()
        &&& (key.code == KeyCode::Enter ==> (self.editor_state.search_preview_match matches Some(
            (l, _, _),
        ) ==> self.can_centre(l, false)))
    }

    /// Whether `post` is this editor with the command line closed: back in
    /// normal mode, here and in the active buffer, with an empty command
    /// line and a redraw asked for.
    pub open spec fn command_line_closed(self, post: Editor) -> bool {
        &&& buffer_views(post.buffers@) == reset_command_line(buffer_views(self.buffers@), self.active_buffer)
        &&& post.editor_state@ == (EditorStateView {
            mode: EditorMode::Normal,
            command_buffer: seq![],
            command_cursor_pos: 0,
            ..self.editor_state@
        })
        &&& post == (Editor {
            buffers: post.buffers,
            editor_state: post.editor_state,
            render: RenderState { needs_redraw: true, ..self.render },
            ..self
        })
    }

    /// Whether `post` is this editor with the command line changed to
    /// `cmd`, here and in the active buffer, the cursor at its end, and a
    /// redraw asked for.
    pub open spec fn command_line_typed(self, cmd: Seq<char>, post: Editor) -> bool {
        &&& post.editor_state@ == (EditorStateView {
            command_buffer: cmd,
            command_cursor_pos: cmd.len() as usize,
            ..self.editor_state@
        })
        &&& buffer_views(post.buffers@) == with_buffer_command(
            buffer_views(self.buffers@),
            self.active_buffer,
            cmd,
        )
        &&& post == (Editor {
            editor_state: post.editor_state,
            buffers: post.buffers,
            render: RenderState { needs_redraw: true, ..self.render },
            ..self
        })
    }

    /// Whether `r` and `post` are what `handle_command_mode_event` gives
    /// for `key`.
    pub open spec fn command_key_done(self, key: Key, r: KeyOutcome, post: Editor) -> bool {
        let cmd = self.editor_state.command_buffer@;
        if key.code == KeyCode::Esc || (key.ctrl && key.code == KeyCode::Char('c')) {
            r == (KeyOutcome::Continue { save_marks: false }) && self.command_line_closed(post)
        } else if key.code == KeyCode::Enter {
            r matches KeyOutcome::Command(o) && self.command_ran(o, post)
        } else if key.code == KeyCode::Backspace {
            r == (KeyOutcome::Continue { save_marks: false }) && if cmd.len() == 0 {
                self.command_line_closed(post)
            } else {
                self.command_line_typed(cmd.drop_last(), post)
            }
        } else {
            match key.code {
                KeyCode::Char(c) => r == (KeyOutcome::Continue { save_marks: false })
                    && self.command_line_typed(cmd.push(c), post),
                _ => r == (KeyOutcome::Continue { save_marks: false }) && post == self,
            }
        }
    }

    /// Closes the command line (see `command_line_closed`).
    fn close_command_line(&mut self)
        ensures
            old(self).command_line_closed(*final(self)),
    {
        self.editor_state.mode = EditorMode::Normal;
        self.editor_state.command_buffer = String::new();
        self.editor_state.command_cursor_pos = 0;
        let i = self.active_buffer;
        end_buffer_search(&mut self.buffers, i);
        self.mark_dirty();
    }

    /// Changes the command line to `cmd` (see `command_line_typed`).
    fn type_command_line(&mut self, cmd: String)
        ensures
            old(self).command_line_typed(cmd@, *final(self)),
    {
        let i = self.active_buffer;
        set_buffer_command(&mut self.buffers, i, cmd.as_str());
        self.editor_state.command_cursor_pos = cmd.as_str().unicode_len();
        self.editor_state.command_buffer = cmd;
        self.mark_dirty();
    }

    /// A key typed on the command line: Esc and Control-C close it, Enter
    /// runs the command (see `execute_command`), Backspace drops the last
    /// character (closing an empty line), a character is appended; other
    /// keys change nothing.
    pub fn handle_command_mode_event(&mut self, key: Key) -> (r: KeyOutcome)
        ensures
            old(self).command_key_done(key, r, *final(self)),
    {
        if key.code == KeyCode::Esc || (key.ctrl && key.code == KeyCode::Char('c')) {
            self.close_command_line();
            KeyOutcome::Continue { save_marks: false }
        } else if key.code == KeyCode::Enter {
            KeyOutcome::Command(self.execute_command())
        } else if key.code == KeyCode::Backspace {
            if self.editor_state.command_buffer.as_str().unicode_len() == 0 {
                self.close_command_line();
            } else {
                let shorter = without_last(self.editor_state.command_buffer.as_str());
                self.type_command_line(shorter);
            }
            KeyOutcome::Continue { save_marks: false }
        } else {
            match key.code {
                KeyCode::Char(c) => {
                    let mut longer = string_of(self.editor_state.command_buffer.as_str());
                    push_char(&mut longer, c);
                    self.type_command_line(longer);
                },
                _ => {},
            }
            KeyOutcome::Continue { save_marks: false }
        }
    }
    /// Whether `key` waits for a second key before it is handled: `g`,
    /// `m` and `'` in normal mode when no operator is pending, whose
    /// handlers take the key after them as `next`.
    pub fn takes_second_key(&self, key: Key) -> (r: bool)
        ensures
            r == (self.active_mode() == EditorMode::Normal && self.editor_state.operator_pending is None
                && (key.code == KeyCode::Char('g') || key.code == KeyCode::Char('m') || key.code
                == KeyCode::Char('\''))),
    {
        self.get_active_mode() == EditorMode::Normal && self.editor_state.operator_pending.is_none()
            && (key.code == KeyCode::Char('g') || key.code == KeyCode::Char('m') || key.code
            == KeyCode::Char('\''))
    }

    /// Whether line `line` can be centred on (see `can_centre`).
    pub fn centre_ok(&self, line: usize, floor: bool) -> (r: bool)
        ensures
            r == self.can_centre(line, floor),
    {
        let ch = self.calculate_dimensions();
        line < 0x4000_0000 && ch < 0x4000_0000 && self.total_lines < 0x4000_0000 && (floor || !(line
            >= ch / 2 && line - ch / 2 + ch > self.total_lines) || self.total_lines >= ch)
    }

    /// Whether moving to the next match (`forward`) or the previous one can
    /// be done (see `can_centre_matches`).
    pub fn matches_centrable(&self, forward: bool) -> (r: bool)
        ensures
            r == self.can_centre_matches(forward),
    {
        self.centrable_for(self.editor_state.search_query.as_str(), forward)
    }

    /// Whether moving to the next match for `query` (`forward`) or the
    /// previous one can be done (see `can_centre_matches_for`).
    pub fn centrable_for(&self, query: &str, forward: bool) -> (r: bool)
        ensures
            r == self.can_centre_matches_for(query@, forward),
    {
        if query.unicode_len() == 0 {
            return true;
        }
        let start_ok = match self.editor_state.current_match {
            Some((l, _, _)) => l < usize::MAX,
            None => self.cursor_y < usize::MAX && self.offset < usize::MAX - self.cursor_y,
        };
        if !start_ok {
            return false;
        }
        let line = match self.next_match_for_query(query, forward) {
            Some((l, _, _)) => Some(l),
            None => match self.editor_state.current_match {
                Some((l, _, _)) => Some(l),
                None => None,
            },
        };
        match line {
            Some(l) => self.centre_ok(l, false),
            None => true,
        }
    }

    /// Whether searching for the word under the cursor can be done (see
    /// `can_search_word`).
    pub fn word_search_centrable(&self, forward: bool) -> (r: bool)
        ensures
            r == self.can_search_word(forward),
    {
        match self.get_word_under_cursor() {
            Some(w) => self.centrable_for(w.as_str(), forward),
            None => true,
        }
    }

    /// Whether a match can be shown while a search is typed (see
    /// `can_preview`).
    pub fn preview_ok(&self) -> (r: bool)
        ensures
            r == self.can_preview(),
    {
        let ch = self.calculate_dimensions();
        if !(self.lines.len() < 0x4000_0000 && ch < 0x4000_0000 && self.total_lines < 0x4000_0000) {
            return false;
        }
        match (self.editor_state.search_original_cursor, self.editor_state.search_original_offset) {
            (Some((y, _)), Some(o)) => y < usize::MAX && o < usize::MAX - y,
            _ => self.cursor_y < usize::MAX && self.offset < usize::MAX - self.cursor_y,
        }
    }

    /// Whether `post` is this editor out of visual selection: back in normal
    /// mode with the selection cleared.
    pub open spec fn visual_left(self, post: Editor) -> bool {
        exists|m: Editor| #[trigger] self.mode_set(EditorMode::Normal, m) && m.selection_cleared(post)
    }

    /// Whether `r` and `post` are what `handle_event` gives for `key` and
    /// the key after it, by the mode of the active buffer: normal-mode keys
    /// (see `normal_key_done`), search-line keys (see `search_key_done`)
    /// and command-line keys (see `command_key_done`) go to their handlers
    /// when the checks they need hold; Esc leaves visual selection; any
    /// other key is left alone.
    pub open spec fn event_done(self, key: Key, next: Option<Key>, r: KeyOutcome, post: Editor) -> bool {
        match self.active_mode() {
            EditorMode::Normal => if self.normal_key_ok(key) {
                r matches KeyOutcome::Continue { save_marks } && self.normal_key_done(
                    key,
                    next,
                    (false, save_marks),
                    post,
                )
            } else {
                r is Ignored && post == self
            },
            EditorMode::Search | EditorMode::ReverseSearch => if self.search_key_ok(key) {
                r == (KeyOutcome::Continue { save_marks: false }) && self.search_key_done(
                    key,
                    false,
                    post,
                )
            } else {
                r is Ignored && post == self
            },
            EditorMode::Command | EditorMode::CommandExecution => self.command_key_done(key, r, post),
            EditorMode::VisualChar | EditorMode::VisualLine => if key.code == KeyCode::Esc {
                r == (KeyOutcome::Continue { save_marks: false }) && self.visual_left(post)
            } else {
                r is Ignored && post == self
            },
            EditorMode::Tutorial => r is Ignored && post == self,
        }
    }

    /// Handles a key press in the active mode (see `event_done`). `next` is
    /// the key pressed after it, for the keys that take a second one (`g`,
    /// `m`, `'`).
    pub fn handle_event(&mut self, key: Key, next: Option<Key>) -> (r: KeyOutcome)
        ensures
            old(self).event_done(key, next, r, *final(self)),
    {
        let mode = self.get_active_mode();
        match mode {
            EditorMode::Normal => {
                let d = self.editor_state.search_direction;
                let ok = self.cursor_y <= usize::MAX - self.offset && (key.code != KeyCode::Char('n')
                    || self.matches_centrable(d)) && (key.code != KeyCode::Char('N')
                    || self.matches_centrable(!d)) && (key.code != KeyCode::Char('*')
                    || self.word_search_centrable(true)) && (key.code != KeyCode::Char('#')
                    || self.word_search_centrable(false)) && (key.code
                    != KeyCode::Char('(') || self.lines.len() > 0) && (key.code != KeyCode::Char(')')
                    || self.cursor_x < usize::MAX);
                if ok {
                    let (_, save) = self.handle_normal_mode_event(key, next);
                    KeyOutcome::Continue { save_marks: save }
                } else {
                    KeyOutcome::Ignored
                }
            },
            EditorMode::Search | EditorMode::ReverseSearch => {
                let ok = self.preview_ok() && (key.code != KeyCode::Enter
                    || match self.editor_state.search_preview_match {
                    Some((l, _, _)) => self.centre_ok(l, false),
                    None => true,
                });
                if ok {
                    self.handle_search_mode_event(key);
                    KeyOutcome::Continue { save_marks: false }
                } else {
                    KeyOutcome::Ignored
                }
            },
            EditorMode::Command | EditorMode::CommandExecution => self.handle_command_mode_event(key),
            EditorMode::VisualChar | EditorMode::VisualLine => {
                if key.code == KeyCode::Esc {
                    self.set_active_mode(EditorMode::Normal);
                    let ghost m = *self;
                    self.clear_selection();
                    assert(old(self).mode_set(EditorMode::Normal, m) && m.selection_cleared(*self));
                    KeyOutcome::Continue { save_marks: false }
                } else {
                    KeyOutcome::Ignored
                }
            },
            EditorMode::Tutorial => KeyOutcome::Ignored,
        }
    }
}

/// Typing a character on the command line and then Backspace gives the
/// command line back as it was, with its cursor at its end.
pub proof fn lemma_type_then_backspace(
    pre: Editor,
    c: char,
    r1: KeyOutcome,
    mid: Editor,
    r2: KeyOutcome,
    post: Editor,
)
    requires
        pre.command_key_done(Key { code: KeyCode::Char(c), ctrl: false, alt: false, shift: false }, r1, mid),
        mid.command_key_done(Key { code: KeyCode::Backspace, ctrl: false, alt: false, shift: false }, r2, post),
    ensures
        post.editor_state@ == (EditorStateView {
            command_cursor_pos: pre.editor_state.command_buffer@.len() as usize,
            ..pre.editor_state@
        }),
        post == (Editor {
            editor_state: post.editor_state,
            buffers: post.buffers,
            render: RenderState { needs_redraw: true, ..pre.render },
            ..pre
        }),
{
    let cmd = pre.editor_state.command_buffer@;
    assert(mid.editor_state.command_buffer@ == cmd.push(c));
    assert(cmd.push(c).drop_last() =~= cmd);
}

} // verus!
