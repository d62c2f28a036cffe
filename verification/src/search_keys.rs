//! Keys typed while a search query is entered.

use vstd::prelude::*;
use crate::core_types::{BufferState, BufferView, EditorMode, EditorState, EditorStateView};
use crate::editor::{Editor, RenderState};
use crate::keys::{Key, KeyCode};
use crate::overlay::buffer_views;
use crate::search::{with_buffer_match};
use crate::text::{push_char, string_of};

verus! {

/// The buffers with buffer `i`, if there is one, back in normal mode with
/// an empty command line.
pub open spec fn reset_command_line(bv: Seq<BufferView>, i: usize) -> Seq<BufferView> {
    if i < bv.len() {
        bv.update(
            i as int,
            BufferView {
                mode: EditorMode::Normal,
                command_buffer: seq![],
                command_cursor_pos: 0,
                ..bv[i as int]
            },
        )
    } else {
        bv
    }
}

/// The buffers with buffer `i`, if there is one, holding the command line
/// `cmd` with its cursor at the end.
pub open spec fn with_buffer_command(bv: Seq<BufferView>, i: usize, cmd: Seq<char>) -> Seq<BufferView> {
    if i < bv.len() {
        bv.update(
            i as int,
            BufferView { command_buffer: cmd, command_cursor_pos: cmd.len() as usize, ..bv[i as int] },
        )
    } else {
        bv
    }
}

impl Editor {
    /// Whether `post` is this editor out of the search: back in normal mode
    /// with an empty command line and a redraw requested; with `restore`
    /// also back where the search began, with no match shown.
    pub open spec fn search_cancelled(self, restore: bool, post: Editor) -> bool {
        let base = if restore {
            let b = self.back_to_search_start();
            Editor {
                editor_state: EditorState {
                    search_preview_active: false,
                    search_preview_match: None,
                    ..b.editor_state
                },
                ..b
            }
        } else {
            self
        };
        &&& buffer_views(post.buffers@) == reset_command_line(buffer_views(self.buffers@), self.active_buffer)
        &&& post.editor_state@ == (EditorStateView {
            mode: EditorMode::Normal,
            command_buffer: seq![],
            ..base.editor_state@
        })
        &&& post == (Editor {
            buffers: post.buffers,
            editor_state: post.editor_state,
            render: RenderState { needs_redraw: true, ..base.render },
            ..base
        })
    }

    /// Whether `post` is this editor with the typed query accepted: it
    /// becomes the search query, the match shown (if any) becomes the
    /// current match, also of the active buffer, with the view centred on
    /// it; then the search ends as `search_cancelled` without restoring.
    pub open spec fn search_accepted(self, post: Editor) -> bool {
        let p = self.editor_state.search_preview_match;
        let with_query = Editor {
            editor_state: EditorState { search_query: self.editor_state.command_buffer, ..self.editor_state },
            ..self
        };
        let moved = match p {
            Some((l, c, _)) => with_query.with_match(p).centred_on(l, c, false),
            None => with_query,
        };
        let bs = if p is Some {
            with_buffer_match(self.buffers@, self.active_buffer, p)
        } else {
            self.buffers@
        };
        &&& buffer_views(post.buffers@) == reset_command_line(buffer_views(bs), self.active_buffer)
        &&& post.editor_state@ == (EditorStateView {
            search_preview_active: false,
            search_preview_match: None,
            mode: EditorMode::Normal,
            command_buffer: seq![],
            ..moved.editor_state@
        })
        &&& post == (Editor {
            buffers: post.buffers,
            editor_state: post.editor_state,
            render: RenderState { needs_redraw: true, ..moved.render },
            ..moved
        })
    }

    /// Whether `mid` is this editor with the typed query changed to `cmd`,
    /// in the shared command line and the active buffer's (whose cursor
    /// goes to its end); with `move_cursor` the shared cursor too.
    pub open spec fn query_changed(self, cmd: Seq<char>, move_cursor: bool, mid: Editor) -> bool {
        &&& mid.editor_state@ == (EditorStateView {
            command_buffer: cmd,
            command_cursor_pos: if move_cursor {
                cmd.len() as usize
            } else {
                self.editor_state.command_cursor_pos
            },
            ..self.editor_state@
        })
        &&& buffer_views(mid.buffers@) == with_buffer_command(
            buffer_views(self.buffers@),
            self.active_buffer,
            cmd,
        )
        &&& mid == (Editor { editor_state: mid.editor_state, buffers: mid.buffers, ..self })
    }

    /// Whether `post` is this editor with the typed query changed to `cmd`
    /// (see `query_changed`) and its match shown (see `previewed`), with a
    /// redraw requested.
    pub open spec fn query_edited(self, cmd: Seq<char>, move_cursor: bool, post: Editor) -> bool {
        exists|mid: Editor, shown: Editor|
            #[trigger] self.query_changed(cmd, move_cursor, mid) && #[trigger] mid.previewed(
                cmd,
                self.editor_state.search_direction,
                shown,
            ) && post == (Editor {
                render: RenderState { needs_redraw: true, ..shown.render },
                ..shown
            })
    }
}

/// Puts buffer `i`, if there is one, back in normal mode with an empty
/// command line.
pub(crate) fn end_buffer_search(bs: &mut Vec<BufferState>, i: usize)
    ensures
        buffer_views(final(bs)@) == reset_command_line(buffer_views(old(bs)@), i),
{
    if i < bs.len() {
        bs[i].mode = EditorMode::Normal;
        bs[i].command_buffer = String::new();
        bs[i].command_cursor_pos = 0;
    }
    assert(buffer_views(bs@) =~= reset_command_line(buffer_views(old(bs)@), i));
}

/// Gives buffer `i`, if there is one, the command line `cmd`.
pub(crate) fn set_buffer_command(bs: &mut Vec<BufferState>, i: usize, cmd: &str)
    ensures
        buffer_views(final(bs)@) == with_buffer_command(buffer_views(old(bs)@), i, cmd@),
{
    if i < bs.len() {
        bs[i].command_buffer = string_of(cmd);
        bs[i].command_cursor_pos = cmd.unicode_len();
    }
    assert(buffer_views(bs@) =~= with_buffer_command(buffer_views(old(bs)@), i, cmd@));
}

/// All but the last character of `s`.
pub(crate) fn without_last(s: &str) -> (r: String)
    requires
        s@.len() > 0,
    ensures
        r@ == s@.drop_last(),
{
    let n = s.unicode_len();
    let mut r = String::new();
    let mut i: usize = 0;
    while i < n - 1
        invariant
            n == s@.len(),
            n > 0,
            i <= n - 1,
            r@ == s@.take(i as int),
        decreases n - 1 - i,
    {
        push_char(&mut r, s.get_char(i));
        i = i + 1;
        assert(r@ =~= s@.take(i as int));
    }
    assert(s@.take(i as int) =~= s@.drop_last());
    r
}

impl Editor {
    /// Leaves the search (see `search_cancelled`).
    fn cancel_search(&mut self, restore: bool)
        ensures
            old(self).search_cancelled(restore, *final(self)),
    {
        if restore {
            match (self.editor_state.search_original_cursor, self.editor_state.search_original_offset) {
                (Some((y, x)), Some(o)) => {
                    self.cursor_y = y;
                    self.cursor_x = x;
                    self.offset = o;
                    self.render.cursor_moved = true;
                },
                _ => {},
            }
            self.editor_state.search_preview_active = false;
            self.editor_state.search_preview_match = None;
        }
        self.editor_state.mode = EditorMode::Normal;
        self.editor_state.command_buffer = String::new();
        let i = self.active_buffer;
        end_buffer_search(&mut self.buffers, i);
        self.mark_dirty();
    }

    /// Accepts the typed query (see `search_accepted`).
    #[verifier::spinoff_prover]
    #[verifier::rlimit(40)]
    fn accept_search(&mut self)
        requires
            old(self).editor_state.search_preview_match matches Some((l, _, _)) ==> old(
                self,
            ).can_centre(l, false),
        ensures
            old(self).search_accepted(*final(self)),
    {
        self.editor_state.search_query = self.editor_state.command_buffer.clone();
        let p = self.editor_state.search_preview_match;
        if p.is_some() {
            self.editor_state.current_match = p;
            let i = self.active_buffer;
            if i < self.buffers.len() {
                self.buffers[i].current_match = p;
            }
            self.center_on_match();
        }
        self.editor_state.search_preview_active = false;
        self.editor_state.search_preview_match = None;
        self.editor_state.mode = EditorMode::Normal;
        self.editor_state.command_buffer = String::new();
        let i = self.active_buffer;
        end_buffer_search(&mut self.buffers, i);
        self.mark_dirty();
    }

    /// Changes the typed query to `cmd` and shows its match (see
    /// `query_edited`).
    fn edit_query(&mut self, cmd: String, move_cursor: bool)
        requires
            old(self).can_preview(),
        ensures
            old(self).query_edited(cmd@, move_cursor, *final(self)),
    {
        if move_cursor {
            self.editor_state.command_cursor_pos = cmd.as_str().unicode_len();
        }
        let i = self.active_buffer;
        set_buffer_command(&mut self.buffers, i, cmd.as_str());
        self.editor_state.command_buffer = cmd;
        let ghost mid = *self;
        assert(old(self).query_changed(self.editor_state.command_buffer@, move_cursor, mid));
        let query = self.editor_state.command_buffer.clone();
        let direction = self.editor_state.search_direction;
        self.find_preview_match(query.as_str(), direction);
        let ghost shown = *self;
        self.mark_dirty();
        assert(old(self).query_changed(cmd@, move_cursor, mid) && mid.previewed(
            cmd@,
            old(self).editor_state.search_direction,
            shown,
        ));
    }

    /// Whether `r` and `post` are what `handle_search_mode_event` gives for `key`.
    pub open spec fn search_key_done(self, key: Key, r: bool, post: Editor) -> bool {
        &&& (!r)
        &&& (key.ctrl && key.code == KeyCode::Char('c') ==> self.search_cancelled(
                    false,
                    post,
                ))
        &&& (key.code == KeyCode::Esc ==> self.search_cancelled(true, post))
        &&& (key.code == KeyCode::Enter ==> self.search_accepted(post))
        &&& (key.code == KeyCode::Backspace ==> if self.editor_state.command_buffer@.len() == 0 {
                    self.search_cancelled(true, post)
                } else {
                    self.query_edited(
                        self.editor_state.command_buffer@.drop_last(),
                        true,
                        post,
                    )
                })
        &&& (key.code matches KeyCode::Char(c) ==> (!(key.ctrl && c == 'c') ==> self.query_edited(
                    self.editor_state.command_buffer@.push(c),
                    false,
                    post,
                )))
        &&& (!(key.code is Char || key.code == KeyCode::Esc || key.code == KeyCode::Enter || key.code
                    == KeyCode::Backspace) ==> post == self)
    }

    /// Handles a key while a search query is typed, and returns `false`
    /// (the editor goes on):
    /// - Control-C leaves the search where the cursor is
    ///   (`search_cancelled` without restoring);
    /// - Esc, and Backspace on an empty query, leave it and go back where
    ///   it began (`search_cancelled` restoring);
    /// - Enter accepts the query (`search_accepted`);
    /// - Backspace drops the query's last character, and a character is
    ///   appended to it, and the match is shown again (`query_edited`);
    /// - any other key changes nothing.
    pub fn handle_search_mode_event(&mut self, key: Key) -> (r: bool)
        requires
            old(self).can_preview(),
            key.code == KeyCode::Enter ==> (old(self).editor_state.search_preview_match matches Some(
                (l, _, _),
            ) ==> old(self).can_centre(l, false)),
        ensures
            old(self).search_key_done(key, r, *final(self)),
    {
        if key.ctrl && key.code == KeyCode::Char('c') {
            self.cancel_search(false);
            return false;
        }
        match key.code {
            KeyCode::Esc => {
                self.cancel_search(true);
            },
            KeyCode::Enter => {
                self.accept_search();
            },
            KeyCode::Backspace => {
                if self.editor_state.command_buffer.as_str().unicode_len() > 0 {
                    let cmd = without_last(self.editor_state.command_buffer.as_str());
                    self.edit_query(cmd, true);
                } else {
                    self.cancel_search(true);
                }
            },
            KeyCode::Char(c) => {
                let mut cmd = self.editor_state.command_buffer.clone();
                push_char(&mut cmd, c);
                self.edit_query(cmd, false);
            },
            _ => {},
        }
        false
    }
}

} // verus!
