//! Keys in normal mode: switching modes, the split's panes, counts,
//! searching, visual selection, and the motions.

use vstd::prelude::*;
use crate::core_types::{BufferState, BufferView, EditorMode, EditorState, EditorStateView, ViewMode};
use crate::editor::{Editor, NavState, RenderState, TutorialState};
use crate::justify::strings_view;
use crate::keys::{Key, KeyCode};
use crate::movement::first_non_ws;
use crate::navigation::{as_nats, next_sentence_from, paragraph_boundary, prev_sentence_from};
use crate::overlay::buffer_views;
use crate::search::{as_match, other_lines_hit};
use crate::text::{parse_usize, parse_usize_spec, push_char, spec_to_lowercase, chars_of};

verus! {

/// The buffers with buffer `i`, if there is one, in `mode` with an empty
/// command line.
pub open spec fn prompt_in_buffer(bv: Seq<BufferView>, i: usize, mode: EditorMode) -> Seq<BufferView> {
    if i < bv.len() {
        bv.update(
            i as int,
            BufferView { mode, command_buffer: seq![], command_cursor_pos: 0, ..bv[i as int] },
        )
    } else {
        bv
    }
}

/// The keys of starting a search or a selection, moving to a match, and
/// yanking.
pub open spec fn search_visual_key(key: Key) -> bool {
    key.code == KeyCode::Char('/') || key.code == KeyCode::Char('?') || key.code == KeyCode::Char(
        'n',
    ) || key.code == KeyCode::Char('N') || key.code == KeyCode::Char('v') || key.code
        == KeyCode::Char('V') || key.code == KeyCode::Char('y') || key.code == KeyCode::Char('*')
        || key.code == KeyCode::Char('#') || key.code == KeyCode::Char('i')
}

/// Whether `c` is an ASCII digit.
pub open spec fn is_ascii_digit(c: char) -> bool {
    '0' <= c <= '9'
}

impl Editor {
    /// The index of the last line (0 for no lines).
    pub open spec fn last_index(self) -> usize {
        if self.lines@.len() >= 1 {
            (self.lines@.len() - 1) as usize
        } else {
            0usize
        }
    }

    /// The number of characters of line `l` (0 past the end).
    pub open spec fn line_chars(self, l: usize) -> usize {
        if l < self.lines@.len() {
            self.lines@[l as int]@.len() as usize
        } else {
            0usize
        }
    }

    /// Whether `post` is this editor with the command line opened in
    /// `mode` (empty, here and in the active buffer), the search direction
    /// set to `dir` if given, and a redraw requested.
    pub open spec fn prompt_opened(self, mode: EditorMode, dir: Option<bool>, post: Editor) -> bool {
        &&& buffer_views(post.buffers@) == prompt_in_buffer(
            buffer_views(self.buffers@),
            self.active_buffer,
            mode,
        )
        &&& post.editor_state@ == (EditorStateView {
            mode,
            command_buffer: seq![],
            command_cursor_pos: 0,
            search_direction: match dir {
                Some(d) => d,
                None => self.editor_state.search_direction,
            },
            ..self.editor_state@
        })
        &&& post == (Editor {
            buffers: post.buffers,
            editor_state: post.editor_state,
            render: RenderState { needs_redraw: true, ..self.render },
            ..self
        })
    }

    /// Whether `post` is this editor starting a search (forward with `/`,
    /// backward with `?`): the prompt opened, the position remembered so
    /// that it can be shown while typing and restored, and the search
    /// counted by the tutorial.
    pub open spec fn search_started(self, forward: bool, post: Editor) -> bool {
        let mode = if forward {
            EditorMode::Search
        } else {
            EditorMode::ReverseSearch
        };
        let remembered = Editor {
            editor_state: EditorState {
                search_preview_active: true,
                search_original_cursor: Some((self.cursor_y, self.cursor_x)),
                search_original_offset: Some(self.offset),
                search_preview_match: None,
                ..self.editor_state
            },
            tutorial: if self.tutorial.active {
                if forward {
                    TutorialState { forward_search_used: true, ..self.tutorial }
                } else {
                    TutorialState { backward_search_used: true, ..self.tutorial }
                }
            } else {
                self.tutorial
            },
            ..self
        };
        remembered.prompt_opened(mode, Some(forward), post)
    }

    /// Whether `post` is this editor after every line was selected
    /// (Control-A): visual line mode, the selection from the start of the
    /// document to the end of its last line.
    pub open spec fn all_selected(self, post: Editor) -> bool {
        let last = self.last_index();
        let last_col = self.line_chars(last);
        let started = Editor {
            buffers: post.buffers,
            editor_state: EditorState {
                mode: EditorMode::VisualLine,
                selection_start: Some((0, 0)),
                ..self.editor_state
            },
            ..self
        };
        exists|s: Editor, m: Editor|
            #[trigger] s.moved_to(last, last_col, m) && #[trigger] m.selection_extended(post)
                && s.buffers@ == (if self.active_buffer < self.buffers@.len() {
                self.buffers@.update(
                    self.active_buffer as int,
                    BufferState {
                        mode: EditorMode::VisualLine,
                        selection_start: Some((0, 0)),
                        ..self.buffers@[self.active_buffer as int]
                    },
                )
            } else {
                self.buffers@
            }) && s == (Editor { buffers: s.buffers, ..started })
    }

    /// Whether `post` is this editor moved to `pane` of the split when the
    /// view is split and another pane is active; otherwise unchanged.
    pub open spec fn pane_moved(self, pane: usize, post: Editor) -> bool {
        if self.view_mode == ViewMode::HorizontalSplit && self.active_pane != pane {
            self.pane_switched(pane, post)
        } else {
            post == self
        }
    }
}

/// Opens the command line in `mode` in buffer `i`, if there is one.
fn open_prompt_in_buffer(bs: &mut Vec<BufferState>, i: usize, mode: EditorMode)
    ensures
        buffer_views(final(bs)@) == prompt_in_buffer(buffer_views(old(bs)@), i, mode),
{
    if i < bs.len() {
        bs[i].mode = mode;
        bs[i].command_buffer = String::new();
        bs[i].command_cursor_pos = 0;
    }
    assert(buffer_views(bs@) =~= prompt_in_buffer(buffer_views(old(bs)@), i, mode));
}

impl Editor {
    /// Opens the command line in `mode` (see `prompt_opened`).
    fn open_prompt(&mut self, mode: EditorMode, dir: Option<bool>)
        ensures
            old(self).prompt_opened(mode, dir, *final(self)),
    {
        self.editor_state.mode = mode;
        self.editor_state.command_buffer = String::new();
        self.editor_state.command_cursor_pos = 0;
        let i = self.active_buffer;
        open_prompt_in_buffer(&mut self.buffers, i, mode);
        match dir {
            Some(d) => {
                self.editor_state.search_direction = d;
            },
            None => {},
        }
        self.mark_dirty();
    }

    /// Starts a search (see `search_started`).
    fn start_search(&mut self, forward: bool)
        ensures
            old(self).search_started(forward, *final(self)),
    {
        self.editor_state.search_preview_active = true;
        self.editor_state.search_original_cursor = Some((self.cursor_y, self.cursor_x));
        self.editor_state.search_original_offset = Some(self.offset);
        self.editor_state.search_preview_match = None;
        if self.tutorial.active {
            if forward {
                self.tutorial.forward_search_used = true;
            } else {
                self.tutorial.backward_search_used = true;
            }
        }
        let mode = if forward {
            EditorMode::Search
        } else {
            EditorMode::ReverseSearch
        };
        self.open_prompt(mode, Some(forward));
    }

    /// Selects every line (see `all_selected`).
    fn select_all(&mut self)
        ensures
            old(self).all_selected(*final(self)),
    {
        self.editor_state.mode = EditorMode::VisualLine;
        self.editor_state.selection_start = Some((0, 0));
        let i = self.active_buffer;
        if i < self.buffers.len() {
            self.buffers[i].mode = EditorMode::VisualLine;
            self.buffers[i].selection_start = Some((0, 0));
        }
        let ghost s = *self;
        proof {
            assert(s.buffers@ == (if old(self).active_buffer < old(self).buffers@.len() {
                old(self).buffers@.update(
                    old(self).active_buffer as int,
                    BufferState {
                        mode: EditorMode::VisualLine,
                        selection_start: Some((0, 0)),
                        ..old(self).buffers@[old(self).active_buffer as int]
                    },
                )
            } else {
                old(self).buffers@
            }));
        }
        let n = self.lines.len();
        let last = if n >= 1 {
            n - 1
        } else {
            0
        };
        let last_col = if last < n {
            self.lines[last].as_str().unicode_len()
        } else {
            0
        };
        self.move_to_position(last, last_col);
        let ghost m = *self;
        self.update_selection();
        assert(s.moved_to(last, last_col, m) && m.selection_extended(*self));
        proof {
            let started = Editor {
                buffers: self.buffers,
                editor_state: EditorState {
                    mode: EditorMode::VisualLine,
                    selection_start: Some((0, 0)),
                    ..old(self).editor_state
                },
                ..*old(self)
            };
            assert(s == (Editor { buffers: s.buffers, ..started }));
            assert(last == old(self).last_index());
            assert(last_col == old(self).line_chars(last));
        }
    }

    /// Whether `r` and `post` are what `handle_control_keys` gives for `key`.
    pub open spec fn control_key_done(self, key: Key, r: Option<bool>, post: Editor) -> bool {
        match key.code {
            KeyCode::Char(c) => if key.ctrl && c == ' ' {
                r == Some(false) && post == (if self.view_mode == ViewMode::HorizontalSplit {
                    Editor { nav: NavState { tmux_prefix_active: true, ..self.nav }, ..self }
                } else {
                    self
                })
            } else if key.ctrl && c == 'c' {
                r == Some(false) && (if !self.tutorial.active && self.buffers@.len() > 1 {
                    self.closes_overlay(post)
                } else {
                    post == self
                })
            } else if key.alt && (c == 'h' || c == 'l') {
                r == Some(false) && post == self
            } else if key.alt && c == 'j' {
                r == Some(false) && self.pane_moved(1, post)
            } else if key.alt && c == 'k' {
                r == Some(false) && self.pane_moved(0, post)
            } else if key.ctrl && c == 'f' {
                r == Some(false) && self.prompt_opened(EditorMode::Search, Some(true), post)
            } else if key.ctrl && c == 'a' {
                r == Some(false) && self.all_selected(post)
            } else if c == ':' {
                r == Some(false) && self.prompt_opened(EditorMode::Command, None, post)
            } else if is_ascii_digit(c) {
                &&& r == Some(false)
                &&& post.nav.number_prefix@ == self.nav.number_prefix@.push(c)
                &&& post == (Editor {
                    nav: NavState { number_prefix: post.nav.number_prefix, ..self.nav },
                    ..self
                })
            } else {
                r is None && post == self
            },
            _ => r is None && post == self,
        }
    }

    /// Control and mode keys in normal mode. Returns `Some(false)` for the
    /// keys it takes and `None`, changing nothing, for the others:
    /// - Control-Space starts a pane command in a split;
    /// - Control-C closes the overlay when there are several buffers,
    ///   except during the tutorial;
    /// - Alt-J and Alt-K move to the bottom and top panes of a split
    ///   (Alt-H and Alt-L do nothing);
    /// - Control-F opens a forward search, `:` the command line;
    /// - Control-A selects every line;
    /// - a digit is added to the count.
    pub fn handle_control_keys(&mut self, key: Key) -> (r: Option<bool>)
        ensures
            old(self).control_key_done(key, r, *final(self)),
    {
        match key.code {
            KeyCode::Char(c) => {
                if key.ctrl && c == ' ' {
                    if self.view_mode == ViewMode::HorizontalSplit {
                        self.nav.tmux_prefix_active = true;
                    }
                    Some(false)
                } else if key.ctrl && c == 'c' {
                    if !self.tutorial.active && self.can_close_buffer() {
                        self.close_overlay();
                    }
                    Some(false)
                } else if key.alt && (c == 'h' || c == 'l') {
                    Some(false)
                } else if key.alt && c == 'j' {
                    if self.view_mode == ViewMode::HorizontalSplit && self.active_pane != 1 {
                        self.switch_split_pane(1);
                    }
                    Some(false)
                } else if key.alt && c == 'k' {
                    if self.view_mode == ViewMode::HorizontalSplit && self.active_pane != 0 {
                        self.switch_split_pane(0);
                    }
                    Some(false)
                } else if key.ctrl && c == 'f' {
                    self.open_prompt(EditorMode::Search, Some(true));
                    Some(false)
                } else if key.ctrl && c == 'a' {
                    self.select_all();
                    Some(false)
                } else if c == ':' {
                    self.open_prompt(EditorMode::Command, None);
                    Some(false)
                } else if '0' <= c && c <= '9' {
                    push_char(&mut self.nav.number_prefix, c);
                    Some(false)
                } else {
                    None
                }
            },
            _ => None,
        }
    }

    /// Whether `post` is this editor with the count cleared as `handle_number_prefix_clearing` does for `key`.
    pub open spec fn prefix_cleared(self, key: Key, post: Editor) -> bool {
        &&& (({
                    let keep = match key.code {
                        KeyCode::Char(c) => is_ascii_digit(c) || c == 'G',
                        _ => false,
                    };
                    if keep {
                        post == self
                    } else {
                        post.nav.number_prefix@.len() == 0 && post == (Editor {
                            nav: NavState { number_prefix: post.nav.number_prefix, ..self.nav },
                            ..self
                        })
                    }
                }))
    }

    /// Clears the count before any key but a digit or `G`.
    pub fn handle_number_prefix_clearing(&mut self, key: Key)
        ensures
            old(self).prefix_cleared(key, *final(self)),
    {
        let keep = match key.code {
            KeyCode::Char(c) => ('0' <= c && c <= '9') || c == 'G',
            _ => false,
        };
        if !keep {
            self.nav.number_prefix = String::new();
        }
    }

    /// Whether `r` and `post` are what `handle_tmux_prefix` gives for `key`.
    pub open spec fn tmux_key_done(self, key: Key, r: Option<bool>, post: Editor) -> bool {
        &&& (({
                    let ended = Editor {
                        nav: NavState { tmux_prefix_active: false, ..self.nav },
                        ..self
                    };
                    if key.code == KeyCode::Char('j') || key.code == KeyCode::Down {
                        r == Some(false) && ended.pane_moved(1, post)
                    } else if key.code == KeyCode::Char('k') || key.code == KeyCode::Up {
                        r == Some(false) && ended.pane_moved(0, post)
                    } else if key.code == KeyCode::Char('x') {
                        r == Some(false) && if ended.view_mode == ViewMode::HorizontalSplit
                            && ended.active_buffer == 1 {
                            ended.split_closed(post)
                        } else {
                            post == ended
                        }
                    } else if key.code == KeyCode::Char('q') {
                        r == Some(false) && post == ended
                    } else {
                        r is None && post == ended
                    }
                }))
    }

    /// The key after Control-Space: `j` or Down and `k` or Up move to the
    /// bottom and top panes of a split, `x` closes the split from its
    /// command output, `q` does nothing; these give `Some(false)`, other
    /// keys `None`. The pane command ends either way.
    pub fn handle_tmux_prefix(&mut self, key: Key) -> (r: Option<bool>)
        ensures
            old(self).tmux_key_done(key, r, *final(self)),
    {
        self.nav.tmux_prefix_active = false;
        if key.code == KeyCode::Char('j') || key.code == KeyCode::Down {
            if self.view_mode == ViewMode::HorizontalSplit && self.active_pane != 1 {
                self.switch_split_pane(1);
            }
            Some(false)
        } else if key.code == KeyCode::Char('k') || key.code == KeyCode::Up {
            if self.view_mode == ViewMode::HorizontalSplit && self.active_pane != 0 {
                self.switch_split_pane(0);
            }
            Some(false)
        } else if key.code == KeyCode::Char('x') {
            if self.view_mode == ViewMode::HorizontalSplit && self.active_buffer == 1 {
                self.close_split();
            }
            Some(false)
        } else if key.code == KeyCode::Char('q') {
            Some(false)
        } else {
            None
        }
    }

    /// Whether `r` and `post` are what `handle_basic_movement_keys` gives for `key`.
    pub open spec fn movement_key_done(self, key: Key, r: Option<bool>, post: Editor) -> bool {
        &&& (({
                    let c = key.code;
                    if c == KeyCode::Char('j') || c == KeyCode::Down {
                        r == Some(false) && (if self.current_line() >= self.last_line() {
                            post == self
                        } else {
                            self.stepped_to((self.current_line() + 1) as usize, post)
                        })
                    } else if c == KeyCode::Char('k') || c == KeyCode::Up {
                        r == Some(false) && (if self.current_line() == 0 {
                            post == self
                        } else {
                            self.stepped_to((self.current_line() - 1) as usize, post)
                        })
                    } else if c == KeyCode::Char('h') || c == KeyCode::Left {
                        r == Some(false) && post == (if self.cursor_x == 0 {
                            self
                        } else {
                            Editor {
                                cursor_x: (self.cursor_x - 1) as usize,
                                render: RenderState {
                                    needs_redraw: true,
                                    cursor_moved: true,
                                    ..self.render
                                },
                                ..self
                            }
                        })
                    } else if c == KeyCode::Char('l') || c == KeyCode::Right {
                        r == Some(false) && {
                            let l = self.current_line();
                            post == (if l < self.lines@.len() && self.cursor_x + 1 < self.lines@[l]@.len() {
                                Editor {
                                    cursor_x: (self.cursor_x + 1) as usize,
                                    render: RenderState {
                                        needs_redraw: true,
                                        cursor_moved: true,
                                        ..self.render
                                    },
                                    ..self
                                }
                            } else {
                                self
                            })
                        }
                    } else {
                        r is None && post == self
                    }
                }))
    }

    /// `j`, `k`, `h`, `l` and the arrow keys move the cursor one line or
    /// character (see `move_cursor_down` and the others) and give
    /// `Some(false)`; other keys give `None` and change nothing.
    pub fn handle_basic_movement_keys(&mut self, key: Key) -> (r: Option<bool>)
        requires
            old(self).current_line() <= usize::MAX,
        ensures
            old(self).movement_key_done(key, r, *final(self)),
    {
        let c = key.code;
        if c == KeyCode::Char('j') || c == KeyCode::Down {
            self.move_cursor_down();
            Some(false)
        } else if c == KeyCode::Char('k') || c == KeyCode::Up {
            self.move_cursor_up();
            Some(false)
        } else if c == KeyCode::Char('h') || c == KeyCode::Left {
            self.move_cursor_left();
            Some(false)
        } else if c == KeyCode::Char('l') || c == KeyCode::Right {
            self.move_cursor_right();
            Some(false)
        } else {
            None
        }
    }
}

impl Editor {
    /// The line the view is centred on when moving to the next match
    /// (`forward`) or the previous one: the match found, else the current
    /// match; none for an empty query or without either.
    pub open spec fn match_line_after_step(self, forward: bool) -> Option<usize> {
        self.match_line_after_step_for(self.editor_state.search_query@, forward)
    }

    /// `match_line_after_step` for the query `query` in place of the search
    /// query.
    pub open spec fn match_line_after_step_for(self, query: Seq<char>, forward: bool) -> Option<usize> {
        if query.len() == 0 {
            None
        } else {
            match as_match(self.next_match_for(query, forward)) {
                Some((l, _, _)) => Some(l),
                None => match self.editor_state.current_match {
                    Some((l, _, _)) => Some(l),
                    None => None,
                },
            }
        }
    }

    /// Whether moving to the next match (`forward`) or the previous one can
    /// be done: with a query, the search starts from a line below the
    /// largest `usize`, and the line then centred on can be (see
    /// `can_centre`).
    pub open spec fn can_centre_matches(self, forward: bool) -> bool {
        self.can_centre_matches_for(self.editor_state.search_query@, forward)
    }

    /// `can_centre_matches` for the query `query` in place of the search
    /// query.
    pub open spec fn can_centre_matches_for(self, query: Seq<char>, forward: bool) -> bool {
        query.len() > 0 ==> {
            &&& match self.editor_state.current_match {
                Some((l, _, _)) => l < usize::MAX,
                None => self.current_line_int() < usize::MAX,
            }
            &&& match self.match_line_after_step_for(query, forward) {
                Some(l) => self.can_centre(l, false),
                None => true,
            }
        }
    }

    /// Whether `post` is this editor moved to the next match (`n`) and
    /// centred on it, which the tutorial counts; unchanged for an empty
    /// query.
    pub open spec fn went_to_next_match(self, forward: bool, post: Editor) -> bool {
        if self.editor_state.search_query@.len() == 0 {
            post == self
        } else {
            exists|found: Editor, centred: Editor|
                #[trigger] self.next_match_found(forward, found) && #[trigger] found.centred_on_match(
                    centred,
                ) && post == (if self.tutorial.active {
                    Editor {
                        tutorial: TutorialState { search_navigated: true, ..centred.tutorial },
                        ..centred
                    }
                } else {
                    centred
                })
        }
    }

    /// Whether `post` is this editor in visual `mode` with a selection
    /// started at the cursor.
    pub open spec fn visual_started(self, mode: EditorMode, post: Editor) -> bool {
        let moded = Editor {
            buffers: post.buffers,
            editor_state: EditorState { mode, ..self.editor_state },
            ..self
        };
        exists|m: Editor|
            #[trigger] m.selecting(
                Some((self.cursor_line(), self.cursor_x)),
                Some((self.cursor_line(), self.cursor_x)),
                post,
            ) && m.buffers@ == (if self.active_buffer < self.buffers@.len() {
                self.buffers@.update(
                    self.active_buffer as int,
                    BufferState { mode, ..self.buffers@[self.active_buffer as int] },
                )
            } else {
                self.buffers@
            }) && m == (Editor { buffers: m.buffers, ..moded })
    }
}

impl Editor {
    /// Moves to the next match (see `went_to_next_match`).
    fn next_match_key(&mut self, forward: bool)
        requires
            old(self).can_centre_matches(forward),
        ensures
            old(self).went_to_next_match(forward, *final(self)),
    {
        if self.editor_state.search_query.as_str().unicode_len() == 0 {
            return ;
        }
        let ghost pre = *self;
        self.step_to_next_match(forward);
        let ghost centred = *self;
        if self.tutorial.active {
            self.tutorial.search_navigated = true;
        }
        let ghost found = choose|f: Editor|
            #[trigger] pre.next_match_found(forward, f) && f.centred_on_match(centred);
        assert(pre.next_match_found(forward, found) && found.centred_on_match(centred));
    }

    /// Moves to the next match for a non-empty query and centres the view
    /// on it.
    fn step_to_next_match(&mut self, forward: bool)
        requires
            old(self).editor_state.search_query@.len() > 0,
            old(self).can_centre_matches(forward),
        ensures
            exists|found: Editor|
                #[trigger] old(self).next_match_found(forward, found) && found.centred_on_match(
                    *final(self),
                ),
    {
        let ghost pre = *self;
        self.find_next_match(forward);
        let ghost found = *self;
        proof {
            crate::search::lemma_other_lines_hit_bound(
                strings_view(pre.lines@),
                spec_to_lowercase(pre.editor_state.search_query@),
                spec_to_lowercase(pre.editor_state.search_query@).len(),
                match pre.editor_state.current_match {
                    Some((l, _, _)) => l as nat,
                    None => pre.current_line_int() as nat,
                },
                forward,
                true,
            );
        }
        self.center_on_match();
        assert(pre.next_match_found(forward, found) && found.centred_on_match(*self));
    }

    /// Whether this editor is `from` with the search query set to `query`
    /// and the search direction to `forward`.
    pub open spec fn query_set(self, from: Editor, query: Seq<char>, forward: bool) -> bool {
        &&& self.editor_state.search_query@ == query
        &&& self == (Editor {
            editor_state: EditorState {
                search_query: self.editor_state.search_query,
                search_direction: forward,
                ..from.editor_state
            },
            ..from
        })
    }

    /// Whether searching for the word under the cursor can be done (see
    /// `can_centre_matches_for`).
    pub open spec fn can_search_word(self, forward: bool) -> bool {
        self.word_at_cursor() matches Some(w) ==> self.can_centre_matches_for(w, forward)
    }

    /// Whether `post` is this editor searching for the word under the
    /// cursor (see `word_at_cursor`), forward for `*` and backward for `#`:
    /// the word becomes the search query and `forward` the search
    /// direction, then the editor moves to the next match and centres the
    /// view on it (see `next_match_found` and `centred_on_match`). Without
    /// a word nothing changes.
    pub open spec fn word_searched(self, forward: bool, post: Editor) -> bool {
        match self.word_at_cursor() {
            None => post == self,
            Some(w) => exists|q: Editor, found: Editor|
                #[trigger] q.query_set(self, w, forward) && #[trigger] q.next_match_found(
                    forward,
                    found,
                ) && found.centred_on_match(post),
        }
    }

    /// Searches for the word under the cursor (see `word_searched`).
    fn search_word_key(&mut self, forward: bool)
        requires
            old(self).can_search_word(forward),
        ensures
            old(self).word_searched(forward, *final(self)),
    {
        match self.get_word_under_cursor() {
            Some(word) => {
                let ghost pre = *self;
                self.editor_state.search_query = word;
                self.editor_state.search_direction = forward;
                let ghost q = *self;
                self.step_to_next_match(forward);
                let ghost found = choose|f: Editor|
                    #[trigger] q.next_match_found(forward, f) && f.centred_on_match(*self);
                assert(q.query_set(pre, pre.word_at_cursor().unwrap(), forward)
                    && q.next_match_found(forward, found) && found.centred_on_match(*self));
            },
            None => {},
        }
    }

    /// Enters visual `mode` with a selection at the cursor.
    fn start_visual(&mut self, mode: EditorMode)
        ensures
            old(self).visual_started(mode, *final(self)),
    {
        self.set_active_mode(mode);
        let ghost m = *self;
        self.start_selection();
        assert(m.selecting(
            Some((old(self).cursor_line(), old(self).cursor_x)),
            Some((old(self).cursor_line(), old(self).cursor_x)),
            *self,
        ));
    }

    /// Whether `r` and `post` are what `handle_search_visual_keys` gives for
    /// `key` and the key after it.
    pub open spec fn search_visual_key_done(self, key: Key, next: Option<Key>, r: Option<bool>, post: Editor) -> bool {
        let pending = self.editor_state.operator_pending;
        let cleared = Editor {
            editor_state: EditorState { operator_pending: None, ..self.editor_state },
            ..self
        };
        &&& (key.code == KeyCode::Char('/') ==> r == Some(false) && self.search_started(
                    true,
                    post,
                ))
        &&& (key.code == KeyCode::Char('?') ==> r == Some(false) && self.search_started(
                    false,
                    post,
                ))
        &&& (key.code == KeyCode::Char('n') ==> r == Some(false) && self.went_to_next_match(
                    self.editor_state.search_direction,
                    post,
                ))
        &&& (key.code == KeyCode::Char('N') ==> r == Some(false) && self.went_to_next_match(
                    !self.editor_state.search_direction,
                    post,
                ))
        &&& (key.code == KeyCode::Char('v') ==> r == Some(false) && self.visual_started(
                    EditorMode::VisualChar,
                    post,
                ))
        &&& (key.code == KeyCode::Char('V') ==> r == Some(false) && self.visual_started(
                    EditorMode::VisualLine,
                    post,
                ))
        &&& (key.code == KeyCode::Char('y') ==> r == Some(false) && post == (if pending == Some('y') {
                    cleared
                } else if key.shift && !key.ctrl && !key.alt {
                    self
                } else {
                    Editor {
                        editor_state: EditorState { operator_pending: Some('y'), ..self.editor_state },
                        ..self
                    }
                }))
        &&& (key.code == KeyCode::Char('*') ==> r == Some(false) && self.word_searched(true, post))
        &&& (key.code == KeyCode::Char('#') ==> r == Some(false) && self.word_searched(false, post))
        &&& (key.code == KeyCode::Char('i') ==> r == Some(false) && if pending == Some('v') {
                    match next {
                        None => post == self,
                        Some(k) => if k.code == KeyCode::Char('w') || k.code == KeyCode::Char('W') {
                            let big = k.code == KeyCode::Char('W');
                            exists|m: Editor|
                                #[trigger] self.inner_word_selected(big, m)
                                    && post == (Editor {
                                    editor_state: EditorState { operator_pending: None, ..m.editor_state },
                                    ..m
                                })
                        } else {
                            post == cleared
                        },
                    }
                } else {
                    post == self
                })
        &&& (!search_visual_key(key) ==> r is None && post == self)
    }

    /// Search and visual keys in normal mode, giving `Some(false)` (see
    /// `search_visual_key_done`): `/` and `?` start a forward and a backward
    /// search, `n` and `N` move to the next match in the search's direction
    /// and against it, `v` and `V` start a character and a line selection;
    /// `y` starts a yank (a second `y` ends it, and Shift-`y` is taken), `*`
    /// and `#` search forward and backward for the word under the cursor,
    /// and `i` after a pending `v` selects the inner word (`w`, `W`) given
    /// as `next` or ends the pending `v`. Other keys give `None` and change
    /// nothing. The yanks themselves are not part of this library.
    pub fn handle_search_visual_keys(&mut self, key: Key, next: Option<Key>) -> (r: Option<bool>)
        requires
            key.code == KeyCode::Char('n') ==> old(self).can_centre_matches(old(self).editor_state.search_direction),
            key.code == KeyCode::Char('N') ==> old(self).can_centre_matches(!old(self).editor_state.search_direction),
            key.code == KeyCode::Char('*') ==> old(self).can_search_word(true),
            key.code == KeyCode::Char('#') ==> old(self).can_search_word(false),
        ensures
            old(self).search_visual_key_done(key, next, r, *final(self)),
    {
        if key.code == KeyCode::Char('/') {
            self.start_search(true);
            Some(false)
        } else if key.code == KeyCode::Char('?') {
            self.start_search(false);
            Some(false)
        } else if key.code == KeyCode::Char('n') {
            let d = self.editor_state.search_direction;
            self.next_match_key(d);
            Some(false)
        } else if key.code == KeyCode::Char('N') {
            let d = self.editor_state.search_direction;
            self.next_match_key(!d);
            Some(false)
        } else if key.code == KeyCode::Char('v') {
            self.start_visual(EditorMode::VisualChar);
            Some(false)
        } else if key.code == KeyCode::Char('V') {
            self.start_visual(EditorMode::VisualLine);
            Some(false)
        } else if key.code == KeyCode::Char('y') {
            if self.editor_state.operator_pending == Some('y') {
                self.editor_state.operator_pending = None;
            } else if !(key.shift && !key.ctrl && !key.alt) {
                self.editor_state.operator_pending = Some('y');
            }
            Some(false)
        } else if key.code == KeyCode::Char('*') || key.code == KeyCode::Char('#') {
            self.search_word_key(key.code == KeyCode::Char('*'));
            Some(false)
        } else if key.code == KeyCode::Char('i') {
            if self.editor_state.operator_pending == Some('v') {
                match next {
                    Some(k) => {
                        if k.code == KeyCode::Char('w') || k.code == KeyCode::Char('W') {
                            self.select_inner_word(k.code == KeyCode::Char('W'));
                            let ghost m = *self;
                            self.editor_state.operator_pending = None;
                            assert(old(self).inner_word_selected(k.code == KeyCode::Char('W'), m));
                        } else {
                            self.editor_state.operator_pending = None;
                        }
                    },
                    None => {},
                }
            }
            Some(false)
        } else {
            None
        }
    }

    /// The line `G` goes to with the count `prefix`: the count's line
    /// (counting from 1, with 0 as 1) kept inside the document, the last
    /// line without a count; none for a count that is not a number.
    pub open spec fn g_target(self, prefix: Seq<char>) -> Option<usize> {
        if prefix.len() == 0 {
            Some(self.last_line())
        } else {
            match parse_usize_spec(prefix) {
                Some(n) => {
                    let t = if n > 0 {
                        (n - 1) as usize
                    } else {
                        0usize
                    };
                    Some(
                        if t <= self.last_line() {
                            t
                        } else {
                            self.last_line()
                        },
                    )
                },
                None => None,
            }
        }
    }

    /// Whether `r` and `post` are what `handle_jump_keys` gives for `key` and the key after it.
    pub open spec fn jump_key_done(self, key: Key, next: Option<Key>, r: Option<bool>, post: Editor) -> bool {
        &&& (key.code == KeyCode::Char('g') ==> match next {
                    None => r is None && post == self,
                    Some(k) => r == Some(false) && (if k.code == KeyCode::Char('g') {
                        self.went_to_line(0, post)
                    } else if k.code == KeyCode::Char('v') {
                        self.visual_restored(post)
                    } else {
                        post == self
                    }),
                })
        &&& (key.code == KeyCode::Char('G') ==> r == Some(false) && if self.nav.number_prefix@.len() == 0 {
                    self.went_to_line(self.last_line(), post)
                } else {
                    let cleared = Editor {
                        nav: NavState { number_prefix: post.nav.number_prefix, ..self.nav },
                        ..self
                    };
                    &&& post.nav.number_prefix@.len() == 0
                    &&& match self.g_target(self.nav.number_prefix@) {
                        Some(t) => post.nav == cleared.nav && self.went_to_line(t, self.with_nav_of(post)),
                        None => post == cleared,
                    }
                })
        &&& (key.code == KeyCode::Char('0') ==> r == Some(false) && post == (Editor {
                    cursor_x: 0,
                    ..self
                }))
        &&& (key.code == KeyCode::Char('$') ==> r == Some(false) && ({
                    let l = self.current_line();
                    post == (if l < self.lines@.len() {
                        Editor {
                            cursor_x: if self.lines@[l]@.len() > 0 {
                                (self.lines@[l]@.len() - 1) as usize
                            } else {
                                0
                            },
                            ..self
                        }
                    } else {
                        self
                    })
                }))
        &&& (key.code == KeyCode::Char('^') ==> r == Some(false) && ({
                    let l = self.current_line();
                    post == (if l < self.lines@.len() {
                        Editor { cursor_x: first_non_ws(self.lines@[l]@) as usize, ..self }
                    } else {
                        self
                    })
                }))
        &&& (!(key.code == KeyCode::Char('g') || key.code == KeyCode::Char('G') || key.code
                    == KeyCode::Char('0') || key.code == KeyCode::Char('$') || key.code == KeyCode::Char(
                    '^',
                )) ==> r is None && post == self)
    }

    /// Jump keys in normal mode, giving `Some(false)`:
    /// - `g` followed by `next`: `gg` goes to the first line, `gv`
    ///   restores the last selection, anything else does nothing; without a
    ///   following key this gives `None` and changes nothing;
    /// - `G` goes to the line of the count, or the last line (see
    ///   `g_target`), and clears the count;
    /// - `0` goes to the first column; `$` to the last character and `^`
    ///   to the first non-blank character of the cursor's line, if there is
    ///   one.
    /// Other keys give `None` and change nothing.
    pub fn handle_jump_keys(&mut self, key: Key, next: Option<Key>) -> (r: Option<bool>)
        ensures
            old(self).jump_key_done(key, next, r, *final(self)),
    {
        if key.code == KeyCode::Char('g') {
            match next {
                None => None,
                Some(k) => {
                    if k.code == KeyCode::Char('g') {
                        self.goto_line_with_overscroll(0);
                    } else if k.code == KeyCode::Char('v') {
                        self.restore_visual_selection();
                    }
                    Some(false)
                },
            }
        } else if key.code == KeyCode::Char('G') {
            if self.nav.number_prefix.as_str().unicode_len() == 0 {
                let last = if self.total_lines >= 1 {
                    self.total_lines - 1
                } else {
                    0
                };
                self.goto_line_with_overscroll(last);
            } else {
                let digits = chars_of(self.nav.number_prefix.as_str());
                let parsed = parse_usize(digits.as_slice());
                let ghost pre = *self;
                self.nav.number_prefix = String::new();
                let ghost cleared = *self;
                match parsed {
                    Some(n) => {
                        let t = if n > 0 {
                            n - 1
                        } else {
                            0
                        };
                        let last = if self.total_lines >= 1 {
                            self.total_lines - 1
                        } else {
                            0
                        };
                        let t = if t <= last {
                            t
                        } else {
                            last
                        };
                        self.goto_line_with_overscroll(t);
                        assert(cleared.went_to_line(t, *self));
                        assert(pre.went_to_line(t, pre.with_nav_of(*self)));
                    },
                    None => {},
                }
            }
            Some(false)
        } else if key.code == KeyCode::Char('0') {
            self.cursor_x = 0;
            Some(false)
        } else if key.code == KeyCode::Char('$') {
            let n = self.lines.len();
            if self.offset < n && self.cursor_y < n - self.offset {
                let idx = self.offset + self.cursor_y;
                let len = self.lines[idx].as_str().unicode_len();
                self.cursor_x = if len > 0 {
                    len - 1
                } else {
                    0
                };
            }
            Some(false)
        } else if key.code == KeyCode::Char('^') {
            let n = self.lines.len();
            if self.offset < n && self.cursor_y < n - self.offset {
                let idx = self.offset + self.cursor_y;
                self.cursor_x = crate::movement::first_non_ws_index(self.lines[idx].as_str());
            }
            Some(false)
        } else {
            None
        }
    }

    /// This editor with the navigation memory of `other`.
    pub open spec fn with_nav_of(self, other: Editor) -> Editor {
        Editor { nav: self.nav, ..other }
    }

    /// Whether `r` and `post` are what `handle_text_object_keys` gives for `key`.
    pub open spec fn text_object_key_done(self, key: Key, r: Option<bool>, post: Editor) -> bool {
        &&& (({
                    let ls = strings_view(self.lines@);
                    let l = self.cursor_line() as nat;
                    let x = self.cursor_x;
                    let target: Option<(nat, nat)> = if key.code == KeyCode::Char('{') {
                        Some(paragraph_boundary(ls, l, false))
                    } else if key.code == KeyCode::Char('}') {
                        Some(paragraph_boundary(ls, l, true))
                    } else if key.code == KeyCode::Char('(') {
                        Some(prev_sentence_from(ls, l, (if x >= 1 {
                            x - 1
                        } else {
                            0
                        }) as nat))
                    } else if key.code == KeyCode::Char(')') {
                        Some(next_sentence_from(ls, l, (x + 1) as nat))
                    } else {
                        None
                    };
                    if key.code == KeyCode::Char('H') || key.code == KeyCode::Char('M') || key.code
                        == KeyCode::Char('L') {
                        r == Some(false) && exists|t: (usize, usize)|
                            #[trigger] self.moved_to(t.0, t.1, post) && t == self.screen_position_spec(
                                match key.code {
                                    KeyCode::Char(c) => c,
                                    _ => ' ',
                                },
                            )
                    } else {
                        match target {
                            Some(p) => r == Some(false) && exists|t: (usize, usize)|
                                #[trigger] self.moved_to(t.0, t.1, post) && as_nats(t) == p,
                            None => r is None && post == self,
                        }
                    }
                }))
    }

    /// Text-object motions in normal mode, giving `Some(false)`: `{` and `}`
    /// move to the previous and next paragraph, `(` and `)` to the previous
    /// and next sentence, `H`, `M` and `L` to the top, middle and bottom of
    /// the screen, each as `move_to_position` does. Other keys give `None`
    /// and change nothing. Moving back a sentence needs a line.
    pub fn handle_text_object_keys(&mut self, key: Key) -> (r: Option<bool>)
        requires
            key.code == KeyCode::Char('(') ==> old(self).lines@.len() > 0,
            key.code == KeyCode::Char(')') ==> old(self).cursor_x < usize::MAX,
        ensures
            old(self).text_object_key_done(key, r, *final(self)),
    {
        let target = if key.code == KeyCode::Char('{') {
            Some(self.find_paragraph_boundary(false))
        } else if key.code == KeyCode::Char('}') {
            Some(self.find_paragraph_boundary(true))
        } else if key.code == KeyCode::Char('(') {
            Some(self.find_sentence_boundary(false))
        } else if key.code == KeyCode::Char(')') {
            Some(self.find_sentence_boundary(true))
        } else if key.code == KeyCode::Char('H') {
            Some(self.get_screen_position('H'))
        } else if key.code == KeyCode::Char('M') {
            Some(self.get_screen_position('M'))
        } else if key.code == KeyCode::Char('L') {
            Some(self.get_screen_position('L'))
        } else {
            None
        };
        match target {
            Some((line, col)) => {
                self.move_to_position(line, col);
                assert(old(self).moved_to((line, col).0, (line, col).1, *self));
                Some(false)
            },
            None => None,
        }
    }

    /// Whether `r` and `post` are what `handle_mark_keys` gives for `key` and the key after it.
    pub open spec fn mark_key_done(self, key: Key, next: Option<Key>, r: (Option<bool>, bool), post: Editor) -> bool {
        &&& (key.code == KeyCode::Char('m') ==> match next {
                    None => r == (None::<bool>, false) && post == self,
                    Some(k) => r.0 == Some(false) && match k.code {
                        KeyCode::Char(c) => {
                            &&& r.1 == ('a' <= c <= 'z')
                            &&& (r.1 ==> post.nav.marks@ == crate::bookmarks::marks_with(
                                self.nav.marks@,
                                c,
                                (self.cursor_line(), self.cursor_x),
                            ) && post == (Editor {
                                nav: NavState { marks: post.nav.marks, ..self.nav },
                                ..self
                            }))
                            &&& (!r.1 ==> post == self)
                        },
                        _ => !r.1 && post == self,
                    },
                })
        &&& (key.code == KeyCode::Char('\'') ==> !r.1 && match next {
                    None => r.0 is None && post == self,
                    Some(k) => r.0 == Some(false) && match k.code {
                        KeyCode::Char(c) => match self.jump_target(c) {
                            Some((l, col)) => exists|moved: Editor|
                                #[trigger] self.left_for_jump().moved_to(l, col, moved) && post == moved.after_jump(c, self.tutorial.active),
                            None => post == self,
                        },
                        _ => post == self,
                    },
                })
        &&& (!(key.code == KeyCode::Char('m') || key.code == KeyCode::Char('\'')) ==> r == (
                None::<bool>, false) && post == self)
    }

    /// Mark keys in normal mode: `m` followed by a lowercase letter puts
    /// that mark at the cursor (the second result then asks for the marks
    /// to be saved), `'` followed by `'` or a lowercase letter jumps back or
    /// to the mark (see `jump_to_mark`); both give `Some(false)`. Without a
    /// following key, and for other keys, the result is `None` and nothing
    /// changes.
    pub fn handle_mark_keys(&mut self, key: Key, next: Option<Key>) -> (r: (Option<bool>, bool))
        ensures
            old(self).mark_key_done(key, next, r, *final(self)),
    {
        if key.code == KeyCode::Char('m') {
            match next {
                None => (None, false),
                Some(k) => match k.code {
                    KeyCode::Char(c) => {
                        let changed = self.set_mark_at_cursor(c);
                        (Some(false), changed)
                    },
                    _ => (Some(false), false),
                },
            }
        } else if key.code == KeyCode::Char('\'') {
            match next {
                None => (None, false),
                Some(k) => {
                    match k.code {
                        KeyCode::Char(c) => {
                            self.jump_to_mark(c);
                        },
                        _ => {},
                    }
                    (Some(false), false)
                },
            }
        } else {
            (None, false)
        }
    }
}

} // verus!
