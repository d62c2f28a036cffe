//! The reader's editor state and its basic queries.
//!
//! The editor shows the lines of the active buffer from `offset` on, with the
//! cursor `cursor_y` rows below the top of the view and `cursor_x` characters
//! into its line. Columns count characters. The terminal, the clipboard and
//! the clock are not part of this state: the caller hands in the terminal's
//! size and does the drawing.

use vstd::prelude::*;
use crate::core_types::{BufferState, BufferView, EditorMode, EditorState, ViewMode, clone_lines};
use crate::demo_script::DemoScript;
use crate::justify::strings_view;
use crate::keys::Key;

verus! {

/// Display settings.
#[derive(Debug)]
pub struct Settings {
    /// The text column width requested on the command line.
    pub col: usize,
    pub show_highlighter: bool,
    pub show_cursor: bool,
    pub show_progress: bool,
    pub document_hash: u64,
    /// The share of the text area given to the top pane, in percent.
    pub split_ratio_percent: usize,
}

/// Navigation memory: character finds, marks, the previous position and a
/// typed count.
#[derive(Debug)]
pub struct NavState {
    pub last_find_char: Option<char>,
    pub last_find_forward: bool,
    pub last_find_till: bool,
    /// Bookmarks: a mark character and its `(line, column)`.
    pub marks: Vec<(char, (usize, usize))>,
    pub previous_position: Option<(usize, usize)>,
    pub number_prefix: String,
    pub tmux_prefix_active: bool,
}

/// What the screen needs on the next draw.
#[derive(Debug)]
pub struct RenderState {
    pub needs_redraw: bool,
    pub last_offset: usize,
    pub force_clear: bool,
    pub cursor_moved: bool,
    pub buffer_just_switched: bool,
    /// Whether the first screen was drawn.
    pub initial_setup_complete: bool,
    /// The offset saved with the reading progress last.
    pub last_saved_viewport_offset: usize,
}

/// Progress of the interactive tutorial.
#[derive(Debug)]
pub struct TutorialState {
    pub step: usize,
    pub active: bool,
    pub demo_mode: bool,
    pub search_navigated: bool,
    pub bookmark_jumped: bool,
    pub forward_search_used: bool,
    pub backward_search_used: bool,
    pub last_executed_command: Option<String>,
    pub step_completed: bool,
    /// Whether a highlight was made, which the tutorial asks for.
    pub highlight_created: bool,
}

/// A demo being played back. Times are milliseconds on the caller's
/// clock.
#[derive(Debug)]
pub struct DemoState {
    pub script: Option<DemoScript>,
    /// The step to take next.
    pub action_index: usize,
    /// When the last step was taken.
    pub last_action_time: Option<u64>,
    pub hint_text: Option<String>,
    /// Until when the hint is shown.
    pub hint_until: Option<u64>,
    /// How many characters of the text being typed are typed.
    pub typing_char_index: usize,
    /// Keys of a vim motion still to be pressed.
    pub pending_keys: Vec<Key>,
    /// When the demo started.
    pub start_time: Option<u64>,
}

/// The editor.
#[derive(Debug)]
pub struct Editor {
    /// The lines of the active buffer.
    pub lines: Vec<String>,
    /// The number of lines of the active buffer.
    pub total_lines: usize,
    pub offset: usize,
    pub cursor_x: usize,
    pub cursor_y: usize,
    pub width: usize,
    pub height: usize,
    pub editor_state: EditorState,
    /// Buffer 0 is the document; the others are overlays and split panes.
    pub buffers: Vec<BufferState>,
    pub active_buffer: usize,
    pub view_mode: ViewMode,
    /// 0 for the top pane, 1 for the bottom pane.
    pub active_pane: usize,
    pub settings: Settings,
    pub nav: NavState,
    pub render: RenderState,
    pub tutorial: TutorialState,
    pub demo: DemoState,
}

/// `a - b`, or zero when `b` is larger.
pub open spec fn sat_sub(a: usize, b: usize) -> usize {
    if a >= b {
        (a - b) as usize
    } else {
        0
    }
}

impl Editor {
    /// The number of text rows: the screen less the status line.
    pub open spec fn content_height(self) -> usize {
        sat_sub(self.height, 1)
    }

    /// The document line under the cursor, kept inside the document.
    pub open spec fn cursor_line(self) -> usize {
        let l = self.offset + self.cursor_y;
        let last = sat_sub(self.lines@.len() as usize, 1);
        if l <= last {
            l as usize
        } else {
            last
        }
    }

    /// The mode of the active buffer, or the shared mode when there is none.
    pub open spec fn active_mode(self) -> EditorMode {
        if self.active_buffer < self.buffers@.len() {
            self.buffers@[self.active_buffer as int].mode
        } else {
            self.editor_state.mode
        }
    }

    /// The height of the view in which the cursor moves: the active pane in
    /// a split, the whole text area otherwise.
    pub open spec fn effective_viewport_height(self) -> usize {
        if self.view_mode == ViewMode::HorizontalSplit && self.active_buffer < self.buffers@.len() {
            self.buffers@[self.active_buffer as int].viewport_height
        } else {
            self.content_height()
        }
    }
}

/// Sets the mode of buffer `i`.
pub fn set_buffer_mode(bs: &mut Vec<BufferState>, i: usize, mode: EditorMode)
    requires
        i < old(bs)@.len(),
    ensures
        final(bs)@ == old(bs)@.update(i as int, BufferState { mode, ..old(bs)@[i as int] }),
{
    bs[i].mode = mode;
}

impl Editor {
    /// An editor showing `lines` on a terminal of `width` by `height`, with
    /// one buffer, in normal mode, the cursor in the middle row.
    pub fn new(lines: Vec<String>, col: usize, width: usize, height: usize, document_hash: u64) -> (e:
        Self)
        ensures
            e.lines@ == lines@,
            e.buffers@.len() == 1,
            e.buffers@[0]@ == (BufferView {
                viewport_height: sat_sub(height, 1),
                ..BufferState::new_view(strings_view(lines@))
            }),
            e.editor_state@ == EditorState::new_view(),
            e.nav.marks@.len() == 0,
            e.nav.number_prefix@.len() == 0,
            e.demo.script is None,
            e.demo.hint_text is None,
            e.demo.pending_keys@.len() == 0,
            e.demo == (DemoState {
                script: e.demo.script,
                action_index: 0,
                last_action_time: None,
                hint_text: e.demo.hint_text,
                hint_until: None,
                typing_char_index: 0,
                pending_keys: e.demo.pending_keys,
                start_time: None,
            }),
            e == (Editor {
                lines: e.lines,
                total_lines: lines@.len() as usize,
                offset: 0,
                cursor_x: 0,
                cursor_y: height / 2,
                width,
                height,
                editor_state: e.editor_state,
                buffers: e.buffers,
                active_buffer: 0,
                view_mode: ViewMode::Normal,
                active_pane: 0,
                settings: Settings {
                    col,
                    show_highlighter: true,
                    show_cursor: true,
                    show_progress: false,
                    document_hash,
                    split_ratio_percent: 70,
                },
                nav: NavState {
                    last_find_char: None,
                    last_find_forward: true,
                    last_find_till: false,
                    marks: e.nav.marks,
                    previous_position: None,
                    number_prefix: e.nav.number_prefix,
                    tmux_prefix_active: false,
                },
                render: RenderState {
                    needs_redraw: true,
                    last_offset: 0,
                    force_clear: true,
                    cursor_moved: false,
                    buffer_just_switched: false,
                    initial_setup_complete: false,
                    last_saved_viewport_offset: 0,
                },
                tutorial: TutorialState {
                    step: 0,
                    active: false,
                    demo_mode: false,
                    search_navigated: false,
                    bookmark_jumped: false,
                    forward_search_used: false,
                    backward_search_used: false,
                    last_executed_command: None,
                    step_completed: false,
                    highlight_created: false,
                },
                demo: e.demo,
            }),
    {
        let total_lines = lines.len();
        let mut initial_buffer = BufferState::new(clone_lines(&lines));
        initial_buffer.viewport_height = if height >= 1 {
            height - 1
        } else {
            0
        };
        initial_buffer.viewport_start = 0;
        let mut buffers: Vec<BufferState> = Vec::new();
        buffers.push(initial_buffer);
        let e = Editor {
            lines,
            total_lines,
            offset: 0,
            cursor_x: 0,
            cursor_y: height / 2,
            width,
            height,
            editor_state: EditorState::new(),
            buffers,
            active_buffer: 0,
            view_mode: ViewMode::Normal,
            active_pane: 0,
            settings: Settings {
                col,
                show_highlighter: true,
                show_cursor: true,
                show_progress: false,
                document_hash,
                split_ratio_percent: 70,
            },
            nav: NavState {
                last_find_char: None,
                last_find_forward: true,
                last_find_till: false,
                marks: Vec::new(),
                previous_position: None,
                number_prefix: String::new(),
                tmux_prefix_active: false,
            },
            render: RenderState {
                needs_redraw: true,
                last_offset: 0,
                force_clear: true,
                cursor_moved: false,
                buffer_just_switched: false,
                initial_setup_complete: false,
                last_saved_viewport_offset: 0,
            },
            tutorial: TutorialState {
                step: 0,
                active: false,
                demo_mode: false,
                search_navigated: false,
                bookmark_jumped: false,
                forward_search_used: false,
                backward_search_used: false,
                last_executed_command: None,
                step_completed: false,
                highlight_created: false,
            },
            demo: DemoState {
                script: None,
                action_index: 0,
                last_action_time: None,
                hint_text: None,
                hint_until: None,
                typing_char_index: 0,
                pending_keys: Vec::new(),
                start_time: None,
            },
        };
        e
    }

    /// The document position `(line, column)` under the cursor; the line is
    /// kept inside the document.
    pub fn get_cursor_position(&self) -> (r: (usize, usize))
        ensures
            r == (self.cursor_line(), self.cursor_x),
    {
        let last = if self.lines.len() >= 1 {
            self.lines.len() - 1
        } else {
            0
        };
        let line_idx = if self.offset <= last && self.cursor_y <= last - self.offset {
            self.offset + self.cursor_y
        } else {
            last
        };
        (line_idx, self.cursor_x)
    }

    /// The number of text rows: the screen less the status line.
    pub fn calculate_dimensions(&self) -> (r: usize)
        ensures
            r == self.content_height(),
    {
        if self.height >= 1 {
            self.height - 1
        } else {
            0
        }
    }

    /// The mode of the active buffer.
    pub fn get_active_mode(&self) -> (m: EditorMode)
        ensures
            m == self.active_mode(),
    {
        if self.active_buffer < self.buffers.len() {
            self.buffers[self.active_buffer].mode
        } else {
            self.editor_state.mode
        }
    }

    /// Whether `post` is this editor with `mode` as the mode of the active buffer and the shared mode.
    pub open spec fn mode_set(self, mode: EditorMode, post: Editor) -> bool {
        &&& (post.buffers@ == (if self.active_buffer < self.buffers@.len() {
                    self.buffers@.update(
                        self.active_buffer as int,
                        BufferState { mode, ..self.buffers@[self.active_buffer as int] },
                    )
                } else {
                    self.buffers@
                }))
        &&& (post == (Editor {
                    buffers: post.buffers,
                    editor_state: EditorState { mode, ..self.editor_state },
                    ..self
                }))
    }

    /// Sets the mode of the active buffer and the shared mode.
    pub fn set_active_mode(&mut self, mode: EditorMode)
        ensures
            old(self).mode_set(mode, *final(self)),
    {
        let i = self.active_buffer;
        if i < self.buffers.len() {
            set_buffer_mode(&mut self.buffers, i, mode);
        }
        self.editor_state.mode = mode;
    }

    /// The command line of the active buffer.
    pub fn get_active_command_buffer(&self) -> (s: &str)
        ensures
            s@ == (if self.active_buffer < self.buffers@.len() {
                self.buffers@[self.active_buffer as int].command_buffer@
            } else {
                self.editor_state.command_buffer@
            }),
    {
        if self.active_buffer < self.buffers.len() {
            self.buffers[self.active_buffer].command_buffer.as_str()
        } else {
            self.editor_state.command_buffer.as_str()
        }
    }

    /// The cursor position within the active buffer's command line.
    pub fn get_active_command_cursor_pos(&self) -> (p: usize)
        ensures
            p == (if self.active_buffer < self.buffers@.len() {
                self.buffers@[self.active_buffer as int].command_cursor_pos
            } else {
                self.editor_state.command_cursor_pos
            }),
    {
        if self.active_buffer < self.buffers.len() {
            self.buffers[self.active_buffer].command_cursor_pos
        } else {
            self.editor_state.command_cursor_pos
        }
    }

    /// Sets the command-line cursor of the active buffer and the shared one.
    pub fn set_active_command_cursor_pos(&mut self, pos: usize)
        ensures
            final(self).buffers@ == (if old(self).active_buffer < old(self).buffers@.len() {
                old(self).buffers@.update(
                    old(self).active_buffer as int,
                    BufferState {
                        command_cursor_pos: pos,
                        ..old(self).buffers@[old(self).active_buffer as int]
                    },
                )
            } else {
                old(self).buffers@
            }),
            *final(self) == (Editor {
                buffers: final(self).buffers,
                editor_state: EditorState { command_cursor_pos: pos, ..old(self).editor_state },
                ..*old(self)
            }),
    {
        let i = self.active_buffer;
        if i < self.buffers.len() {
            self.buffers[i].command_cursor_pos = pos;
        }
        self.editor_state.command_cursor_pos = pos;
    }

    /// Marks the screen as needing a redraw.
    pub fn mark_dirty(&mut self)
        ensures
            *final(self) == (Editor {
                render: RenderState { needs_redraw: true, ..old(self).render },
                ..*old(self)
            }),
    {
        self.render.needs_redraw = true;
    }

    /// Whether a redraw is needed; clears the request.
    pub fn check_needs_redraw(&mut self) -> (needs: bool)
        ensures
            needs == old(self).render.needs_redraw,
            *final(self) == (Editor {
                render: RenderState { needs_redraw: false, ..old(self).render },
                ..*old(self)
            }),
    {
        let needs = self.render.needs_redraw;
        self.render.needs_redraw = false;
        needs
    }

    /// Whether a buffer other than the document is open.
    pub fn can_close_buffer(&self) -> (r: bool)
        ensures
            r == (self.buffers@.len() > 1),
    {
        self.buffers.len() > 1
    }

    /// Whether the view is split.
    pub fn is_in_split_view(&self) -> (r: bool)
        ensures
            r == (self.view_mode == ViewMode::HorizontalSplit),
    {
        self.view_mode == ViewMode::HorizontalSplit
    }

    /// The active buffer, if the index names one.
    pub fn get_active_buffer(&self) -> (r: Option<&BufferState>)
        ensures
            self.active_buffer < self.buffers@.len() ==> (r matches Some(b) && *b
                == self.buffers@[self.active_buffer as int]),
            self.active_buffer >= self.buffers@.len() ==> r is None,
    {
        if self.active_buffer < self.buffers.len() {
            Some(&self.buffers[self.active_buffer])
        } else {
            None
        }
    }

    /// The height of the view in which the cursor moves.
    pub fn get_effective_viewport_height(&self) -> (h: usize)
        ensures
            h == self.effective_viewport_height(),
    {
        if self.view_mode == ViewMode::HorizontalSplit && self.active_buffer < self.buffers.len() {
            self.buffers[self.active_buffer].viewport_height
        } else {
            self.calculate_dimensions()
        }
    }
}

} // verus!
