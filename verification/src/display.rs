//! What the status line says and where the cursor is drawn. Drawing it on
//! the terminal is the program's business.

use vstd::prelude::*;
use crate::core_types::{EditorMode, ViewMode};
use crate::editor::{Editor, sat_sub};
use crate::split::split_top;
use crate::text::{decimal, push_char, push_str, string_of, usize_to_decimal};

verus! {

/// How the terminal cursor is drawn.
#[derive(Clone, Copy, Debug, PartialEq, Eq, Structural)]
pub enum CursorShape {
    BlinkingBlock,
    SteadyBlock,
    BlinkingBar,
    /// Shown with the terminal's own shape.
    Plain,
}

/// Where and how the terminal cursor is drawn, if at all.
#[derive(Clone, Copy, Debug, PartialEq, Eq, Structural)]
pub enum CursorPlacement {
    Hidden,
    /// Not placed: left where it is.
    Unchanged,
    At { column: usize, row: usize, shape: CursorShape },
}

impl Editor {
    /// The text at the start of the status line: the command line after
    /// `:`, `/` or `?` while one is typed, the name of a visual or the
    /// tutorial mode, nothing in normal mode.
    pub open spec fn mode_indicator_text(self) -> Seq<char> {
        let cmd = if self.active_buffer < self.buffers@.len() {
            self.buffers@[self.active_buffer as int].command_buffer@
        } else {
            self.editor_state.command_buffer@
        };
        match self.active_mode() {
            EditorMode::Command | EditorMode::CommandExecution => seq![':'] + cmd,
            EditorMode::Search => seq!['/'] + cmd,
            EditorMode::ReverseSearch => seq!['?'] + cmd,
            EditorMode::VisualChar => "-- VISUAL --"@,
            EditorMode::VisualLine => "-- VISUAL LINE --"@,
            EditorMode::Tutorial => "-- TUTORIAL --"@,
            EditorMode::Normal => seq![],
        }
    }

    /// The position shown at the end of the status line: in an overlay its
    /// command, then `line: column (line/total)`, counting from 1.
    pub open spec fn position_info_text(self) -> Seq<char> {
        let line = self.offset + self.cursor_y + 1;
        let overlay = if self.view_mode == ViewMode::Overlay {
            if self.buffers@.len() > 1 {
                match self.buffers@[1].command {
                    Some(c) => " [Overlay: "@ + c@ + "]  "@,
                    None => " [Overlay]  "@,
                }
            } else {
                seq![]
            }
        } else {
            seq![]
        };
        overlay + decimal(line as nat) + ": "@ + decimal((self.cursor_x + 1) as nat) + " ("@ + decimal(
            line as nat,
        ) + "/"@ + decimal(self.total_lines as nat) + ")"@
    }

    /// Whether the reading progress is shown: it is turned on, the view is
    /// the document alone, and no demo is playing.
    pub open spec fn progress_shown(self) -> bool {
        self.settings.show_progress && self.view_mode == ViewMode::Normal && !self.tutorial.demo_mode
    }

    /// Where the cursor is drawn with the text shifted right by
    /// `center_offset`: hidden when the cursor is turned off; on the text
    /// in normal and visual modes (below the top pane and its separator in
    /// a split's bottom pane); after the prompt on the last row while a
    /// command or search is typed; not placed in the tutorial mode.
    pub open spec fn cursor_placement(self, center_offset: usize) -> CursorPlacement {
        let mode = self.active_mode();
        if !self.settings.show_cursor {
            CursorPlacement::Hidden
        } else if mode == EditorMode::Normal || mode == EditorMode::VisualChar || mode
            == EditorMode::VisualLine {
            let row = if self.view_mode == ViewMode::HorizontalSplit && self.active_pane != 0 {
                split_top(self.height, self.settings.split_ratio_percent) + 1 + self.cursor_y
            } else {
                self.cursor_y as int
            };
            CursorPlacement::At {
                column: (center_offset + self.cursor_x) as usize,
                row: row as usize,
                shape: if mode == EditorMode::Normal {
                    CursorShape::BlinkingBlock
                } else {
                    CursorShape::SteadyBlock
                },
            }
        } else if mode == EditorMode::Tutorial {
            CursorPlacement::Unchanged
        } else {
            let pos = if self.active_buffer < self.buffers@.len() {
                self.buffers@[self.active_buffer as int].command_cursor_pos
            } else {
                self.editor_state.command_cursor_pos
            };
            CursorPlacement::At {
                column: (1 + pos) as usize,
                row: sat_sub(self.height, 1),
                shape: CursorShape::BlinkingBar,
            }
        }
    }
}

impl Editor {
    /// The text at the start of the status line (see
    /// `mode_indicator_text`).
    pub fn mode_indicator(&self) -> (r: String)
        ensures
            r@ == self.mode_indicator_text(),
    {
        let cmd = self.get_active_command_buffer();
        match self.get_active_mode() {
            EditorMode::Command | EditorMode::CommandExecution => {
                let mut r = string_of(":");
                push_str(&mut r, cmd);
                proof {
                    reveal_strlit(":");
                }
                r
            },
            EditorMode::Search => {
                let mut r = String::new();
                push_char(&mut r, '/');
                push_str(&mut r, cmd);
                r
            },
            EditorMode::ReverseSearch => {
                let mut r = String::new();
                push_char(&mut r, '?');
                push_str(&mut r, cmd);
                r
            },
            EditorMode::VisualChar => string_of("-- VISUAL --"),
            EditorMode::VisualLine => string_of("-- VISUAL LINE --"),
            EditorMode::Tutorial => string_of("-- TUTORIAL --"),
            EditorMode::Normal => String::new(),
        }
    }

    /// The position shown at the end of the status line (see
    /// `position_info_text`).
    pub fn position_info(&self) -> (r: String)
        requires
            self.offset + self.cursor_y + 1 <= usize::MAX,
            self.cursor_x + 1 <= usize::MAX,
        ensures
            r@ == self.position_info_text(),
    {
        let line = self.offset + self.cursor_y + 1;
        let mut r = String::new();
        if self.view_mode == ViewMode::Overlay && self.buffers.len() > 1 {
            match &self.buffers[1].command {
                Some(c) => {
                    push_str(&mut r, " [Overlay: ");
                    push_str(&mut r, c.as_str());
                    push_str(&mut r, "]  ");
                },
                None => push_str(&mut r, " [Overlay]  "),
            }
        }
        let l = usize_to_decimal(line);
        push_str(&mut r, l.as_str());
        push_str(&mut r, ": ");
        let x = usize_to_decimal(self.cursor_x + 1);
        push_str(&mut r, x.as_str());
        push_str(&mut r, " (");
        push_str(&mut r, l.as_str());
        push_str(&mut r, "/");
        let t = usize_to_decimal(self.total_lines);
        push_str(&mut r, t.as_str());
        push_str(&mut r, ")");
        r
    }

    /// Whether the reading progress is shown (see `progress_shown`).
    pub fn shows_progress(&self) -> (r: bool)
        ensures
            r == self.progress_shown(),
    {
        self.settings.show_progress && self.view_mode == ViewMode::Normal && !self.tutorial.demo_mode
    }

    /// Where the cursor is drawn (see `cursor_placement`).
    pub fn cursor_position_for_display(&self, center_offset: usize) -> (r: CursorPlacement)
        requires
            center_offset + self.cursor_x <= usize::MAX,
            self.height + self.cursor_y + 1 <= usize::MAX,
            self.editor_state.command_cursor_pos < usize::MAX,
            self.active_buffer < self.buffers@.len() ==> self.buffers@[self.active_buffer as int].command_cursor_pos
                < usize::MAX,
        ensures
            r == self.cursor_placement(center_offset),
    {
        let mode = self.get_active_mode();
        if !self.settings.show_cursor {
            CursorPlacement::Hidden
        } else if mode == EditorMode::Normal || mode == EditorMode::VisualChar || mode
            == EditorMode::VisualLine {
            let row = if self.view_mode == ViewMode::HorizontalSplit && self.active_pane != 0 {
                let top = crate::split::split_top_rows(self.height, self.settings.split_ratio_percent);
                top + 1 + self.cursor_y
            } else {
                self.cursor_y
            };
            CursorPlacement::At {
                column: center_offset + self.cursor_x,
                row,
                shape: if mode == EditorMode::Normal {
                    CursorShape::BlinkingBlock
                } else {
                    CursorShape::SteadyBlock
                },
            }
        } else if mode == EditorMode::Tutorial {
            CursorPlacement::Unchanged
        } else {
            let pos = self.get_active_command_cursor_pos();
            CursorPlacement::At {
                column: 1 + pos,
                row: if self.height >= 1 {
                    self.height - 1
                } else {
                    0
                },
                shape: CursorShape::BlinkingBar,
            }
        }
    }
    /// Whether screen row `line_index` is drawn as the cursor's row: with
    /// the line highlighter on, the row the cursor is on.
    pub fn highlights_row(&self, line_index: usize) -> (r: bool)
        ensures
            r == (self.settings.show_highlighter && line_index == self.cursor_y),
    {
        self.settings.show_highlighter && line_index == self.cursor_y
    }

    /// The columns `(start, end)` of the match highlighted on screen row
    /// `line_index`: the match shown while a search is typed, else the
    /// current match, when it lies on that row.
    pub fn search_highlight_on_row(&self, line_index: usize) -> (r: Option<(usize, usize)>)
        ensures
            r == (match (if self.editor_state.search_preview_active {
                self.editor_state.search_preview_match
            } else {
                self.editor_state.current_match
            }) {
                Some((l, s, e)) => if l == self.offset + line_index {
                    Some((s, e))
                } else {
                    None
                },
                None => None,
            }),
    {
        let m = if self.editor_state.search_preview_active {
            self.editor_state.search_preview_match
        } else {
            self.editor_state.current_match
        };
        match m {
            Some((l, s, e)) => if l >= self.offset && l - self.offset == line_index {
                Some((s, e))
            } else {
                None
            },
            None => None,
        }
    }
}

} // verus!
