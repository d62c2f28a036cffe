//! The decisions of the reader's main loop: when to centre the cursor
//! before drawing, where the text column starts, how long to wait for a
//! key, what a resize does, when a demo hint runs out and when the reading
//! position is to be saved. Drawing, waiting for keys and saving are the
//! caller's.

use vstd::prelude::*;
use crate::core_types::EditorMode;
use crate::editor::{DemoState, Editor, RenderState};
use crate::movement::centered_position;

verus! {

impl Editor {
    /// This editor with the cursor's line centred, blank rows allowed past
    /// either end, as `center_cursor` leaves it.
    pub open spec fn recentred(self) -> Editor {
        let l = if self.current_line() <= self.last_line() {
            self.current_line() as usize
        } else {
            self.last_line()
        };
        let (o, y) = centered_position(l, self.total_lines, self.content_height(), true);
        Editor {
            offset: o,
            cursor_y: y,
            render: RenderState { needs_redraw: true, ..self.render },
            ..self
        }
    }

    /// The blank columns left of the text column: half the screen less
    /// half the column width.
    pub fn center_offset(&self) -> (r: usize)
        ensures
            r == (if self.width > self.settings.col {
                (self.width / 2 - self.settings.col / 2) as usize
            } else {
                0
            }),
    {
        if self.width > self.settings.col {
            (self.width / 2) - self.settings.col / 2
        } else {
            0
        }
    }

    /// Whether the cursor is centred before a draw: not on the first draw
    /// when the saved position is to be kept, and not when only a command
    /// or search line was opened without the cursor moving.
    pub fn should_center_before_draw(&self, first_iteration: bool, skip_first_center: bool) -> (r:
        bool)
        ensures
            r == (!(first_iteration && skip_first_center) && !((self.editor_state.mode
                == EditorMode::Command || self.editor_state.mode == EditorMode::Search
                || self.editor_state.mode == EditorMode::ReverseSearch)
                && !self.render.cursor_moved)),
    {
        let should_skip_center = first_iteration && skip_first_center;
        let is_mode_change_only = (self.editor_state.mode == EditorMode::Command
            || self.editor_state.mode == EditorMode::Search || self.editor_state.mode
            == EditorMode::ReverseSearch) && !self.render.cursor_moved;
        !should_skip_center && !is_mode_change_only
    }

    /// How long to wait for a key, in milliseconds: briefly while a redraw
    /// is pending or a demo plays, longer when idle.
    pub fn poll_timeout_millis(&self) -> (r: u64)
        ensures
            r == (if self.render.needs_redraw || self.tutorial.demo_mode {
                16u64
            } else {
                250u64
            }),
    {
        if self.render.needs_redraw {
            16
        } else if self.tutorial.demo_mode {
            16
        } else {
            250
        }
    }

    /// Takes the demo hint down once `now` is past its time; a redraw is
    /// asked for only when a hint was shown.
    pub fn expire_demo_hint(&mut self, now: u64)
        ensures
            match old(self).demo.hint_until {
                Some(until) => if now > until {
                    if old(self).demo.hint_text is Some {
                        *final(self) == (Editor {
                            demo: DemoState { hint_text: None, hint_until: None, ..old(self).demo },
                            render: RenderState { needs_redraw: true, ..old(self).render },
                            ..*old(self)
                        })
                    } else {
                        *final(self) == (Editor {
                            demo: DemoState { hint_until: None, ..old(self).demo },
                            ..*old(self)
                        })
                    }
                } else {
                    *final(self) == *old(self)
                },
                None => *final(self) == *old(self),
            },
    {
        if let Some(until) = self.demo.hint_until {
            if now > until {
                if self.demo.hint_text.is_some() {
                    self.demo.hint_text = None;
                    self.demo.hint_until = None;
                    self.mark_dirty();
                } else {
                    self.demo.hint_until = None;
                }
            }
        }
    }

    /// Takes a new terminal size; once the first screen was drawn the
    /// cursor is centred again (see `recentred`); the screen is cleared and
    /// redrawn.
    pub fn handle_resize(&mut self, width: usize, height: usize)
        requires
            old(self).current_line() <= usize::MAX,
        ensures
            ({
                let sized = Editor { width, height, ..*old(self) };
                let placed = if old(self).render.initial_setup_complete {
                    sized.recentred()
                } else {
                    sized
                };
                *final(self) == (Editor {
                    render: RenderState { force_clear: true, needs_redraw: true, ..placed.render },
                    ..placed
                })
            }),
    {
        self.width = width;
        self.height = height;
        if self.render.initial_setup_complete {
            self.center_cursor();
        }
        self.render.force_clear = true;
        self.mark_dirty();
    }

    /// The reading position to save, when it changed since it was last
    /// saved: `(line, offset, cursor row)`, with the line the offset plus
    /// the cursor row; it is recorded as saved.
    pub fn progress_to_save(&mut self) -> (r: Option<(usize, usize, usize)>)
        requires
            old(self).offset + old(self).cursor_y <= usize::MAX,
        ensures
            ({
                let line = (old(self).offset + old(self).cursor_y) as usize;
                if line != old(self).render.last_offset || old(self).offset
                    != old(self).render.last_saved_viewport_offset {
                    &&& r == Some((line, old(self).offset, old(self).cursor_y))
                    &&& *final(self) == (Editor {
                        render: RenderState {
                            last_offset: line,
                            last_saved_viewport_offset: old(self).offset,
                            ..old(self).render
                        },
                        ..*old(self)
                    })
                } else {
                    r is None && *final(self) == *old(self)
                }
            }),
    {
        let current_line = self.offset + self.cursor_y;
        if current_line != self.render.last_offset || self.offset
            != self.render.last_saved_viewport_offset {
            self.render.last_offset = current_line;
            self.render.last_saved_viewport_offset = self.offset;
            Some((current_line, self.offset, self.cursor_y))
        } else {
            None
        }
    }
}

} // verus!
