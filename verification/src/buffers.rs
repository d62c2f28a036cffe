//! Switching between buffers: saving and loading the editor's state,
//! overlays, and the horizontal split with command output.

use vstd::prelude::*;
use crate::core_types::{
    BufferState, EditorMode, EditorState, SplitPosition, ViewMode, clone_lines,
};
use crate::editor::{Editor, RenderState, sat_sub};
use crate::justify::strings_view;
use crate::text::string_of;

verus! {

/// The offset and cursor row with which a buffer is shown again: the
/// cursor row is kept inside the viewport, and when the cursor would lie
/// past the end of a non-empty document the view is moved back so that the
/// cursor sits on its last line.
pub open spec fn loaded_position(offset: usize, cursor_y: usize, vh: usize, total: usize) -> (
    usize,
    usize,
) {
    let y = if cursor_y >= vh {
        sat_sub(vh, 1)
    } else {
        cursor_y
    };
    if offset + y >= total && total > 0 {
        let o = if sat_sub(total, vh) <= offset {
            sat_sub(total, vh)
        } else {
            offset
        };
        (o, sat_sub(sat_sub(total, o), 1))
    } else {
        (offset, y)
    }
}

/// The row kept inside a viewport of height `vh`.
pub open spec fn clamped_row(cursor_y: usize, vh: usize) -> usize {
    if cursor_y >= vh {
        sat_sub(vh, 1)
    } else {
        cursor_y
    }
}

/// The lines an overlay shows: a placeholder for no lines, and
/// `INVALID_LINE` in place of any line that holds a NUL character.
pub open spec fn overlay_lines(lines: Seq<Seq<char>>) -> Seq<Seq<char>> {
    if lines.len() == 0 {
        seq!["No content available"@, "Press :q to exit"@]
    } else {
        Seq::new(
            lines.len(),
            |i: int|
                if lines[i].contains('\0') {
                    "INVALID_LINE"@
                } else {
                    lines[i]
                },
        )
    }
}

impl Editor {
    /// A buffer that takes the editor's position, search, selection, mode
    /// and command line.
    pub open spec fn stored_into(self, b: BufferState) -> BufferState {
        BufferState {
            offset: self.offset,
            cursor_x: self.cursor_x,
            cursor_y: self.cursor_y,
            search_query: self.editor_state.search_query,
            current_match: self.editor_state.current_match,
            selection_start: self.editor_state.selection_start,
            selection_end: self.editor_state.selection_end,
            mode: self.editor_state.mode,
            command_buffer: self.editor_state.command_buffer,
            command_cursor_pos: self.editor_state.command_cursor_pos,
            ..b
        }
    }

    /// The buffers once the active one has stored the editor's state.
    pub open spec fn saved_buffers(self) -> Seq<BufferState> {
        if self.active_buffer < self.buffers@.len() {
            self.buffers@.update(
                self.active_buffer as int,
                self.stored_into(self.buffers@[self.active_buffer as int]),
            )
        } else {
            self.buffers@
        }
    }

    /// The height against which a loaded buffer's cursor is checked.
    pub open spec fn load_height(self, b: BufferState) -> usize {
        if self.view_mode == ViewMode::HorizontalSplit {
            b.viewport_height
        } else {
            sat_sub(self.height, 1)
        }
    }

    /// Whether `post` is this editor after it loaded the state of `b`: the
    /// lines, position, search, selection, mode and command line.
    pub open spec fn loaded_from(self, b: BufferState, post: Editor) -> bool {
        let (o, y) = loaded_position(
            b.offset,
            b.cursor_y,
            self.load_height(b),
            b.lines@.len() as usize,
        );
        &&& post.lines@ == b.lines@
        &&& post == (Editor {
            lines: post.lines,
            total_lines: b.lines@.len() as usize,
            offset: o,
            cursor_x: b.cursor_x,
            cursor_y: y,
            editor_state: EditorState {
                search_query: b.search_query,
                current_match: b.current_match,
                selection_start: b.selection_start,
                selection_end: b.selection_end,
                mode: b.mode,
                command_buffer: b.command_buffer,
                command_cursor_pos: b.command_cursor_pos,
                ..self.editor_state
            },
            ..self
        })
    }
}

/// Stores the editor's position, search, selection and command line in
/// buffer `i`.
fn store_into(
    bs: &mut Vec<BufferState>,
    i: usize,
    offset: usize,
    cursor_x: usize,
    cursor_y: usize,
    es: &EditorState,
)
    requires
        i < old(bs)@.len(),
    ensures
        final(bs)@ == old(bs)@.update(
            i as int,
            BufferState {
                offset,
                cursor_x,
                cursor_y,
                search_query: es.search_query,
                current_match: es.current_match,
                selection_start: es.selection_start,
                selection_end: es.selection_end,
                mode: es.mode,
                command_buffer: es.command_buffer,
                command_cursor_pos: es.command_cursor_pos,
                ..old(bs)@[i as int]
            },
        ),
{
    bs[i].offset = offset;
    bs[i].cursor_x = cursor_x;
    bs[i].cursor_y = cursor_y;
    bs[i].search_query = es.search_query.clone();
    bs[i].current_match = es.current_match;
    bs[i].selection_start = es.selection_start;
    bs[i].selection_end = es.selection_end;
    bs[i].mode = es.mode;
    bs[i].command_buffer = es.command_buffer.clone();
    bs[i].command_cursor_pos = es.command_cursor_pos;
}

impl Editor {
    /// Saves the editor's position, search, selection, mode and command
    /// line into the active buffer.
    pub fn save_current_buffer_state(&mut self)
        ensures
            final(self).buffers@ == old(self).saved_buffers(),
            *final(self) == (Editor { buffers: final(self).buffers, ..*old(self) }),
    {
        let i = self.active_buffer;
        if i < self.buffers.len() {
            let offset = self.offset;
            let x = self.cursor_x;
            let y = self.cursor_y;
            store_into(&mut self.buffers, i, offset, x, y, &self.editor_state);
        }
    }

    /// Loads the state of buffer `buffer_idx` into the editor (see
    /// `loaded_from`); an index past the buffers changes nothing.
    pub fn load_buffer_state(&mut self, buffer_idx: usize)
        ensures
            buffer_idx < old(self).buffers@.len() ==> old(self).loaded_from(
                old(self).buffers@[buffer_idx as int],
                *final(self),
            ),
            buffer_idx >= old(self).buffers@.len() ==> *final(self) == *old(self),
    {
        if buffer_idx >= self.buffers.len() {
            return ;
        }
        let ghost b = self.buffers@[buffer_idx as int];
        let lines = clone_lines(&self.buffers[buffer_idx].lines);
        let total = self.buffers[buffer_idx].lines.len();
        let offset = self.buffers[buffer_idx].offset;
        let cursor_x = self.buffers[buffer_idx].cursor_x;
        let cursor_y = self.buffers[buffer_idx].cursor_y;
        let search_query = self.buffers[buffer_idx].search_query.clone();
        let current_match = self.buffers[buffer_idx].current_match;
        let selection_start = self.buffers[buffer_idx].selection_start;
        let selection_end = self.buffers[buffer_idx].selection_end;
        let mode = self.buffers[buffer_idx].mode;
        let command_buffer = self.buffers[buffer_idx].command_buffer.clone();
        let command_cursor_pos = self.buffers[buffer_idx].command_cursor_pos;
        let viewport_height = if self.view_mode == ViewMode::HorizontalSplit {
            self.buffers[buffer_idx].viewport_height
        } else if self.height >= 1 {
            self.height - 1
        } else {
            0
        };
        let mut offset = offset;
        let mut cursor_y = if cursor_y >= viewport_height {
            if viewport_height >= 1 {
                viewport_height - 1
            } else {
                0
            }
        } else {
            cursor_y
        };
        if (offset >= total || cursor_y >= total - offset) && total > 0 {
            let back = if total >= viewport_height {
                total - viewport_height
            } else {
                0
            };
            offset = if back <= offset {
                back
            } else {
                offset
            };
            cursor_y = if total - offset >= 1 {
                total - offset - 1
            } else {
                0
            };
        }
        self.lines = lines;
        self.total_lines = total;
        self.offset = offset;
        self.cursor_x = cursor_x;
        self.cursor_y = cursor_y;
        self.editor_state.search_query = search_query;
        self.editor_state.current_match = current_match;
        self.editor_state.selection_start = selection_start;
        self.editor_state.selection_end = selection_end;
        self.editor_state.mode = mode;
        self.editor_state.command_buffer = command_buffer;
        self.editor_state.command_cursor_pos = command_cursor_pos;
    }
}

/// The offset and cursor row that put document line `line` in the middle
/// of a viewport `vh` rows high, without scrolling past the last full
/// screen of `total` lines; the cursor row stays inside the viewport.
pub open spec fn centered_in_viewport(line: int, vh: usize, total: usize) -> (usize, usize) {
    let wanted = if line >= vh / 2 {
        line - vh / 2
    } else {
        0
    };
    let o = if wanted <= sat_sub(total, vh) {
        wanted
    } else {
        sat_sub(total, vh) as int
    };
    let y = if line >= o {
        if line - o <= sat_sub(vh, 1) {
            line - o
        } else {
            sat_sub(vh, 1) as int
        }
    } else {
        0
    };
    (o as usize, y as usize)
}

impl Editor {
    /// Puts the cursor's line in the middle of the active buffer's
    /// viewport (see `centered_in_viewport`); with no active buffer nothing
    /// changes.
    pub fn center_cursor_in_buffer(&mut self)
        requires
            old(self).offset + old(self).cursor_y <= usize::MAX,
        ensures
            old(self).active_buffer < old(self).buffers@.len() ==> {
                let (o, y) = centered_in_viewport(
                    old(self).offset + old(self).cursor_y,
                    old(self).buffers@[old(self).active_buffer as int].viewport_height,
                    old(self).total_lines,
                );
                *final(self) == (Editor { offset: o, cursor_y: y, ..*old(self) })
            },
            old(self).active_buffer >= old(self).buffers@.len() ==> *final(self) == *old(self),
    {
        if self.active_buffer >= self.buffers.len() {
            return ;
        }
        let vh = self.buffers[self.active_buffer].viewport_height;
        let center = vh / 2;
        let current_line = self.offset + self.cursor_y;
        let wanted = if current_line >= center {
            current_line - center
        } else {
            0
        };
        let max_offset = if self.total_lines >= vh {
            self.total_lines - vh
        } else {
            0
        };
        let o = if wanted <= max_offset {
            wanted
        } else {
            max_offset
        };
        self.offset = o;
        let last_row = if vh >= 1 {
            vh - 1
        } else {
            0
        };
        self.cursor_y = if current_line >= o {
            let rel = current_line - o;
            if rel <= last_row {
                rel
            } else {
                last_row
            }
        } else {
            0
        };
    }
}

/// Buffer state is restored exactly by saving it and loading it back, as
/// long as the saved cursor row lies inside the viewport and, for a
/// non-empty document, the cursor's line inside the document.
pub proof fn lemma_load_restores_saved_position(offset: usize, cursor_y: usize, vh: usize, total: usize)
    requires
        cursor_y < vh,
        offset + cursor_y < total || total == 0,
    ensures
        loaded_position(offset, cursor_y, vh, total) == (offset, cursor_y),
{
}

/// Saving the active buffer and then loading it again, with nothing but the
/// editor's own position, search, selection, mode and command line changed
/// in between, gives them back, as long as the saved position is one that
/// loading keeps (see `lemma_load_restores_saved_position`).
pub proof fn lemma_save_then_load(before: Editor, saved: Editor, changed: Editor, after: Editor)
    requires
        before.active_buffer < before.buffers@.len(),
        saved.buffers@ == before.saved_buffers(),
        saved == (Editor { buffers: saved.buffers, ..before }),
        changed.buffers == saved.buffers,
        changed.view_mode == saved.view_mode,
        changed.height == saved.height,
        changed.active_buffer == saved.active_buffer,
        changed.loaded_from(changed.buffers@[changed.active_buffer as int], after),
        before.cursor_y < before.load_height(before.buffers@[before.active_buffer as int]),
        before.offset + before.cursor_y < before.buffers@[before.active_buffer as int].lines@.len()
            || before.buffers@[before.active_buffer as int].lines@.len() == 0,
    ensures
        after.offset == before.offset,
        after.cursor_x == before.cursor_x,
        after.cursor_y == before.cursor_y,
        after.editor_state.search_query == before.editor_state.search_query,
        after.editor_state.current_match == before.editor_state.current_match,
        after.editor_state.selection_start == before.editor_state.selection_start,
        after.editor_state.selection_end == before.editor_state.selection_end,
        after.editor_state.mode == before.editor_state.mode,
        after.editor_state.command_buffer == before.editor_state.command_buffer,
        after.editor_state.command_cursor_pos == before.editor_state.command_cursor_pos,
        after.lines@ == before.buffers@[before.active_buffer as int].lines@,
{
    let a = before.active_buffer as int;
    let b = changed.buffers@[a];
    assert(b == before.stored_into(before.buffers@[a]));
    assert(changed.load_height(b) == before.load_height(before.buffers@[a]));
    assert(b.lines.len() == b.lines@.len());
    lemma_load_restores_saved_position(
        before.offset,
        before.cursor_y,
        before.load_height(before.buffers@[a]),
        b.lines@.len() as usize,
    );
}

} // verus!
