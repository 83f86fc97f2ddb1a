//! The editor state: buffer, cursor, viewport and exit flag, with the
//! cursor/viewport model (clamp the target, then scroll just enough to keep
//! the cursor visible) and the editing operations the dispatcher applies.

use vstd::prelude::*;

use crate::buffer::{merged_text, split_at_text, EditBuffer};
use crate::geom::{clamp, clamp_i, Point, Rect};
use crate::input::{decode_key, decode_spec, Command, KeyInput};

verus! {

/// The whole editor state, owned as one unit for the process lifetime.
pub struct Editor {
    pub exit: bool,
    pub view: Rect,
    pub buffer: EditBuffer,
    pub cursor: Point,
}

/// The text after inserting `ch` at `(col, row)`: on an empty buffer a first
/// one-character line appears, otherwise the character lands in its line.
pub open spec fn inserted_text(t: Seq<Seq<char>>, row: int, col: int, ch: char) -> Seq<
    Seq<char>,
> {
    if t.len() == 0 {
        seq![seq![ch]]
    } else {
        t.update(row, t[row].insert(col, ch))
    }
}

/// The row a cursor move lands on for requested row `y`: clamped to the
/// buffer's rows, or 0 when the buffer is empty.
pub open spec fn target_row(pre: Editor, y: int) -> int {
    if pre.buffer.text().len() == 0 {
        0
    } else {
        clamp_i(y, 0, pre.buffer.text().len() - 1)
    }
}

/// The column a cursor move lands on for requested column `x` at landing row
/// `row`: clamped to the line's length (one past the last character is
/// allowed), or 0 when the buffer is empty.
pub open spec fn target_col(pre: Editor, x: int, row: int) -> int {
    if pre.buffer.text().len() == 0 {
        0
    } else {
        clamp_i(x, 0, pre.buffer.text()[row].len() as int)
    }
}

/// The minimal-scroll rule on one axis: scroll just far enough that `cur`
/// is inside `[pos, pos + size)`, and not at all when it already is.
pub open spec fn scrolled(pos: int, size: int, cur: int) -> int {
    if cur >= pos + size {
        cur - size + 1
    } else if cur < pos {
        cur
    } else {
        pos
    }
}

/// How a cursor move to the already-clamped target `(nx, ny)` relates the
/// state before to the state after: no change when the target is the cursor
/// itself, otherwise the cursor moves there and each viewport axis scrolls
/// minimally.
pub open spec fn moved_post(pre: Editor, post: Editor, nx: int, ny: int, r: bool) -> bool {
    &&& r == !(nx == pre.cursor.x && ny == pre.cursor.y)
    &&& if !r {
        post == pre
    } else {
        &&& post.buffer == pre.buffer
        &&& post.exit == pre.exit
        &&& post.view.size == pre.view.size
        &&& post.cursor.x == nx
        &&& post.cursor.y == ny
        &&& post.view.pos.y == scrolled(pre.view.pos.y as int, pre.view.size.y as int, ny)
        &&& post.view.pos.x == scrolled(pre.view.pos.x as int, pre.view.size.x as int, nx)
    }
}

/// The full effect of `set_cursor(x, y)`.
pub open spec fn set_cursor_post(pre: Editor, post: Editor, x: int, y: int, r: bool) -> bool {
    moved_post(pre, post, target_col(pre, x, target_row(pre, y)), target_row(pre, y), r)
}

/// The full effect of `offset_cursor(dx, dy)`: the delta is applied to the
/// cursor and clamped to valid ranges, then the move proceeds as `set_cursor`
/// has it.
pub open spec fn offset_post(pre: Editor, post: Editor, dx: int, dy: int, r: bool) -> bool {
    let ny = target_row(pre, pre.cursor.y + dy);
    let nx = target_col(pre, pre.cursor.x + dx, ny);
    moved_post(pre, post, nx, ny, r)
}

/// The full effect of inserting `ch` at the cursor.
pub open spec fn insert_post(pre: Editor, post: Editor, ch: char) -> bool {
    &&& post.buffer.text() == inserted_text(
        pre.buffer.text(),
        pre.cursor.y as int,
        pre.cursor.x as int,
        ch,
    )
    &&& post.cursor.x == pre.cursor.x + 1
    &&& post.cursor.y == pre.cursor.y
    &&& post.view == pre.view
    &&& post.exit == pre.exit
    &&& post.buffer.file_path == pre.buffer.file_path
}

/// The full effect of Enter: the current line splits at the cursor and the
/// cursor moves to the start of the right part.
pub open spec fn enter_post(pre: Editor, post: Editor) -> bool {
    &&& post.buffer.text() == split_at_text(
        pre.buffer.text(),
        pre.cursor.y as int,
        pre.cursor.x as int,
    )
    &&& post.cursor.x == 0
    &&& post.cursor.y == pre.cursor.y + 1
    &&& post.view == pre.view
    &&& post.exit == pre.exit
    &&& post.buffer.file_path == pre.buffer.file_path
}

/// The full effect of Backspace: nothing at the very start of the document;
/// a merge with the previous line at column 0, leaving the cursor at the
/// merge point; otherwise removal of the character before the cursor.
pub open spec fn backspace_post(pre: Editor, post: Editor, redraw: bool) -> bool {
    if pre.cursor.x == 0 && pre.cursor.y == 0 {
        post == pre && !redraw
    } else if pre.cursor.x == 0 {
        &&& post.buffer.text() == merged_text(pre.buffer.text(), pre.cursor.y as int)
        &&& post.cursor.y == pre.cursor.y - 1
        &&& post.cursor.x == pre.buffer.text()[pre.cursor.y as int - 1].len()
        &&& post.view == pre.view
        &&& post.exit == pre.exit
        &&& post.buffer.file_path == pre.buffer.file_path
        &&& redraw
    } else {
        &&& post.buffer.text() == pre.buffer.text().update(
            pre.cursor.y as int,
            pre.buffer.text()[pre.cursor.y as int].remove(pre.cursor.x - 1),
        )
        &&& post.cursor.x == pre.cursor.x - 1
        &&& post.cursor.y == pre.cursor.y
        &&& post.view == pre.view
        &&& post.exit == pre.exit
        &&& post.buffer.file_path == pre.buffer.file_path
        &&& redraw
    }
}

/// What applying each command does, and whether it asks for a redraw:
/// edits always do, pure moves only when the cursor actually moved.
pub open spec fn apply_post(pre: Editor, post: Editor, cmd: Command, redraw: bool) -> bool {
    match cmd {
        Command::Quit => post == (Editor { exit: true, ..pre }) && !redraw,
        Command::MoveBy { dx, dy } => offset_post(pre, post, dx as int, dy as int, redraw),
        Command::PageDown => offset_post(pre, post, 0, pre.view.size.y - 1, redraw),
        Command::PageUp => offset_post(pre, post, 0, -(pre.view.size.y as int) - 2, redraw),
        Command::Home => set_cursor_post(pre, post, 0, pre.cursor.y as int, redraw),
        Command::End => set_cursor_post(
            pre,
            post,
            cur_line_len(pre) as int,
            pre.cursor.y as int,
            redraw,
        ),
        Command::Insert(ch) => insert_post(pre, post, ch) && redraw,
        Command::SplitLine => enter_post(pre, post) && redraw,
        Command::MergeBack => backspace_post(pre, post, redraw),
        Command::Ignore => post == pre && !redraw,
    }
}

/// Length of the line under the cursor; 0 when the buffer is empty.
pub open spec fn cur_line_len(pre: Editor) -> nat {
    if pre.buffer.text().len() == 0 {
        0
    } else {
        pre.buffer.text()[pre.cursor.y as int].len()
    }
}

/// `v + d` clamped to `[0, hi]`.
fn add_delta_clamped(v: usize, d: i32, hi: usize) -> (r: usize)
    ensures
        r == clamp_i(v + d, 0, hi as int),
{
    if d >= 0 {
        let du = d as usize;
        if v >= hi {
            hi
        } else if du <= hi - v {
            v + du
        } else {
            hi
        }
    } else {
        let mag: usize = if d == i32::MIN {
            let m: usize = 0x8000_0000;
            m
        } else {
            (-d) as usize
        };
        if mag >= v {
            0
        } else {
            let w = v - mag;
            if w >= hi {
                hi
            } else {
                w
            }
        }
    }
}

impl Editor {
    /// The cursor coordinate invariant: row within the buffer's rows and
    /// column at most the line's length, or exactly the origin when the
    /// buffer is empty.
    pub open spec fn cursor_ok(&self) -> bool {
        if self.buffer.text().len() == 0 {
            self.cursor.x == 0 && self.cursor.y == 0
        } else {
            &&& self.cursor.y < self.buffer.text().len()
            &&& self.cursor.x <= self.buffer.text()[self.cursor.y as int].len()
        }
    }

    /// The viewport has at least one cell on each axis and fits terminal
    /// cell coordinates.
    pub open spec fn view_ok(&self) -> bool {
        &&& 1 <= self.view.size.x <= 0xFFFF
        &&& 1 <= self.view.size.y <= 0xFFFF
    }

    /// The cursor lies inside the viewport's rectangle.
    pub open spec fn cursor_in_view(&self) -> bool {
        &&& self.view.pos.x <= self.cursor.x < self.view.pos.x + self.view.size.x
        &&& self.view.pos.y <= self.cursor.y < self.view.pos.y + self.view.size.y
    }

    /// A fresh editor: empty buffer, cursor at the origin, degenerate
    /// viewport until the first resize, not exiting.
    pub fn new() -> (e: Editor)
        ensures
            e.exit == false,
            e.cursor.x == 0 && e.cursor.y == 0,
            e.view.pos.x == 0 && e.view.pos.y == 0,
            e.view.size.x == 0 && e.view.size.y == 0,
            e.buffer.text().len() == 0,
            e.buffer.file_path@.len() == 0,
            e.cursor_ok(),
    {
        Editor {
            exit: false,
            view: Rect::new(),
            buffer: EditBuffer::new(),
            cursor: Point { x: 0, y: 0 },
        }
    }

    /// The single authoritative cursor move: clamp the target to the buffer,
    /// report "no change" when it is already the cursor, otherwise move and
    /// scroll each viewport axis just enough to keep the cursor visible.
    /// Whatever the input, the cursor ends within the buffer's bounds, and
    /// after a reported change it is inside the viewport.
    pub fn set_cursor(&mut self, x: usize, y: usize) -> (r: bool)
        requires
            old(self).view.size.x >= 1,
            old(self).view.size.y >= 1,
        ensures
            set_cursor_post(*old(self), *final(self), x as int, y as int, r),
            final(self).cursor_ok(),
            r ==> final(self).cursor_in_view(),
            old(self).cursor_in_view() ==> final(self).cursor_in_view(),
    {
        let max_y = if self.buffer.is_empty() {
            0
        } else {
            self.buffer.num_lines() - 1
        };
        let new_y = clamp(y, 0, max_y);
        let line_max = if self.buffer.is_empty() {
            0
        } else {
            self.buffer.line_len(new_y)
        };
        let new_x = clamp(x, 0, line_max);

        let new_curs = Point { x: new_x, y: new_y };
        if self.cursor == new_curs {
            return false;
        }
        self.cursor = new_curs;

        // Scroll view on Y
        if self.cursor.y >= self.view.pos.y && self.cursor.y - self.view.pos.y
            >= self.view.size.y {
            self.view.pos.y = self.cursor.y - self.view.size.y + 1;
        } else if self.cursor.y < self.view.pos.y {
            self.view.pos.y = self.cursor.y;
        }
        // Scroll view on X
        if self.cursor.x >= self.view.pos.x && self.cursor.x - self.view.pos.x
            >= self.view.size.x {
            self.view.pos.x = self.cursor.x - self.view.size.x + 1;
        } else if self.cursor.x < self.view.pos.x {
            self.view.pos.x = self.cursor.x;
        }
        true
    }

    /// Moves the cursor by a signed delta, clamped to valid ranges before the
    /// move; the column does not survive onto a shorter line.
    pub fn offset_cursor(&mut self, dx: i32, dy: i32) -> (r: bool)
        requires
            old(self).cursor_ok(),
            old(self).view.size.x >= 1,
            old(self).view.size.y >= 1,
        ensures
            offset_post(*old(self), *final(self), dx as int, dy as int, r),
            final(self).cursor_ok(),
            r ==> final(self).cursor_in_view(),
            old(self).cursor_in_view() ==> final(self).cursor_in_view(),
    {
        let nl = self.buffer.num_lines();
        let max_y = if nl == 0 {
            0
        } else {
            nl - 1
        };
        let ty = add_delta_clamped(self.cursor.y, dy, max_y);
        let line_max = if self.buffer.is_empty() {
            0
        } else {
            self.buffer.line_len(ty)
        };
        let tx = add_delta_clamped(self.cursor.x, dx, line_max);
        self.set_cursor(tx, ty)
    }

    /// Inserts `ch` at the cursor and steps the cursor past it; on an empty
    /// buffer this establishes a first one-character line.
    pub fn insert_char(&mut self, ch: char)
        requires
            old(self).cursor_ok(),
        ensures
            insert_post(*old(self), *final(self), ch),
            final(self).cursor_ok(),
    {
        if self.buffer.is_empty() {
            let mut l: Vec<char> = Vec::new();
            l.push(ch);
            self.buffer.lines.push(l);
            proof {
                assert(self.buffer.text() =~~= inserted_text(
                    old(self).buffer.text(),
                    old(self).cursor.y as int,
                    old(self).cursor.x as int,
                    ch,
                ));
            }
            self.cursor.x = 1;
        } else {
            self.buffer.insert_char(self.cursor.y, self.cursor.x, ch);
            // the grown line's length is a machine word, so the step fits
            let new_len = self.buffer.line_len(self.cursor.y);
            self.cursor.x = self.cursor.x + 1;
        }
    }

    /// Enter: splits the current line at the cursor and puts the cursor at
    /// the start of the right part; on an empty buffer two empty lines
    /// appear.
    pub fn key_enter(&mut self)
        requires
            old(self).cursor_ok(),
        ensures
            enter_post(*old(self), *final(self)),
            final(self).cursor_ok(),
    {
        self.buffer.split_line(self.cursor.y, self.cursor.x);
        // the grown line count is a machine word, so the step fits
        let nl = self.buffer.num_lines();
        self.cursor.y = self.cursor.y + 1;
        self.cursor.x = 0;
    }

    /// Backspace: at the very start of the document nothing happens; at
    /// column 0 the line merges onto the previous one with the cursor at the
    /// merge point; otherwise the character before the cursor goes. Reports
    /// whether anything changed.
    pub fn key_backspace(&mut self) -> (redraw: bool)
        requires
            old(self).cursor_ok(),
        ensures
            backspace_post(*old(self), *final(self), redraw),
            final(self).cursor_ok(),
    {
        if self.cursor.x == 0 && self.cursor.y == 0 {
            return false;
        }
        if self.cursor.x == 0 {
            let old_len = self.buffer.merge_with_previous(self.cursor.y);
            self.cursor.y = self.cursor.y - 1;
            self.cursor.x = old_len;
        } else {
            self.buffer.remove_char(self.cursor.y, self.cursor.x - 1);
            self.cursor.x = self.cursor.x - 1;
        }
        true
    }

    /// Applies a command; reports whether the screen must be redrawn, which
    /// is exactly when cursor, buffer or viewport changed.
    pub fn apply_command(&mut self, cmd: Command) -> (redraw: bool)
        requires
            old(self).cursor_ok(),
            old(self).view_ok(),
        ensures
            apply_post(*old(self), *final(self), cmd, redraw),
            final(self).cursor_ok(),
            final(self).view_ok(),
    {
        match cmd {
            Command::Quit => {
                self.exit = true;
                false
            },
            Command::MoveBy { dx, dy } => self.offset_cursor(dx, dy),
            Command::PageDown => {
                let h = self.view.size.y;
                self.offset_cursor(0, (h as i32) - 1)
            },
            Command::PageUp => {
                let h = self.view.size.y;
                self.offset_cursor(0, -(h as i32) - 2)
            },
            Command::Home => {
                let y = self.cursor.y;
                self.set_cursor(0, y)
            },
            Command::End => {
                let y = self.cursor.y;
                let lm = if self.buffer.is_empty() {
                    0
                } else {
                    self.buffer.line_len(y)
                };
                self.set_cursor(lm, y)
            },
            Command::Insert(ch) => {
                self.insert_char(ch);
                true
            },
            Command::SplitLine => {
                self.key_enter();
                true
            },
            Command::MergeBack => self.key_backspace(),
            Command::Ignore => false,
        }
    }

    /// Decodes a key event and applies its command; reports whether a redraw
    /// is needed.
    pub fn on_key_event(&mut self, k: KeyInput) -> (redraw: bool)
        requires
            old(self).cursor_ok(),
            old(self).view_ok(),
        ensures
            apply_post(*old(self), *final(self), decode_spec(k), redraw),
            final(self).cursor_ok(),
            final(self).view_ok(),
    {
        let cmd = decode_key(k);
        self.apply_command(cmd)
    }

    /// Idle tick between input polls: nothing to do.
    pub fn on_idle(&mut self)
        ensures
            *final(self) == *old(self),
    {
    }

    /// A terminal resize: the viewport takes the new size; origin, cursor
    /// and buffer stay.
    pub fn on_resize(&mut self, new_width: usize, new_height: usize)
        requires
            1 <= new_width <= 0xFFFF,
            1 <= new_height <= 0xFFFF,
        ensures
            final(self).view.size.x == new_width,
            final(self).view.size.y == new_height,
            final(self).view.pos == old(self).view.pos,
            final(self).cursor == old(self).cursor,
            final(self).buffer == old(self).buffer,
            final(self).exit == old(self).exit,
            final(self).view_ok(),
    {
        self.view.size.x = new_width;
        self.view.size.y = new_height;
    }
}

/// Setting the cursor twice to the same target: the second call changes
/// nothing and reports "no change".
pub proof fn lemma_set_cursor_idempotent(
    e0: Editor,
    e1: Editor,
    e2: Editor,
    x: int,
    y: int,
    r1: bool,
    r2: bool,
)
    requires
        set_cursor_post(e0, e1, x, y, r1),
        set_cursor_post(e1, e2, x, y, r2),
    ensures
        r2 == false,
        e2 == e1,
{
}

} // verus!

