//! The renderer's computational core: lays the visible window out as rows of
//! characters, places the screen cursor, and builds the one-line status text.
//! Writing the frame to the terminal is the shell's business, not logic.

use vstd::prelude::*;
use vstd::string::StrSliceExecFns;

use crate::editor::Editor;

verus! {

/// The character shown at screen cell `(sx, sy)`: the buffer character under
/// it, or a space where the window runs past the end of the line or past the
/// last line.
pub open spec fn cell_at(ed: Editor, sx: int, sy: int) -> char {
    let by = ed.view.pos.y + sy;
    let bx = ed.view.pos.x + sx;
    if by < ed.buffer.text().len() && bx < ed.buffer.text()[by].len() {
        ed.buffer.text()[by][bx]
    } else {
        ' '
    }
}

/// The decimal digit characters of `n`, most significant first.
pub open spec fn dec_digits(n: nat) -> Seq<char>
    decreases n,
{
    if n < 10 {
        seq![digit_char(n % 10)]
    } else {
        dec_digits(n / 10).push(digit_char(n % 10))
    }
}

/// The character for one decimal digit.
pub open spec fn digit_char(d: nat) -> char {
    if d == 0 {
        '0'
    } else if d == 1 {
        '1'
    } else if d == 2 {
        '2'
    } else if d == 3 {
        '3'
    } else if d == 4 {
        '4'
    } else if d == 5 {
        '5'
    } else if d == 6 {
        '6'
    } else if d == 7 {
        '7'
    } else if d == 8 {
        '8'
    } else {
        '9'
    }
}

/// The status line: cursor position, viewport origin, viewport size, and the
/// loaded path, or a placeholder when none was given.
pub open spec fn status_spec(ed: Editor) -> Seq<char> {
    "Pos("@ + dec_digits(ed.cursor.x as nat) + ","@ + dec_digits(ed.cursor.y as nat) + ") View("@
        + dec_digits(ed.view.pos.x as nat) + ","@ + dec_digits(ed.view.pos.y as nat) + ") Size("@
        + dec_digits(ed.view.size.x as nat) + ","@ + dec_digits(ed.view.size.y as nat) + ") | "@
        + (if ed.buffer.file_path@.len() == 0 {
        "Untitled"@
    } else {
        ed.buffer.file_path@
    })
}

/// Appends the characters of `s` to `out`.
fn push_str_chars(out: &mut Vec<char>, s: &str)
    ensures
        final(out)@ == old(out)@ + s@,
{
    let n = s.unicode_len();
    let mut i: usize = 0;
    while i < n
        invariant
            i <= n,
            n == s@.len(),
            out@ == old(out)@ + s@.take(i as int),
        decreases n - i,
    {
        out.push(s.get_char(i));
        assert(out@ =~= old(out)@ + s@.take(i + 1));
        i = i + 1;
    }
    assert(out@ =~= old(out)@ + s@);
}

/// Appends the characters of `src` to `out`.
fn push_chars(out: &mut Vec<char>, src: &Vec<char>)
    ensures
        final(out)@ == old(out)@ + src@,
{
    let n = src.len();
    let mut i: usize = 0;
    while i < n
        invariant
            i <= n,
            n == src@.len(),
            out@ == old(out)@ + src@.take(i as int),
        decreases n - i,
    {
        out.push(src[i]);
        assert(out@ =~= old(out)@ + src@.take(i + 1));
        i = i + 1;
    }
    assert(out@ =~= old(out)@ + src@);
}

/// Appends the decimal form of `n` to `out`.
fn push_decimal(out: &mut Vec<char>, n: usize)
    ensures
        final(out)@ == old(out)@ + dec_digits(n as nat),
    decreases n,
{
    if n >= 10 {
        push_decimal(out, n / 10);
    }
    let d = n % 10;
    let c = match d {
        0 => '0',
        1 => '1',
        2 => '2',
        3 => '3',
        4 => '4',
        5 => '5',
        6 => '6',
        7 => '7',
        8 => '8',
        _ => '9',
    };
    assert(c == digit_char((n % 10) as nat));
    out.push(c);
    if n >= 10 {
        assert(out@ =~= old(out)@ + dec_digits(n as nat));
    } else {
        assert(out@ =~= old(out)@ + dec_digits(n as nat));
    }
}

impl Editor {
    /// One screen row of the visible window: exactly `width` characters,
    /// buffer text where the window covers it and spaces elsewhere.
    pub fn render_row(&self, sy: usize) -> (row: Vec<char>)
        ensures
            row@.len() == self.view.size.x,
            forall|sx: int|
                0 <= sx < self.view.size.x ==> row@[sx] == cell_at(*self, sx, sy as int),
    {
        let w = self.view.size.x;
        let nl = self.buffer.num_lines();
        let have_row = self.view.pos.y < nl && sy < nl - self.view.pos.y;
        let mut row: Vec<char> = Vec::new();
        let mut sx: usize = 0;
        while sx < w
            invariant
                sx <= w,
                w == self.view.size.x,
                nl == self.buffer.text().len(),
                have_row == (self.view.pos.y + sy < nl),
                row@.len() == sx,
                forall|j: int| 0 <= j < sx ==> row@[j] == cell_at(*self, j, sy as int),
            decreases w - sx,
        {
            let ch: char;
            if have_row {
                let by = self.view.pos.y + sy;
                let ll = self.buffer.line_len(by);
                if self.view.pos.x < ll && sx < ll - self.view.pos.x {
                    ch = self.buffer.char_at(by, self.view.pos.x + sx);
                } else {
                    ch = ' ';
                }
            } else {
                ch = ' ';
            }
            row.push(ch);
            sx = sx + 1;
        }
        row
    }

    /// The whole visible window, one vector per screen row, top to bottom.
    pub fn render_rows(&self) -> (rows: Vec<Vec<char>>)
        ensures
            rows@.len() == self.view.size.y,
            forall|sy: int|
                0 <= sy < self.view.size.y ==> (#[trigger] rows@[sy])@.len() == self.view.size.x,
            forall|sy: int, sx: int|
                0 <= sy < self.view.size.y && 0 <= sx < self.view.size.x ==> #[trigger] rows@[sy]@[sx]
                    == cell_at(*self, sx, sy),
    {
        let h = self.view.size.y;
        let mut rows: Vec<Vec<char>> = Vec::new();
        let mut sy: usize = 0;
        while sy < h
            invariant
                sy <= h,
                h == self.view.size.y,
                rows@.len() == sy,
                forall|r: int| 0 <= r < sy ==> (#[trigger] rows@[r])@.len() == self.view.size.x,
                forall|r: int, sx: int|
                    0 <= r < sy && 0 <= sx < self.view.size.x ==> #[trigger] rows@[r]@[sx]
                        == cell_at(*self, sx, r),
            decreases h - sy,
        {
            let row = self.render_row(sy);
            rows.push(row);
            sy = sy + 1;
        }
        rows
    }

    /// Where the terminal's visible cursor goes: the cursor in screen
    /// coordinates, relative to the viewport origin.
    pub fn screen_cursor(&self) -> (p: (usize, usize))
        requires
            self.cursor_in_view(),
        ensures
            p.0 == self.cursor.x - self.view.pos.x,
            p.1 == self.cursor.y - self.view.pos.y,
            p.0 < self.view.size.x,
            p.1 < self.view.size.y,
    {
        (self.cursor.x - self.view.pos.x, self.cursor.y - self.view.pos.y)
    }

    /// The status text, exactly as `status_spec` lays it out.
    pub fn status_line(&self) -> (out: Vec<char>)
        ensures
            out@ == status_spec(*self),
    {
        let mut out: Vec<char> = Vec::new();
        push_str_chars(&mut out, "Pos(");
        push_decimal(&mut out, self.cursor.x);
        push_str_chars(&mut out, ",");
        push_decimal(&mut out, self.cursor.y);
        push_str_chars(&mut out, ") View(");
        push_decimal(&mut out, self.view.pos.x);
        push_str_chars(&mut out, ",");
        push_decimal(&mut out, self.view.pos.y);
        push_str_chars(&mut out, ") Size(");
        push_decimal(&mut out, self.view.size.x);
        push_str_chars(&mut out, ",");
        push_decimal(&mut out, self.view.size.y);
        push_str_chars(&mut out, ") | ");
        if self.buffer.file_path.len() == 0 {
            push_str_chars(&mut out, "Untitled");
        } else {
            push_chars(&mut out, &self.buffer.file_path);
        }
        proof {
            assert(out@ =~= status_spec(*self));
        }
        out
    }
}

} // verus!
