//! The line-oriented text buffer: an ordered sequence of character lines,
//! loaded by a literal split on `'\n'` and mutated in place by character
//! insertion, line splits and line merges.

use vstd::prelude::*;

verus! {

/// The document: an ordered sequence of lines, each a sequence of characters,
/// plus the path the text came from (empty when none).
pub struct EditBuffer {
    pub lines: Vec<Vec<char>>,
    pub file_path: Vec<char>,
}

/// The character sequences that a sequence of line vectors holds.
pub open spec fn line_views(lines: Seq<Vec<char>>) -> Seq<Seq<char>> {
    Seq::new(lines.len(), |i: int| lines[i]@)
}

/// The lines that splitting `s` on `'\n'` yields, as a literal split: the
/// empty text is one empty line, and a trailing `'\n'` leaves a trailing
/// empty line behind it.
pub open spec fn split_lines(s: Seq<char>) -> Seq<Seq<char>>
    decreases s.len(),
{
    if s.len() == 0 {
        seq![Seq::<char>::empty()]
    } else if s[0] == '\n' {
        seq![Seq::<char>::empty()] + split_lines(s.skip(1))
    } else {
        let rest = split_lines(s.skip(1));
        seq![seq![s[0]] + rest[0]] + rest.skip(1)
    }
}

/// A split always yields at least one line.
pub proof fn lemma_split_lines_nonempty(s: Seq<char>)
    ensures
        split_lines(s).len() >= 1,
    decreases s.len(),
{
    if s.len() == 0 {
    } else {
        lemma_split_lines_nonempty(s.skip(1));
    }
}

/// How a split grows when one character is appended to the text: a `'\n'`
/// opens a new empty last line, any other character lands on the last line.
pub proof fn lemma_split_lines_push(s: Seq<char>, c: char)
    ensures
        c == '\n' ==> split_lines(s.push(c)) == split_lines(s).push(Seq::<char>::empty()),
        c != '\n' ==> split_lines(s.push(c)) == split_lines(s).update(
            split_lines(s).len() - 1,
            split_lines(s).last().push(c),
        ),
    decreases s.len(),
{
    lemma_split_lines_nonempty(s);
    if s.len() == 0 {
        assert(s.push(c) =~= seq![c]);
        assert(s.push(c).skip(1) =~= Seq::<char>::empty());
        assert(split_lines(Seq::<char>::empty()) == seq![Seq::<char>::empty()]);
        if c == '\n' {
            assert(split_lines(s.push(c)) =~~= split_lines(s).push(Seq::<char>::empty()));
        } else {
            assert(seq![c] + split_lines(Seq::<char>::empty())[0] =~= Seq::<char>::empty().push(
                c,
            ));
            assert(split_lines(s.push(c)) =~~= split_lines(s).update(
                split_lines(s).len() - 1,
                split_lines(s).last().push(c),
            ));
        }
    } else {
        let t = s.skip(1);
        lemma_split_lines_nonempty(t);
        lemma_split_lines_push(t, c);
        assert(s.push(c)[0] == s[0]);
        assert(s.push(c).skip(1) =~= t.push(c));
        let x = split_lines(t);
        if c == '\n' {
            if s[0] == '\n' {
                assert(split_lines(s.push(c)) =~~= split_lines(s).push(Seq::<char>::empty()));
            } else {
                assert(x.push(Seq::<char>::empty())[0] == x[0]);
                assert(x.push(Seq::<char>::empty()).skip(1) =~~= x.skip(1).push(
                    Seq::<char>::empty(),
                ));
                assert(split_lines(s.push(c)) =~~= split_lines(s).push(Seq::<char>::empty()));
            }
        } else {
            let k = x.len() - 1;
            let r = x.update(k, x.last().push(c));
            if s[0] == '\n' {
                assert(split_lines(s) =~~= seq![Seq::<char>::empty()] + x);
                assert(split_lines(s).last() == x.last());
                assert(split_lines(s.push(c)) =~~= split_lines(s).update(
                    split_lines(s).len() - 1,
                    split_lines(s).last().push(c),
                ));
            } else {
                if k == 0 {
                    assert(r[0] == x[0].push(c));
                    assert(r.skip(1) =~~= x.skip(1));
                    assert(split_lines(s).last() == seq![s[0]] + x[0]);
                    assert(seq![s[0]] + x[0].push(c) =~= (seq![s[0]] + x[0]).push(c));
                    assert(split_lines(s.push(c)) =~~= split_lines(s).update(
                        split_lines(s).len() - 1,
                        split_lines(s).last().push(c),
                    ));
                } else {
                    assert(r[0] == x[0]);
                    assert(r.skip(1) =~~= x.skip(1).update(k - 1, x.last().push(c)));
                    assert(split_lines(s).last() == x.last());
                    assert(split_lines(s.push(c)) =~~= split_lines(s).update(
                        split_lines(s).len() - 1,
                        split_lines(s).last().push(c),
                    ));
                }
            }
        }
    }
}

/// The text after splitting the line at `row` at offset `col`: the left part
/// replaces the line, the right part follows it. On an empty buffer the split
/// establishes two empty lines instead.
pub open spec fn split_at_text(t: Seq<Seq<char>>, row: int, col: int) -> Seq<Seq<char>> {
    if t.len() == 0 {
        seq![Seq::<char>::empty(), Seq::<char>::empty()]
    } else {
        t.update(row, t[row].take(col)).insert(row + 1, t[row].skip(col))
    }
}

/// The text after appending the line at `row` onto the one before it and
/// removing the line at `row`.
pub open spec fn merged_text(t: Seq<Seq<char>>, row: int) -> Seq<Seq<char>> {
    t.update(row - 1, t[row - 1] + t[row]).remove(row)
}

/// Splitting a line anywhere and merging at the resulting boundary restores
/// the original text, and the merge reports the split offset as the length of
/// the former left part.
pub proof fn lemma_split_merge_round_trip(t: Seq<Seq<char>>, row: int, col: int)
    requires
        0 <= row < t.len(),
        0 <= col <= t[row].len(),
    ensures
        merged_text(split_at_text(t, row, col), row + 1) == t,
        split_at_text(t, row, col)[row].len() == col,
{
    let s = split_at_text(t, row, col);
    assert(s[row] + s[row + 1] =~= t[row]);
    assert(merged_text(s, row + 1) =~~= t);
}

/// Copies `src[from..to]` into a fresh vector.
fn copy_range(src: &Vec<char>, from: usize, to: usize) -> (r: Vec<char>)
    requires
        from <= to <= src@.len(),
    ensures
        r@ == src@.subrange(from as int, to as int),
{
    let mut r: Vec<char> = Vec::new();
    let mut i: usize = from;
    while i < to
        invariant
            from <= i <= to <= src@.len(),
            r@ == src@.subrange(from as int, i as int),
        decreases to - i,
    {
        r.push(src[i]);
        assert(r@ =~= src@.subrange(from as int, i + 1));
        i = i + 1;
    }
    r
}

/// Concatenates two character vectors into a fresh one.
fn concat_chars(a: &Vec<char>, b: &Vec<char>) -> (r: Vec<char>)
    ensures
        r@ == a@ + b@,
{
    let mut r = copy_range(a, 0, a.len());
    let mut i: usize = 0;
    assert(r@ =~= a@);
    while i < b.len()
        invariant
            i <= b@.len(),
            r@ == a@ + b@.subrange(0, i as int),
        decreases b@.len() - i,
    {
        r.push(b[i]);
        assert(r@ =~= a@ + b@.subrange(0, i + 1));
        i = i + 1;
    }
    assert(r@ =~= a@ + b@);
    r
}

impl EditBuffer {
    /// The mathematical content of the buffer: its lines as character
    /// sequences.
    pub open spec fn text(&self) -> Seq<Seq<char>> {
        line_views(self.lines@)
    }

    /// A fresh buffer: no lines, no path.
    pub fn new() -> (b: EditBuffer)
        ensures
            b.text().len() == 0,
            b.file_path@.len() == 0,
    {
        let b = EditBuffer { lines: Vec::new(), file_path: Vec::new() };
        assert(b.text() =~~= Seq::<Seq<char>>::empty());
        b
    }

    /// Replaces the whole content with `text` split on `'\n'`, a literal
    /// split: a trailing line break leaves a trailing empty line.
    pub fn load(&mut self, text: &Vec<char>)
        ensures
            final(self).text() == split_lines(text@),
            final(self).file_path == old(self).file_path,
    {
        self.lines = Vec::new();
        let mut cur: Vec<char> = Vec::new();
        let mut i: usize = 0;
        assert(text@.take(0) =~= Seq::<char>::empty());
        assert(split_lines(text@.take(0)) =~~= line_views(self.lines@).push(cur@));
        while i < text.len()
            invariant
                i <= text@.len(),
                split_lines(text@.take(i as int)) == line_views(self.lines@).push(cur@),
                self.file_path == old(self).file_path,
            decreases text@.len() - i,
        {
            let c = text[i];
            proof {
                lemma_split_lines_push(text@.take(i as int), c);
                assert(text@.take(i + 1) =~= text@.take(i as int).push(c));
            }
            let ghost prev_lines = self.lines@;
            let ghost prev_cur = cur@;
            if c == '\n' {
                self.lines.push(cur);
                cur = Vec::new();
                proof {
                    assert(line_views(prev_lines.push(self.lines@[prev_lines.len() as int]))
                        =~~= line_views(prev_lines).push(prev_cur));
                    assert(split_lines(text@.take(i + 1)) =~~= line_views(self.lines@).push(cur@));
                }
            } else {
                cur.push(c);
                proof {
                    let ghost full = line_views(prev_lines).push(prev_cur);
                    assert(full.update(full.len() - 1, full.last().push(c)) =~~= line_views(
                        self.lines@,
                    ).push(cur@));
                }
            }
            i = i + 1;
        }
        proof {
            assert(text@.take(text@.len() as int) =~= text@);
        }
        let ghost prev_lines = self.lines@;
        self.lines.push(cur);
        proof {
            assert(line_views(self.lines@) =~~= line_views(prev_lines).push(
                self.lines@[prev_lines.len() as int]@,
            ));
        }
    }

    /// Records where the content came from; the text itself is untouched.
    pub fn set_path(&mut self, path: &Vec<char>)
        ensures
            final(self).lines == old(self).lines,
            final(self).file_path@ == path@,
    {
        self.file_path = copy_range(path, 0, path.len());
        assert(self.file_path@ =~= path@);
    }

    /// Number of lines; 0 when the buffer is empty.
    pub fn num_lines(&self) -> (n: usize)
        ensures
            n == self.text().len(),
    {
        self.lines.len()
    }

    /// Whether the buffer holds no lines at all (distinct from holding one
    /// empty line).
    pub fn is_empty(&self) -> (e: bool)
        ensures
            e == (self.text().len() == 0),
    {
        self.lines.len() == 0
    }

    /// Character count of the line at `row`.
    pub fn line_len(&self, row: usize) -> (n: usize)
        requires
            row < self.text().len(),
        ensures
            n == self.text()[row as int].len(),
    {
        self.lines[row].len()
    }

    /// The character at offset `col` of the line at `row`.
    pub fn char_at(&self, row: usize, col: usize) -> (c: char)
        requires
            row < self.text().len(),
            col < self.text()[row as int].len(),
        ensures
            c == self.text()[row as int][col as int],
    {
        self.lines[row][col]
    }

    /// A copy of the line at `row`.
    pub fn line_copy(&self, row: usize) -> (v: Vec<char>)
        requires
            row < self.text().len(),
        ensures
            v@ == self.text()[row as int],
    {
        copy_range(&self.lines[row], 0, self.lines[row].len())
    }

    /// Inserts `ch` at character offset `col` of the line at `row`
    /// (appending when `col` equals the line length).
    pub fn insert_char(&mut self, row: usize, col: usize, ch: char)
        requires
            row < old(self).text().len(),
            col <= old(self).text()[row as int].len(),
        ensures
            final(self).text() == old(self).text().update(
                row as int,
                old(self).text()[row as int].insert(col as int, ch),
            ),
            final(self).file_path == old(self).file_path,
    {
        let mut line = self.lines.remove(row);
        line.insert(col, ch);
        self.lines.insert(row, line);
        proof {
            assert(self.text() =~= old(self).text().update(
                row as int,
                old(self).text()[row as int].insert(col as int, ch),
            ));
        }
    }

    /// Splits the line at `row` at offset `col` into two lines; on an empty
    /// buffer it establishes two empty lines instead.
    pub fn split_line(&mut self, row: usize, col: usize)
        requires
            old(self).text().len() == 0 || (row < old(self).text().len() && col <= old(
                self,
            ).text()[row as int].len()),
        ensures
            final(self).text() == split_at_text(old(self).text(), row as int, col as int),
            final(self).file_path == old(self).file_path,
    {
        if self.lines.len() == 0 {
            self.lines.push(Vec::new());
            self.lines.push(Vec::new());
            proof {
                assert(self.text() =~~= split_at_text(old(self).text(), row as int, col as int));
            }
        } else {
            let line = self.lines.remove(row);
            let left = copy_range(&line, 0, col);
            let right = copy_range(&line, col, line.len());
            self.lines.insert(row, left);
            self.lines.insert(row + 1, right);
            proof {
                assert(old(self).text()[row as int].take(col as int) == old(
                    self,
                ).text()[row as int].subrange(0, col as int));
                assert(old(self).text()[row as int].skip(col as int) == old(
                    self,
                ).text()[row as int].subrange(
                    col as int,
                    old(self).text()[row as int].len() as int,
                ));
                assert(self.text() =~~= split_at_text(old(self).text(), row as int, col as int));
            }
        }
    }

    /// Removes the character at offset `col` of the line at `row`.
    pub fn remove_char(&mut self, row: usize, col: usize)
        requires
            row < old(self).text().len(),
            col < old(self).text()[row as int].len(),
        ensures
            final(self).text() == old(self).text().update(
                row as int,
                old(self).text()[row as int].remove(col as int),
            ),
            final(self).file_path == old(self).file_path,
    {
        let mut line = self.lines.remove(row);
        line.remove(col);
        self.lines.insert(row, line);
        proof {
            assert(self.text() =~~= old(self).text().update(
                row as int,
                old(self).text()[row as int].remove(col as int),
            ));
        }
    }

    /// Appends the line at `row` onto the line before it, removes the line at
    /// `row`, and reports the former length of the previous line, which is
    /// where the merge point now sits.
    pub fn merge_with_previous(&mut self, row: usize) -> (prev_len: usize)
        requires
            1 <= row < old(self).text().len(),
        ensures
            final(self).text() == merged_text(old(self).text(), row as int),
            prev_len == old(self).text()[row as int - 1].len(),
            final(self).file_path == old(self).file_path,
    {
        let cur = self.lines.remove(row);
        let prev = self.lines.remove(row - 1);
        let prev_len = prev.len();
        let merged = concat_chars(&prev, &cur);
        self.lines.insert(row - 1, merged);
        proof {
            assert(self.text() =~~= merged_text(old(self).text(), row as int));
        }
        prev_len
    }
}

} // verus!
