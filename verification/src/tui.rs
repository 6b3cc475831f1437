//! The navigation and viewport engine: owns the document lines, the cursor,
//! and the scroll offsets; consumes discrete motion commands and exposes what
//! a renderer needs (visible lines, on-screen cursor coordinates).
//!
//! A document is a non-empty sequence of lines, each a sequence of
//! characters. The cursor always sits on a valid cell: its row indexes a
//! line, and its column is at most the line's last index (column 0 on an
//! empty line). The vertical scroll offset always keeps the cursor row
//! inside the window of `rows` visible rows.

use crate::util::{Direction, Point};
use vstd::prelude::*;

verus! {

/// The closed set of discrete commands the engine accepts.
#[derive(Clone, Copy, PartialEq, Eq, Structural, Debug)]
pub enum MotionCommand {
    StepLeft,
    StepRight,
    StepUp,
    StepDown,
    WordForward,
    WordBackward,
    LineStart,
    LineEnd,
    Quit,
}

/// Whether `c` has the Unicode white-space property, as
/// `char::is_whitespace` decides it: a function of the character alone.
pub uninterp spec fn is_white(c: char) -> bool;

/// Relies on `char::is_whitespace`: returns whether the character has the
/// Unicode white-space property, determined by the character alone.
#[verifier::external_body]
fn char_is_white(c: char) -> (r: bool)
    ensures
        r == is_white(c),
{
    c.is_whitespace()
}

/// Whether `c` separates words for word-wise motion.
pub open spec fn is_delim(c: char) -> bool {
    c == ' '
}

/// The last valid cursor column of a line: its last index, or 0 if empty.
pub open spec fn line_max_col(line: Seq<char>) -> int {
    if line.len() == 0 {
        0
    } else {
        line.len() - 1
    }
}

/// Whether `col` is a valid cursor column for `line`.
pub open spec fn valid_col(line: Seq<char>, col: int) -> bool {
    0 <= col <= line_max_col(line)
}

/// The first index at or after `i` holding a non-whitespace character.
pub open spec fn first_nonblank_from(line: Seq<char>, i: int) -> Option<int>
    decreases line.len() - i when 0 <= i <= line.len()
{
    if i >= line.len() {
        None
    } else if !is_white(line[i]) {
        Some(i)
    } else {
        first_nonblank_from(line, i + 1)
    }
}

/// The column of the first non-whitespace character of a line, if any.
pub open spec fn first_nonblank(line: Seq<char>) -> Option<int> {
    first_nonblank_from(line, 0)
}

/// A line is blank when it holds no non-whitespace character.
pub open spec fn is_blank(line: Seq<char>) -> bool {
    first_nonblank(line) is None
}

/// The first index at or after `i` holding a word delimiter.
pub open spec fn first_delim_from(line: Seq<char>, i: int) -> Option<int>
    decreases line.len() - i when 0 <= i <= line.len()
{
    if i >= line.len() {
        None
    } else if is_delim(line[i]) {
        Some(i)
    } else {
        first_delim_from(line, i + 1)
    }
}

/// The last index before `col` holding a word delimiter.
pub open spec fn last_delim_before(line: Seq<char>, col: int) -> Option<int>
    decreases col when 0 <= col
{
    if col <= 0 {
        None
    } else if is_delim(line[col - 1]) {
        Some(col - 1)
    } else {
        last_delim_before(line, col - 1)
    }
}

/// The view of a vector of lines as a sequence of character sequences.
pub open spec fn lines_view(lines: Seq<Vec<char>>) -> Seq<Seq<char>> {
    Seq::new(lines.len(), |i: int| lines[i]@)
}

/// Scans for the first non-whitespace character of `line`.
fn first_nonblank_col(line: &Vec<char>) -> (r: Option<usize>)
    ensures
        match r {
            Some(i) => first_nonblank(line@) == Some(i as int),
            None => first_nonblank(line@) is None,
        },
{
    let mut i: usize = 0;
    while i < line.len()
        invariant
            i <= line@.len(),
            first_nonblank(line@) == first_nonblank_from(line@, i as int),
        decreases line@.len() - i,
    {
        if !char_is_white(line[i]) {
            return Some(i);
        }
        i = i + 1;
    }
    None
}

/// Scans for the first word delimiter of `line` at or after `from`.
fn first_delim_col(line: &Vec<char>, from: usize) -> (r: Option<usize>)
    requires
        from <= line@.len(),
    ensures
        match r {
            Some(i) => first_delim_from(line@, from as int) == Some(i as int) && from <= i
                < line@.len(),
            None => first_delim_from(line@, from as int) is None,
        },
{
    let mut i: usize = from;
    while i < line.len()
        invariant
            from <= i <= line@.len(),
            first_delim_from(line@, from as int) == first_delim_from(line@, i as int),
        decreases line@.len() - i,
    {
        if line[i] == ' ' {
            return Some(i);
        }
        i = i + 1;
    }
    None
}

/// How far the cursor may actually travel for a move of `times` in `dir`:
/// clamped so it cannot leave row 0, the last row, column 0, or the last
/// valid column of the current line.
pub open spec fn clamped_steps(doc: Seq<Seq<char>>, cur: Point, dir: Direction, times: nat) -> nat
    recommends
        0 < doc.len(),
        cur.y < doc.len(),
        valid_col(doc[cur.y as int], cur.x as int),
{
    let room: int = match dir {
        Direction::Up => cur.y as int,
        Direction::Down => doc.len() - 1 - cur.y,
        Direction::Left => cur.x as int,
        Direction::Right => line_max_col(doc[cur.y as int]) - cur.x,
    };
    if times <= room {
        times
    } else {
        room as nat
    }
}

/// Where vertical motion that landed on a blank row comes to rest: one row
/// further in the same direction while the row stays blank, stopping at the
/// document edge. Horizontal motion never changes the row.
pub open spec fn skip_blank(doc: Seq<Seq<char>>, row: int, dir: Direction) -> int
    decreases (if dir is Up { row } else { doc.len() - row }) when 0 <= row < doc.len()
{
    if !is_blank(doc[row]) {
        row
    } else if dir is Up && row > 0 {
        skip_blank(doc, row - 1, dir)
    } else if dir is Down && row < doc.len() - 1 {
        skip_blank(doc, row + 1, dir)
    } else {
        row
    }
}

/// The column a move lands on in a non-blank line: the previous column
/// clamped to the line, pulled right onto the first non-whitespace character
/// if it was left of it, and never past the last valid column.
pub open spec fn snap_col(line: Seq<char>, col: int) -> int
    recommends
        !is_blank(line),
{
    let cand = if col <= line_max_col(line) {
        col
    } else {
        line_max_col(line)
    };
    let f = first_nonblank(line)->Some_0;
    let raised = if f >= cand {
        f
    } else {
        cand
    };
    if raised <= line_max_col(line) {
        raised
    } else {
        line_max_col(line)
    }
}

/// The cursor after a directional move of `times` in `dir`: the clamped
/// shift, then the landing column re-derived for the landing row. A blank
/// landing row is skipped one row at a time in the same direction, stopping
/// at the document edge, and the column becomes 0.
pub open spec fn cursor_after(doc: Seq<Seq<char>>, cur: Point, dir: Direction, times: nat) -> Point
    recommends
        0 < doc.len(),
        cur.y < doc.len(),
        valid_col(doc[cur.y as int], cur.x as int),
{
    let moved = cur.moved(dir, clamped_steps(doc, cur, dir, times));
    let line = doc[moved.y as int];
    if is_blank(line) {
        Point { y: skip_blank(doc, moved.y as int, dir) as usize, x: 0 }
    } else {
        Point { y: moved.y, x: snap_col(line, moved.x as int) as usize }
    }
}

/// Scans backward from `col` for the last word delimiter before it.
fn last_delim_col(line: &Vec<char>, col: usize) -> (r: Option<usize>)
    requires
        col <= line@.len(),
    ensures
        match r {
            Some(i) => last_delim_before(line@, col as int) == Some(i as int) && i < col,
            None => last_delim_before(line@, col as int) is None,
        },
{
    let mut j: usize = col;
    while j > 0
        invariant
            j <= col <= line@.len(),
            last_delim_before(line@, col as int) == last_delim_before(line@, j as int),
        decreases j,
    {
        let k = j - 1;
        if line[k] == ' ' {
            return Some(k);
        }
        j = k;
    }
    None
}

/// The step count of word-forward motion from `col`: one past the next
/// delimiter at or after the cursor, or the whole line's length when the
/// line holds no further delimiter (motion never crosses the line's end).
pub open spec fn word_forward_steps(line: Seq<char>, col: int) -> int
    recommends
        valid_col(line, col),
{
    match first_delim_from(line, col) {
        Some(d) => d - col + 1,
        None => line.len() as int,
    }
}

/// The step count of word-backward motion from `col`: one short of the
/// distance to the nearest delimiter before the cursor, floored at zero, or
/// the distance to column 0 when no delimiter precedes the cursor.
pub open spec fn word_backward_steps(line: Seq<char>, col: int) -> int
    recommends
        valid_col(line, col),
{
    match last_delim_before(line, col) {
        Some(d) => {
            let p = col - 1 - d;
            if p == 0 {
                0
            } else {
                p - 1
            }
        },
        None => col,
    }
}

/// The cursor a command leaves behind, from `cur` over document `doc`.
pub open spec fn cursor_after_command(doc: Seq<Seq<char>>, cur: Point, cmd: MotionCommand) -> Point
    recommends
        0 < doc.len(),
        cur.y < doc.len(),
        valid_col(doc[cur.y as int], cur.x as int),
{
    match cmd {
        MotionCommand::StepLeft => cursor_after(doc, cur, Direction::Left, 1),
        MotionCommand::StepRight => cursor_after(doc, cur, Direction::Right, 1),
        MotionCommand::StepUp => cursor_after(doc, cur, Direction::Up, 1),
        MotionCommand::StepDown => cursor_after(doc, cur, Direction::Down, 1),
        MotionCommand::WordForward => cursor_after(
            doc,
            cur,
            Direction::Right,
            word_forward_steps(doc[cur.y as int], cur.x as int) as nat,
        ),
        MotionCommand::WordBackward => cursor_after(
            doc,
            cur,
            Direction::Left,
            word_backward_steps(doc[cur.y as int], cur.x as int) as nat,
        ),
        MotionCommand::LineStart => Point { y: cur.y, x: 0 },
        MotionCommand::LineEnd => Point {
            y: cur.y,
            x: line_max_col(doc[cur.y as int]) as usize,
        },
        MotionCommand::Quit => cur,
    }
}

/// The vertical scroll offset after a recompute: pulled up to the cursor row
/// when the cursor is above the window, down to `cursor_y - (rows - 1)` when
/// it is below, and unchanged when the cursor is already visible.
pub open spec fn scroll_after(scrolly: int, cursor_y: int, rows: int) -> int
    recommends
        rows >= 1,
{
    if cursor_y < scrolly {
        cursor_y
    } else if cursor_y > scrolly + rows - 1 {
        cursor_y - (rows - 1)
    } else {
        scrolly
    }
}

/// Copies a line character by character.
fn clone_line(line: &Vec<char>) -> (r: Vec<char>)
    ensures
        r@ == line@,
{
    let mut r: Vec<char> = Vec::new();
    let mut i: usize = 0;
    while i < line.len()
        invariant
            i <= line@.len(),
            r@ == line@.subrange(0, i as int),
        decreases line@.len() - i,
    {
        r.push(line[i]);
        i = i + 1;
        proof {
            assert(r@ =~= line@.subrange(0, i as int));
        }
    }
    proof {
        assert(r@ =~= line@);
    }
    r
}

/// Walks one row at a time in `dir` while the row is blank, stopping at a
/// non-blank row or at the document edge.
fn skip_blank_row(lines: &Vec<Vec<char>>, row: usize, dir: Direction) -> (r: usize)
    requires
        row < lines@.len(),
    ensures
        r < lines@.len(),
        r as int == skip_blank(lines_view(lines@), row as int, dir),
    decreases (if dir is Up {
        row as int
    } else {
        lines@.len() - row
    }),
{
    let nonblank = first_nonblank_col(&lines[row]);
    if nonblank.is_some() {
        row
    } else {
        match dir {
            Direction::Up => {
                if row > 0 {
                    skip_blank_row(lines, row - 1, dir)
                } else {
                    row
                }
            },
            Direction::Down => {
                if row < lines.len() - 1 {
                    skip_blank_row(lines, row + 1, dir)
                } else {
                    row
                }
            },
            _ => row,
        }
    }
}

/// The command bound to a key character, if any: the vim-like bindings
/// `h j k l` for steps, `w b` for words, `a` for line end, `_` and `0` for
/// line start, and `q` to quit.
pub open spec fn spec_command_of_char(c: char) -> Option<MotionCommand> {
    if c == 'q' {
        Some(MotionCommand::Quit)
    } else if c == 'h' {
        Some(MotionCommand::StepLeft)
    } else if c == 'j' {
        Some(MotionCommand::StepDown)
    } else if c == 'k' {
        Some(MotionCommand::StepUp)
    } else if c == 'l' {
        Some(MotionCommand::StepRight)
    } else if c == 'w' {
        Some(MotionCommand::WordForward)
    } else if c == 'b' {
        Some(MotionCommand::WordBackward)
    } else if c == 'a' {
        Some(MotionCommand::LineEnd)
    } else if c == '_' || c == '0' {
        Some(MotionCommand::LineStart)
    } else {
        None
    }
}

/// Maps a pressed key character to the motion command it is bound to;
/// unbound keys map to nothing.
pub fn command_of_char(c: char) -> (r: Option<MotionCommand>)
    ensures
        r == spec_command_of_char(c),
{
    match c {
        'q' => Some(MotionCommand::Quit),
        'h' => Some(MotionCommand::StepLeft),
        'j' => Some(MotionCommand::StepDown),
        'k' => Some(MotionCommand::StepUp),
        'l' => Some(MotionCommand::StepRight),
        'w' => Some(MotionCommand::WordForward),
        'b' => Some(MotionCommand::WordBackward),
        'a' => Some(MotionCommand::LineEnd),
        '_' | '0' => Some(MotionCommand::LineStart),
        _ => None,
    }
}

/// The navigation and viewport engine for one viewing session.
pub struct TuiCTX {
    pub cursor: Point,
    pub lines: Vec<Vec<char>>,
    pub should_quit: bool,
    pub scrollx: usize,
    pub scrolly: usize,
    pub cols: usize,
    pub rows: usize,
}

impl TuiCTX {
    /// The document: the loaded lines as sequences of characters.
    pub open spec fn doc(&self) -> Seq<Seq<char>> {
        lines_view(self.lines@)
    }

    /// The cursor and document invariant: at least one line, positive
    /// terminal capacity, the cursor on a valid cell, and the scroll
    /// offsets in range (horizontal scrolling is never exercised).
    pub open spec fn cursor_wf(&self) -> bool {
        &&& 0 < self.doc().len()
        &&& self.rows >= 1
        &&& self.cols >= 1
        &&& self.scrollx == 0
        &&& (self.scrolly as int) < self.doc().len()
        &&& (self.cursor.y as int) < self.doc().len()
        &&& valid_col(self.doc()[self.cursor.y as int], self.cursor.x as int)
    }

    /// The viewport invariant: the cursor row lies inside the window of
    /// `rows` rows starting at the vertical scroll offset.
    pub open spec fn viewport_wf(&self) -> bool {
        &&& self.scrolly <= self.cursor.y
        &&& self.cursor.y <= self.scrolly + self.rows - 1
    }

    /// Every reachable state is well formed: valid cursor, visible cursor.
    pub open spec fn wf(&self) -> bool {
        self.cursor_wf() && self.viewport_wf()
    }

    /// Builds an engine over `lines` for a terminal of `cols` by `rows`
    /// cells. The document must hold at least one line and the terminal at
    /// least one row and column; the loader rejects anything else.
    pub fn new(lines: Vec<Vec<char>>, cols: usize, rows: usize) -> (t: TuiCTX)
        requires
            lines@.len() >= 1,
            cols >= 1,
            rows >= 1,
        ensures
            t.wf(),
            t.doc() == lines_view(lines@),
            t.cursor == (Point { y: 0, x: 0 }),
            t.scrollx == 0,
            t.scrolly == 0,
            t.cols == cols,
            t.rows == rows,
            !t.should_quit,
    {
        TuiCTX {
            lines,
            cursor: Point::new(0, 0),
            should_quit: false,
            scrollx: 0,
            scrolly: 0,
            cols,
            rows,
        }
    }

    /// Whether a quit command has been seen; the session loop stops
    /// requesting commands once this is true.
    pub fn should_quit(&self) -> (r: bool)
        ensures
            r == self.should_quit,
    {
        self.should_quit
    }

    pub fn get_cursor(&self) -> (p: Point)
        ensures
            p == self.cursor,
    {
        self.cursor
    }

    /// Places the cursor at `point`, which must be a valid cell of the
    /// document; the caller recomputes the viewport afterwards.
    pub fn set_cursor(&mut self, point: Point)
        requires
            old(self).cursor_wf(),
            (point.y as int) < old(self).doc().len(),
            valid_col(old(self).doc()[point.y as int], point.x as int),
        ensures
            final(self).cursor_wf(),
            final(self).cursor == point,
            final(self).lines == old(self).lines,
            final(self).should_quit == old(self).should_quit,
            final(self).scrollx == old(self).scrollx,
            final(self).scrolly == old(self).scrolly,
            final(self).cols == old(self).cols,
            final(self).rows == old(self).rows,
    {
        self.cursor = point;
    }

    /// Moves the cursor `times` cells in `dir`, clamped at the document
    /// edges, then re-derives a valid column for the landing row: the column
    /// is kept, pulled onto the first non-whitespace character if it was in
    /// the indentation, and clamped to the line's last valid column. A blank
    /// landing row is skipped one row at a time in the same direction until
    /// a non-blank row or the document edge, with the column reset to 0.
    pub fn move_cursor(&mut self, dir: Direction, times: usize)
        requires
            old(self).cursor_wf(),
        ensures
            final(self).cursor_wf(),
            final(self).cursor == cursor_after(old(self).doc(), old(self).cursor, dir, times as nat),
            final(self).lines == old(self).lines,
            final(self).should_quit == old(self).should_quit,
            final(self).scrollx == old(self).scrollx,
            final(self).scrolly == old(self).scrolly,
            final(self).cols == old(self).cols,
            final(self).rows == old(self).rows,
    {
        let y = self.cursor.y();
        let x = self.cursor.x();
        let steps: usize = match dir {
            Direction::Up => if times <= y {
                times
            } else {
                y
            },
            Direction::Down => {
                let room = self.lines.len() - 1 - y;
                if times <= room {
                    times
                } else {
                    room
                }
            },
            Direction::Left => if times <= x {
                times
            } else {
                x
            },
            Direction::Right => {
                let len = self.lines[y].len();
                let maxc = if len == 0 {
                    0
                } else {
                    len - 1
                };
                let room = maxc - x;
                if times <= room {
                    times
                } else {
                    room
                }
            },
        };
        self.cursor.move_dir(dir, steps);
        let row = self.cursor.y();
        match first_nonblank_col(&self.lines[row]) {
            Some(f) => {
                let len = self.lines[row].len();
                let maxc = if len == 0 {
                    0
                } else {
                    len - 1
                };
                let cx = self.cursor.x();
                let cand = if cx <= maxc {
                    cx
                } else {
                    maxc
                };
                let raised = if f >= cand {
                    f
                } else {
                    cand
                };
                let col = if raised <= maxc {
                    raised
                } else {
                    maxc
                };
                self.cursor.set_x(col);
            },
            None => {
                let dest = skip_blank_row(&self.lines, row, dir);
                self.cursor.set_y(dest);
                self.cursor.set_x(0);
            },
        }
    }

    /// The line the cursor currently sits on.
    pub fn current_line(&self) -> (r: &Vec<char>)
        requires
            self.cursor_wf(),
        ensures
            r@ == self.doc()[self.cursor.y as int],
    {
        &self.lines[self.cursor.y()]
    }

    /// Word-forward motion: a clamped move right by one past the next
    /// delimiter, or by the line's length when none follows the cursor.
    fn word_forward(&mut self)
        requires
            old(self).cursor_wf(),
        ensures
            final(self).cursor_wf(),
            final(self).cursor == cursor_after(
                old(self).doc(),
                old(self).cursor,
                Direction::Right,
                word_forward_steps(
                    old(self).doc()[old(self).cursor.y as int],
                    old(self).cursor.x as int,
                ) as nat,
            ),
            final(self).lines == old(self).lines,
            final(self).should_quit == old(self).should_quit,
            final(self).scrollx == old(self).scrollx,
            final(self).scrolly == old(self).scrolly,
            final(self).cols == old(self).cols,
            final(self).rows == old(self).rows,
    {
        let y = self.cursor.y();
        let x = self.cursor.x();
        let len = self.lines[y].len();
        let steps: usize = match first_delim_col(&self.lines[y], x) {
            Some(d) => d - x + 1,
            None => len,
        };
        self.move_cursor(Direction::Right, steps);
    }

    /// Word-backward motion: a clamped move left by one short of the
    /// distance to the nearest delimiter before the cursor (never a negative
    /// step), or by the distance to column 0 when none precedes it.
    fn word_backward(&mut self)
        requires
            old(self).cursor_wf(),
        ensures
            final(self).cursor_wf(),
            final(self).cursor == cursor_after(
                old(self).doc(),
                old(self).cursor,
                Direction::Left,
                word_backward_steps(
                    old(self).doc()[old(self).cursor.y as int],
                    old(self).cursor.x as int,
                ) as nat,
            ),
            final(self).lines == old(self).lines,
            final(self).should_quit == old(self).should_quit,
            final(self).scrollx == old(self).scrollx,
            final(self).scrolly == old(self).scrolly,
            final(self).cols == old(self).cols,
            final(self).rows == old(self).rows,
    {
        let y = self.cursor.y();
        let x = self.cursor.x();
        let steps: usize = match last_delim_col(&self.lines[y], x) {
            Some(d) => {
                let p = x - 1 - d;
                if p == 0 {
                    0
                } else {
                    p - 1
                }
            },
            None => x,
        };
        self.move_cursor(Direction::Left, steps);
    }

    /// Recomputes the vertical scroll offset so the cursor row stays inside
    /// the window: pulled up to the cursor when the cursor is above the
    /// window, down just far enough when it is below, otherwise unchanged.
    pub fn recompute_viewport(&mut self)
        requires
            old(self).cursor_wf(),
        ensures
            final(self).wf(),
            final(self).scrolly as int == scroll_after(
                old(self).scrolly as int,
                old(self).cursor.y as int,
                old(self).rows as int,
            ),
            final(self).cursor == old(self).cursor,
            final(self).lines == old(self).lines,
            final(self).should_quit == old(self).should_quit,
            final(self).scrollx == old(self).scrollx,
            final(self).cols == old(self).cols,
            final(self).rows == old(self).rows,
    {
        let y = self.cursor.y();
        if y < self.scrolly {
            self.scrolly = y;
        } else if y - self.scrolly > self.rows - 1 {
            self.scrolly = y - (self.rows - 1);
        }
    }

    /// The sole mutator of a session: applies one motion command, then
    /// recomputes the viewport. Once a quit command has been seen, further
    /// commands change nothing.
    pub fn apply_command(&mut self, cmd: MotionCommand)
        requires
            old(self).wf(),
        ensures
            final(self).wf(),
            final(self).lines == old(self).lines,
            final(self).scrollx == old(self).scrollx,
            final(self).cols == old(self).cols,
            final(self).rows == old(self).rows,
            old(self).should_quit ==> *final(self) == *old(self),
            !old(self).should_quit ==> {
                &&& final(self).should_quit == (cmd is Quit)
                &&& final(self).cursor == cursor_after_command(
                    old(self).doc(),
                    old(self).cursor,
                    cmd,
                )
                &&& final(self).scrolly as int == scroll_after(
                    old(self).scrolly as int,
                    final(self).cursor.y as int,
                    old(self).rows as int,
                )
            },
    {
        if self.should_quit {
            return ;
        }
        match cmd {
            MotionCommand::StepLeft => self.move_cursor(Direction::Left, 1),
            MotionCommand::StepRight => self.move_cursor(Direction::Right, 1),
            MotionCommand::StepUp => self.move_cursor(Direction::Up, 1),
            MotionCommand::StepDown => self.move_cursor(Direction::Down, 1),
            MotionCommand::WordForward => self.word_forward(),
            MotionCommand::WordBackward => self.word_backward(),
            MotionCommand::LineStart => self.cursor.set_x(0),
            MotionCommand::LineEnd => {
                let len = self.lines[self.cursor.y()].len();
                let c = if len == 0 {
                    0
                } else {
                    len - 1
                };
                self.cursor.set_x(c);
            },
            MotionCommand::Quit => {
                self.should_quit = true;
            },
        }
        self.recompute_viewport();
    }

    /// One past the last visible row: the scroll offset plus the window
    /// height, stopping at the document's end.
    pub open spec fn visible_end(&self) -> int {
        if self.doc().len() < self.scrolly + self.rows {
            self.doc().len() as int
        } else {
            self.scrolly + self.rows
        }
    }

    /// The slice of document lines the renderer draws, top to bottom: from
    /// the vertical scroll offset through the last row of the window that
    /// still lies inside the document. Re-derived on every call.
    pub fn visible_rows(&self) -> (r: Vec<Vec<char>>)
        requires
            self.wf(),
        ensures
            lines_view(r@) == self.doc().subrange(self.scrolly as int, self.visible_end()),
    {
        let remaining = self.lines.len() - self.scrolly;
        let count = if self.rows < remaining {
            self.rows
        } else {
            remaining
        };
        let end = self.scrolly + count;
        let mut r: Vec<Vec<char>> = Vec::new();
        let mut i: usize = self.scrolly;
        while i < end
            invariant
                self.scrolly <= i <= end,
                end == self.scrolly + count,
                count <= self.lines@.len() - self.scrolly,
                end as int == self.visible_end(),
                self.wf(),
                r@.len() == i - self.scrolly,
                forall|k: int|
                    0 <= k < r@.len() ==> r@[k]@ == self.doc()[self.scrolly + k],
            decreases end - i,
        {
            r.push(clone_line(&self.lines[i]));
            i = i + 1;
        }
        proof {
            assert(lines_view(r@) =~= self.doc().subrange(self.scrolly as int, self.visible_end()));
        }
        r
    }

    /// The coordinates the renderer places the terminal cursor at: the
    /// cursor position relative to the scroll offsets.
    pub fn screen_cursor(&self) -> (p: Point)
        requires
            self.wf(),
        ensures
            p.x as int == self.cursor.x - self.scrollx,
            p.y as int == self.cursor.y - self.scrolly,
    {
        Point::new(self.cursor.x() - self.scrollx, self.cursor.y() - self.scrolly)
    }
}

/// A non-whitespace character found at or after `i` lies inside the line,
/// no earlier than `i`, and is itself not whitespace.
pub proof fn lemma_first_nonblank_from_bounds(line: Seq<char>, i: int)
    requires
        0 <= i <= line.len(),
    ensures
        first_nonblank_from(line, i) matches Some(f) ==> i <= f < line.len() && !is_white(line[f]),
    decreases line.len() - i,
{
    if i < line.len() && is_white(line[i]) {
        lemma_first_nonblank_from_bounds(line, i + 1);
    }
}

/// Blank-line policy law: the skip never leaves the document, moves only in
/// the direction asked (and not at all for horizontal motion), and comes to
/// rest on a blank row only when it has run into the document edge.
pub proof fn lemma_skip_blank_policy(doc: Seq<Seq<char>>, row: int, dir: Direction)
    requires
        0 <= row < doc.len(),
    ensures
        0 <= skip_blank(doc, row, dir) < doc.len(),
        dir is Up ==> skip_blank(doc, row, dir) <= row,
        dir is Down ==> skip_blank(doc, row, dir) >= row,
        !(dir is Up) && !(dir is Down) ==> skip_blank(doc, row, dir) == row,
        is_blank(doc[skip_blank(doc, row, dir)]) ==> match dir {
            Direction::Up => skip_blank(doc, row, dir) == 0,
            Direction::Down => skip_blank(doc, row, dir) == doc.len() - 1,
            _ => skip_blank(doc, row, dir) == row,
        },
    decreases (if dir is Up {
        row
    } else {
        doc.len() - row
    }),
{
    if is_blank(doc[row]) {
        if dir is Up && row > 0 {
            lemma_skip_blank_policy(doc, row - 1, dir);
        } else if dir is Down && row < doc.len() - 1 {
            lemma_skip_blank_policy(doc, row + 1, dir);
        }
    }
}

/// Blank-line policy law: a directional move that lands on a blank row ends
/// at column 0, on a row that is not blank unless every row from the landing
/// point to the document edge in the direction of motion is blank.
pub proof fn lemma_blank_landing(doc: Seq<Seq<char>>, cur: Point, dir: Direction, times: nat)
    requires
        0 < doc.len() <= usize::MAX,
        (cur.y as int) < doc.len(),
        valid_col(doc[cur.y as int], cur.x as int),
        is_blank(doc[cur.moved(dir, clamped_steps(doc, cur, dir, times)).y as int]),
    ensures
        cursor_after(doc, cur, dir, times).x == 0,
        is_blank(doc[cursor_after(doc, cur, dir, times).y as int]) ==> match dir {
            Direction::Up => cursor_after(doc, cur, dir, times).y == 0,
            Direction::Down => cursor_after(doc, cur, dir, times).y as int == doc.len() - 1,
            _ => cursor_after(doc, cur, dir, times).y == cur.y,
        },
{
    let landing = cur.moved(dir, clamped_steps(doc, cur, dir, times));
    lemma_skip_blank_policy(doc, landing.y as int, dir);
}

/// Boundary law: a step up with the cursor on row 0 leaves the row at 0.
pub proof fn lemma_step_up_at_top(doc: Seq<Seq<char>>, cur: Point)
    requires
        0 < doc.len(),
        cur.y == 0,
        valid_col(doc[cur.y as int], cur.x as int),
    ensures
        cursor_after(doc, cur, Direction::Up, 1).y == 0,
{
}

/// Boundary law: a step down with the cursor on the last row leaves the row
/// on the last row.
pub proof fn lemma_step_down_at_bottom(doc: Seq<Seq<char>>, cur: Point)
    requires
        0 < doc.len(),
        cur.y as int == doc.len() - 1,
        valid_col(doc[cur.y as int], cur.x as int),
    ensures
        cursor_after(doc, cur, Direction::Down, 1).y as int == doc.len() - 1,
{
}

/// Boundary law: a step left at column 0 is a no-op, provided the line's
/// content starts at column 0 or the line is blank. (On a line with leading
/// whitespace the landing column snaps onto the first non-whitespace
/// character instead.)
pub proof fn lemma_step_left_at_col0(doc: Seq<Seq<char>>, cur: Point)
    requires
        0 < doc.len(),
        (cur.y as int) < doc.len(),
        cur.x == 0,
        is_blank(doc[cur.y as int]) || first_nonblank(doc[cur.y as int]) == Some(0int),
    ensures
        cursor_after(doc, cur, Direction::Left, 1) == cur,
{
}

/// Boundary law: a step right at the last valid column of the cursor's line
/// is a no-op, provided the line has a non-whitespace character or is empty.
/// (On a whitespace-only line the blank-line policy resets the column to 0.)
pub proof fn lemma_step_right_at_line_end(doc: Seq<Seq<char>>, cur: Point)
    requires
        0 < doc.len(),
        (cur.y as int) < doc.len(),
        cur.x as int == line_max_col(doc[cur.y as int]),
        !is_blank(doc[cur.y as int]) || cur.x == 0,
    ensures
        cursor_after(doc, cur, Direction::Right, 1) == cur,
{
    let line = doc[cur.y as int];
    lemma_first_nonblank_from_bounds(line, 0);
}

} // verus!
