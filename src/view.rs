//! The view state and the deadzone scrolling engine.

use crate::input::{csi_count, goto_row, is_digit, mode_ok, parse_digits, Action, Mode, ModeView};
use crate::text::{is_white_space, push_char, white_space};
use vstd::prelude::*;

verus! {

/// Cursor (relative to the window) and scroll offset (origin of the window),
/// each as (row, column).
pub struct Pos {
    pub crow: int,
    pub ccol: int,
    pub srow: int,
    pub scol: int,
}

/// What a step depends on besides the position: the terminal's rows and
/// columns and the number of buffer lines.
pub struct Geo {
    pub rows: int,
    pub cols: int,
    pub len: int,
}

/// A unit movement.
#[derive(Clone, Copy, Debug, PartialEq, Eq, Structural)]
pub enum Dir {
    Up,
    Down,
    Left,
    Right,
}

pub open spec fn abs_row(p: Pos) -> int {
    p.srow + p.crow
}

pub open spec fn abs_col(p: Pos) -> int {
    p.scol + p.ccol
}

/// The cursor lies in the content window (the last terminal row is the
/// status bar) and every coordinate fits the machine types.
pub open spec fn geom(p: Pos, g: Geo) -> bool {
    &&& 2 <= g.rows <= u16::MAX
    &&& 1 <= g.cols <= u16::MAX
    &&& 0 <= g.len <= usize::MAX
    &&& 0 <= p.crow < g.rows - 1
    &&& 0 <= p.ccol < g.cols
    &&& 0 <= p.srow
    &&& 0 <= p.scol
    &&& abs_row(p) <= usize::MAX
    &&& abs_col(p) <= usize::MAX
}

/// The cursor addresses a buffer line, or the first row of an empty buffer.
pub open spec fn in_buf(p: Pos, g: Geo) -> bool {
    abs_row(p) == 0 || abs_row(p) < g.len
}

pub open spec fn fits(p: Pos, g: Geo) -> bool {
    geom(p, g) && in_buf(p, g)
}

/// One unit step, with deadzone scrolling: near the top (bottom) band the
/// window scrolls instead of the cursor moving, while there is more buffer
/// above (below); horizontally the window scrolls at the edges.
pub open spec fn step(p: Pos, g: Geo, d: Dir) -> Pos {
    let v = g.rows / 5;
    match d {
        Dir::Up => if p.crow <= v && p.srow > 0 {
            Pos { srow: p.srow - 1, ..p }
        } else if p.crow > 0 {
            Pos { crow: p.crow - 1, ..p }
        } else {
            p
        },
        Dir::Down => if abs_row(p) + 1 < g.len {
            if (p.crow >= 4 * v || p.crow + 2 >= g.rows) && p.srow + g.rows - 1 < g.len {
                Pos { srow: p.srow + 1, ..p }
            } else {
                Pos { crow: p.crow + 1, ..p }
            }
        } else {
            p
        },
        Dir::Left => if p.ccol == 0 && p.scol > 0 {
            Pos { scol: p.scol - 1, ..p }
        } else if p.ccol > 0 {
            Pos { ccol: p.ccol - 1, ..p }
        } else {
            p
        },
        Dir::Right => if abs_col(p) >= usize::MAX {
            p
        } else if p.ccol == g.cols - 1 {
            Pos { scol: p.scol + 1, ..p }
        } else {
            Pos { ccol: p.ccol + 1, ..p }
        },
    }
}

/// `n` unit steps in direction `d`.
pub open spec fn repeat(p: Pos, g: Geo, d: Dir, n: nat) -> Pos
    decreases n,
{
    if n == 0 {
        p
    } else {
        step(repeat(p, g, d, (n - 1) as nat), g, d)
    }
}

/// A jump target row, clamped to the buffer's last line.
pub open spec fn clamp_row(row: int, len: int) -> int {
    if row < len {
        row
    } else if len > 0 {
        len - 1
    } else {
        0
    }
}

/// Unit steps in direction `fwd` (or `back` where the target lies behind)
/// until `target` is reached along `coord`.
pub open spec fn seek(p: Pos, g: Geo, here: int, target: int, fwd: Dir, back: Dir) -> Pos {
    if target >= here {
        repeat(p, g, fwd, (target - here) as nat)
    } else {
        repeat(p, g, back, (here - target) as nat)
    }
}

/// A jump: the unit vertical steps to the clamped row, then the unit
/// horizontal steps to the column.
pub open spec fn jump(p: Pos, g: Geo, row: int, col: int) -> Pos {
    let q = seek(p, g, abs_row(p), clamp_row(row, g.len), Dir::Down, Dir::Up);
    seek(q, g, abs_col(q), col, Dir::Right, Dir::Left)
}

/// The position after an action.
pub open spec fn apply_spec(p: Pos, g: Geo, a: Action) -> Pos {
    match a {
        Action::Up(n) => repeat(p, g, Dir::Up, n as nat),
        Action::Down(n) => repeat(p, g, Dir::Down, n as nat),
        Action::Left(n) => repeat(p, g, Dir::Left, n as nat),
        Action::Right(n) => repeat(p, g, Dir::Right, n as nat),
        Action::Jump(r, c) => jump(p, g, r as int, c as int),
        _ => p,
    }
}

/// A unit step keeps the position in the window and, from a buffer line,
/// on a buffer line; vertical steps keep the column, horizontal ones the
/// row; each step moves its coordinate by one where it can.
pub proof fn lemma_step(p: Pos, g: Geo, d: Dir)
    requires
        geom(p, g),
    ensures
        geom(step(p, g, d), g),
        in_buf(p, g) ==> in_buf(step(p, g, d), g),
        (d is Up || d is Down) ==> abs_col(step(p, g, d)) == abs_col(p),
        (d is Left || d is Right) ==> abs_row(step(p, g, d)) == abs_row(p),
        d is Up ==> abs_row(step(p, g, d)) == if abs_row(p) > 0 {
            abs_row(p) - 1
        } else {
            0
        },
        d is Down && in_buf(p, g) ==> abs_row(step(p, g, d)) == if abs_row(p) + 1 < g.len {
            abs_row(p) + 1
        } else {
            abs_row(p)
        },
        d is Left ==> abs_col(step(p, g, d)) == if abs_col(p) > 0 {
            abs_col(p) - 1
        } else {
            0
        },
        d is Right ==> abs_col(step(p, g, d)) == if abs_col(p) < usize::MAX {
            abs_col(p) + 1
        } else {
            abs_col(p)
        },
{
}

/// The index of the first character of `s` from `i` on that is not white
/// space; 0 where there is none.
pub open spec fn first_non_space_from(s: Seq<char>, i: int) -> int
    decreases s.len() - i,
{
    if i < 0 || i >= s.len() {
        0
    } else if !is_white_space(s[i]) {
        i
    } else {
        first_non_space_from(s, i + 1)
    }
}

pub open spec fn first_non_space(s: Seq<char>) -> int {
    first_non_space_from(s, 0)
}

/// Whether `s` is the single digit `d`.
fn is_page_code(s: &str, d: char) -> (r: bool)
    ensures
        r == (s@ == seq![d]),
{
    if s.unicode_len() != 1 {
        return false;
    }
    let r = s.get_char(0) == d;
    assert(r ==> s@ =~= seq![d]);
    r
}

/// Once a step changes nothing, further steps change nothing.
proof fn lemma_repeat_fixed(p: Pos, g: Geo, d: Dir, i: nat, n: nat)
    requires
        i <= n,
        i > 0,
        repeat(p, g, d, i) == repeat(p, g, d, (i - 1) as nat),
    ensures
        repeat(p, g, d, n) == repeat(p, g, d, i),
    decreases n - i,
{
    if n > i {
        lemma_repeat_fixed(p, g, d, i, (n - 1) as nat);
    }
}

/// The view: the buffer, where the window and cursor stand, the terminal's
/// size as (columns, rows) and the input mode.
pub struct State {
    pub buf: Vec<String>,
    /// The cursor in the window, as (column, row).
    pub cursor: (u16, u16),
    /// The terminal, as (columns, rows); the last row is the status bar.
    pub term_size: (u16, u16),
    /// The window's origin in the buffer, as (column, row).
    pub scroll: (usize, usize),
    pub mode: Mode,
}

impl State {
    pub open spec fn pos(&self) -> Pos {
        Pos {
            crow: self.cursor.1 as int,
            ccol: self.cursor.0 as int,
            srow: self.scroll.1 as int,
            scol: self.scroll.0 as int,
        }
    }

    pub open spec fn geo(&self) -> Geo {
        Geo { rows: self.term_size.1 as int, cols: self.term_size.0 as int, len: self.buf@.len() as int }
    }

    pub open spec fn mode_view(&self) -> ModeView {
        self.mode@
    }

    pub open spec fn wf(&self) -> bool {
        fits(self.pos(), self.geo()) && mode_ok(self.mode@)
    }

    /// An empty view on a terminal of `cols` columns and `rows` rows.
    pub fn init(cols: u16, rows: u16) -> (r: State)
        requires
            rows >= 2,
            cols >= 1,
        ensures
            r.wf(),
            r.buf@.len() == 0,
            r.cursor == (0u16, 0u16),
            r.scroll == (0usize, 0usize),
            r.term_size == (cols, rows),
            r.mode_view() == ModeView::Normal,
    {
        State { buf: Vec::new(), cursor: (0, 0), term_size: (cols, rows), scroll: (0, 0), mode: Mode::Normal }
    }

    pub fn mode(&self) -> (r: &Mode)
        ensures
            r@ == self.mode_view(),
    {
        &self.mode
    }

    /// One step up: the row above, scrolling in the top band; nothing at
    /// row 0.
    pub fn up(&mut self)
        requires
            geom(old(self).pos(), old(self).geo()),
        ensures
            final(self).pos() == step(old(self).pos(), old(self).geo(), Dir::Up),
            abs_row(final(self).pos()) == if abs_row(old(self).pos()) > 0 {
                abs_row(old(self).pos()) - 1
            } else {
                0
            },
            abs_row(old(self).pos()) == 0 ==> final(self).cursor == old(self).cursor
                && final(self).scroll == old(self).scroll,
            final(self).buf == old(self).buf,
            final(self).term_size == old(self).term_size,
            final(self).mode == old(self).mode,
    {
        let vscroll = self.term_size.1 / 5;
        if self.cursor.1 <= vscroll && self.scroll.1 > 0 {
            self.scroll.1 = self.scroll.1 - 1;
        } else if self.cursor.1 > 0 {
            self.cursor.1 = self.cursor.1 - 1;
        }
    }

    /// One step down: the row below, scrolling in the bottom band while
    /// more buffer remains; nothing at the buffer's last line.
    pub fn down(&mut self)
        requires
            fits(old(self).pos(), old(self).geo()),
        ensures
            final(self).pos() == step(old(self).pos(), old(self).geo(), Dir::Down),
            abs_row(final(self).pos()) == if abs_row(old(self).pos()) + 1 < old(self).buf@.len() {
                abs_row(old(self).pos()) + 1
            } else {
                abs_row(old(self).pos())
            },
            fits(final(self).pos(), final(self).geo()),
            final(self).buf == old(self).buf,
            final(self).term_size == old(self).term_size,
            final(self).mode == old(self).mode,
    {
        let rows = self.term_size.1 as usize;
        let vscroll = self.term_size.1 / 5;
        let len = self.buf.len();
        let here = self.scroll.1 + self.cursor.1 as usize;
        if here < len && here + 1 < len {
            if (self.cursor.1 >= vscroll * 4 || self.cursor.1 as usize + 2 >= rows) && rows - 1
                < len - self.scroll.1 {
                self.scroll.1 = self.scroll.1 + 1;
            } else {
                self.cursor.1 = self.cursor.1 + 1;
            }
        }
    }

    /// One step left, scrolling at the left edge; nothing at column 0.
    pub fn left(&mut self)
        requires
            geom(old(self).pos(), old(self).geo()),
        ensures
            final(self).pos() == step(old(self).pos(), old(self).geo(), Dir::Left),
            final(self).buf == old(self).buf,
            final(self).term_size == old(self).term_size,
            final(self).mode == old(self).mode,
    {
        if self.cursor.0 == 0 && self.scroll.0 > 0 {
            self.scroll.0 = self.scroll.0 - 1;
        } else if self.cursor.0 > 0 {
            self.cursor.0 = self.cursor.0 - 1;
        }
    }

    /// One step right, scrolling at the right edge.
    pub fn right(&mut self)
        requires
            geom(old(self).pos(), old(self).geo()),
        ensures
            final(self).pos() == step(old(self).pos(), old(self).geo(), Dir::Right),
            final(self).buf == old(self).buf,
            final(self).term_size == old(self).term_size,
            final(self).mode == old(self).mode,
    {
        if self.scroll.0 < usize::MAX - self.cursor.0 as usize {
            if self.cursor.0 == self.term_size.0 - 1 {
                self.scroll.0 = self.scroll.0 + 1;
            } else {
                self.cursor.0 = self.cursor.0 + 1;
            }
        }
    }

    /// `n` unit steps in direction `d`; once a step changes nothing, the
    /// rest would not either, and are left out.
    fn repeat_step(&mut self, d: Dir, n: usize)
        requires
            old(self).wf(),
        ensures
            final(self).wf(),
            final(self).pos() == repeat(old(self).pos(), old(self).geo(), d, n as nat),
            final(self).buf == old(self).buf,
            final(self).term_size == old(self).term_size,
            final(self).mode == old(self).mode,
    {
        let ghost start = self.pos();
        let ghost g = self.geo();
        let ghost b = self.buf;
        let ghost t = self.term_size;
        let ghost m = self.mode;
        let mut i: usize = 0;
        while i < n
            invariant
                i <= n,
                self.wf(),
                self.geo() == g,
                self.buf == b,
                self.term_size == t,
                self.mode == m,
                self.pos() == repeat(start, g, d, i as nat),
                start == old(self).pos(),
                g == old(self).geo(),
                b == old(self).buf,
                t == old(self).term_size,
                m == old(self).mode,
            decreases n - i,
        {
            proof {
                lemma_step(self.pos(), g, d);
            }
            let before = (self.cursor, self.scroll);
            match d {
                Dir::Up => self.up(),
                Dir::Down => self.down(),
                Dir::Left => self.left(),
                Dir::Right => self.right(),
            }
            i = i + 1;
            if before.0.0 == self.cursor.0 && before.0.1 == self.cursor.1 && before.1.0 == self.scroll.0
                && before.1.1 == self.scroll.1 {
                proof {
                    lemma_repeat_fixed(start, g, d, i as nat, n as nat);
                }
                return;
            }
        }
    }

    /// Unit steps along rows (`vertical`) or columns until the absolute
    /// coordinate equals `target`.
    fn seek_to(&mut self, vertical: bool, target: usize)
        requires
            old(self).wf(),
            vertical ==> target == 0 || target < old(self).buf@.len(),
        ensures
            final(self).wf(),
            final(self).pos() == if vertical {
                seek(old(self).pos(), old(self).geo(), abs_row(old(self).pos()), target as int, Dir::Down, Dir::Up)
            } else {
                seek(old(self).pos(), old(self).geo(), abs_col(old(self).pos()), target as int, Dir::Right, Dir::Left)
            },
            vertical ==> abs_row(final(self).pos()) == target,
            !vertical ==> abs_col(final(self).pos()) == target,
            vertical ==> abs_col(final(self).pos()) == abs_col(old(self).pos()),
            final(self).buf == old(self).buf,
            final(self).term_size == old(self).term_size,
            final(self).mode == old(self).mode,
    {
        let ghost start = self.pos();
        let ghost g = self.geo();
        let ghost b = self.buf;
        let ghost t = self.term_size;
        let ghost m = self.mode;
        let here = if vertical { self.scroll.1 + self.cursor.1 as usize } else { self.scroll.0 + self.cursor.0 as usize };
        let (fwd, back) = if vertical { (Dir::Down, Dir::Up) } else { (Dir::Right, Dir::Left) };
        let ghost h0 = here as int;
        let ghost mut k: nat = 0;
        let mut cur: usize = here;
        while cur != target
            invariant
                self.wf(),
                self.geo() == g,
                self.buf == b,
                self.term_size == t,
                self.mode == m,
                vertical ==> target == 0 || target < g.len,
                vertical ==> cur == abs_row(self.pos()) && abs_col(self.pos()) == abs_col(start),
                !vertical ==> cur == abs_col(self.pos()),
                h0 <= target ==> h0 <= cur <= target && cur == h0 + k && self.pos() == repeat(start, g, fwd, k),
                h0 > target ==> target <= cur <= h0 && cur == h0 - k && self.pos() == repeat(start, g, back, k),
                fwd == (if vertical { Dir::Down } else { Dir::Right }),
                back == (if vertical { Dir::Up } else { Dir::Left }),
                h0 == if vertical { abs_row(start) } else { abs_col(start) },
            decreases if h0 <= target { target - cur } else { cur - target },
        {
            let d = if cur < target { fwd } else { back };
            proof {
                lemma_step(self.pos(), g, d);
                k = k + 1;
            }
            match d {
                Dir::Up => self.up(),
                Dir::Down => self.down(),
                Dir::Left => self.left(),
                Dir::Right => self.right(),
            }
            cur = if vertical { self.scroll.1 + self.cursor.1 as usize } else { self.scroll.0 + self.cursor.0 as usize };
        }
    }

    /// Carries out a navigation action.
    pub fn apply(&mut self, a: Action)
        requires
            old(self).wf(),
        ensures
            final(self).wf(),
            final(self).pos() == apply_spec(old(self).pos(), old(self).geo(), a),
            final(self).buf == old(self).buf,
            final(self).term_size == old(self).term_size,
            final(self).mode == old(self).mode,
    {
        match a {
            Action::Up(n) => self.repeat_step(Dir::Up, n),
            Action::Down(n) => self.repeat_step(Dir::Down, n),
            Action::Left(n) => self.repeat_step(Dir::Left, n),
            Action::Right(n) => self.repeat_step(Dir::Right, n),
            Action::Jump(row, col) => {
                let len = self.buf.len();
                let target = if row < len {
                    row
                } else if len > 0 {
                    len - 1
                } else {
                    0
                };
                self.seek_to(true, target);
                self.seek_to(false, col);
            },
            _ => {},
        }
    }

    /// Replaces the buffer with freshly produced lines and moves up until
    /// the cursor addresses a line of it (row 0 of an empty one).
    pub fn update(&mut self, lines: Vec<String>)
        requires
            old(self).wf(),
        ensures
            final(self).wf(),
            final(self).buf@ == lines@,
            final(self).term_size == old(self).term_size,
            final(self).mode == old(self).mode,
            abs_row(final(self).pos()) == clamp_row(abs_row(old(self).pos()), lines@.len() as int),
            final(self).pos() == repeat(
                old(self).pos(),
                final(self).geo(),
                Dir::Up,
                (abs_row(old(self).pos()) - clamp_row(abs_row(old(self).pos()), lines@.len() as int)) as nat,
            ),
            lines@.len() == 0 ==> final(self).cursor.1 == 0 && final(self).scroll.1 == 0,
    {
        let ghost start = self.pos();
        self.buf = lines;
        let ghost g = self.geo();
        let ghost t = self.term_size;
        let ghost m = self.mode;
        let last = if self.buf.len() > 0 { self.buf.len() - 1 } else { 0 };
        let ghost mut k: nat = 0;
        while self.scroll.1 + self.cursor.1 as usize > last
            invariant
                geom(self.pos(), g),
                mode_ok(self.mode@),
                self.geo() == g,
                self.buf@ == lines@,
                self.term_size == t,
                self.mode == m,
                last as int == if g.len > 0 { g.len - 1 } else { 0 },
                abs_row(self.pos()) == abs_row(start) - k,
                abs_row(self.pos()) >= last || abs_row(start) <= last,
                abs_row(start) <= last ==> k == 0,
                self.pos() == repeat(start, g, Dir::Up, k),
            decreases abs_row(self.pos()),
        {
            proof {
                lemma_step(self.pos(), g, Dir::Up);
                k = k + 1;
            }
            self.up();
        }
        proof {
            assert(abs_row(self.pos()) <= last);
            assert(abs_row(self.pos()) == clamp_row(abs_row(start), g.len));
            assert(k == (abs_row(start) - clamp_row(abs_row(start), g.len)) as nat);
        }
    }

    /// Takes a new terminal size, keeping the cursor inside the window.
    pub fn resize(&mut self, cols: u16, rows: u16)
        requires
            old(self).wf(),
            rows >= 2,
            cols >= 1,
        ensures
            final(self).wf(),
            final(self).term_size == (cols, rows),
            final(self).scroll == old(self).scroll,
            final(self).cursor.1 == if old(self).cursor.1 < rows - 1 { old(self).cursor.1 } else { (rows - 2) as u16 },
            final(self).cursor.0 == if old(self).cursor.0 < cols { old(self).cursor.0 } else { (cols - 1) as u16 },
            final(self).buf == old(self).buf,
            final(self).mode == old(self).mode,
    {
        self.term_size = (cols, rows);
        if self.cursor.1 >= rows - 1 {
            self.cursor.1 = rows - 2;
        }
        if self.cursor.0 >= cols {
            self.cursor.0 = cols - 1;
        }
    }

    /// The line under the cursor; empty where the buffer is.
    pub open spec fn current_line(&self) -> Seq<char> {
        if abs_row(self.pos()) < self.buf@.len() {
            self.buf@[abs_row(self.pos())]@
        } else {
            Seq::empty()
        }
    }

    /// The next mode and the action for input character `c`.
    pub open spec fn transition(&self, c: char) -> (ModeView, Action) {
        let here = abs_row(self.pos()) as usize;
        match self.mode@ {
            ModeView::Normal => if c == 'q' || c == '\x03' {
                (ModeView::Normal, Action::Exit)
            } else if c == 'j' {
                (ModeView::Normal, Action::Down(1))
            } else if c == 'k' {
                (ModeView::Normal, Action::Up(1))
            } else if c == 'h' {
                (ModeView::Normal, Action::Left(1))
            } else if c == 'l' {
                (ModeView::Normal, Action::Right(1))
            } else if c == '\x1b' {
                (ModeView::Esc, Action::Cont)
            } else if c == 'g' {
                (ModeView::Goto(Seq::empty()), Action::Cont)
            } else {
                (ModeView::Normal, Action::Cont)
            },
            ModeView::Esc => if c == '[' {
                (ModeView::Csi(Seq::empty()), Action::Cont)
            } else {
                (ModeView::Normal, Action::Cont)
            },
            ModeView::Csi(s) => if is_digit(c) {
                (ModeView::Csi(s.push(c)), Action::Cont)
            } else if c == 'a' {
                (ModeView::Normal, Action::Up(csi_count(s)))
            } else if c == 'b' {
                (ModeView::Normal, Action::Down(csi_count(s)))
            } else if c == 'c' {
                (ModeView::Normal, Action::Right(csi_count(s)))
            } else if c == 'd' {
                (ModeView::Normal, Action::Left(csi_count(s)))
            } else if c == '~' && s == seq!['5'] {
                (ModeView::Normal, Action::Up((self.term_size.1 - 1) as usize))
            } else if c == '~' && s == seq!['6'] {
                (ModeView::Normal, Action::Down((self.term_size.1 - 1) as usize))
            } else {
                (ModeView::Normal, Action::Cont)
            },
            ModeView::Goto(s) => if is_digit(c) {
                (ModeView::Goto(s.push(c)), Action::Cont)
            } else if c == 'g' {
                (ModeView::Normal, Action::Jump(goto_row(s), 0))
            } else if c == 'e' {
                (ModeView::Normal, Action::Jump(self.buf@.len() as usize, 0))
            } else if c == 'h' {
                (ModeView::Normal, Action::Jump(here, 0))
            } else if c == 'l' {
                (ModeView::Normal, Action::Jump(here, self.current_line().len() as usize))
            } else if c == 's' {
                (ModeView::Normal, Action::Jump(here, first_non_space(self.current_line()) as usize))
            } else {
                (ModeView::Normal, Action::Cont)
            },
        }
    }

    /// The index of the first non-white-space character of the line under
    /// the cursor, 0 where there is none.
    fn first_non_space_here(&self) -> (r: usize)
        requires
            self.wf(),
        ensures
            r as int == first_non_space(self.current_line()),
    {
        let here = self.scroll.1 + self.cursor.1 as usize;
        if here >= self.buf.len() {
            return 0;
        }
        let line = self.buf[here].as_str();
        let len = line.unicode_len();
        let mut i: usize = 0;
        while i < len
            invariant
                len == line@.len(),
                line@ == self.current_line(),
                i <= len,
                first_non_space_from(line@, 0) == first_non_space_from(line@, i as int),
            decreases len - i,
        {
            if !white_space(line.get_char(i)) {
                return i;
            }
            i = i + 1;
        }
        0
    }

    /// Reads one input character: moves to the next mode and gives the
    /// action that it completes (`Cont` where none).
    pub fn interpret(&mut self, c: char) -> (a: Action)
        requires
            old(self).wf(),
        ensures
            final(self).wf(),
            (final(self).mode@, a) == old(self).transition(c),
            a != Action::Cont ==> final(self).mode@ == ModeView::Normal,
            final(self).pos() == old(self).pos(),
            final(self).buf == old(self).buf,
            final(self).term_size == old(self).term_size,
    {
        let here = self.scroll.1 + self.cursor.1 as usize;
        let digit = '0' <= c && c <= '9';
        match &self.mode {
            Mode::Normal => {
                if c == 'q' || c == '\x03' {
                    Action::Exit
                } else if c == 'j' {
                    Action::Down(1)
                } else if c == 'k' {
                    Action::Up(1)
                } else if c == 'h' {
                    Action::Left(1)
                } else if c == 'l' {
                    Action::Right(1)
                } else if c == '\x1b' {
                    self.mode = Mode::Esc;
                    Action::Cont
                } else if c == 'g' {
                    self.mode = Mode::Goto(String::new());
                    Action::Cont
                } else {
                    Action::Cont
                }
            },
            Mode::Esc => {
                if c == '[' {
                    self.mode = Mode::Csi(String::new());
                } else {
                    self.mode = Mode::Normal;
                }
                Action::Cont
            },
            Mode::Csi(num) => {
                if digit {
                    let mut t = num.clone();
                    push_char(&mut t, c);
                    self.mode = Mode::Csi(t);
                    return Action::Cont;
                }
                let count = if num.as_str().unicode_len() == 0 {
                    1
                } else {
                    parse_digits(num.as_str())
                };
                let rows = self.term_size.1 as usize;
                let a = if c == 'a' {
                    Action::Up(count)
                } else if c == 'b' {
                    Action::Down(count)
                } else if c == 'c' {
                    Action::Right(count)
                } else if c == 'd' {
                    Action::Left(count)
                } else if c == '~' && is_page_code(num.as_str(), '5') {
                    Action::Up(rows - 1)
                } else if c == '~' && is_page_code(num.as_str(), '6') {
                    Action::Down(rows - 1)
                } else {
                    Action::Cont
                };
                self.mode = Mode::Normal;
                a
            },
            Mode::Goto(num) => {
                if digit {
                    let mut t = num.clone();
                    push_char(&mut t, c);
                    self.mode = Mode::Goto(t);
                    return Action::Cont;
                }
                let a = if c == 'g' {
                    let n = parse_digits(num.as_str());
                    Action::Jump(if n == 0 { 0 } else { n - 1 }, 0)
                } else if c == 'e' {
                    Action::Jump(self.buf.len(), 0)
                } else if c == 'h' {
                    Action::Jump(here, 0)
                } else if c == 'l' {
                    let end = if here < self.buf.len() {
                        self.buf[here].as_str().unicode_len()
                    } else {
                        0
                    };
                    Action::Jump(here, end)
                } else if c == 's' {
                    Action::Jump(here, self.first_non_space_here())
                } else {
                    Action::Cont
                };
                self.mode = Mode::Normal;
                a
            },
        }
    }

    /// Reads one input character and carries out the action it completes,
    /// which it returns; `Exit` is left to the caller.
    pub fn event(&mut self, c: char) -> (a: Action)
        requires
            old(self).wf(),
        ensures
            final(self).wf(),
            (final(self).mode@, a) == old(self).transition(c),
            a != Action::Cont ==> final(self).mode@ == ModeView::Normal,
            final(self).pos() == apply_spec(old(self).pos(), old(self).geo(), a),
            final(self).buf == old(self).buf,
            final(self).term_size == old(self).term_size,
    {
        let a = self.interpret(c);
        self.apply(a);
        a
    }
}

} // verus!
