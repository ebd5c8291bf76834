//! What a frame shows: the window of lines with their numbers, the status
//! bar, and where the terminal cursor goes.

use crate::input::mode_text;
use crate::text::{concat, decimal, decimal_text, graphemes_of, pad_left, padded_left, skip_graphemes};
use crate::view::{abs_col, abs_row, State};
use vstd::prelude::*;
use vstd::string::*;

verus! {

/// The separator between a line number and the line.
pub open spec fn separator() -> Seq<char> {
    seq!['│', ' ']
}

/// The visible part of a line scrolled `n` clusters to the right.
pub open spec fn shown(line: Seq<char>, n: nat) -> Seq<char> {
    if n == 0 {
        line
    } else if n < graphemes_of(line).len() {
        concat(graphemes_of(line).subrange(n as int, graphemes_of(line).len() as int))
    } else {
        Seq::empty()
    }
}

impl State {
    /// The first buffer row shown.
    pub open spec fn first_shown(&self) -> int {
        self.scroll.1 as int
    }

    /// One past the last buffer row shown: the content window holds all
    /// terminal rows but the status bar.
    pub open spec fn end_shown(&self) -> int {
        let e = self.scroll.1 + self.term_size.1 - 1;
        if e < self.buf@.len() {
            e
        } else {
            self.buf@.len() as int
        }
    }

    /// The width of the line-number column: the digits of the last line
    /// number shown.
    pub open spec fn gutter_spec(&self) -> nat {
        decimal(self.end_shown() as nat).len()
    }

    /// The text of row `i` of the buffer as shown: its right-aligned number,
    /// the separator, and the line from the window's first column on.
    pub open spec fn row_text(&self, i: int) -> Seq<char> {
        pad_left(decimal((i + 1) as nat), self.gutter_spec()) + separator() + shown(
            self.buf@[i]@,
            self.scroll.0 as nat,
        )
    }

    /// The rows of the buffer in the window, as (first, one past the last).
    pub fn visible_range(&self) -> (r: (usize, usize))
        requires
            self.wf(),
        ensures
            r.0 == self.first_shown(),
            r.1 == self.end_shown(),
            r.0 <= r.1,
    {
        let start = self.scroll.1;
        let room = self.term_size.1 as usize - 1;
        let end = if room < self.buf.len() - start {
            start + room
        } else {
            self.buf.len()
        };
        (start, end)
    }

    /// The width of the line-number column.
    pub fn gutter_width(&self) -> (r: usize)
        requires
            self.wf(),
        ensures
            r == self.gutter_spec(),
            1 <= r <= 40,
    {
        let (_, end) = self.visible_range();
        let t = decimal_text(end as u128);
        proof {
            lemma_decimal_len(end as nat);
        }
        t.as_str().unicode_len()
    }

    /// The text of buffer row `i` as shown.
    pub fn row(&self, i: usize) -> (r: String)
        requires
            self.wf(),
            i < self.buf@.len(),
        ensures
            r@ == self.row_text(i as int),
    {
        let width = self.gutter_width();
        let number = decimal_text(i as u128 + 1);
        let mut r = padded_left(number.as_str(), width);
        proof {
            reveal_strlit("│ ");
        }
        r.append("│ ");
        let line = self.buf[i].as_str();
        if self.scroll.0 > 0 {
            let rest = skip_graphemes(line, self.scroll.0);
            r.append(rest.as_str());
        } else {
            r.append(line);
        }
        r
    }

    /// The rows of the window, top to bottom, as shown.
    pub fn frame_rows(&self) -> (r: Vec<String>)
        requires
            self.wf(),
        ensures
            r@.len() == self.end_shown() - self.first_shown(),
            forall|k: int|
                0 <= k < r@.len() ==> #[trigger] r@[k]@ == self.row_text(self.first_shown() + k),
    {
        let (start, end) = self.visible_range();
        let mut r: Vec<String> = Vec::new();
        let mut i: usize = start;
        while i < end
            invariant
                self.wf(),
                start == self.first_shown(),
                end == self.end_shown(),
                start <= i <= end,
                end <= self.buf@.len(),
                r@.len() == i - start,
                forall|k: int|
                    0 <= k < r@.len() ==> #[trigger] r@[k]@ == self.row_text(self.first_shown() + k),
            decreases end - i,
        {
            let line = self.row(i);
            r.push(line);
            i = i + 1;
        }
        r
    }

    /// The left part of the status bar: the mode indicator and the name of
    /// what is shown.
    pub fn status_left(&self, name: &str) -> (r: String)
        ensures
            r@ == mode_text(self.mode@) + seq![' '] + name@,
    {
        let mut r = self.mode.to_string();
        proof {
            reveal_strlit(" ");
        }
        r.append(" ");
        r.append(name);
        r
    }

    /// The right part of the status bar: `row:col` of the cursor in the
    /// buffer, 1-indexed.
    pub fn position_text(&self) -> (r: String)
        ensures
            r@ == decimal((abs_row(self.pos()) + 1) as nat) + seq![':'] + decimal(
                (abs_col(self.pos()) + 1) as nat,
            ),
    {
        let row = self.scroll.1 as u128 + self.cursor.1 as u128 + 1;
        let col = self.scroll.0 as u128 + self.cursor.0 as u128 + 1;
        let mut r = decimal_text(row);
        proof {
            reveal_strlit(":");
        }
        r.append(":");
        let c = decimal_text(col);
        r.append(c.as_str());
        r
    }

    /// The terminal column where a right-aligned text of `width` characters
    /// starts on the status bar (0 where it is wider than the terminal).
    pub fn right_aligned_column(&self, width: usize) -> (r: u16)
        ensures
            r == if width <= self.term_size.0 {
                self.term_size.0 - width
            } else {
                0
            },
    {
        if width <= self.term_size.0 as usize {
            self.term_size.0 - width as u16
        } else {
            0
        }
    }

    /// Where the terminal cursor goes: past the line-number column and the
    /// separator, at the cursor's place in the window, as (column, row).
    pub fn cursor_on_screen(&self) -> (r: (usize, u16))
        requires
            self.wf(),
        ensures
            r.0 == self.gutter_spec() + 2 + self.cursor.0,
            r.1 == self.cursor.1,
    {
        let w = self.gutter_width();
        (w + 2 + self.cursor.0 as usize, self.cursor.1)
    }
}

/// A decimal number has at least one and at most 40 digits below 10^40.
proof fn lemma_decimal_len(n: nat)
    requires
        n <= u128::MAX,
    ensures
        1 <= decimal(n).len() <= 40,
{
    reveal_with_fuel(pow10, 40);
    assert(pow10(39) == 1000000000000000000000000000000000000000nat);
    lemma_decimal_len_bound(n, 39);
}

proof fn lemma_decimal_len_bound(n: nat, k: nat)
    requires
        k >= 1,
        n < pow10(k),
    ensures
        1 <= decimal(n).len() <= k,
    decreases k,
{
    reveal_with_fuel(pow10, 2);
    if n >= 10 {
        assert(k > 1) by {
            if k == 1 {
                assert(pow10(1) == 10);
            }
        }
        assert(n / 10 < pow10((k - 1) as nat)) by {
            assert(pow10(k) == 10 * pow10((k - 1) as nat));
        }
        lemma_decimal_len_bound(n / 10, (k - 1) as nat);
    }
}

spec fn pow10(k: nat) -> nat
    decreases k,
{
    if k == 0 {
        1
    } else {
        10 * pow10((k - 1) as nat)
    }
}

} // verus!
