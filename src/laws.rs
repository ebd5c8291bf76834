//! What holds of every sequence of movements.

use crate::input::{Action, ModeView};
use crate::view::{
    abs_col, abs_row, apply_spec, clamp_row, fits, lemma_step, repeat, Dir, Geo, Pos, State,
};
use vstd::prelude::*;

verus! {

/// Where `n` unit steps in one direction lead: the absolute coordinate moves
/// by `n`, stopping at row 0 / column 0, at the buffer's last line, or at the
/// largest column; the other coordinate stays.
pub proof fn lemma_repeat(p: Pos, g: Geo, d: Dir, n: nat)
    requires
        fits(p, g),
    ensures
        fits(repeat(p, g, d, n), g),
        d is Up ==> abs_row(repeat(p, g, d, n)) == if abs_row(p) >= n {
            abs_row(p) - n
        } else {
            0
        } && abs_col(repeat(p, g, d, n)) == abs_col(p),
        d is Down ==> abs_row(repeat(p, g, d, n)) == if abs_row(p) + n < g.len {
            abs_row(p) + n
        } else {
            clamp_row(abs_row(p) + n, g.len)
        } && abs_col(repeat(p, g, d, n)) == abs_col(p),
        d is Left ==> abs_col(repeat(p, g, d, n)) == if abs_col(p) >= n {
            abs_col(p) - n
        } else {
            0
        } && abs_row(repeat(p, g, d, n)) == abs_row(p),
        d is Right ==> abs_col(repeat(p, g, d, n)) == if abs_col(p) + n <= usize::MAX {
            abs_col(p) + n
        } else {
            usize::MAX as int
        } && abs_row(repeat(p, g, d, n)) == abs_row(p),
    decreases n,
{
    if n > 0 {
        lemma_repeat(p, g, d, (n - 1) as nat);
        lemma_step(repeat(p, g, d, (n - 1) as nat), g, d);
    }
}

/// A jump to (row, col) ends in exactly the state that the equivalent count
/// of unit vertical steps, then of unit horizontal steps, reaches from the
/// same state; it lands on the clamped row and on the column.
pub proof fn jump_is_unit_steps(p: Pos, g: Geo, row: usize, col: usize)
    requires
        fits(p, g),
    ensures
        ({
            let t = clamp_row(row as int, g.len);
            let vertical = if t >= abs_row(p) {
                Action::Down((t - abs_row(p)) as usize)
            } else {
                Action::Up((abs_row(p) - t) as usize)
            };
            let horizontal = if col >= abs_col(p) {
                Action::Right((col - abs_col(p)) as usize)
            } else {
                Action::Left((abs_col(p) - col) as usize)
            };
            let r = apply_spec(p, g, Action::Jump(row, col));
            &&& r == apply_spec(apply_spec(p, g, vertical), g, horizontal)
            &&& abs_row(r) == t
            &&& abs_col(r) == col
        }),
{
    let t = clamp_row(row as int, g.len);
    if t >= abs_row(p) {
        lemma_repeat(p, g, Dir::Down, (t - abs_row(p)) as nat);
    } else {
        lemma_repeat(p, g, Dir::Up, (abs_row(p) - t) as nat);
    }
    let q = if t >= abs_row(p) {
        repeat(p, g, Dir::Down, (t - abs_row(p)) as nat)
    } else {
        repeat(p, g, Dir::Up, (abs_row(p) - t) as nat)
    };
    if col >= abs_col(q) {
        lemma_repeat(q, g, Dir::Right, (col - abs_col(q)) as nat);
    } else {
        lemma_repeat(q, g, Dir::Left, (abs_col(q) - col) as nat);
    }
}

/// Moving up from the first row of the first window changes nothing, however
/// often it is repeated.
pub proof fn up_from_top_stays(p: Pos, g: Geo, n: nat)
    requires
        fits(p, g),
        p.crow == 0,
        p.srow == 0,
    ensures
        repeat(p, g, Dir::Up, n) == p,
    decreases n,
{
    if n > 0 {
        up_from_top_stays(p, g, (n - 1) as nat);
    }
}

/// However often the cursor moves down, it never passes the buffer's last
/// line (row 0 of an empty buffer).
pub proof fn down_stops_at_last_line(p: Pos, g: Geo, n: nat)
    requires
        fits(p, g),
    ensures
        g.len > 0 ==> abs_row(repeat(p, g, Dir::Down, n)) <= g.len - 1,
        g.len == 0 ==> repeat(p, g, Dir::Down, n) == p,
        abs_row(p) + n >= g.len > 0 ==> abs_row(repeat(p, g, Dir::Down, n)) == g.len - 1,
    decreases n,
{
    lemma_repeat(p, g, Dir::Down, n);
    if n > 0 {
        down_stops_at_last_line(p, g, (n - 1) as nat);
    }
}

/// Any action but `Cont` leaves the input in the normal mode.
pub proof fn event_ends_in_normal_mode(s: State, c: char)
    requires
        s.wf(),
    ensures
        s.transition(c).1 != Action::Cont ==> s.transition(c).0 == ModeView::Normal,
{
}

} // verus!
