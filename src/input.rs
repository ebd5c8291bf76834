//! Key input: the interpretation modes, the actions, and pending digit counts.

use crate::text::{pad_right, padded_right};
use vstd::prelude::*;
use vstd::string::*;

verus! {

/// A navigation request, the outcome of interpreting one input character.
#[derive(Clone, Copy, Debug, PartialEq, Eq, Structural)]
pub enum Action {
    Exit,
    Up(usize),
    Down(usize),
    Left(usize),
    Right(usize),
    /// An absolute target: (row, column), both 0-indexed.
    Jump(usize, usize),
    Cont,
}

/// Where the interpretation of a multi-character sequence stands.
pub enum Mode {
    Normal,
    /// An escape byte was read.
    Esc,
    /// Inside `ESC [`, with the digits read so far.
    Csi(String),
    /// After `g`, with the digits read so far.
    Goto(String),
}

/// The mathematical value of a `Mode`.
pub enum ModeView {
    Normal,
    Esc,
    Csi(Seq<char>),
    Goto(Seq<char>),
}

impl View for Mode {
    type V = ModeView;

    open spec fn view(&self) -> ModeView {
        match self {
            Mode::Normal => ModeView::Normal,
            Mode::Esc => ModeView::Esc,
            Mode::Csi(s) => ModeView::Csi(s@),
            Mode::Goto(s) => ModeView::Goto(s@),
        }
    }
}

pub open spec fn is_digit(c: char) -> bool {
    '0' <= c <= '9'
}

pub open spec fn all_digits(s: Seq<char>) -> bool {
    forall|i: int| 0 <= i < s.len() ==> is_digit(#[trigger] s[i])
}

/// Pending digits are digits only.
pub open spec fn mode_ok(m: ModeView) -> bool {
    match m {
        ModeView::Csi(s) => all_digits(s),
        ModeView::Goto(s) => all_digits(s),
        _ => true,
    }
}

/// The number that a string of decimal digits spells.
pub open spec fn digits_value(s: Seq<char>) -> nat
    decreases s.len(),
{
    if s.len() == 0 {
        0
    } else {
        digits_value(s.drop_last()) * 10 + ((s.last() as u32) - 48) as nat
    }
}

/// A number capped at the largest `usize`.
pub open spec fn saturate(n: nat) -> usize {
    if n <= usize::MAX {
        n as usize
    } else {
        usize::MAX
    }
}

/// The repeat count of a CSI sequence: 1 where no digit was given.
pub open spec fn csi_count(s: Seq<char>) -> usize {
    if s.len() == 0 {
        1
    } else {
        saturate(digits_value(s))
    }
}

/// The 0-indexed row of a `g`-digits-`g` jump: the 1-indexed line less one,
/// row 0 where no digit (or only zeros) was given.
pub open spec fn goto_row(s: Seq<char>) -> usize {
    if saturate(digits_value(s)) == 0 {
        0
    } else {
        (saturate(digits_value(s)) - 1) as usize
    }
}

/// The status-bar indicator of a mode: four characters or more.
pub open spec fn mode_text(m: ModeView) -> Seq<char> {
    match m {
        ModeView::Normal => seq![' ', ' ', ' ', ' '],
        ModeView::Esc => seq!['E', 'S', 'C', ' '],
        ModeView::Csi(s) => seq!['C', 'S', 'I', ' '] + s,
        ModeView::Goto(s) => seq!['g'] + pad_right(s, 3),
    }
}

/// The value of the decimal digits `s`, capped at the largest `usize`.
pub fn parse_digits(s: &str) -> (r: usize)
    requires
        all_digits(s@),
    ensures
        r == saturate(digits_value(s@)),
{
    let len = s.unicode_len();
    let mut acc: usize = 0;
    let mut i: usize = 0;
    while i < len
        invariant
            len == s@.len(),
            i <= len,
            all_digits(s@),
            acc == saturate(digits_value(s@.subrange(0, i as int))),
        decreases len - i,
    {
        let c = s.get_char(i);
        assert(is_digit(s@[i as int]));
        let d = ((c as u32) - 48) as usize;
        let ghost pre = s@.subrange(0, i as int);
        let ghost next = s@.subrange(0, i + 1);
        assert(next.drop_last() =~= pre);
        assert(digits_value(next) == digits_value(pre) * 10 + d);
        if (acc as u128) * 10 + (d as u128) <= usize::MAX as u128 {
            acc = acc * 10 + d;
        } else {
            proof {
                if digits_value(pre) <= usize::MAX {
                    assert(digits_value(pre) == acc);
                } else {
                    assert(digits_value(pre) * 10 >= digits_value(pre)) by (nonlinear_arith);
                }
            }
            acc = usize::MAX;
        }
        i = i + 1;
    }
    assert(s@.subrange(0, len as int) =~= s@);
    acc
}

impl Mode {
    /// The status-bar indicator of this mode.
    pub fn to_string(&self) -> (r: String)
        ensures
            r@ == mode_text(self@),
    {
        match self {
            Mode::Normal => {
                proof { reveal_strlit("    "); }
                String::from_str("    ")
            },
            Mode::Esc => {
                proof { reveal_strlit("ESC "); }
                String::from_str("ESC ")
            },
            Mode::Csi(s) => {
                proof { reveal_strlit("CSI "); }
                let mut r = String::from_str("CSI ");
                r.append(s.as_str());
                r
            },
            Mode::Goto(s) => {
                proof { reveal_strlit("g"); }
                let mut r = String::from_str("g");
                let p = padded_right(s.as_str(), 3);
                r.append(p.as_str());
                r
            },
        }
    }

    pub fn is_normal(&self) -> (r: bool)
        ensures
            r == (self@ == ModeView::Normal),
    {
        match self {
            Mode::Normal => true,
            _ => false,
        }
    }
}

} // verus!
