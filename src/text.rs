//! Text helpers: decimal numbers, padding, grapheme clusters, whitespace.

use unicode_segmentation::UnicodeSegmentation;
use vstd::prelude::*;
use vstd::string::*;

verus! {

/// The extended grapheme clusters of a text, in order.
pub uninterp spec fn graphemes_of(s: Seq<char>) -> Seq<Seq<char>>;

/// Whether a character has the Unicode `White_Space` property.
pub open spec fn is_white_space(c: char) -> bool {
    let u = c as u32;
    ||| 0x09 <= u <= 0x0d
    ||| u == 0x20
    ||| u == 0x85
    ||| u == 0xa0
    ||| u == 0x1680
    ||| 0x2000 <= u <= 0x200a
    ||| u == 0x2028
    ||| u == 0x2029
    ||| u == 0x202f
    ||| u == 0x205f
    ||| u == 0x3000
}

/// The concatenation of a sequence of texts.
pub open spec fn concat(parts: Seq<Seq<char>>) -> Seq<char>
    decreases parts.len(),
{
    if parts.len() == 0 {
        Seq::empty()
    } else {
        concat(parts.drop_last()) + parts.last()
    }
}

/// The decimal digits of `n`, most significant first, with no leading zero.
pub open spec fn decimal(n: nat) -> Seq<char>
    decreases n,
{
    if n < 10 {
        seq![digit_char(n)]
    } else {
        decimal(n / 10).push(digit_char(n % 10))
    }
}

pub open spec fn digit_char(d: nat) -> char {
    ((d + 48) as u8) as char
}

/// `s` padded on the left with spaces to at least `width` characters.
pub open spec fn pad_left(s: Seq<char>, width: nat) -> Seq<char> {
    if s.len() >= width {
        s
    } else {
        Seq::new((width - s.len()) as nat, |i: int| ' ') + s
    }
}

/// `s` padded on the right with spaces to at least `width` characters.
pub open spec fn pad_right(s: Seq<char>, width: nat) -> Seq<char> {
    if s.len() >= width {
        s
    } else {
        s + Seq::new((width - s.len()) as nat, |i: int| ' ')
    }
}

/// Relies on `String::push`: appends one character.
#[verifier::external_body]
pub(crate) fn push_char(s: &mut String, c: char)
    ensures
        final(s)@ == old(s)@.push(c),
{
    s.push(c)
}

/// Relies on `char::is_whitespace`: whether `c` has the `White_Space`
/// property.
#[verifier::external_body]
pub(crate) fn white_space(c: char) -> (r: bool)
    ensures
        r == is_white_space(c),
{
    c.is_whitespace()
}

/// Relies on `UnicodeSegmentation::graphemes` with extended clusters: the
/// clusters of `s`, each as its own `String`; none is empty, and together
/// they are `s`.
#[verifier::external_body]
pub(crate) fn grapheme_clusters(s: &str) -> (r: Vec<String>)
    ensures
        r@.len() == graphemes_of(s@).len(),
        forall|i: int| 0 <= i < r@.len() ==> #[trigger] r@[i]@ == graphemes_of(s@)[i],
        forall|i: int| 0 <= i < r@.len() ==> #[trigger] r@[i]@.len() > 0,
        concat(views(r@)) == s@,
{
    s.graphemes(true).map(|g| g.to_string()).collect()
}

/// The decimal text of `n`.
pub fn decimal_text(n: u128) -> (r: String)
    ensures
        r@ == decimal(n as nat),
{
    // the low-order digits already written, most significant first
    let mut low: Vec<char> = Vec::new();
    let mut m: u128 = n;
    while m >= 10
        invariant
            decimal(n as nat) == decimal(m as nat) + low@,
        decreases m,
    {
        let d = (m % 10) as u8;
        let ghost before = low@;
        low.insert(0, ((d + 48) as u8) as char);
        proof {
            assert(decimal(m as nat) == decimal((m / 10) as nat).push(digit_char((m % 10) as nat)));
            assert(decimal(m as nat) + before =~= decimal((m / 10) as nat) + low@);
        }
        m = m / 10;
    }
    let mut r = String::new();
    push_char(&mut r, (((m as u8) + 48) as u8) as char);
    let mut i: usize = 0;
    while i < low.len()
        invariant
            i <= low@.len(),
            decimal(n as nat) == decimal(m as nat) + low@,
            m < 10,
            r@ == decimal(m as nat) + low@.subrange(0, i as int),
        decreases low@.len() - i,
    {
        push_char(&mut r, low[i]);
        i = i + 1;
        assert(r@ =~= decimal(m as nat) + low@.subrange(0, i as int));
    }
    assert(low@.subrange(0, i as int) =~= low@);
    r
}

/// A copy of `s` with `width - len` spaces before it.
pub fn padded_left(s: &str, width: usize) -> (r: String)
    ensures
        r@ == pad_left(s@, width as nat),
{
    let len = s.unicode_len();
    let mut r = String::new();
    let mut k: usize = len;
    while k < width
        invariant
            len == s@.len(),
            len <= k <= width || (k == len && len >= width),
            r@ == Seq::new((k - len) as nat, |i: int| ' '),
        decreases width - k,
    {
        push_char(&mut r, ' ');
        k = k + 1;
        assert(r@ =~= Seq::new((k - len) as nat, |i: int| ' '));
    }
    r.append(s);
    proof {
        if s@.len() >= width {
            assert(r@ =~= s@);
        }
    }
    r
}

/// A copy of `s` with `width - len` spaces after it.
pub fn padded_right(s: &str, width: usize) -> (r: String)
    ensures
        r@ == pad_right(s@, width as nat),
{
    let len = s.unicode_len();
    let mut r = String::from_str(s);
    let mut k: usize = len;
    while k < width
        invariant
            len == s@.len(),
            len <= k <= width || (k == len && len >= width),
            r@ == s@ + Seq::new((k - len) as nat, |i: int| ' '),
        decreases width - k,
    {
        push_char(&mut r, ' ');
        k = k + 1;
        assert(r@ =~= s@ + Seq::new((k - len) as nat, |i: int| ' '));
    }
    proof {
        if s@.len() >= width {
            assert(r@ =~= s@);
        }
    }
    r
}

/// The views of a sequence of strings.
pub open spec fn views(v: Seq<String>) -> Seq<Seq<char>> {
    v.map_values(|s: String| s@)
}

/// The concatenation of `parts` from index `n` on (empty where `n` is past
/// the end).
pub fn concat_from(parts: &Vec<String>, n: usize) -> (r: String)
    ensures
        n < parts@.len() ==> r@ == concat(views(parts@).subrange(n as int, parts@.len() as int)),
        n >= parts@.len() ==> r@.len() == 0,
{
    let ghost g = views(parts@);
    let mut r = String::new();
    if n >= parts.len() {
        return r;
    }
    let mut i: usize = n;
    proof {
        assert(g.subrange(n as int, n as int) =~= Seq::<Seq<char>>::empty());
    }
    while i < parts.len()
        invariant
            n <= i <= parts@.len(),
            g == views(parts@),
            r@ == concat(g.subrange(n as int, i as int)),
        decreases parts@.len() - i,
    {
        r.append(parts[i].as_str());
        proof {
            assert(g.subrange(n as int, i + 1).drop_last() =~= g.subrange(n as int, i as int));
            assert(g[i as int] == parts@[i as int]@);
        }
        i = i + 1;
    }
    r
}

/// The text of `line` from its `n`-th extended grapheme cluster on; no
/// cluster is split.
pub fn skip_graphemes(line: &str, n: usize) -> (r: String)
    ensures
        n < graphemes_of(line@).len() ==> r@ == concat(
            graphemes_of(line@).subrange(n as int, graphemes_of(line@).len() as int),
        ),
        n >= graphemes_of(line@).len() ==> r@.len() == 0,
        n == 0 ==> r@ == line@,
{
    let clusters = grapheme_clusters(line);
    assert(views(clusters@) =~= graphemes_of(line@));
    let r = concat_from(&clusters, n);
    proof {
        let g = views(clusters@);
        assert(g.subrange(0, g.len() as int) =~= g);
        if n == 0 && g.len() == 0 {
            assert(line@ == concat(g));
        }
    }
    r
}

} // verus!
