//! Frame serialization: turning a finished frame buffer into one of the
//! three output encodings — plain text, a styled terminal stream, or
//! markup. Nothing here mutates the context; the caller owns the sink and
//! performs the writes.

use vstd::prelude::*;
use crate::context::Context;

verus! {

/// One cell of the styled terminal stream: the cell's character with its
/// stored foreground over the caller-supplied uniform background.
#[derive(Clone, Copy, Debug)]
pub struct StyledCell {
    pub ch: char,
    pub fg: (u8, u8, u8),
    pub bg: (u8, u8, u8),
}

/// The serialized frame, in the encoding the caller selected.
#[derive(Clone, Debug)]
pub enum FlushBody {
    /// Every cell's character, colors ignored, ending in a line break.
    Plain(Vec<char>),
    /// One styled cell per frame cell, in row-major order.
    Styled(Vec<StyledCell>),
    /// One markup fragment per frame cell, concatenated row-major.
    Markup(Vec<char>),
}

/// A serialized frame together with the cursor control the sink must
/// perform first: in interactive mode the cursor returns to the origin,
/// so successive frames redraw in place.
#[derive(Clone, Debug)]
pub struct FlushOutput {
    pub move_home: bool,
    pub body: FlushBody,
}

/// The characters of a frame buffer, row-major, colors dropped.
pub open spec fn frame_chars(fb: Seq<(char, (u8, u8, u8))>) -> Seq<char> {
    fb.map_values(|c: (char, (u8, u8, u8))| c.0)
}

/// The decimal digit character for `n`.
pub open spec fn dec_digit(n: int) -> char
    recommends
        0 <= n <= 9,
{
    if n == 0 { '0' }
    else if n == 1 { '1' }
    else if n == 2 { '2' }
    else if n == 3 { '3' }
    else if n == 4 { '4' }
    else if n == 5 { '5' }
    else if n == 6 { '6' }
    else if n == 7 { '7' }
    else if n == 8 { '8' }
    else { '9' }
}

/// The decimal rendering of a byte value, without leading zeros.
pub open spec fn dec_u8(n: int) -> Seq<char>
    recommends
        0 <= n <= 255,
{
    if n < 10 {
        seq![dec_digit(n)]
    } else if n < 100 {
        seq![dec_digit(n / 10), dec_digit(n % 10)]
    } else {
        seq![dec_digit(n / 100), dec_digit((n / 10) % 10), dec_digit(n % 10)]
    }
}

/// The opening of one markup fragment, up to the red component.
pub open spec fn markup_prefix() -> Seq<char> {
    seq![
        '<', 's', 'p', 'a', 'n', ' ', 's', 't', 'y', 'l', 'e', '=', '"',
        'c', 'o', 'l', 'o', 'r', ':', 'r', 'g', 'b', '(',
    ]
}

/// One markup fragment: the cell's RGB triple as an inline style wrapping
/// the cell's character. Closing the document is the caller's business.
pub open spec fn markup_cell(c: (char, (u8, u8, u8))) -> Seq<char> {
    markup_prefix() + dec_u8(c.1.0 as int) + seq![','] + dec_u8(c.1.1 as int) + seq![',']
        + dec_u8(c.1.2 as int) + seq![')', '"', '>', c.0]
}

/// The markup encoding of a whole frame buffer: one fragment per cell,
/// concatenated in row-major order.
pub open spec fn markup_render(fb: Seq<(char, (u8, u8, u8))>) -> Seq<char>
    decreases fb.len(),
{
    if fb.len() == 0 {
        Seq::empty()
    } else {
        markup_render(fb.drop_last()) + markup_cell(fb.last())
    }
}

/// One styled cell, assembled from a frame cell and the background.
fn make_styled(cell: (char, (u8, u8, u8)), bg: (u8, u8, u8)) -> (r: StyledCell)
    ensures
        r.ch == cell.0,
        r.fg == cell.1,
        r.bg == bg,
{
    StyledCell { ch: cell.0, fg: cell.1, bg }
}

/// The decimal digit character for a digit value.
fn digit_char(d: u8) -> (r: char)
    requires
        d < 10,
    ensures
        r == dec_digit(d as int),
{
    if d == 0 { '0' }
    else if d == 1 { '1' }
    else if d == 2 { '2' }
    else if d == 3 { '3' }
    else if d == 4 { '4' }
    else if d == 5 { '5' }
    else if d == 6 { '6' }
    else if d == 7 { '7' }
    else if d == 8 { '8' }
    else { '9' }
}

/// Appends the decimal rendering of a byte value.
fn push_dec_u8(out: &mut Vec<char>, n: u8)
    ensures
        final(out)@ == old(out)@ + dec_u8(n as int),
{
    if n >= 100 {
        proof {
            vstd::arithmetic::div_mod::lemma_div_is_ordered(n as int, 255, 100);
            assert(255int / 100int == 2);
        }
        out.push(digit_char(n / 100));
        out.push(digit_char((n / 10) % 10));
        out.push(digit_char(n % 10));
        proof {
            assert(out@ =~= old(out)@ + dec_u8(n as int));
        }
    } else if n >= 10 {
        out.push(digit_char(n / 10));
        out.push(digit_char(n % 10));
        proof {
            assert(out@ =~= old(out)@ + dec_u8(n as int));
        }
    } else {
        out.push(digit_char(n));
        proof {
            assert(out@ =~= old(out)@ + dec_u8(n as int));
        }
    }
}

/// Appends one markup fragment for one frame cell.
fn push_markup_cell(out: &mut Vec<char>, cell: (char, (u8, u8, u8)))
    ensures
        final(out)@ == old(out)@ + markup_cell(cell),
{
    out.push('<');
    out.push('s');
    out.push('p');
    out.push('a');
    out.push('n');
    out.push(' ');
    out.push('s');
    out.push('t');
    out.push('y');
    out.push('l');
    out.push('e');
    out.push('=');
    out.push('"');
    out.push('c');
    out.push('o');
    out.push('l');
    out.push('o');
    out.push('r');
    out.push(':');
    out.push('r');
    out.push('g');
    out.push('b');
    out.push('(');
    proof {
        assert(out@ =~= old(out)@ + markup_prefix());
    }
    push_dec_u8(out, cell.1.0);
    out.push(',');
    push_dec_u8(out, cell.1.1);
    out.push(',');
    push_dec_u8(out, cell.1.2);
    out.push(')');
    out.push('"');
    out.push('>');
    out.push(cell.0);
    proof {
        assert(out@ =~= old(out)@ + markup_cell(cell));
    }
}

/// Step lemma for the markup loop: serializing one more cell appends
/// exactly that cell's fragment.
proof fn lemma_markup_render_step(fb: Seq<(char, (u8, u8, u8))>, i: int)
    requires
        0 <= i < fb.len(),
    ensures
        markup_render(fb.take(i + 1)) == markup_render(fb.take(i)) + markup_cell(fb[i]),
{
    assert(fb.take(i + 1).drop_last() =~= fb.take(i));
    assert(fb.take(i + 1).last() == fb[i]);
}

impl<const N: usize> Context<N> {
    /// Serializes the frame buffer, selected by the two flags: plain text
    /// when color is off; a styled cell stream over `bg_color` when color
    /// is on; markup fragments when color and webify are both on. In
    /// interactive mode the sink is asked to move its cursor to the
    /// origin first. The context itself is never changed.
    pub fn flush(&self, color: bool, webify: bool, bg_color: (u8, u8, u8)) -> (out: FlushOutput)
        ensures
            out.move_home == !self.image,
            !color ==> (out.body matches FlushBody::Plain(t)
                && t@ == frame_chars(self.frame_buffer@).push('\n')),
            color && !webify ==> (out.body matches FlushBody::Styled(cells)
                && cells@.len() == self.frame_buffer@.len()
                && forall|i: int| 0 <= i < cells@.len() ==> cells@[i]
                    == (StyledCell {
                        ch: self.frame_buffer@[i].0,
                        fg: self.frame_buffer@[i].1,
                        bg: bg_color,
                    })),
            color && webify ==> (out.body matches FlushBody::Markup(t)
                && t@ == markup_render(self.frame_buffer@)),
    {
        let body: FlushBody = if !color {
            let mut t: Vec<char> = Vec::new();
            let mut i: usize = 0;
            while i < self.frame_buffer.len()
                invariant
                    i <= self.frame_buffer@.len(),
                    t@.len() == i,
                    forall|j: int| 0 <= j < i ==> t@[j] == self.frame_buffer@[j].0,
                decreases self.frame_buffer@.len() - i,
            {
                t.push(self.frame_buffer[i].0);
                i = i + 1;
            }
            t.push('\n');
            proof {
                assert(t@ =~= frame_chars(self.frame_buffer@).push('\n'));
            }
            FlushBody::Plain(t)
        } else if !webify {
            let mut styled: Vec<StyledCell> = Vec::new();
            let mut i: usize = 0;
            while i < self.frame_buffer.len()
                invariant
                    i <= self.frame_buffer@.len(),
                    styled@.len() == i,
                    forall|j: int| 0 <= j < i ==> #[trigger] styled@[j].ch == self.frame_buffer@[j].0
                        && styled@[j].fg == self.frame_buffer@[j].1
                        && styled@[j].bg == bg_color,
                decreases self.frame_buffer@.len() - i,
            {
                let sc = make_styled(self.frame_buffer[i], bg_color);
                styled.push(sc);
                i = i + 1;
            }
            proof {
                assert forall|k: int| 0 <= k < styled@.len() implies styled@[k]
                    == (StyledCell {
                        ch: self.frame_buffer@[k].0,
                        fg: self.frame_buffer@[k].1,
                        bg: bg_color,
                    }) by {
                    assert(styled@[k].ch == self.frame_buffer@[k].0);
                }
            }
            FlushBody::Styled(styled)
        } else {
            let mut t: Vec<char> = Vec::new();
            let mut i: usize = 0;
            while i < self.frame_buffer.len()
                invariant
                    i <= self.frame_buffer@.len(),
                    t@ == markup_render(self.frame_buffer@.take(i as int)),
                decreases self.frame_buffer@.len() - i,
            {
                push_markup_cell(&mut t, self.frame_buffer[i]);
                proof {
                    lemma_markup_render_step(self.frame_buffer@, i as int);
                }
                i = i + 1;
            }
            proof {
                assert(self.frame_buffer@.take(self.frame_buffer@.len() as int) =~= self.frame_buffer@);
            }
            FlushBody::Markup(t)
        };
        FlushOutput { move_home: !self.image, body }
    }
}

} // verus!
