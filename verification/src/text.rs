//! Line-oriented screen output and the small text formatting the screens
//! need (decimal numbers, lowercase hex).
//!
//! A text screen is described as a list of [`TextOp`]s: clear the screen,
//! write one fixed line, or write a prose paragraph that the terminal
//! word-wraps to its own width. The terminal replays the list.
use vstd::prelude::*;

verus! {

/// One operation on a line-oriented text screen.
pub enum TextOp {
    /// Clear the screen.
    Clear,
    /// Write exactly this line.
    Line(String),
    /// Write this paragraph, word-wrapped to the screen's prose width.
    Prose(String),
}

/// The plain value of a [`TextOp`].
pub enum TextOpView {
    Clear,
    Line(Seq<char>),
    Prose(Seq<char>),
}

impl View for TextOp {
    type V = TextOpView;

    open spec fn view(&self) -> TextOpView {
        match self {
            TextOp::Clear => TextOpView::Clear,
            TextOp::Line(s) => TextOpView::Line(s@),
            TextOp::Prose(s) => TextOpView::Prose(s@),
        }
    }
}

/// The plain values of a list of operations.
pub open spec fn spec_ops(v: Seq<TextOp>) -> Seq<TextOpView> {
    v.map_values(|o: TextOp| o@)
}

/// Fixed lines, as operations.
pub open spec fn spec_lines(lines: Seq<Seq<char>>) -> Seq<TextOpView> {
    lines.map_values(|l: Seq<char>| TextOpView::Line(l))
}

/// Append one fixed line.
pub fn write_line(out: &mut Vec<TextOp>, line: &str)
    ensures
        spec_ops(final(out)@) == spec_ops(old(out)@).push(TextOpView::Line(line@)),
{
    let ghost before = out@;
    out.push(TextOp::Line(line.to_owned()));
    assert(spec_ops(out@) =~= spec_ops(before).push(TextOpView::Line(line@)));
}

/// Append one owned line.
pub fn write_string(out: &mut Vec<TextOp>, line: String)
    ensures
        spec_ops(final(out)@) == spec_ops(old(out)@).push(TextOpView::Line(line@)),
{
    let ghost before = out@;
    let ghost l = line@;
    out.push(TextOp::Line(line));
    assert(spec_ops(out@) =~= spec_ops(before).push(TextOpView::Line(l)));
}

/// Append one paragraph to be word-wrapped by the terminal.
pub fn write_prose(out: &mut Vec<TextOp>, prose: &str)
    ensures
        spec_ops(final(out)@) == spec_ops(old(out)@).push(TextOpView::Prose(prose@)),
{
    let ghost before = out@;
    out.push(TextOp::Prose(prose.to_owned()));
    assert(spec_ops(out@) =~= spec_ops(before).push(TextOpView::Prose(prose@)));
}

/// Append a screen clear.
pub fn clear(out: &mut Vec<TextOp>)
    ensures
        spec_ops(final(out)@) == spec_ops(old(out)@).push(TextOpView::Clear),
{
    let ghost before = out@;
    out.push(TextOp::Clear);
    assert(spec_ops(out@) =~= spec_ops(before).push(TextOpView::Clear));
}

/// The decimal digit `d` (`0`-`9`).
pub open spec fn spec_digit(d: nat) -> char {
    if d == 0 {
        '0'
    } else if d == 1 {
        '1'
    } else if d == 2 {
        '2'
    } else if d == 3 {
        '3'
    } else if d == 4 {
        '4'
    } else if d == 5 {
        '5'
    } else if d == 6 {
        '6'
    } else if d == 7 {
        '7'
    } else if d == 8 {
        '8'
    } else {
        '9'
    }
}

/// `n` in decimal, without leading zeros.
pub open spec fn spec_decimal(n: nat) -> Seq<char>
    decreases n,
{
    if n < 10 {
        seq![spec_digit(n)]
    } else {
        spec_decimal(n / 10) + seq![spec_digit(n % 10)]
    }
}

/// The one-character string of digit `d`.
fn digit_str(d: u64) -> (r: &'static str)
    requires
        d < 10,
    ensures
        r@ == seq![spec_digit(d as nat)],
{
    if d == 0 {
        proof {
            reveal_strlit("0");
        }
        "0"
    } else if d == 1 {
        proof {
            reveal_strlit("1");
        }
        "1"
    } else if d == 2 {
        proof {
            reveal_strlit("2");
        }
        "2"
    } else if d == 3 {
        proof {
            reveal_strlit("3");
        }
        "3"
    } else if d == 4 {
        proof {
            reveal_strlit("4");
        }
        "4"
    } else if d == 5 {
        proof {
            reveal_strlit("5");
        }
        "5"
    } else if d == 6 {
        proof {
            reveal_strlit("6");
        }
        "6"
    } else if d == 7 {
        proof {
            reveal_strlit("7");
        }
        "7"
    } else if d == 8 {
        proof {
            reveal_strlit("8");
        }
        "8"
    } else {
        proof {
            reveal_strlit("9");
        }
        "9"
    }
}

/// Append `n` in decimal.
pub fn push_decimal(s: &mut String, n: u64)
    ensures
        final(s)@ == old(s)@ + spec_decimal(n as nat),
    decreases n,
{
    if n >= 10 {
        push_decimal(s, n / 10);
    }
    s.append(digit_str(n % 10));
    assert(s@ =~= old(s)@ + spec_decimal(n as nat));
}

/// Append a string slice.
pub fn push_str(s: &mut String, t: &str)
    ensures
        final(s)@ == old(s)@ + t@,
{
    s.append(t);
}

} // verus!
