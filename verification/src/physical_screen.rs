//! The physical-entry screen: title, budget progress and bar, live counts,
//! the leading picker, the tail-window history strip, controls, the
//! fairness disclaimer and the continue line, all on a fixed 23-row layout.
use vstd::prelude::*;
use vstd::string::StrSliceExecFns;
use crate::contracts::{TargetBits, spec_target_bits, spec_target_words, target_bits_number, target_word_count};
use crate::dice_coin_art::{
    COIN_TILE_HEADS_3ROW, COIN_TILE_TAILS_3ROW, DIE_TILE_3X3, spec_coin_picker, spec_dice_picker, spec_line_ops,
    write_coin_picker, write_dice_picker,
};
use crate::physical::{
    BUDGET_BAR_WIDTH, CODE_HEADS, Instrument, lemma_counts_bounded, PhysicalSession, StripRing, bar_cells, recommended_bits,
    spec_bar_cells, spec_budget_met, spec_budget_x1000, spec_coin_bytes, spec_dice_bytes,
};
use crate::text::{
    TextOp, TextOpView, clear, push_decimal, push_str, spec_decimal, spec_ops, write_line, write_string,
};

verus! {

/// The widest a history-strip row may be.
pub const STRIP_MAX_COLS: usize = 79;

/// The physical-entry disclaimer: counting rolls and flips proves neither
/// fairness nor independence.
pub const FAIRNESS_DISCLAIMER: &'static str =
    "The number of rolls or flips does not prove that your dice or coins are fair or that the events are independent.";

/// The first of the disclaimer's two screen rows (79 columns).
pub const FAIRNESS_DISCLAIMER_LINE_1: &'static str =
    "The number of rolls or flips does not prove that your dice or coins are fair or";

/// The second of the disclaimer's two screen rows.
pub const FAIRNESS_DISCLAIMER_LINE_2: &'static str = "that the events are independent.";

/// The two disclaimer rows, joined by one space, are the disclaimer.
pub proof fn lemma_disclaimer_rows_join()
    ensures
        FAIRNESS_DISCLAIMER_LINE_1@ + " "@ + FAIRNESS_DISCLAIMER_LINE_2@ == FAIRNESS_DISCLAIMER@,
        FAIRNESS_DISCLAIMER_LINE_1@.len() == 79,
        FAIRNESS_DISCLAIMER_LINE_2@.len() == 32,
{
    reveal_strlit(
        "The number of rolls or flips does not prove that your dice or coins are fair or that the events are independent.",
    );
    reveal_strlit("The number of rolls or flips does not prove that your dice or coins are fair or");
    reveal_strlit("that the events are independent.");
    reveal_strlit(" ");
    assert(FAIRNESS_DISCLAIMER_LINE_1@ + " "@ + FAIRNESS_DISCLAIMER_LINE_2@ =~= FAIRNESS_DISCLAIMER@);
}

/// The three tile rows of a strip code (`1`-`6` faces, then heads, then
/// tails for anything else).
pub open spec fn spec_tile_rows(code: u8) -> [&'static str; 3] {
    if 1 <= code <= 6 {
        DIE_TILE_3X3[code - 1]
    } else if code == CODE_HEADS {
        COIN_TILE_HEADS_3ROW
    } else {
        COIN_TILE_TAILS_3ROW
    }
}

/// The three tile rows for one strip code.
pub fn tile_rows(code: u8) -> (r: [&'static str; 3])
    ensures
        r == spec_tile_rows(code),
{
    if 1 <= code && code <= 6 {
        DIE_TILE_3X3[(code - 1) as usize]
    } else if code == CODE_HEADS {
        COIN_TILE_HEADS_3ROW
    } else {
        COIN_TILE_TAILS_3ROW
    }
}

/// The strip's top-row prefix: `Recent <word> (<total>):`, then
/// `  <+<earlier>` when earlier picks have scrolled out of view.
pub open spec fn spec_strip_prefix(word: Seq<char>, total: nat, earlier: nat) -> Seq<char> {
    "Recent "@ + word + " ("@ + spec_decimal(total) + "):"@ + if earlier > 0 {
        "  <+"@ + spec_decimal(earlier)
    } else {
        Seq::empty()
    }
}

/// Build the strip's top-row prefix.
pub fn strip_prefix(word: &str, total: usize, earlier: usize) -> (r: String)
    ensures
        r@ == spec_strip_prefix(word@, total as nat, earlier as nat),
{
    let mut prefix = String::new();
    push_str(&mut prefix, "Recent ");
    push_str(&mut prefix, word);
    push_str(&mut prefix, " (");
    push_decimal(&mut prefix, total as u64);
    push_str(&mut prefix, "):");
    if earlier > 0 {
        push_str(&mut prefix, "  <+");
        push_decimal(&mut prefix, earlier as u64);
    }
    prefix
}

/// The strip label word for the leading instrument.
pub open spec fn spec_strip_word(lead: Instrument) -> Seq<char> {
    match lead {
        Instrument::Dice => "rolls"@,
        Instrument::Coins => "flips"@,
        Instrument::Both => "picks"@,
    }
}

/// Row `r` of the tiles of `codes`, each preceded by two spaces.
pub open spec fn spec_tiles_row(codes: Seq<u8>, r: int) -> Seq<char>
    decreases codes.len(),
{
    if codes.len() == 0 {
        Seq::empty()
    } else {
        spec_tiles_row(codes.drop_last(), r) + "  "@ + spec_tile_rows(codes.last())[r]@
    }
}

/// `a - b`, or 0 when `b > a`.
pub open spec fn spec_sat_sub(a: nat, b: nat) -> nat {
    if a >= b {
        (a - b) as nat
    } else {
        0
    }
}

/// How many of the `shown` window tiles fit after the first-pass prefix.
pub open spec fn spec_strip_drawn(word: Seq<char>, shown: nat, total: nat) -> nat {
    let prefix0 = spec_strip_prefix(word, total, spec_sat_sub(total, shown));
    let fit = spec_sat_sub(STRIP_MAX_COLS as nat, prefix0.len()) / 5;
    if shown <= fit {
        shown
    } else {
        fit
    }
}

/// The three rows of the history strip for the tail window `ring` of
/// `total` picks: the prefix (with the count of picks not drawn) on the
/// top row, spaces of the same width below it, then the newest tiles that
/// fit within [`STRIP_MAX_COLS`].
pub open spec fn spec_history_strip(ring: Seq<u8>, total: nat, lead: Instrument) -> Seq<Seq<char>> {
    let word = spec_strip_word(lead);
    let drawn = spec_strip_drawn(word, ring.len(), total);
    let prefix = spec_strip_prefix(word, total, spec_sat_sub(total, drawn));
    let tiles = ring.subrange(ring.len() - drawn, ring.len() as int);
    let pad = Seq::new(prefix.len(), |i: int| ' ');
    seq![prefix + spec_tiles_row(tiles, 0), pad + spec_tiles_row(tiles, 1), pad + spec_tiles_row(tiles, 2)]
}

fn strip_word(lead: Instrument) -> (r: &'static str)
    ensures
        r@ == spec_strip_word(lead),
{
    match lead {
        Instrument::Dice => "rolls",
        Instrument::Coins => "flips",
        Instrument::Both => "picks",
    }
}

/// One strip row: `start`, then the tiles of window positions
/// `[from, from + drawn)`.
fn strip_row(start: String, ring: &StripRing, from: usize, drawn: usize, r: usize) -> (line: String)
    requires
        r < 3,
        from + drawn <= ring@.len(),
    ensures
        line@ == start@ + spec_tiles_row(ring@.subrange(from as int, from + drawn), r as int),
{
    let mut line = start;
    let n = ring.len();
    let mut i: usize = 0;
    while i < drawn
        invariant
            i <= drawn,
            n == ring@.len(),
            r < 3,
            from + drawn <= ring@.len(),
            line@ == start@ + spec_tiles_row(ring@.subrange(from as int, from + i), r as int),
        decreases drawn - i,
    {
        let code = ring.get(from + i);
        let rows = tile_rows(code);
        push_str(&mut line, "  ");
        push_str(&mut line, rows[r]);
        proof {
            let s = ring@.subrange(from as int, from + i + 1);
            assert(s.drop_last() =~= ring@.subrange(from as int, from + i));
            assert(s.last() == code);
        }
        i = i + 1;
    }
    line
}

/// A line of `n` spaces.
fn spaces(n: usize) -> (r: String)
    ensures
        r@ == Seq::new(n as nat, |i: int| ' '),
{
    let mut s = String::new();
    let mut i: usize = 0;
    proof {
        reveal_strlit(" ");
    }
    while i < n
        invariant
            i <= n,
            " "@ == seq![' '],
            s@ == Seq::new(i as nat, |j: int| ' '),
        decreases n - i,
    {
        push_str(&mut s, " ");
        i = i + 1;
        assert(s@ =~= Seq::new(i as nat, |j: int| ' '));
    }
    s
}

/// The tail-window history strip: three top-aligned rows, the label and
/// the count of picks not drawn folded into the top row, never wider than
/// [`STRIP_MAX_COLS`] beyond the prefix.
pub fn write_history_strip(out: &mut Vec<TextOp>, ring: &StripRing, total: usize, lead: Instrument)
    ensures
        spec_ops(final(out)@) == spec_ops(old(out)@) + spec_line_ops(
            spec_history_strip(ring@, total as nat, lead),
        ),
{
    let word = strip_word(lead);
    let shown = ring.len();
    let earlier0 = if total >= shown { total - shown } else { 0 };
    let prefix0 = strip_prefix(word, total, earlier0);
    let len0 = prefix0.as_str().unicode_len();
    let fit = (if STRIP_MAX_COLS >= len0 { STRIP_MAX_COLS - len0 } else { 0 }) / 5;
    let drawn = if shown <= fit { shown } else { fit };
    let earlier = if total >= drawn { total - drawn } else { 0 };
    let prefix = strip_prefix(word, total, earlier);
    let p = prefix.as_str().unicode_len();
    let from = shown - drawn;
    let ghost tiles = ring@.subrange(ring@.len() - drawn, ring@.len() as int);
    assert(ring@.subrange(from as int, from + drawn) == tiles);
    let row0 = strip_row(prefix, ring, from, drawn, 0);
    let row1 = strip_row(spaces(p), ring, from, drawn, 1);
    let row2 = strip_row(spaces(p), ring, from, drawn, 2);
    write_string(out, row0);
    write_string(out, row1);
    write_string(out, row2);
    assert(spec_ops(out@) =~= spec_ops(old(out)@) + spec_line_ops(spec_history_strip(ring@, total as nat, lead)));
}

/// The budget bar: `[`, one `#` per filled cell and `-` per empty cell,
/// `]`.
pub open spec fn spec_budget_bar(done: nat, budget: nat) -> Seq<char> {
    let filled = spec_bar_cells(done, budget, BUDGET_BAR_WIDTH as nat);
    "["@ + Seq::new(BUDGET_BAR_WIDTH as nat, |i: int| if i < filled { '#' } else { '-' }) + "]"@
}

/// Render the fixed-width budget progress bar for `done` of `budget` bits.
pub fn write_budget_bar(out: &mut Vec<TextOp>, done: u64, budget: u64)
    ensures
        spec_ops(final(out)@) == spec_ops(old(out)@).push(TextOpView::Line(spec_budget_bar(done as nat, budget as nat))),
{
    let filled = bar_cells(done, budget, BUDGET_BAR_WIDTH);
    let mut line = String::new();
    push_str(&mut line, "[");
    let ghost start = line@;
    proof {
        reveal_strlit("#");
        reveal_strlit("-");
    }
    let mut i: usize = 0;
    while i < BUDGET_BAR_WIDTH
        invariant
            i <= BUDGET_BAR_WIDTH,
            filled == spec_bar_cells(done as nat, budget as nat, BUDGET_BAR_WIDTH as nat),
            "#"@ == seq!['#'],
            "-"@ == seq!['-'],
            line@ == start + Seq::new(i as nat, |j: int| if j < filled { '#' } else { '-' }),
        decreases BUDGET_BAR_WIDTH - i,
    {
        if i < filled {
            push_str(&mut line, "#");
        } else {
            push_str(&mut line, "-");
        }
        i = i + 1;
        assert(line@ =~= start + Seq::new(i as nat, |j: int| if j < filled { '#' } else { '-' }));
    }
    push_str(&mut line, "]");
    write_string(out, line);
}

/// The leading instrument, as the title names it.
pub open spec fn spec_lead_desc(lead: Instrument) -> Seq<char> {
    match lead {
        Instrument::Dice => "dice"@,
        Instrument::Coins => "coins"@,
        Instrument::Both => "dice and coins"@,
    }
}

/// The prompt above the picker.
pub open spec fn spec_picker_prompt(lead: Instrument) -> Seq<char> {
    match lead {
        Instrument::Coins => "Flip a coin -- press H or T:"@,
        Instrument::Dice => "Roll a die -- press the number you see:"@,
        Instrument::Both => "Roll a die [1-6] or flip a coin [H]/[T]:"@,
    }
}

/// The always-on picker: the coin pair when coins lead, the dice row
/// otherwise.
pub open spec fn spec_picker(lead: Instrument) -> Seq<Seq<char>> {
    match lead {
        Instrument::Coins => spec_coin_picker(),
        _ => spec_dice_picker(),
    }
}

/// The controls line (`[K]` switches only in single-instrument leads).
pub open spec fn spec_controls(lead: Instrument) -> Seq<char> {
    match lead {
        Instrument::Dice => "[1-6] Roll   [Backspace] Undo   [C] Clear   [K] Switch to coins"@,
        Instrument::Coins => "[H]/[T] Flip   [Backspace] Undo   [C] Clear   [K] Switch to dice"@,
        Instrument::Both => "[1-6] Roll   [H]/[T] Flip   [Backspace] Undo   [C] Clear"@,
    }
}

/// The continue line: whether the minimum is reached, then the back
/// prompt.
pub open spec fn spec_continue_line(met: bool, back: Seq<char>) -> Seq<char> {
    (if met {
        "[Enter] Continue (minimum reached)"@
    } else {
        "[Enter] Continue (minimum not yet reached)"@
    }) + "      "@ + back
}

/// The screen's head: clear, title, progress, budget bar, counts.
pub open spec fn spec_screen_head(ev: Seq<crate::physical::PhysicalEvent>, target: TargetBits, lead: Instrument) -> Seq<
    TextOpView,
> {
    let bits = spec_budget_x1000(ev) / 1000;
    let tb = spec_target_bits(target);
    seq![
        TextOpView::Clear,
        TextOpView::Line(
            "Physical entropy -- "@ + spec_lead_desc(lead) + " -- "@ + spec_decimal(spec_target_words(target))
                + " words"@,
        ),
        TextOpView::Line(
            "Progress: "@ + spec_decimal(bits) + " of minimum "@ + spec_decimal(tb) + " bits   (recommended "@
                + spec_decimal(tb + tb / 4) + ")"@,
        ),
        TextOpView::Line(spec_budget_bar(bits, tb)),
        TextOpView::Line(
            "Rolls: "@ + spec_decimal(spec_dice_bytes(ev).len()) + "   Flips: "@ + spec_decimal(
                spec_coin_bytes(ev).len(),
            ),
        ),
    ]
}

/// The screen's picker block: a blank line, the prompt, the picker, a
/// blank line.
pub open spec fn spec_screen_picker(lead: Instrument) -> Seq<TextOpView> {
    seq![TextOpView::Line(""@), TextOpView::Line(spec_picker_prompt(lead))] + spec_line_ops(spec_picker(lead))
        + seq![TextOpView::Line(""@)]
}

/// The screen's tail: the history strip, the controls, the two disclaimer
/// rows and the continue line, separated by blank lines.
pub open spec fn spec_screen_tail(
    ev: Seq<crate::physical::PhysicalEvent>,
    target: TargetBits,
    lead: Instrument,
    ring: Seq<u8>,
    back: Seq<char>,
) -> Seq<TextOpView> {
    spec_line_ops(spec_history_strip(ring, spec_dice_bytes(ev).len() + spec_coin_bytes(ev).len(), lead)) + seq![
        TextOpView::Line(""@),
        TextOpView::Line(spec_controls(lead)),
        TextOpView::Line(""@),
        TextOpView::Line(FAIRNESS_DISCLAIMER_LINE_1@),
        TextOpView::Line(FAIRNESS_DISCLAIMER_LINE_2@),
        TextOpView::Line(""@),
        TextOpView::Line(spec_continue_line(spec_budget_met(ev, target), back)),
    ]
}

/// The whole physical-entry screen for the session events `ev`.
pub open spec fn spec_physical_screen(
    ev: Seq<crate::physical::PhysicalEvent>,
    target: TargetBits,
    lead: Instrument,
    ring: Seq<u8>,
    back: Seq<char>,
) -> Seq<TextOpView> {
    spec_screen_head(ev, target, lead) + spec_screen_picker(lead) + spec_screen_tail(ev, target, lead, ring, back)
}

fn lead_desc(lead: Instrument) -> (r: &'static str)
    ensures
        r@ == spec_lead_desc(lead),
{
    match lead {
        Instrument::Dice => "dice",
        Instrument::Coins => "coins",
        Instrument::Both => "dice and coins",
    }
}

fn controls(lead: Instrument) -> (r: &'static str)
    ensures
        r@ == spec_controls(lead),
{
    match lead {
        Instrument::Dice => "[1-6] Roll   [Backspace] Undo   [C] Clear   [K] Switch to coins",
        Instrument::Coins => "[H]/[T] Flip   [Backspace] Undo   [C] Clear   [K] Switch to dice",
        Instrument::Both => "[1-6] Roll   [H]/[T] Flip   [Backspace] Undo   [C] Clear",
    }
}

/// The head rows: clear, title, progress, budget bar, counts.
fn write_screen_head(out: &mut Vec<TextOp>, session: &PhysicalSession, target: TargetBits, lead: Instrument)
    ensures
        spec_ops(final(out)@) == spec_ops(old(out)@) + spec_screen_head(session@, target, lead),
{
    clear(out);
    let tb = target_bits_number(target);
    let words = target_word_count(target);
    let mut title = String::new();
    push_str(&mut title, "Physical entropy -- ");
    push_str(&mut title, lead_desc(lead));
    push_str(&mut title, " -- ");
    push_decimal(&mut title, words as u64);
    push_str(&mut title, " words");
    write_string(out, title);

    let bits = session.budget_bits_x1000() / 1000;
    let mut progress = String::new();
    push_str(&mut progress, "Progress: ");
    push_decimal(&mut progress, bits);
    push_str(&mut progress, " of minimum ");
    push_decimal(&mut progress, tb as u64);
    push_str(&mut progress, " bits   (recommended ");
    push_decimal(&mut progress, recommended_bits(target) as u64);
    push_str(&mut progress, ")");
    write_string(out, progress);

    write_budget_bar(out, bits, tb as u64);

    let mut counts = String::new();
    push_str(&mut counts, "Rolls: ");
    push_decimal(&mut counts, session.roll_count() as u64);
    push_str(&mut counts, "   Flips: ");
    push_decimal(&mut counts, session.flip_count() as u64);
    write_string(out, counts);
    assert(spec_ops(out@) =~= spec_ops(old(out)@) + spec_screen_head(session@, target, lead));
}

/// The picker block for the leading instrument.
fn write_screen_picker(out: &mut Vec<TextOp>, lead: Instrument)
    ensures
        spec_ops(final(out)@) == spec_ops(old(out)@) + spec_screen_picker(lead),
{
    write_line(out, "");
    match lead {
        Instrument::Coins => {
            write_line(out, "Flip a coin -- press H or T:");
            write_coin_picker(out);
        },
        Instrument::Dice => {
            write_line(out, "Roll a die -- press the number you see:");
            write_dice_picker(out);
        },
        Instrument::Both => {
            write_line(out, "Roll a die [1-6] or flip a coin [H]/[T]:");
            write_dice_picker(out);
        },
    }
    write_line(out, "");
    assert(spec_ops(out@) =~= spec_ops(old(out)@) + spec_screen_picker(lead));
}

/// The strip, controls, disclaimer and continue line.
fn write_screen_tail(
    out: &mut Vec<TextOp>,
    session: &PhysicalSession,
    target: TargetBits,
    lead: Instrument,
    ring: &StripRing,
    back_prompt: &str,
)
    ensures
        spec_ops(final(out)@) == spec_ops(old(out)@) + spec_screen_tail(
            session@,
            target,
            lead,
            ring@,
            back_prompt@,
        ),
{
    let _n = session.len();
    proof {
        lemma_counts_bounded(session@);
    }
    let total = session.roll_count() as usize + session.flip_count() as usize;
    write_history_strip(out, ring, total, lead);
    write_line(out, "");
    write_line(out, controls(lead));
    write_line(out, "");
    write_line(out, FAIRNESS_DISCLAIMER_LINE_1);
    write_line(out, FAIRNESS_DISCLAIMER_LINE_2);
    write_line(out, "");
    let mut cont = String::new();
    if session.budget_met(target) {
        push_str(&mut cont, "[Enter] Continue (minimum reached)");
    } else {
        push_str(&mut cont, "[Enter] Continue (minimum not yet reached)");
    }
    push_str(&mut cont, "      ");
    push_str(&mut cont, back_prompt);
    write_string(out, cont);
    assert(spec_ops(out@) =~= spec_ops(old(out)@) + spec_screen_tail(
        session@,
        target,
        lead,
        ring@,
        back_prompt@,
    ));
}

/// Render the physical-entry screen: title, progress and budget bar, live
/// counts, the leading picker, the history strip of `ring`, the controls,
/// the fairness disclaimer on its two rows and the
/// continue line with `back_prompt`.
pub fn render_physical_screen(
    out: &mut Vec<TextOp>,
    session: &PhysicalSession,
    target: TargetBits,
    lead: Instrument,
    ring: &StripRing,
    back_prompt: &str,
)
    ensures
        spec_ops(final(out)@) == spec_ops(old(out)@) + spec_physical_screen(
            session@,
            target,
            lead,
            ring@,
            back_prompt@,
        ),
{
    let ghost a = spec_ops(old(out)@);
    let ghost h = spec_screen_head(session@, target, lead);
    let ghost p = spec_screen_picker(lead);
    let ghost t = spec_screen_tail(session@, target, lead, ring@, back_prompt@);
    write_screen_head(out, session, target, lead);
    write_screen_picker(out, lead);
    write_screen_tail(out, session, target, lead, ring, back_prompt);
    assert(a + h + p + t =~= a + (h + p + t));
}

/// The question asked before `[C]` clears everything entered.
pub const CLEAR_CONFIRM_LINE: &'static str = "Clear every entered roll and flip? [Enter] Confirm   [N] Cancel";

/// Ask whether to clear every entered roll and flip: a clear, then the
/// question.
pub fn render_clear_confirm(out: &mut Vec<TextOp>)
    ensures
        spec_ops(final(out)@) == spec_ops(old(out)@) + seq![TextOpView::Clear, TextOpView::Line(CLEAR_CONFIRM_LINE@)],
{
    let ghost a = spec_ops(old(out)@);
    clear(out);
    write_line(out, CLEAR_CONFIRM_LINE);
    assert(spec_ops(out@) =~= a + seq![TextOpView::Clear, TextOpView::Line(CLEAR_CONFIRM_LINE@)]);
}

/// The physical-entry screen is a clear followed by exactly 23 rows: the
/// title first, the two disclaimer rows as rows 20 and 21, and the
/// continue line as row 23, whatever the session, target, lead, strip and
/// back prompt.
pub proof fn lemma_physical_screen_rows(
    ev: Seq<crate::physical::PhysicalEvent>,
    target: TargetBits,
    lead: Instrument,
    ring: Seq<u8>,
    back: Seq<char>,
)
    ensures
        ({
            let s = spec_physical_screen(ev, target, lead, ring, back);
            &&& s.len() == 24
            &&& s[0] == TextOpView::Clear
            &&& forall|i: int| 1 <= i < 24 ==> (#[trigger] s[i]) is Line
            &&& s[1] == TextOpView::Line(
                "Physical entropy -- "@ + spec_lead_desc(lead) + " -- "@ + spec_decimal(spec_target_words(target))
                    + " words"@,
            )
            &&& s[20] == TextOpView::Line(FAIRNESS_DISCLAIMER_LINE_1@)
            &&& s[21] == TextOpView::Line(FAIRNESS_DISCLAIMER_LINE_2@)
            &&& s[23] == TextOpView::Line(spec_continue_line(spec_budget_met(ev, target), back))
        }),
{
    let h = spec_screen_head(ev, target, lead);
    let p = spec_screen_picker(lead);
    let t = spec_screen_tail(ev, target, lead, ring, back);
    assert(spec_picker(lead).len() == 6);
    assert(p.len() == 9);
    assert(forall|i: int| 0 <= i < p.len() ==> (#[trigger] p[i]) is Line);
    let strip = spec_history_strip(ring, spec_dice_bytes(ev).len() + spec_coin_bytes(ev).len(), lead);
    assert(strip.len() == 3);
    assert(t.len() == 10);
    assert(forall|i: int| 0 <= i < t.len() ==> (#[trigger] t[i]) is Line);
    let s = spec_physical_screen(ev, target, lead, ring, back);
    assert(s == h + p + t);
    assert forall|i: int| 1 <= i < 24 implies (#[trigger] s[i]) is Line by {
        if i < 5 {
            assert(s[i] == h[i]);
        } else if i < 14 {
            assert(s[i] == p[i - 5]);
        } else {
            assert(s[i] == t[i - 14]);
        }
    }
    assert(s[20] == t[6]);
    assert(s[21] == t[7]);
    assert(s[23] == t[9]);
}

} // verus!
