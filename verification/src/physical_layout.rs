//! The physical-entry screen fits the console: every row is at most 79
//! columns wide.
use vstd::prelude::*;
use crate::contracts::{TargetBits, spec_target_bits, spec_target_words};
use crate::dice_coin_art::spec_join_faces;
use crate::text::{spec_decimal, TextOpView};
use crate::physical::{
    Instrument, MAX_PHYSICAL_EVENTS, PhysicalEvent, STRIP_TAIL_CAP, lemma_counts_bounded, spec_budget_x1000,
    spec_coin_bytes, spec_dice_bytes,
};
use crate::physical_screen::{
    STRIP_MAX_COLS, lemma_disclaimer_rows_join, lemma_physical_screen_rows, spec_history_strip,
    spec_physical_screen, spec_screen_head, spec_screen_picker, spec_screen_tail, spec_picker, spec_sat_sub, spec_strip_drawn, spec_strip_prefix,
    spec_strip_word, spec_tile_rows, spec_tiles_row,
};

verus! {

/// The number of decimal digits of `n` (at least one).
pub open spec fn spec_digits(n: nat) -> nat
    decreases n,
{
    if n < 10 {
        1
    } else {
        spec_digits(n / 10) + 1
    }
}

/// A numeral is as long as its number of digits.
proof fn lemma_decimal_len(n: nat)
    ensures
        spec_decimal(n).len() == spec_digits(n),
        n < 10 ==> spec_digits(n) == 1,
        10 <= n < 100 ==> spec_digits(n) == 2,
        100 <= n < 1000 ==> spec_digits(n) == 3,
        1000 <= n < 10000 ==> spec_digits(n) == 4,
    decreases n,
{
    if n >= 10 {
        lemma_decimal_len(n / 10);
    }
}

/// Every tile row is three columns wide.
proof fn lemma_tile_row_len(code: u8, r: int)
    requires
        0 <= r < 3,
    ensures
        spec_tile_rows(code)[r]@.len() == 3,
{
    reveal_strlit("...");
    reveal_strlit(".o.");
    reveal_strlit("o..");
    reveal_strlit("..o");
    reveal_strlit("o.o");
    reveal_strlit("   ");
    reveal_strlit("(H)");
    reveal_strlit(" H ");
    reveal_strlit("(T)");
    reveal_strlit(" T ");
}

/// A strip row of `n` tiles is five columns per tile.
proof fn lemma_tiles_row_len(codes: Seq<u8>, r: int)
    requires
        0 <= r < 3,
    ensures
        spec_tiles_row(codes, r).len() == 5 * codes.len(),
    decreases codes.len(),
{
    reveal_strlit("  ");
    if codes.len() > 0 {
        lemma_tiles_row_len(codes.drop_last(), r);
        lemma_tile_row_len(codes.last(), r);
    }
}

/// Every die-face row is nine columns wide, so the six faces joined by
/// single spaces are 59.
proof fn lemma_join_faces_len(r: int, n: nat)
    requires
        0 <= r < 5,
        1 <= n <= 6,
    ensures
        spec_join_faces(r, n).len() == 10 * n - 1,
    decreases n,
{
    reveal_strlit("+-------+");
    reveal_strlit("|       |");
    reveal_strlit("|   o   |");
    reveal_strlit("| o     |");
    reveal_strlit("|     o |");
    reveal_strlit("| o   o |");
    if n > 1 {
        lemma_join_faces_len(r, (n - 1) as nat);
    }
}

/// Every picker row fits in 59 columns.
proof fn lemma_picker_width(lead: Instrument)
    ensures
        spec_picker(lead).len() == 6,
        forall|i: int| 0 <= i < 6 ==> (#[trigger] spec_picker(lead)[i]).len() <= 59,
{
    reveal_strlit("   [1]       [2]       [3]       [4]       [5]       [6]");
    reveal_strlit(" ,-----,    ,-----,");
    reveal_strlit("/       \\  /       \\");
    reveal_strlit("|   H   |  |   T   |");
    reveal_strlit("\\       /  \\       /");
    reveal_strlit(" '-----'    '-----'");
    reveal_strlit("  [H]         [T]");
    lemma_join_faces_len(0, 6);
    lemma_join_faces_len(1, 6);
    lemma_join_faces_len(2, 6);
    lemma_join_faces_len(3, 6);
    lemma_join_faces_len(4, 6);
}

proof fn lemma_prefix_len(word: Seq<char>, total: nat, earlier: nat)
    requires
        word.len() == 5,
    ensures
        spec_strip_prefix(word, total, earlier).len() == 16 + spec_digits(total) + if earlier > 0 {
            4 + spec_digits(earlier)
        } else {
            0
        },
{
    reveal_strlit("Recent ");
    reveal_strlit(" (");
    reveal_strlit("):");
    reveal_strlit("  <+");
    lemma_decimal_len(total);
    lemma_decimal_len(earlier);
}

/// The three history-strip rows fit in 79 columns for a window of at most
/// [`STRIP_TAIL_CAP`] tiles and at most [`MAX_PHYSICAL_EVENTS`] picks.
proof fn lemma_strip_width(ring: Seq<u8>, total: nat, lead: Instrument)
    requires
        ring.len() <= STRIP_TAIL_CAP,
        total <= MAX_PHYSICAL_EVENTS,
    ensures
        forall|i: int| 0 <= i < 3 ==> (#[trigger] spec_history_strip(ring, total, lead)[i]).len() <= 79,
{
    reveal_strlit("rolls");
    reveal_strlit("flips");
    reveal_strlit("picks");
    let word = spec_strip_word(lead);
    assert(word.len() == 5);
    let shown = ring.len();
    let e0 = spec_sat_sub(total, shown);
    let l0 = spec_strip_prefix(word, total, e0).len();
    lemma_prefix_len(word, total, e0);
    lemma_decimal_len(total);
    lemma_decimal_len(e0);
    assert(spec_digits(total) <= 4);
    assert(spec_digits(e0) <= 4);
    assert(l0 <= 28);
    let fit = spec_sat_sub(STRIP_MAX_COLS as nat, l0) / 5;
    assert(fit == (79 - l0) / 5);
    assert(5 * fit <= 79 - l0);
    let drawn = spec_strip_drawn(word, shown, total);
    let e = spec_sat_sub(total, drawn);
    let prefix = spec_strip_prefix(word, total, e);
    lemma_prefix_len(word, total, e);
    lemma_decimal_len(e);
    let tiles = ring.subrange(ring.len() - drawn, ring.len() as int);
    if shown <= fit {
        assert(drawn == shown);
        assert(prefix.len() == l0);
    } else {
        assert(fit >= 10);
        assert(drawn == fit);
        assert(fit == 10 && shown == 11);
        assert(l0 >= 25);
        assert(e0 > 0);
        assert(e == e0 + 1);
        assert(spec_digits(e) <= spec_digits(e0) + 1);
        assert(prefix.len() <= l0 + 1);
    }
    assert(prefix.len() + 5 * drawn <= 79);
    lemma_tiles_row_len(tiles, 0);
    lemma_tiles_row_len(tiles, 1);
    lemma_tiles_row_len(tiles, 2);
}

/// A screen operation that is a line of at most 79 columns.
pub open spec fn spec_fits(op: TextOpView) -> bool {
    op matches TextOpView::Line(l) && l.len() <= 79
}

proof fn lemma_head_fits(ev: Seq<PhysicalEvent>, target: TargetBits, lead: Instrument)
    requires
        ev.len() <= MAX_PHYSICAL_EVENTS,
    ensures
        forall|i: int| 1 <= i < 5 ==> spec_fits(#[trigger] spec_screen_head(ev, target, lead)[i]),
{
    reveal_strlit("Physical entropy -- ");
    reveal_strlit(" -- ");
    reveal_strlit(" words");
    reveal_strlit("dice");
    reveal_strlit("coins");
    reveal_strlit("dice and coins");
    reveal_strlit("Progress: ");
    reveal_strlit(" of minimum ");
    reveal_strlit(" bits   (recommended ");
    reveal_strlit(")");
    reveal_strlit("[");
    reveal_strlit("]");
    reveal_strlit("Rolls: ");
    reveal_strlit("   Flips: ");
    lemma_counts_bounded(ev);
    let d = spec_dice_bytes(ev).len();
    let c = spec_coin_bytes(ev).len();
    let bits = spec_budget_x1000(ev) / 1000;
    assert(spec_budget_x1000(ev) <= 2585 * 1024);
    assert(bits < 10000);
    let tb = spec_target_bits(target);
    lemma_decimal_len(spec_target_words(target));
    lemma_decimal_len(bits);
    lemma_decimal_len(tb);
    lemma_decimal_len(tb + tb / 4);
    lemma_decimal_len(d);
    lemma_decimal_len(c);
    let h = spec_screen_head(ev, target, lead);
    assert(spec_fits(h[1]));
    assert(spec_fits(h[2]));
    assert(spec_fits(h[3]));
    assert(spec_fits(h[4]));
}

proof fn lemma_picker_block_fits(lead: Instrument)
    ensures
        forall|i: int| 0 <= i < 9 ==> spec_fits(#[trigger] spec_screen_picker(lead)[i]),
{
    reveal_strlit("");
    reveal_strlit("Flip a coin -- press H or T:");
    reveal_strlit("Roll a die -- press the number you see:");
    reveal_strlit("Roll a die [1-6] or flip a coin [H]/[T]:");
    lemma_picker_width(lead);
    let p = spec_screen_picker(lead);
    assert forall|i: int| 0 <= i < 9 implies spec_fits(#[trigger] p[i]) by {
        if 2 <= i < 8 {
            assert(p[i] == TextOpView::Line(spec_picker(lead)[i - 2]));
        }
    }
}

proof fn lemma_tail_fits(
    ev: Seq<PhysicalEvent>,
    target: TargetBits,
    lead: Instrument,
    ring: Seq<u8>,
    back: Seq<char>,
)
    requires
        ev.len() <= MAX_PHYSICAL_EVENTS,
        ring.len() <= STRIP_TAIL_CAP,
        back.len() <= 31,
    ensures
        forall|i: int| 0 <= i < 10 ==> spec_fits(#[trigger] spec_screen_tail(ev, target, lead, ring, back)[i]),
{
    reveal_strlit("");
    reveal_strlit("[1-6] Roll   [Backspace] Undo   [C] Clear   [K] Switch to coins");
    reveal_strlit("[H]/[T] Flip   [Backspace] Undo   [C] Clear   [K] Switch to dice");
    reveal_strlit("[1-6] Roll   [H]/[T] Flip   [Backspace] Undo   [C] Clear");
    reveal_strlit("[Enter] Continue (minimum reached)");
    reveal_strlit("[Enter] Continue (minimum not yet reached)");
    reveal_strlit("      ");
    lemma_disclaimer_rows_join();
    lemma_counts_bounded(ev);
    let total = spec_dice_bytes(ev).len() + spec_coin_bytes(ev).len();
    lemma_strip_width(ring, total, lead);
    let strip = spec_history_strip(ring, total, lead);
    let t = spec_screen_tail(ev, target, lead, ring, back);
    assert forall|i: int| 0 <= i < 10 implies spec_fits(#[trigger] t[i]) by {
        if i < 3 {
            assert(t[i] == TextOpView::Line(strip[i]));
        }
    }
}

/// Every row of the physical-entry screen is a line of at most 79 columns,
/// for any session within capacity, any strip window and a back prompt of
/// at most 31 columns, so the 23 rows never wrap or scroll on an 80x25
/// console.
pub proof fn lemma_physical_screen_fits(
    ev: Seq<PhysicalEvent>,
    target: TargetBits,
    lead: Instrument,
    ring: Seq<u8>,
    back: Seq<char>,
)
    requires
        ev.len() <= MAX_PHYSICAL_EVENTS,
        ring.len() <= STRIP_TAIL_CAP,
        back.len() <= 31,
    ensures
        forall|i: int| 1 <= i < 24 ==> spec_fits(#[trigger] spec_physical_screen(ev, target, lead, ring, back)[i]),
{
    lemma_physical_screen_rows(ev, target, lead, ring, back);
    lemma_head_fits(ev, target, lead);
    lemma_picker_block_fits(lead);
    lemma_tail_fits(ev, target, lead, ring, back);
    let h = spec_screen_head(ev, target, lead);
    let p = spec_screen_picker(lead);
    let t = spec_screen_tail(ev, target, lead, ring, back);
    let s = spec_physical_screen(ev, target, lead, ring, back);
    assert(s == h + p + t);
    assert forall|i: int| 1 <= i < 24 implies spec_fits(#[trigger] s[i]) by {
        if i < 5 {
            assert(s[i] == h[i]);
        } else if i < 14 {
            assert(s[i] == p[i - 5]);
        } else {
            assert(s[i] == t[i - 14]);
        }
    }
}

} // verus!
