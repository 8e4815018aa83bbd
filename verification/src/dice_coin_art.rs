//! Dice and coin text art for physical entry: the full 9x5 faces, the
//! compact 3x3 history tiles, and the pickers, reference legend and
//! "last entered" block built from them.
use vstd::prelude::*;
use crate::physical::{CoinFace, PhysicalEvent};
use crate::text::{TextOp, TextOpView, spec_ops, spec_decimal, write_line, write_string, push_decimal, push_str};

verus! {

/// The six pip-grid die faces, `[face - 1]`, each 9 columns by 5 rows.
pub const DIE_FACE_ART: [[&'static str; 5]; 6] = [
    ["+-------+", "|       |", "|   o   |", "|       |", "+-------+"],
    ["+-------+", "| o     |", "|       |", "|     o |", "+-------+"],
    ["+-------+", "| o     |", "|   o   |", "|     o |", "+-------+"],
    ["+-------+", "| o   o |", "|       |", "| o   o |", "+-------+"],
    ["+-------+", "| o   o |", "|   o   |", "| o   o |", "+-------+"],
    ["+-------+", "| o   o |", "| o   o |", "| o   o |", "+-------+"],
];

/// The heads coin face, 9 columns by 5 rows.
pub const COIN_HEADS_ART: [&'static str; 5] = [" ,-----, ", "/       \\", "|   H   |", "\\       /", " '-----' "];

/// The tails coin face, 9 columns by 5 rows.
pub const COIN_TAILS_ART: [&'static str; 5] = [" ,-----, ", "/       \\", "|   T   |", "\\       /", " '-----' "];

/// Compact 3x3 pip tiles for the history strip, `[face - 1]`: `.` unlit,
/// `o` a pip.
pub const DIE_TILE_3X3: [[&'static str; 3]; 6] = [
    ["...", ".o.", "..."],
    ["o..", "...", "..o"],
    ["o..", ".o.", "..o"],
    ["o.o", "...", "o.o"],
    ["o.o", ".o.", "o.o"],
    ["o.o", "o.o", "o.o"],
];

/// Compact 3-row heads tile: blank top padding, `(H)`, the bare letter.
pub const COIN_TILE_HEADS_3ROW: [&'static str; 3] = ["   ", "(H)", " H "];

/// Compact 3-row tails tile.
pub const COIN_TILE_TAILS_3ROW: [&'static str; 3] = ["   ", "(T)", " T "];

/// The key-label row under the dice picker.
pub const DICE_PICKER_LABELS: &'static str = "   [1]       [2]       [3]       [4]       [5]       [6]";

/// The five rows of the coin picker (heads and tails side by side).
pub const COIN_PAIR_ART: [&'static str; 5] =
    [" ,-----,    ,-----,", "/       \\  /       \\", "|   H   |  |   T   |", "\\       /  \\       /", " '-----'    '-----'"];

/// The key-label row under the coin picker.
pub const COIN_PICKER_LABELS: &'static str = "  [H]         [T]";

/// The legend's title.
pub const LEGEND_TITLE: &'static str = "Physical entropy -- dice and coin reference";

/// The legend's label row under the dice.
pub const LEGEND_DICE_LABELS: &'static str = "   1         2         3         4         5         6";

/// The legend's label row under the coins.
pub const LEGEND_COIN_LABELS: &'static str = " HEADS       TAILS";

/// The legend's closing prompt.
pub const LEGEND_BACK: &'static str = "[Enter] or any other key: back to dice/coin entry";

/// Row `r` of the first `n` die faces, separated by one space.
pub open spec fn spec_join_faces(r: int, n: nat) -> Seq<char>
    decreases n,
{
    if n == 0 {
        Seq::empty()
    } else if n == 1 {
        DIE_FACE_ART[0][r]@
    } else {
        spec_join_faces(r, (n - 1) as nat) + seq![' '] + DIE_FACE_ART[n - 1][r]@
    }
}

/// Row `r` of the six-face row.
pub open spec fn spec_dice_row(r: int) -> Seq<char> {
    spec_join_faces(r, 6)
}

/// The five art rows of the six-face row.
pub open spec fn spec_dice_rows() -> Seq<Seq<char>> {
    seq![spec_dice_row(0), spec_dice_row(1), spec_dice_row(2), spec_dice_row(3), spec_dice_row(4)]
}

/// The lines of the dice picker: the six faces in a row, then their labels.
pub open spec fn spec_dice_picker() -> Seq<Seq<char>> {
    spec_dice_rows().push(DICE_PICKER_LABELS@)
}

/// The lines of the coin picker.
pub open spec fn spec_coin_picker() -> Seq<Seq<char>> {
    seq![
        COIN_PAIR_ART[0]@,
        COIN_PAIR_ART[1]@,
        COIN_PAIR_ART[2]@,
        COIN_PAIR_ART[3]@,
        COIN_PAIR_ART[4]@,
        COIN_PICKER_LABELS@,
    ]
}

/// The lines of the reference legend.
pub open spec fn spec_legend() -> Seq<Seq<char>> {
    seq![LEGEND_TITLE@, ""@] + spec_dice_rows() + seq![LEGEND_DICE_LABELS@, ""@] + seq![
        COIN_PAIR_ART[0]@,
        COIN_PAIR_ART[1]@,
        COIN_PAIR_ART[2]@,
        COIN_PAIR_ART[3]@,
        COIN_PAIR_ART[4]@,
        LEGEND_COIN_LABELS@,
        ""@,
        LEGEND_BACK@,
    ]
}

/// Fixed lines, as screen operations.
pub open spec fn spec_line_ops(lines: Seq<Seq<char>>) -> Seq<TextOpView> {
    lines.map_values(|l: Seq<char>| TextOpView::Line(l))
}

/// Build row `row` of the six-face row.
fn dice_row(row: usize) -> (r: String)
    requires
        row < 5,
    ensures
        r@ == spec_dice_row(row as int),
{
    let mut line = String::new();
    let mut face: usize = 0;
    while face < 6
        invariant
            face <= 6,
            row < 5,
            line@ == spec_join_faces(row as int, face as nat),
        decreases 6 - face,
    {
        if face > 0 {
            proof {
                reveal_strlit(" ");
            }
            push_str(&mut line, " ");
        }
        push_str(&mut line, DIE_FACE_ART[face][row]);
        face = face + 1;
        assert(line@ =~= spec_join_faces(row as int, face as nat));
    }
    line
}

/// Append the five rows of the six-face row.
fn write_dice_rows(out: &mut Vec<TextOp>)
    ensures
        spec_ops(final(out)@) == spec_ops(old(out)@) + spec_line_ops(spec_dice_rows()),
{
    let mut row: usize = 0;
    while row < 5
        invariant
            row <= 5,
            spec_ops(out@) == spec_ops(old(out)@) + spec_line_ops(spec_dice_rows().take(row as int)),
        decreases 5 - row,
    {
        let line = dice_row(row);
        write_string(out, line);
        row = row + 1;
        assert(spec_dice_rows().take(row as int) =~= spec_dice_rows().take(row - 1).push(spec_dice_row(row - 1)));
        assert(spec_ops(out@) =~= spec_ops(old(out)@) + spec_line_ops(spec_dice_rows().take(row as int)));
    }
    assert(spec_dice_rows().take(5) =~= spec_dice_rows());
}

/// The always-on dice picker: the six faces in a row, then the `[1]`-`[6]`
/// key labels (six lines).
pub fn write_dice_picker(out: &mut Vec<TextOp>)
    ensures
        spec_ops(final(out)@) == spec_ops(old(out)@) + spec_line_ops(spec_dice_picker()),
{
    write_dice_rows(out);
    write_line(out, DICE_PICKER_LABELS);
    assert(spec_ops(out@) =~= spec_ops(old(out)@) + spec_line_ops(spec_dice_picker()));
}

/// Append the five rows of the coin pair.
fn write_coin_pair(out: &mut Vec<TextOp>)
    ensures
        spec_ops(final(out)@) == spec_ops(old(out)@) + spec_line_ops(
            seq![
                COIN_PAIR_ART[0]@,
                COIN_PAIR_ART[1]@,
                COIN_PAIR_ART[2]@,
                COIN_PAIR_ART[3]@,
                COIN_PAIR_ART[4]@,
            ],
        ),
{
    write_line(out, COIN_PAIR_ART[0]);
    write_line(out, COIN_PAIR_ART[1]);
    write_line(out, COIN_PAIR_ART[2]);
    write_line(out, COIN_PAIR_ART[3]);
    write_line(out, COIN_PAIR_ART[4]);
    assert(spec_ops(out@) =~= spec_ops(old(out)@) + spec_line_ops(
        seq![
            COIN_PAIR_ART[0]@,
            COIN_PAIR_ART[1]@,
            COIN_PAIR_ART[2]@,
            COIN_PAIR_ART[3]@,
            COIN_PAIR_ART[4]@,
        ],
    ));
}

/// The always-on coin picker: heads and tails side by side, then the
/// `[H]`/`[T]` key labels (six lines).
pub fn write_coin_picker(out: &mut Vec<TextOp>)
    ensures
        spec_ops(final(out)@) == spec_ops(old(out)@) + spec_line_ops(spec_coin_picker()),
{
    write_coin_pair(out);
    write_line(out, COIN_PICKER_LABELS);
    assert(spec_ops(out@) =~= spec_ops(old(out)@) + spec_line_ops(spec_coin_picker()));
}

/// The reference legend: every die face and both coin sides, each labelled.
pub fn write_legend(out: &mut Vec<TextOp>)
    ensures
        spec_ops(final(out)@) == spec_ops(old(out)@) + spec_line_ops(spec_legend()),
{
    write_line(out, LEGEND_TITLE);
    write_line(out, "");
    write_dice_rows(out);
    write_line(out, LEGEND_DICE_LABELS);
    write_line(out, "");
    write_coin_pair(out);
    write_line(out, LEGEND_COIN_LABELS);
    write_line(out, "");
    write_line(out, LEGEND_BACK);
    assert(spec_ops(out@) =~= spec_ops(old(out)@) + spec_line_ops(spec_legend()));
}

/// The face shown for a roll value: values below 1 show face 1, above 6
/// show face 6.
pub open spec fn spec_face_index(value: u8) -> int {
    if value == 0 {
        0
    } else if value > 6 {
        5
    } else {
        value - 1
    }
}

/// The lines of the "last entered" block for `event`: a label, then the
/// five art rows of the face or coin side.
pub open spec fn spec_last_entered(event: PhysicalEvent) -> Seq<Seq<char>> {
    match event {
        PhysicalEvent::Roll(v) => {
            let art = DIE_FACE_ART[spec_face_index(v)];
            seq!["Last entered -- roll of "@ + spec_decimal(v as nat) + ":"@, art[0]@, art[1]@, art[2]@, art[3]@, art[4]@]
        },
        PhysicalEvent::Flip(CoinFace::Heads) => seq![
            "Last entered -- flip of heads:"@,
            COIN_HEADS_ART[0]@,
            COIN_HEADS_ART[1]@,
            COIN_HEADS_ART[2]@,
            COIN_HEADS_ART[3]@,
            COIN_HEADS_ART[4]@,
        ],
        PhysicalEvent::Flip(CoinFace::Tails) => seq![
            "Last entered -- flip of tails:"@,
            COIN_TAILS_ART[0]@,
            COIN_TAILS_ART[1]@,
            COIN_TAILS_ART[2]@,
            COIN_TAILS_ART[3]@,
            COIN_TAILS_ART[4]@,
        ],
    }
}

/// Append a label line and the five rows of `art`.
fn write_art(out: &mut Vec<TextOp>, label: String, art: [&'static str; 5])
    ensures
        spec_ops(final(out)@) == spec_ops(old(out)@) + spec_line_ops(
            seq![label@, art[0]@, art[1]@, art[2]@, art[3]@, art[4]@],
        ),
{
    let ghost l = label@;
    write_string(out, label);
    write_line(out, art[0]);
    write_line(out, art[1]);
    write_line(out, art[2]);
    write_line(out, art[3]);
    write_line(out, art[4]);
    assert(spec_ops(out@) =~= spec_ops(old(out)@) + spec_line_ops(
        seq![l, art[0]@, art[1]@, art[2]@, art[3]@, art[4]@],
    ));
}

/// The "last entered" block for `event`: the label line, then the art.
pub fn write_last_entered(out: &mut Vec<TextOp>, event: PhysicalEvent)
    ensures
        spec_ops(final(out)@) == spec_ops(old(out)@) + spec_line_ops(spec_last_entered(event)),
{
    match event {
        PhysicalEvent::Roll(value) => {
            let mut label = String::new();
            push_str(&mut label, "Last entered -- roll of ");
            push_decimal(&mut label, value as u64);
            push_str(&mut label, ":");
            let face: usize = if value == 0 {
                0
            } else if value > 6 {
                5
            } else {
                (value - 1) as usize
            };
            write_art(out, label, DIE_FACE_ART[face]);
        },
        PhysicalEvent::Flip(CoinFace::Heads) => {
            write_art(out, "Last entered -- flip of heads:".to_owned(), COIN_HEADS_ART);
        },
        PhysicalEvent::Flip(CoinFace::Tails) => {
            write_art(out, "Last entered -- flip of tails:".to_owned(), COIN_TAILS_ART);
        },
    }
}

} // verus!
