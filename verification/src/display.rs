//! The mnemonic display: its fixed copy, the word-grid geometry of each
//! numbered slot, and the decisions of its keys — `[H]` hide, `[D]`
//! destroy, and the second destroy confirmation that either wipes and
//! returns to the menu, wipes and powers off, or cancels.
use vstd::prelude::*;
use crate::keys::{MenuKey, ScriptedKeys, reads_first, spec_fold, spec_enter, read_enter};

verus! {

/// The hide prompt.
pub const HIDE_PROMPT: &'static str = "[H] Hide words and begin complete re-entry";

/// The destroy prompt.
pub const DESTROY_PROMPT: &'static str = "[D] Destroy phrase and shut down";

/// The screen title.
pub const BACKUP_TITLE: &'static str = "Write down your recovery phrase";

/// The second destroy confirmation (the first line is the heading).
pub const DESTROY_CONFIRM_LINES: [&'static str; 6] = [
    "Destroy the phrase?",
    "This cannot be undone.",
    "",
    "[M] Wipe and return to the menu",
    "[P] Wipe and power off (safest: clears RAM)",
    "[N] Cancel, show the phrase again",
];

/// The notice shown once every secret is wiped and the menu is next.
pub const DESTROYED_RETURN_NOTICE_LINES: [&'static str; 7] = [
    "Keys destroyed.",
    "Every secret has been wiped from memory.",
    "",
    "For maximum safety, power this machine",
    "off before leaving it unattended.",
    "",
    "[Enter] Return to the menu",
];

/// Columns of the word grid.
pub const WORD_SLOT_COLUMNS: u32 = 6;

/// Rows of the word grid.
pub const WORD_SLOT_ROWS: u32 = 4;

/// The user's choice on the mnemonic-display screen.
#[derive(Debug, Clone, Copy, PartialEq, Eq, Structural)]
pub enum DisplayChoice {
    /// `[H]`.
    Hide,
    /// `[D]`, first press: a second confirmation follows.
    DestroyRequested,
}

/// How the operator chose to leave from the second destroy confirmation.
#[derive(Debug, Clone, Copy, PartialEq, Eq, Structural)]
pub enum DestroyDecision {
    /// `[M]`: wipe every secret, then return to the menu.
    ReturnToMenu,
    /// `[P]`: wipe every secret, then power off.
    PowerOff,
    /// `[N]`: cancel and show the phrase again.
    Cancel,
}

/// The "NN. " label of word slot `slot` (1-based, two digits).
pub open spec fn spec_slot_label(slot: u8) -> Seq<u8> {
    let n = slot + 1;
    seq![(48 + (n / 10) % 10) as u8, (48 + n % 10) as u8, 46u8, 32u8]
}

/// The "NN. " label drawn at the start of word slot `slot`: the 1-based
/// slot number in two digits, a period and a space.
pub fn slot_label(slot: u8) -> (r: [u8; 4])
    ensures
        r@ == spec_slot_label(slot),
{
    let n: u32 = slot as u32 + 1;
    let r: [u8; 4] = [(48 + (n / 10) % 10) as u8, (48 + n % 10) as u8, 46u8, 32u8];
    assert(r@ =~= spec_slot_label(slot));
    r
}

/// Where the word grid sits and how large each slot is, in pixels.
#[derive(Debug, Clone, Copy, PartialEq, Eq, Structural)]
pub struct GridLayout {
    pub left: u32,
    pub top: u32,
    pub cell_w: u32,
    pub cell_h: u32,
}

/// The top-left pixel of word slot `slot` (taken modulo the 24 slots):
/// six slots per row, four rows.
pub open spec fn spec_slot_origin(slot: u8, g: GridLayout) -> (int, int) {
    let s = slot % 24;
    (g.left + (s % 6) * g.cell_w, g.top + (s / 6) * g.cell_h)
}

/// The top-left pixel of word slot `slot` in the grid `g`.
pub fn slot_origin(slot: u8, g: GridLayout) -> (r: (u32, u32))
    requires
        g.left + 5 * g.cell_w <= u32::MAX,
        g.top + 3 * g.cell_h <= u32::MAX,
    ensures
        r.0 == spec_slot_origin(slot, g).0,
        r.1 == spec_slot_origin(slot, g).1,
{
    let s: u32 = slot as u32 % (WORD_SLOT_COLUMNS * WORD_SLOT_ROWS);
    let col = s % WORD_SLOT_COLUMNS;
    let row = s / WORD_SLOT_COLUMNS;
    assert(col * g.cell_w <= 5 * g.cell_w) by (nonlinear_arith)
        requires
            col <= 5,
    ;
    assert(row * g.cell_h <= 3 * g.cell_h) by (nonlinear_arith)
        requires
            row <= 3,
    ;
    (g.left + col * g.cell_w, g.top + row * g.cell_h)
}

pub open spec fn spec_display_choice(k: MenuKey) -> Option<DisplayChoice> {
    match k {
        MenuKey::Char(c) => if spec_fold(c) == spec_fold('h') {
            Some(DisplayChoice::Hide)
        } else if spec_fold(c) == spec_fold('d') {
            Some(DisplayChoice::DestroyRequested)
        } else {
            None
        },
        _ => None,
    }
}

/// `H`/`h` hides, `D`/`d` asks to destroy; every other key is ignored.
pub fn display_choice_of(k: MenuKey) -> (r: Option<DisplayChoice>)
    ensures
        r == spec_display_choice(k),
{
    match k {
        MenuKey::Char(c) => {
            if crate::keys::ascii_eq_ignore_case(c, 'h') {
                Some(DisplayChoice::Hide)
            } else if crate::keys::ascii_eq_ignore_case(c, 'd') {
                Some(DisplayChoice::DestroyRequested)
            } else {
                None
            }
        },
        _ => None,
    }
}

/// Read until `H` or `D` (no timeout).
pub fn read_display_choice(k: &mut ScriptedKeys) -> (r: Option<DisplayChoice>)
    requires
        old(k).pos <= old(k).events@.len(),
    ensures
        reads_first(*old(k), *final(k), |x: MenuKey| spec_display_choice(x), r),
{
    let ghost start = k.pos;
    loop
        invariant
            k.events@ == old(k).events@,
            old(k).pos <= k.pos <= k.events@.len(),
            start == old(k).pos,
            forall|j: int| start <= j < k.pos ==> (#[trigger] spec_display_choice(k.events@[j])) is None,
        decreases k.events@.len() - k.pos,
    {
        match k.read_menu_key() {
            None => {
                return None;
            },
            Some(key) => {
                let d = display_choice_of(key);
                if d.is_some() {
                    return d;
                }
            },
        }
    }
}

pub open spec fn spec_destroy_decision(k: MenuKey) -> Option<DestroyDecision> {
    match k {
        MenuKey::Char(c) => if spec_fold(c) == spec_fold('m') {
            Some(DestroyDecision::ReturnToMenu)
        } else if spec_fold(c) == spec_fold('p') {
            Some(DestroyDecision::PowerOff)
        } else if spec_fold(c) == spec_fold('n') {
            Some(DestroyDecision::Cancel)
        } else {
            None
        },
        _ => None,
    }
}

/// `M` wipes and returns to the menu, `P` wipes and powers off, `N`
/// cancels; every other key, a bare Enter included, is ignored.
pub fn destroy_decision_of(k: MenuKey) -> (r: Option<DestroyDecision>)
    ensures
        r == spec_destroy_decision(k),
{
    match k {
        MenuKey::Char(c) => {
            if crate::keys::ascii_eq_ignore_case(c, 'm') {
                Some(DestroyDecision::ReturnToMenu)
            } else if crate::keys::ascii_eq_ignore_case(c, 'p') {
                Some(DestroyDecision::PowerOff)
            } else if crate::keys::ascii_eq_ignore_case(c, 'n') {
                Some(DestroyDecision::Cancel)
            } else {
                None
            }
        },
        _ => None,
    }
}

/// Read the second destroy confirmation.
pub fn read_destroy_double_confirm(k: &mut ScriptedKeys) -> (r: Option<DestroyDecision>)
    requires
        old(k).pos <= old(k).events@.len(),
    ensures
        reads_first(*old(k), *final(k), |x: MenuKey| spec_destroy_decision(x), r),
{
    let ghost start = k.pos;
    loop
        invariant
            k.events@ == old(k).events@,
            old(k).pos <= k.pos <= k.events@.len(),
            start == old(k).pos,
            forall|j: int| start <= j < k.pos ==> (#[trigger] spec_destroy_decision(k.events@[j])) is None,
        decreases k.events@.len() - k.pos,
    {
        match k.read_menu_key() {
            None => {
                return None;
            },
            Some(key) => {
                let d = destroy_decision_of(key);
                if d.is_some() {
                    return d;
                }
            },
        }
    }
}

/// Read until Enter acknowledges the post-destroy notice; every other key
/// is ignored. Returns `true` iff an Enter was read.
pub fn read_return_notice_ack(k: &mut ScriptedKeys) -> (r: bool)
    requires
        old(k).pos <= old(k).events@.len(),
    ensures
        reads_first(*old(k), *final(k), |x: MenuKey| spec_enter(x), if r { Some(()) } else { None }),
{
    read_enter(k)
}

} // verus!
