//! The wallet-derivation verification screens: the fixed copy (what is
//! shown and what is never shown), the fingerprint encoding, the choices
//! of the verify footer, the bounded-grid "more derivation options" menu
//! and its lines, and the failure screen.
//!
//! Nothing here touches a secret: every address shown is looked up from
//! values derived before the seed was scrubbed.
use vstd::prelude::*;
use crate::contracts::PathStandard;
use crate::keys::{MenuKey, ScriptedKeys, reads_first, spec_fold, spec_enter, read_enter};
use crate::text::{push_decimal, push_str, spec_decimal};

verus! {

/// Which derivation values the screen assumes (no passphrase).
pub const EMPTY_PASSPHRASE_CAVEAT: &'static str =
    "These values assume the empty passphrase. Any other passphrase derives a DIFFERENT wallet.";

/// The caveat when a passphrase was committed (its value is never shown).
pub const PASSPHRASE_SET_CAVEAT: &'static str =
    "These values assume the passphrase you just entered. A DIFFERENT passphrase, or no passphrase, derives a DIFFERENT wallet.";

/// The closing instruction.
pub const FOOTER: &'static str = "After restoring in your signing device, confirm it shows the SAME values.";

/// The fingerprint's gloss.
pub const FINGERPRINT_GLOSS: &'static str = "(same for every type - it IDs this seed)";

/// The fingerprint caption (no padding; each layout adds its own).
pub const FINGERPRINT_LABEL: &'static str = "Master fingerprint";

/// The address-block intro (no passphrase).
pub const ADDRESS_INTRO: &'static str = "First receive address (account 0, index 0, no passphrase):";

/// The address-block intro when a passphrase was set.
pub const ADDRESS_INTRO_PP: &'static str = "First receive address (account 0, index 0, with your passphrase):";

/// Caveat, first line.
pub const CAVEAT_LINE_1: &'static str = "These values are safe to write down - not secret keys, but addresses";

/// Caveat, second line (no passphrase).
pub const CAVEAT_LINE_2: &'static str = "reveal where your funds will be. They assume the EMPTY passphrase and";

/// Caveat, second line when a passphrase was set.
pub const CAVEAT_LINE_2_PP: &'static str =
    "reveal where your funds will be. They assume the passphrase you entered and";

/// Caveat, third line.
pub const CAVEAT_LINE_3: &'static str = "the standard account-0 path; a different passphrase or path derives a";

/// Caveat, fourth line.
pub const CAVEAT_LINE_4: &'static str = "DIFFERENT wallet.";

/// The footer offering the grid and the custom-path builder.
pub const CONTINUE_MORE_AND_CUSTOM_PROMPT: &'static str =
    "[Enter] Continue   [M] More derivation options   [B] Build custom path";

/// Width of the label field on the preview's address rows.
pub const LABEL_FIELD: usize = 32;

/// More-options header, first line.
pub const MORE_HEADER_1: &'static str = "MORE DERIVATION OPTIONS (safe to write down; not secret keys,";

/// More-options header, second line.
pub const MORE_HEADER_2: &'static str = "but addresses reveal where your funds will be)";

/// The standard picker.
pub const MORE_KEYS_STANDARD: &'static str = "Standard  [1] BIP44  [2] BIP49  [3] BIP84  [4] BIP86";

/// Account increment and decrement.
pub const MORE_KEYS_ACCOUNT: &'static str = "Account   [A] +   [Z] -";

/// Index increment and decrement.
pub const MORE_KEYS_INDEX: &'static str = "Index     [S] +   [X] -";

/// The change-chain toggle.
pub const MORE_KEYS_CHANGE: &'static str = "Change    [C] toggle external / internal";

/// The address-table toggle.
pub const MORE_KEYS_TABLE: &'static str = "Table     [T] toggle first addresses";

/// The table's privacy note.
pub const MORE_CLUSTER_NOTE: &'static str = "A table lists a CLUSTER of related addresses (a larger privacy surface).";

/// The back prompt.
pub const MORE_BACK_PROMPT: &'static str = "[Enter] Back";

/// Failure screen heading.
pub const FAILURE_HEADER: &'static str = "Wallet-derivation verification failed.";

/// The values were not produced.
pub const FAILURE_LINE_NOT_PRODUCED: &'static str = "Verification values were not produced.";

/// The backup already matched and remains usable.
pub const FAILURE_LINE_BACKUP_USABLE: &'static str =
    "Your recovery phrase already matched during re-entry and remains usable.";

/// The step may be repeated after a fresh boot.
pub const FAILURE_LINE_REPEAT: &'static str = "You may repeat this step after a fresh boot.";

/// The failure screen's continue prompt.
pub const FAILURE_CONTINUE_PROMPT: &'static str = "[Enter] Continue to shutdown";

/// The failure screen's lines.
pub const FAILURE_LINES: [&'static str; 7] = [
    FAILURE_HEADER,
    "",
    FAILURE_LINE_NOT_PRODUCED,
    FAILURE_LINE_BACKUP_USABLE,
    FAILURE_LINE_REPEAT,
    "",
    FAILURE_CONTINUE_PROMPT,
];

/// The caveat for the current passphrase state.
pub open spec fn spec_passphrase_caveat(passphrase_set: bool) -> &'static str {
    if passphrase_set {
        PASSPHRASE_SET_CAVEAT
    } else {
        EMPTY_PASSPHRASE_CAVEAT
    }
}

/// The caveat line for the current passphrase state: which passphrase the
/// values assume.
pub fn passphrase_caveat(passphrase_set: bool) -> (r: &'static str)
    ensures
        r == spec_passphrase_caveat(passphrase_set),
{
    if passphrase_set {
        PASSPHRASE_SET_CAVEAT
    } else {
        EMPTY_PASSPHRASE_CAVEAT
    }
}

/// The lowercase hex digit of `d` (`0`-`15`).
pub open spec fn spec_hex_digit(d: nat) -> u8 {
    if d < 10 {
        (48 + d) as u8
    } else {
        (87 + d) as u8
    }
}

/// The eight lowercase hex characters of four bytes, high nibble first.
pub open spec fn spec_hex8(b: [u8; 4]) -> Seq<u8> {
    Seq::new(8, |i: int| spec_hex_digit(if i % 2 == 0 { (b[i / 2] / 16) as nat } else { (b[i / 2] % 16) as nat }))
}

/// Encode four bytes (a master fingerprint) as eight lowercase hex
/// characters.
pub fn hex8(bytes: [u8; 4]) -> (r: [u8; 8])
    ensures
        r@ == spec_hex8(bytes),
{
    let hex: [u8; 16] = [48, 49, 50, 51, 52, 53, 54, 55, 56, 57, 97, 98, 99, 100, 101, 102];
    assert(forall|d: int| 0 <= d < 16 ==> hex@[d] == spec_hex_digit(d as nat));
    let mut out: [u8; 8] = [0u8; 8];
    let mut i: usize = 0;
    while i < 4
        invariant
            i <= 4,
            forall|d: int| 0 <= d < 16 ==> hex@[d] == spec_hex_digit(d as nat),
            forall|j: int| 0 <= j < 2 * i ==> out@[j] == spec_hex8(bytes)[j],
        decreases 4 - i,
    {
        let b = bytes[i];
        out[i * 2] = hex[(b / 16) as usize];
        out[i * 2 + 1] = hex[(b % 16) as usize];
        i = i + 1;
    }
    assert(out@ =~= spec_hex8(bytes));
    out
}


/// The lowercase hex character of `d` (`0`-`15`).
pub open spec fn spec_hex_char(d: nat) -> char {
    if d == 0 {
        '0'
    } else
    if d == 1 {
        '1'
    } else
    if d == 2 {
        '2'
    } else
    if d == 3 {
        '3'
    } else
    if d == 4 {
        '4'
    } else
    if d == 5 {
        '5'
    } else
    if d == 6 {
        '6'
    } else
    if d == 7 {
        '7'
    } else
    if d == 8 {
        '8'
    } else
    if d == 9 {
        '9'
    } else
    if d == 10 {
        'a'
    } else
    if d == 11 {
        'b'
    } else
    if d == 12 {
        'c'
    } else
    if d == 13 {
        'd'
    } else
    if d == 14 {
        'e'
    } else
    {
        'f'
    }
}

/// The eight lowercase hex characters of four bytes, as text.
pub open spec fn spec_hex8_text(b: [u8; 4]) -> Seq<char> {
    Seq::new(8, |i: int| spec_hex_char(if i % 2 == 0 { (b[i / 2] / 16) as nat } else { (b[i / 2] % 16) as nat }))
}

fn hex_char_str(d: u8) -> (r: &'static str)
    requires
        d < 16,
    ensures
        r@ == seq![spec_hex_char(d as nat)],
{
    if d == 0 {
        proof {
            reveal_strlit("0");
        }
        "0"
    } else
    if d == 1 {
        proof {
            reveal_strlit("1");
        }
        "1"
    } else
    if d == 2 {
        proof {
            reveal_strlit("2");
        }
        "2"
    } else
    if d == 3 {
        proof {
            reveal_strlit("3");
        }
        "3"
    } else
    if d == 4 {
        proof {
            reveal_strlit("4");
        }
        "4"
    } else
    if d == 5 {
        proof {
            reveal_strlit("5");
        }
        "5"
    } else
    if d == 6 {
        proof {
            reveal_strlit("6");
        }
        "6"
    } else
    if d == 7 {
        proof {
            reveal_strlit("7");
        }
        "7"
    } else
    if d == 8 {
        proof {
            reveal_strlit("8");
        }
        "8"
    } else
    if d == 9 {
        proof {
            reveal_strlit("9");
        }
        "9"
    } else
    if d == 10 {
        proof {
            reveal_strlit("a");
        }
        "a"
    } else
    if d == 11 {
        proof {
            reveal_strlit("b");
        }
        "b"
    } else
    if d == 12 {
        proof {
            reveal_strlit("c");
        }
        "c"
    } else
    if d == 13 {
        proof {
            reveal_strlit("d");
        }
        "d"
    } else
    if d == 14 {
        proof {
            reveal_strlit("e");
        }
        "e"
    } else
    {
        proof {
            reveal_strlit("f");
        }
        "f"
    }
}

/// The fingerprint as eight lowercase hex characters of text.
pub fn hex8_text(bytes: [u8; 4]) -> (r: String)
    ensures
        r@ == spec_hex8_text(bytes),
{
    let mut s = String::new();
    let mut i: usize = 0;
    while i < 4
        invariant
            i <= 4,
            s@ == spec_hex8_text(bytes).subrange(0, 2 * i),
        decreases 4 - i,
    {
        push_str(&mut s, hex_char_str(bytes[i] / 16));
        push_str(&mut s, hex_char_str(bytes[i] % 16));
        i = i + 1;
        assert(s@ =~= spec_hex8_text(bytes).subrange(0, 2 * i));
    }
    assert(spec_hex8_text(bytes).subrange(0, 8) =~= spec_hex8_text(bytes));
    s
}


/// View the values or skip them.
#[derive(Debug, Clone, Copy, PartialEq, Eq, Structural)]
pub enum OfferChoice {
    Show,
    Skip,
}

pub open spec fn spec_offer_choice(k: MenuKey) -> Option<OfferChoice> {
    match k {
        MenuKey::Enter => Some(OfferChoice::Show),
        MenuKey::Char(c) => if spec_fold(c) == spec_fold('s') {
            Some(OfferChoice::Skip)
        } else {
            None
        },
        _ => None,
    }
}

/// Enter views, `S` skips; every other key is ignored.
pub fn offer_choice_of(k: MenuKey) -> (r: Option<OfferChoice>)
    ensures
        r == spec_offer_choice(k),
{
    match k {
        MenuKey::Enter => Some(OfferChoice::Show),
        MenuKey::Char(c) => if crate::keys::ascii_eq_ignore_case(c, 's') {
            Some(OfferChoice::Skip)
        } else {
            None
        },
        _ => None,
    }
}

/// Read until view or skip.
pub fn read_offer_choice(k: &mut ScriptedKeys) -> (r: Option<OfferChoice>)
    requires
        old(k).pos <= old(k).events@.len(),
    ensures
        reads_first(*old(k), *final(k), |x: MenuKey| spec_offer_choice(x), r),
{
    let ghost start = k.pos;
    loop
        invariant
            k.events@ == old(k).events@,
            old(k).pos <= k.pos <= k.events@.len(),
            start == old(k).pos,
            forall|j: int| start <= j < k.pos ==> (#[trigger] spec_offer_choice(k.events@[j])) is None,
        decreases k.events@.len() - k.pos,
    {
        match k.read_menu_key() {
            None => {
                return None;
            },
            Some(key) => {
                let d = offer_choice_of(key);
                if d.is_some() {
                    return d;
                }
            },
        }
    }
}

/// The terse, code-first label of a standard (fixed width).
pub open spec fn spec_standard_label(standard: PathStandard) -> &'static str {
    match standard {
        PathStandard::Bip44 => "BIP44 legacy       ",
        PathStandard::Bip49 => "BIP49 nested segwit",
        PathStandard::Bip84 => "BIP84 native segwit",
        PathStandard::Bip86 => "BIP86 taproot      ",
    }
}

/// The terse label of a standard, as the grid menu shows it.
pub fn standard_label(standard: PathStandard) -> (r: &'static str)
    ensures
        r == spec_standard_label(standard),
{
    match standard {
        PathStandard::Bip44 => "BIP44 legacy       ",
        PathStandard::Bip49 => "BIP49 nested segwit",
        PathStandard::Bip84 => "BIP84 native segwit",
        PathStandard::Bip86 => "BIP86 taproot      ",
    }
}

/// The plain-English wallet label of a standard.
pub open spec fn spec_wallet_label(standard: PathStandard) -> &'static str {
    match standard {
        PathStandard::Bip44 => "Legacy (BIP44)",
        PathStandard::Bip49 => "Nested SegWit (BIP49)",
        PathStandard::Bip84 => "Native SegWit / bech32 (BIP84)",
        PathStandard::Bip86 => "Taproot (BIP86)",
    }
}

/// The plain-English wallet label of a standard, as the preview shows it.
pub fn wallet_label(standard: PathStandard) -> (r: &'static str)
    ensures
        r == spec_wallet_label(standard),
{
    match standard {
        PathStandard::Bip44 => "Legacy (BIP44)",
        PathStandard::Bip49 => "Nested SegWit (BIP49)",
        PathStandard::Bip84 => "Native SegWit / bech32 (BIP84)",
        PathStandard::Bip86 => "Taproot (BIP86)",
    }
}

/// What the default verification footer answered.
#[derive(Debug, Clone, Copy, PartialEq, Eq, Structural)]
pub enum DefaultChoice {
    /// `[Enter]`: done with verification.
    Continue,
    /// `[M]`: the bounded-grid menu.
    MoreOptions,
    /// `[B]`: the structured custom-path builder.
    CustomBuilder,
}

pub open spec fn spec_default_choice(k: MenuKey) -> Option<DefaultChoice> {
    match k {
        MenuKey::Enter => Some(DefaultChoice::Continue),
        MenuKey::Char(c) => if spec_fold(c) == spec_fold('m') {
            Some(DefaultChoice::MoreOptions)
        } else if spec_fold(c) == spec_fold('b') {
            Some(DefaultChoice::CustomBuilder)
        } else {
            None
        },
        _ => None,
    }
}

/// Enter continues, `M` opens the grid, `B` the builder; every other key is
/// ignored.
pub fn default_choice_of(k: MenuKey) -> (r: Option<DefaultChoice>)
    ensures
        r == spec_default_choice(k),
{
    match k {
        MenuKey::Enter => Some(DefaultChoice::Continue),
        MenuKey::Char(c) => if crate::keys::ascii_eq_ignore_case(c, 'm') {
            Some(DefaultChoice::MoreOptions)
        } else if crate::keys::ascii_eq_ignore_case(c, 'b') {
            Some(DefaultChoice::CustomBuilder)
        } else {
            None
        },
        _ => None,
    }
}

/// Read the default footer's choice.
pub fn read_default_choice(k: &mut ScriptedKeys) -> (r: Option<DefaultChoice>)
    requires
        old(k).pos <= old(k).events@.len(),
    ensures
        reads_first(*old(k), *final(k), |x: MenuKey| spec_default_choice(x), r),
{
    let ghost start = k.pos;
    loop
        invariant
            k.events@ == old(k).events@,
            old(k).pos <= k.pos <= k.events@.len(),
            start == old(k).pos,
            forall|j: int| start <= j < k.pos ==> (#[trigger] spec_default_choice(k.events@[j])) is None,
        decreases k.events@.len() - k.pos,
    {
        match k.read_menu_key() {
            None => {
                return None;
            },
            Some(key) => {
                let d = default_choice_of(key);
                if d.is_some() {
                    return d;
                }
            },
        }
    }
}

/// Read until Enter acknowledges; every other key is ignored. Returns
/// `true` iff an Enter was read.
pub fn read_acknowledged(k: &mut ScriptedKeys) -> (r: bool)
    requires
        old(k).pos <= old(k).events@.len(),
    ensures
        reads_first(*old(k), *final(k), |x: MenuKey| spec_enter(x), if r { Some(()) } else { None }),
{
    read_enter(k)
}

/// The chain label: external for 0, internal (change) otherwise.
pub open spec fn spec_change_label(change: u32) -> &'static str {
    if change == 0 {
        "external chain"
    } else {
        "internal (change) chain"
    }
}

/// The label of the external (`0`) or internal change (`1`) chain.
pub fn change_label(change: u32) -> (r: &'static str)
    ensures
        r == spec_change_label(change),
{
    if change == 0 {
        "external chain"
    } else {
        "internal (change) chain"
    }
}

/// The live selector of the more-options menu.
#[derive(Debug, Clone, Copy, PartialEq, Eq, Structural)]
pub struct Selection {
    /// `0`-`3`: BIP44, BIP49, BIP84, BIP86.
    pub standard_ord: u8,
    pub account: u32,
    /// 0 external, 1 internal.
    pub change: u32,
    pub index: u32,
    /// Whether the first-addresses table replaces the single address.
    pub table: bool,
}

/// The standard a selector ordinal stands for (3 and above are BIP86).
pub open spec fn spec_standard_of(ord: u8) -> PathStandard {
    if ord == 0 {
        PathStandard::Bip44
    } else if ord == 1 {
        PathStandard::Bip49
    } else if ord == 2 {
        PathStandard::Bip84
    } else {
        PathStandard::Bip86
    }
}

impl Selection {
    /// BIP44, account 0, external chain, index 0, single address.
    pub fn new() -> (r: Self)
        ensures
            r == (Selection { standard_ord: 0, account: 0, change: 0, index: 0, table: false }),
    {
        Selection { standard_ord: 0, account: 0, change: 0, index: 0, table: false }
    }

    /// The selected standard.
    pub fn standard(self) -> (r: PathStandard)
        ensures
            r == spec_standard_of(self.standard_ord),
    {
        if self.standard_ord == 0 {
            PathStandard::Bip44
        } else if self.standard_ord == 1 {
            PathStandard::Bip49
        } else if self.standard_ord == 2 {
            PathStandard::Bip84
        } else {
            PathStandard::Bip86
        }
    }
}

/// One key of the more-options menu: `None` for Enter (back), otherwise the
/// selection after the key. `1`-`4` pick the standard, `A`/`Z` move the
/// account and `S`/`X` the index within `0..=max`, `C` flips the chain, `T`
/// toggles the table; every other key changes nothing.
pub open spec fn spec_more_options_step(sel: Selection, k: MenuKey, account_max: u32, index_max: u32) -> Option<
    Selection,
> {
    match k {
        MenuKey::Enter => None,
        MenuKey::Char(c) => {
            let u = spec_fold(c);
            Some(
                if c == '1' {
                    Selection { standard_ord: 0, ..sel }
                } else if c == '2' {
                    Selection { standard_ord: 1, ..sel }
                } else if c == '3' {
                    Selection { standard_ord: 2, ..sel }
                } else if c == '4' {
                    Selection { standard_ord: 3, ..sel }
                } else if u == spec_fold('a') && sel.account < account_max {
                    Selection { account: (sel.account + 1) as u32, ..sel }
                } else if u == spec_fold('z') && sel.account > 0 {
                    Selection { account: (sel.account - 1) as u32, ..sel }
                } else if u == spec_fold('s') && sel.index < index_max {
                    Selection { index: (sel.index + 1) as u32, ..sel }
                } else if u == spec_fold('x') && sel.index > 0 {
                    Selection { index: (sel.index - 1) as u32, ..sel }
                } else if u == spec_fold('c') {
                    Selection { change: if sel.change == 0 { 1 } else { 0 }, ..sel }
                } else if u == spec_fold('t') {
                    Selection { table: !sel.table, ..sel }
                } else {
                    sel
                },
            )
        },
        _ => Some(sel),
    }
}

/// Apply one key to the more-options selector (see
/// [`spec_more_options_step`]).
pub fn more_options_step(sel: Selection, k: MenuKey, account_max: u32, index_max: u32) -> (r: Option<Selection>)
    requires
        sel.change <= 1,
    ensures
        r == spec_more_options_step(sel, k, account_max, index_max),
{
    match k {
        MenuKey::Enter => None,
        MenuKey::Char(c) => {
            let a = crate::keys::ascii_eq_ignore_case(c, 'a');
            let z = crate::keys::ascii_eq_ignore_case(c, 'z');
            let s = crate::keys::ascii_eq_ignore_case(c, 's');
            let x = crate::keys::ascii_eq_ignore_case(c, 'x');
            let ch = crate::keys::ascii_eq_ignore_case(c, 'c');
            let t = crate::keys::ascii_eq_ignore_case(c, 't');
            Some(
                if c == '1' {
                    Selection { standard_ord: 0, ..sel }
                } else if c == '2' {
                    Selection { standard_ord: 1, ..sel }
                } else if c == '3' {
                    Selection { standard_ord: 2, ..sel }
                } else if c == '4' {
                    Selection { standard_ord: 3, ..sel }
                } else if a && sel.account < account_max {
                    Selection { account: sel.account + 1, ..sel }
                } else if z && sel.account > 0 {
                    Selection { account: sel.account - 1, ..sel }
                } else if s && sel.index < index_max {
                    Selection { index: sel.index + 1, ..sel }
                } else if x && sel.index > 0 {
                    Selection { index: sel.index - 1, ..sel }
                } else if ch {
                    Selection { change: if sel.change == 0 { 1 } else { 0 }, ..sel }
                } else if t {
                    Selection { table: !sel.table, ..sel }
                } else {
                    sel
                },
            )
        },
        _ => Some(sel),
    }
}

/// A selection within the menu's bounds.
pub open spec fn spec_selection_in_bounds(sel: Selection, account_max: u32, index_max: u32) -> bool {
    sel.standard_ord <= 3 && sel.account <= account_max && sel.index <= index_max && sel.change <= 1
}

/// Every key keeps the selector within the pre-derived grid: a selection
/// within bounds stays within bounds.
pub proof fn lemma_more_options_stays_in_bounds(sel: Selection, k: MenuKey, account_max: u32, index_max: u32)
    requires
        spec_selection_in_bounds(sel, account_max, index_max),
    ensures
        spec_more_options_step(sel, k, account_max, index_max) matches Some(n) ==> spec_selection_in_bounds(
            n,
            account_max,
            index_max,
        ),
{
}

/// The menu run over `keys` from `sel`: the last selection, whether Enter
/// ended it, and how many keys it read.
pub open spec fn spec_more_options_run(sel: Selection, keys: Seq<MenuKey>, account_max: u32, index_max: u32) -> (
    Selection,
    bool,
    nat,
)
    decreases keys.len(),
{
    if keys.len() == 0 {
        (sel, false, 0)
    } else {
        match spec_more_options_step(sel, keys[0], account_max, index_max) {
            None => (sel, true, 1),
            Some(n) => {
                let (s2, done, used) = spec_more_options_run(n, keys.drop_first(), account_max, index_max);
                (s2, done, used + 1)
            },
        }
    }
}

/// Drive the more-options menu over the key stream from the initial
/// selection until Enter: returns the last selection and whether Enter was
/// read (`false` when the keys ran out first).
pub fn run_more_options(k: &mut ScriptedKeys, account_max: u32, index_max: u32) -> (r: (Selection, bool))
    requires
        old(k).pos <= old(k).events@.len(),
    ensures
        final(k).events@ == old(k).events@,
        ({
            let run = spec_more_options_run(
                Selection { standard_ord: 0, account: 0, change: 0, index: 0, table: false },
                old(k).events@.subrange(old(k).pos as int, old(k).events@.len() as int),
                account_max,
                index_max,
            );
            &&& r.0 == run.0
            &&& r.1 == run.1
            &&& final(k).pos == old(k).pos + run.2
        }),
        spec_selection_in_bounds(r.0, account_max, index_max),
{
    let mut sel = Selection::new();
    let ghost total = spec_more_options_run(
        sel,
        k.events@.subrange(k.pos as int, k.events@.len() as int),
        account_max,
        index_max,
    );
    let ghost p0 = k.pos;
    loop
        invariant
            k.events@ == old(k).events@,
            p0 == old(k).pos,
            p0 <= k.pos <= k.events@.len(),
            spec_selection_in_bounds(sel, account_max, index_max),
            total == spec_more_options_run(
                Selection { standard_ord: 0, account: 0, change: 0, index: 0, table: false },
                old(k).events@.subrange(p0 as int, old(k).events@.len() as int),
                account_max,
                index_max,
            ),
            ({
                let rest = spec_more_options_run(
                    sel,
                    k.events@.subrange(k.pos as int, k.events@.len() as int),
                    account_max,
                    index_max,
                );
                &&& rest.0 == total.0
                &&& rest.1 == total.1
                &&& rest.2 + (k.pos - p0) == total.2
            }),
        decreases k.events@.len() - k.pos,
    {
        let ghost rest_keys = k.events@.subrange(k.pos as int, k.events@.len() as int);
        match k.read_menu_key() {
            None => {
                return (sel, false);
            },
            Some(key) => {
                proof {
                    assert(rest_keys[0] == key);
                    assert(rest_keys.drop_first() =~= k.events@.subrange(k.pos as int, k.events@.len() as int));
                    lemma_more_options_stays_in_bounds(sel, key, account_max, index_max);
                }
                match more_options_step(sel, key, account_max, index_max) {
                    None => {
                        return (sel, true);
                    },
                    Some(n) => {
                        sel = n;
                    },
                }
            },
        }
    }
}

/// The indexes whose addresses the menu shows: the first `table_rows`
/// when the table is on, otherwise the selected index.
pub open spec fn spec_shown_indexes(sel: Selection, table_rows: u32) -> Seq<u32> {
    if sel.table {
        Seq::new(table_rows as nat, |i: int| i as u32)
    } else {
        seq![sel.index]
    }
}

/// The address indexes the menu shows for `sel`.
pub fn shown_indexes(sel: Selection, table_rows: u32) -> (r: Vec<u32>)
    ensures
        r@ == spec_shown_indexes(sel, table_rows),
{
    let mut r: Vec<u32> = Vec::new();
    if sel.table {
        let mut i: u32 = 0;
        while i < table_rows
            invariant
                i <= table_rows,
                r@ == Seq::new(i as nat, |j: int| j as u32),
            decreases table_rows - i,
        {
            r.push(i);
            i = i + 1;
            assert(r@ =~= Seq::new(i as nat, |j: int| j as u32));
        }
    } else {
        r.push(sel.index);
        assert(r@ =~= seq![sel.index]);
    }
    r
}

/// One address row: `  #i   addr` in the table, `  index i   addr` for
/// the single address.
pub open spec fn spec_address_row(table: bool, index: u32, addr: Seq<char>) -> Seq<char> {
    (if table {
        "  #"@
    } else {
        "  index "@
    }) + spec_decimal(index as nat) + "   "@ + addr
}

/// The address rows for the shown indexes and their looked-up addresses.
pub open spec fn spec_address_rows(sel: Selection, indexes: Seq<u32>, addrs: Seq<Seq<char>>) -> Seq<Seq<char>> {
    Seq::new(addrs.len(), |i: int| spec_address_row(sel.table, indexes[i], addrs[i]))
}

/// The lines of the more-options menu: header, key help, the summary of
/// the selection, the fingerprint, the address rows, then the caveat, the
/// privacy note, the footer and the back prompt.
pub open spec fn spec_more_options_lines(
    sel: Selection,
    fingerprint: [u8; 4],
    indexes: Seq<u32>,
    addrs: Seq<Seq<char>>,
    passphrase_set: bool,
) -> Seq<Seq<char>> {
    seq![
        MORE_HEADER_1@,
        MORE_HEADER_2@,
        ""@,
        MORE_KEYS_STANDARD@,
        MORE_KEYS_ACCOUNT@,
        MORE_KEYS_INDEX@,
        MORE_KEYS_CHANGE@,
        MORE_KEYS_TABLE@,
        ""@,
        spec_standard_label(spec_standard_of(sel.standard_ord))@ + "   account "@ + spec_decimal(sel.account as nat)
            + "   "@ + spec_change_label(sel.change)@,
        FINGERPRINT_LABEL@ + "      "@ + spec_hex8_text(fingerprint),
    ] + spec_address_rows(sel, indexes, addrs) + seq![
        ""@,
        spec_passphrase_caveat(passphrase_set)@,
        MORE_CLUSTER_NOTE@,
        FOOTER@,
        MORE_BACK_PROMPT@,
    ]
}

/// The lines of one frame of the more-options menu; `addresses[i]` is the
/// address looked up for `indexes[i]` (see [`shown_indexes`]).
pub fn more_options_lines(
    sel: Selection,
    fingerprint: [u8; 4],
    indexes: &Vec<u32>,
    addresses: &Vec<String>,
    passphrase_set: bool,
) -> (r: Vec<String>)
    requires
        indexes.len() == addresses.len(),
    ensures
        r@.map_values(|s: String| s@) == spec_more_options_lines(
            sel,
            fingerprint,
            indexes@,
            addresses@.map_values(|s: String| s@),
            passphrase_set,
        ),
{
    let ghost addrs = addresses@.map_values(|s: String| s@);
    let mut r: Vec<String> = Vec::new();
    r.push(MORE_HEADER_1.to_owned());
    r.push(MORE_HEADER_2.to_owned());
    r.push("".to_owned());
    r.push(MORE_KEYS_STANDARD.to_owned());
    r.push(MORE_KEYS_ACCOUNT.to_owned());
    r.push(MORE_KEYS_INDEX.to_owned());
    r.push(MORE_KEYS_CHANGE.to_owned());
    r.push(MORE_KEYS_TABLE.to_owned());
    r.push("".to_owned());
    let mut summary = String::new();
    push_str(&mut summary, standard_label(sel.standard()));
    push_str(&mut summary, "   account ");
    push_decimal(&mut summary, sel.account as u64);
    push_str(&mut summary, "   ");
    push_str(&mut summary, change_label(sel.change));
    r.push(summary);
    let mut fp = String::new();
    push_str(&mut fp, FINGERPRINT_LABEL);
    push_str(&mut fp, "      ");
    let hex = hex8_text(fingerprint);
    push_str(&mut fp, hex.as_str());
    r.push(fp);
    let ghost head = r@.map_values(|s: String| s@);
    assert(head =~= spec_more_options_lines(sel, fingerprint, indexes@, Seq::empty(), passphrase_set).take(11));
    let mut i: usize = 0;
    while i < addresses.len()
        invariant
            i <= addresses.len(),
            indexes.len() == addresses.len(),
            addrs == addresses@.map_values(|s: String| s@),
            r@.map_values(|s: String| s@) == head + spec_address_rows(sel, indexes@, addrs.take(i as int)),
        decreases addresses.len() - i,
    {
        let mut row = String::new();
        if sel.table {
            push_str(&mut row, "  #");
        } else {
            push_str(&mut row, "  index ");
        }
        push_decimal(&mut row, indexes[i] as u64);
        push_str(&mut row, "   ");
        push_str(&mut row, addresses[i].as_str());
        assert(row@ == spec_address_row(sel.table, indexes@[i as int], addrs[i as int]));
        let ghost before = r@;
        r.push(row);
        assert(r@.map_values(|s: String| s@) =~= before.map_values(|s: String| s@).push(
            spec_address_row(sel.table, indexes@[i as int], addrs[i as int]),
        ));
        assert(spec_address_rows(sel, indexes@, addrs.take(i + 1)) =~= spec_address_rows(
            sel,
            indexes@,
            addrs.take(i as int),
        ).push(spec_address_row(sel.table, indexes@[i as int], addrs[i as int])));
        i = i + 1;
        assert(r@.map_values(|s: String| s@) =~= head + spec_address_rows(sel, indexes@, addrs.take(i as int)));
    }
    assert(addrs.take(addresses.len() as int) =~= addrs);
    let ghost mid = r@.map_values(|s: String| s@);
    r.push("".to_owned());
    r.push(passphrase_caveat(passphrase_set).to_owned());
    r.push(MORE_CLUSTER_NOTE.to_owned());
    r.push(FOOTER.to_owned());
    r.push(MORE_BACK_PROMPT.to_owned());
    assert(r@.map_values(|s: String| s@) =~= mid + seq![
        ""@,
        spec_passphrase_caveat(passphrase_set)@,
        MORE_CLUSTER_NOTE@,
        FOOTER@,
        MORE_BACK_PROMPT@,
    ]);
    assert(r@.map_values(|s: String| s@) =~= spec_more_options_lines(sel, fingerprint, indexes@, addrs, passphrase_set));
    r
}

/// A whole more-options run from a selection within bounds ends on a
/// selection within bounds, however many keys it reads.
pub proof fn lemma_more_options_run_in_bounds(sel: Selection, keys: Seq<MenuKey>, account_max: u32, index_max: u32)
    requires
        spec_selection_in_bounds(sel, account_max, index_max),
    ensures
        spec_selection_in_bounds(spec_more_options_run(sel, keys, account_max, index_max).0, account_max, index_max),
    decreases keys.len(),
{
    if keys.len() > 0 {
        lemma_more_options_stays_in_bounds(sel, keys[0], account_max, index_max);
        match spec_more_options_step(sel, keys[0], account_max, index_max) {
            None => {},
            Some(n) => {
                lemma_more_options_run_in_bounds(n, keys.drop_first(), account_max, index_max);
            },
        }
    }
}

/// A more-options run reads keys up to and including the first Enter and
/// no further; with no Enter among the keys it reads them all and does not
/// end.
pub proof fn lemma_more_options_run_stops_at_first_enter(
    sel: Selection,
    keys: Seq<MenuKey>,
    account_max: u32,
    index_max: u32,
)
    ensures
        ({
            let (last, done, used) = spec_more_options_run(sel, keys, account_max, index_max);
            &&& used <= keys.len()
            &&& done ==> used >= 1 && keys[used - 1] == MenuKey::Enter
            &&& !done ==> used == keys.len()
            &&& forall|j: int| 0 <= j < used - 1 ==> #[trigger] keys[j] != MenuKey::Enter
            &&& !done ==> forall|j: int| 0 <= j < keys.len() ==> #[trigger] keys[j] != MenuKey::Enter
        }),
    decreases keys.len(),
{
    if keys.len() > 0 {
        match spec_more_options_step(sel, keys[0], account_max, index_max) {
            None => {},
            Some(n) => {
                let rest = keys.drop_first();
                lemma_more_options_run_stops_at_first_enter(n, rest, account_max, index_max);
                assert(keys[0] != MenuKey::Enter);
                assert forall|j: int| 1 <= j < keys.len() implies keys[j] == rest[j - 1] by {}
            },
        }
    }
}

/// Keys `1`-`4` pick the four standards in order, BIP44, BIP49, BIP84 and
/// BIP86 (so four distinct standards), and change nothing else about the
/// selection.
pub proof fn lemma_standard_keys(sel: Selection, account_max: u32, index_max: u32)
    ensures
        spec_more_options_step(sel, MenuKey::Char('1'), account_max, index_max) == Some(
            Selection { standard_ord: 0, ..sel },
        ),
        spec_more_options_step(sel, MenuKey::Char('2'), account_max, index_max) == Some(
            Selection { standard_ord: 1, ..sel },
        ),
        spec_more_options_step(sel, MenuKey::Char('3'), account_max, index_max) == Some(
            Selection { standard_ord: 2, ..sel },
        ),
        spec_more_options_step(sel, MenuKey::Char('4'), account_max, index_max) == Some(
            Selection { standard_ord: 3, ..sel },
        ),
        spec_standard_of(0) == PathStandard::Bip44,
        spec_standard_of(1) == PathStandard::Bip49,
        spec_standard_of(2) == PathStandard::Bip84,
        spec_standard_of(3) == PathStandard::Bip86,
{
}

} // verus!
