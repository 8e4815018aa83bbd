//! The custom-path builder's screens: the BUILD screen (path read-back,
//! cursor, script, optional per-level detail, the live purpose advisory),
//! the block screens of the purposes no single seed can show, and the
//! result screen with every applicable advisory. Path punctuation (`/`,
//! `'`) only ever appears here, in output.
use vstd::prelude::*;
use crate::contracts::ScriptType;
use crate::custom_path::{
    BlockKind, BuilderView, PathBuilder, Purpose, spec_children, spec_is_nonzero_coin_type_for,
    spec_is_short_path_for, spec_is_unconventional_combo_for, spec_view_purpose, view_wf,
};
use crate::text::{push_decimal, push_str, spec_decimal};
use crate::verification::{FINGERPRINT_LABEL, hex8_text, passphrase_caveat, spec_hex8_text, spec_passphrase_caveat};

verus! {

/// BUILD screen title.
pub const BUILD_TITLE: &'static str = "CUSTOM DERIVATION PATH BUILDER (air-gapped; assembled with self-test-safe keys)";

/// BUILD screen key help, first line.
pub const BUILD_KEYS_1: &'static str =
    "[1-4] script   [A]/[Z] value +/-   [H] hardened   [S]/[X] depth +/-   [C] cursor";

/// BUILD screen key help, second line.
pub const BUILD_KEYS_2: &'static str = "[T] detail read-back      [Enter] preview address      [Esc] back";

/// The script-type hazard, first line.
pub const SCRIPT_HAZARD_1: &'static str =
    "The path AND the script type TOGETHER define the address. A wrong script type gives a";

/// The script-type hazard, second line.
pub const SCRIPT_HAZARD_2: &'static str =
    "valid-looking but WRONG address with no error - the same silent hazard as a wrong passphrase.";

/// `48'` block, first line.
pub const BLOCK_BIP48_1: &'static str =
    "BLOCKED: multisig cosigner path (48'). Its receive address is a P2WSH of a witnessScript";

/// `48'` block, second line.
pub const BLOCK_BIP48_2: &'static str =
    "containing ALL cosigners' public keys (BIP67-sorted) and CANNOT be derived from one seed.";

/// `48'` block, third line.
pub const BLOCK_BIP48_3: &'static str =
    "This tool shows single-key addresses only. (Multisig verification is out of scope.)";

/// `45'` block, first line.
pub const BLOCK_BIP45_1: &'static str =
    "BLOCKED: P2SH multisig structure path (45'). The address is a P2SH of a multisig script";

/// `45'` block, second line.
pub const BLOCK_BIP45_2: &'static str =
    "over ALL cosigners' keys - the same one-seed-insufficient property as 48'; a single-sig";

/// `45'` block, third line.
pub const BLOCK_BIP45_3: &'static str =
    "render would be guaranteed wrong. (Multisig verification is out of scope.)";

/// `47'` block, first line (its own wording: payment codes, not multisig).
pub const BLOCK_BIP47_1: &'static str =
    "BLOCKED: BIP47 reusable-payment-code path (47'). Addresses come from ECDH between your";

/// `47'` block, second line.
pub const BLOCK_BIP47_2: &'static str =
    "payment code and a COUNTERPARTY's payment code, not from your seed alone; there is no";

/// `47'` block, third line.
pub const BLOCK_BIP47_3: &'static str =
    "single-key receive address to show. (Payment-code verification is out of scope.)";

/// Appended to the `45'`/`47'` block screens.
pub const BLOCK_EXPORT_POINTER: &'static str = "See [X] Export on the verify screen.";

/// Block screen acknowledge prompt.
pub const BLOCK_BACK_PROMPT: &'static str = "[Enter] Back to builder";

/// Short-path warning, first line.
pub const SHORT_PATH_WARN_1: &'static str =
    "NOTE: this looks like an account/change node, not a receive leaf. Wallets show addresses";

/// Short-path warning, second line.
pub const SHORT_PATH_WARN_2: &'static str =
    "at .../change/index (depth 5); this shorter path is valid but is NOT an address a wallet lists.";

/// Unconventional-combination warning, first line.
pub const COMBO_WARN_1: &'static str =
    "NOTE: this purpose's conventional address type differs from the script type you chose. The";

/// Unconventional-combination warning, second line.
pub const COMBO_WARN_2: &'static str =
    "address is valid but will NOT match a wallet that follows the purpose's usual convention.";

/// Coin-type warning, first line.
pub const COIN_TYPE_WARN_1: &'static str =
    "NOTE: coin_type is not 0' (Bitcoin mainnet); mainnet-BTC encoding is applied regardless. A";

/// Coin-type warning, second line.
pub const COIN_TYPE_WARN_2: &'static str =
    "different-prefix coin (Litecoin ltc1.../testnet tb1...) is VISIBLY different, so no false match;";

/// Coin-type warning, third line.
pub const COIN_TYPE_WARN_3: &'static str =
    "but a shared-encoding fork (BCH legacy 1..., coin_type 145') renders IDENTICALLY - a false match.";

/// The unknown-purpose note.
pub const UNKNOWN_PURPOSE_NOTE: &'static str =
    "NOTE: unrecognized purpose - verify your wallet actually uses this exact path.";

/// Result screen title.
pub const RESULT_TITLE: &'static str =
    "CUSTOM PATH PREVIEW (reference value - not secret keys, but an address reveals privacy)";

/// Result framing, first line.
pub const RESULT_FRAMING_1: &'static str =
    "This is your wallet's address ONLY if it uses this exact path, script type, coin and the";

/// Result framing, second line (no passphrase).
pub const RESULT_FRAMING_2: &'static str =
    "empty passphrase. Cross-check it against your wallet; do not assume it is authoritative.";

/// Result framing, second line when a passphrase was set.
pub const RESULT_FRAMING_2_PP: &'static str =
    "passphrase you entered. Cross-check it against your wallet; do not assume it is authoritative.";

/// Result screen acknowledge prompt.
pub const RESULT_BACK_PROMPT: &'static str = "[Enter] Back to builder";

/// The human label of a script type.
pub open spec fn spec_script_label(script: ScriptType) -> &'static str {
    match script {
        ScriptType::P2pkh => "P2PKH  (legacy, 1...)",
        ScriptType::P2shP2wpkh => "P2SH-P2WPKH  (nested segwit, 3...)",
        ScriptType::P2wpkh => "P2WPKH  (native segwit, bc1q...)",
        ScriptType::P2tr => "P2TR  (taproot, bc1p...)",
    }
}

/// The human label of a script type.
pub fn script_label(script: ScriptType) -> (r: &'static str)
    ensures
        r == spec_script_label(script),
{
    match script {
        ScriptType::P2pkh => "P2PKH  (legacy, 1...)",
        ScriptType::P2shP2wpkh => "P2SH-P2WPKH  (nested segwit, 3...)",
        ScriptType::P2wpkh => "P2WPKH  (native segwit, bc1q...)",
        ScriptType::P2tr => "P2TR  (taproot, bc1p...)",
    }
}

/// One level of the read-back: its value, and `'` when hardened.
pub open spec fn spec_level_text(value: u32, hardened: bool) -> Seq<char> {
    spec_decimal(value as nat) + if hardened {
        "'"@
    } else {
        Seq::empty()
    }
}

/// The path read-back of the first `n` levels: `m`, then `/` and each
/// level.
pub open spec fn spec_path_text(levels: Seq<u32>, flags: Seq<bool>, n: nat) -> Seq<char>
    decreases n,
{
    if n == 0 {
        "m"@
    } else {
        spec_path_text(levels, flags, (n - 1) as nat) + "/"@ + spec_level_text(levels[n - 1], flags[n - 1])
    }
}

/// Append the path read-back (`m/84'/0'/0'/0/0`).
pub fn write_path(line: &mut String, b: &PathBuilder)
    ensures
        final(line)@ == old(line)@ + spec_path_text(b@.levels, b@.flags, b@.levels.len()),
{
    let depth = b.depth();
    push_str(line, "m");
    let mut i: usize = 0;
    while i < depth
        invariant
            i <= depth,
            depth == b@.levels.len(),
            view_wf(b@),
            line@ == old(line)@ + spec_path_text(b@.levels, b@.flags, i as nat),
        decreases depth - i,
    {
        push_str(line, "/");
        push_decimal(line, b.value_at(i) as u64);
        if b.hardened_at(i) {
            push_str(line, "'");
        }
        i = i + 1;
        assert(line@ =~= old(line)@ + spec_path_text(b@.levels, b@.flags, i as nat));
    }
}

/// The live purpose advisory of the BUILD screen.
pub open spec fn spec_purpose_line(p: Purpose) -> &'static str {
    match p {
        Purpose::MultisigBlock(BlockKind::Bip48Multisig) => "Purpose: BIP48 cosigner - [Enter] opens the watch-only export instead.",
        Purpose::MultisigBlock(_) => "Purpose: BLOCKED (multisig / payment-code) - preview will be refused.",
        Purpose::SingleSigOk(_) => "Purpose: recognized single-sig.",
        Purpose::Unknown => "Purpose: unrecognized - allowed, but verify your wallet uses it.",
    }
}

/// The purpose advisory shown before committing.
pub fn purpose_line(b: &PathBuilder) -> (r: &'static str)
    ensures
        r == spec_purpose_line(spec_view_purpose(b@)),
{
    match b.purpose() {
        Purpose::MultisigBlock(BlockKind::Bip48Multisig) => "Purpose: BIP48 cosigner - [Enter] opens the watch-only export instead.",
        Purpose::MultisigBlock(_) => "Purpose: BLOCKED (multisig / payment-code) - preview will be refused.",
        Purpose::SingleSigOk(_) => "Purpose: recognized single-sig.",
        Purpose::Unknown => "Purpose: unrecognized - allowed, but verify your wallet uses it.",
    }
}

/// The cursor line: level (1-based), depth, value and whether hardened.
pub open spec fn spec_cursor_line(v: BuilderView) -> Seq<char> {
    "Cursor: level "@ + spec_decimal(v.cursor + 1) + " of "@ + spec_decimal(v.levels.len()) + "   value "@
        + spec_decimal(v.levels[v.cursor as int] as nat) + if v.flags[v.cursor as int] {
        "  (hardened ')"@
    } else {
        "  (normal)"@
    }
}

/// One detail row: the cursor mark, the level (1-based) and its value.
pub open spec fn spec_detail_row(v: BuilderView, i: int) -> Seq<char> {
    (if i == v.cursor {
        ">"@
    } else {
        " "@
    }) + " level "@ + spec_decimal((i + 1) as nat) + ": "@ + spec_level_text(v.levels[i], v.flags[i])
}

/// The lines of the BUILD screen.
pub open spec fn spec_build_lines(v: BuilderView) -> Seq<Seq<char>> {
    seq![
        BUILD_TITLE@,
        ""@,
        BUILD_KEYS_1@,
        BUILD_KEYS_2@,
        ""@,
        "Path:   "@ + spec_path_text(v.levels, v.flags, v.levels.len()),
        spec_cursor_line(v),
        "Script: "@ + spec_script_label(v.script)@,
    ] + (if v.detail {
        seq![""@] + Seq::new(v.levels.len(), |i: int| spec_detail_row(v, i))
    } else {
        Seq::empty()
    }) + seq![""@, spec_purpose_line(spec_view_purpose(v))@, ""@, SCRIPT_HAZARD_1@, SCRIPT_HAZARD_2@]
}

fn cursor_line(b: &PathBuilder) -> (r: String)
    ensures
        r@ == spec_cursor_line(b@),
{
    let depth = b.depth();
    let c = b.cursor();
    let mut line = String::new();
    push_str(&mut line, "Cursor: level ");
    push_decimal(&mut line, (c + 1) as u64);
    push_str(&mut line, " of ");
    push_decimal(&mut line, depth as u64);
    push_str(&mut line, "   value ");
    push_decimal(&mut line, b.value_at(c) as u64);
    if b.hardened_at(c) {
        push_str(&mut line, "  (hardened ')");
    } else {
        push_str(&mut line, "  (normal)");
    }
    line
}

fn detail_row(b: &PathBuilder, i: usize) -> (r: String)
    requires
        i < b@.levels.len(),
    ensures
        r@ == spec_detail_row(b@, i as int),
{
    let depth = b.depth();
    let mut row = String::new();
    if i == b.cursor() {
        push_str(&mut row, ">");
    } else {
        push_str(&mut row, " ");
    }
    push_str(&mut row, " level ");
    push_decimal(&mut row, (i + 1) as u64);
    push_str(&mut row, ": ");
    push_decimal(&mut row, b.value_at(i) as u64);
    if b.hardened_at(i) {
        push_str(&mut row, "'");
    }
    row
}

/// The lines of the BUILD screen: title, key help, the path read-back, the
/// cursor and script lines, the per-level detail when on, the purpose
/// advisory and the script-type hazard.
pub fn build_lines(b: &PathBuilder) -> (r: Vec<String>)
    ensures
        r@.map_values(|s: String| s@) == spec_build_lines(b@),
{
    let depth = b.depth();
    let mut r: Vec<String> = Vec::new();
    r.push(BUILD_TITLE.to_owned());
    r.push("".to_owned());
    r.push(BUILD_KEYS_1.to_owned());
    r.push(BUILD_KEYS_2.to_owned());
    r.push("".to_owned());
    let mut path = String::new();
    push_str(&mut path, "Path:   ");
    write_path(&mut path, b);
    r.push(path);
    r.push(cursor_line(b));
    let mut script = String::new();
    push_str(&mut script, "Script: ");
    push_str(&mut script, script_label(b.script()));
    r.push(script);
    let ghost head = r@.map_values(|s: String| s@);
    if b.detail() {
        r.push("".to_owned());
        let mut i: usize = 0;
        while i < depth
            invariant
                i <= depth,
                depth == b@.levels.len(),
                b@.detail,
                r@.map_values(|s: String| s@) == head + seq![""@] + Seq::new(i as nat, |j: int| spec_detail_row(b@, j)),
            decreases depth - i,
        {
            let row = detail_row(b, i);
            let ghost before = r@;
            r.push(row);
            assert(r@.map_values(|s: String| s@) =~= before.map_values(|s: String| s@).push(
                spec_detail_row(b@, i as int),
            ));
            i = i + 1;
            assert(r@.map_values(|s: String| s@) =~= head + seq![""@] + Seq::new(
                i as nat,
                |j: int| spec_detail_row(b@, j),
            ));
        }
    }
    let ghost mid = r@.map_values(|s: String| s@);
    r.push("".to_owned());
    r.push(purpose_line(b).to_owned());
    r.push("".to_owned());
    r.push(SCRIPT_HAZARD_1.to_owned());
    r.push(SCRIPT_HAZARD_2.to_owned());
    assert(r@.map_values(|s: String| s@) =~= mid + seq![
        ""@,
        spec_purpose_line(spec_view_purpose(b@))@,
        ""@,
        SCRIPT_HAZARD_1@,
        SCRIPT_HAZARD_2@,
    ]);
    assert(r@.map_values(|s: String| s@) =~= spec_build_lines(b@));
    r
}

/// The lines of the block screen for `kind`: its three-line explanation,
/// then (for `45'`/`47'`) the pointer to the export screen, then the back
/// prompt.
pub open spec fn spec_block_lines(kind: BlockKind) -> Seq<Seq<char>> {
    match kind {
        BlockKind::Bip48Multisig => seq![BLOCK_BIP48_1@, BLOCK_BIP48_2@, BLOCK_BIP48_3@, ""@, BLOCK_BACK_PROMPT@],
        BlockKind::Bip45Multisig => seq![
            BLOCK_BIP45_1@,
            BLOCK_BIP45_2@,
            BLOCK_BIP45_3@,
            ""@,
            BLOCK_EXPORT_POINTER@,
            ""@,
            BLOCK_BACK_PROMPT@,
        ],
        BlockKind::Bip47PaymentCode => seq![
            BLOCK_BIP47_1@,
            BLOCK_BIP47_2@,
            BLOCK_BIP47_3@,
            ""@,
            BLOCK_EXPORT_POINTER@,
            ""@,
            BLOCK_BACK_PROMPT@,
        ],
    }
}

/// The lines of the block screen for `kind` (no address is produced).
pub fn block_lines(kind: BlockKind) -> (r: Vec<&'static str>)
    ensures
        r@.map_values(|s: &'static str| s@) == spec_block_lines(kind),
{
    let r = match kind {
        BlockKind::Bip48Multisig => vec![BLOCK_BIP48_1, BLOCK_BIP48_2, BLOCK_BIP48_3, "", BLOCK_BACK_PROMPT],
        BlockKind::Bip45Multisig => vec![
            BLOCK_BIP45_1,
            BLOCK_BIP45_2,
            BLOCK_BIP45_3,
            "",
            BLOCK_EXPORT_POINTER,
            "",
            BLOCK_BACK_PROMPT,
        ],
        BlockKind::Bip47PaymentCode => vec![
            BLOCK_BIP47_1,
            BLOCK_BIP47_2,
            BLOCK_BIP47_3,
            "",
            BLOCK_EXPORT_POINTER,
            "",
            BLOCK_BACK_PROMPT,
        ],
    };
    assert(r@.map_values(|s: &'static str| s@) =~= spec_block_lines(kind));
    r
}

/// The advisories that apply to the built path: the unknown-purpose note,
/// the short-path, unconventional-combination and coin-type warnings.
pub open spec fn spec_advisories(v: BuilderView) -> Seq<Seq<char>> {
    let p = spec_view_purpose(v);
    (if p == Purpose::Unknown {
        seq![UNKNOWN_PURPOSE_NOTE@]
    } else {
        Seq::empty()
    }) + (if spec_is_short_path_for(p, v.levels.len() as int) {
        seq![SHORT_PATH_WARN_1@, SHORT_PATH_WARN_2@]
    } else {
        Seq::empty()
    }) + (if spec_is_unconventional_combo_for(p, v.script) {
        seq![COMBO_WARN_1@, COMBO_WARN_2@]
    } else {
        Seq::empty()
    }) + if spec_is_nonzero_coin_type_for(p, spec_children(v.levels, v.flags)) {
        seq![COIN_TYPE_WARN_1@, COIN_TYPE_WARN_2@, COIN_TYPE_WARN_3@]
    } else {
        Seq::empty()
    }
}

/// The lines of the result screen for the committed path.
pub open spec fn spec_result_lines(v: BuilderView, fingerprint: [u8; 4], address: Seq<char>, passphrase_set: bool) -> Seq<
    Seq<char>,
> {
    seq![
        RESULT_TITLE@,
        ""@,
        FINGERPRINT_LABEL@ + "   "@ + spec_hex8_text(fingerprint),
        "Path     "@ + spec_path_text(v.levels, v.flags, v.levels.len()),
        "Script   "@ + spec_script_label(v.script)@,
        "Address  "@ + address,
        ""@,
        spec_passphrase_caveat(passphrase_set)@,
    ] + spec_advisories(v) + seq![
        ""@,
        RESULT_FRAMING_1@,
        (if passphrase_set {
            RESULT_FRAMING_2_PP
        } else {
            RESULT_FRAMING_2
        })@,
        ""@,
        RESULT_BACK_PROMPT@,
    ]
}

fn push_advisories(r: &mut Vec<String>, b: &PathBuilder)
    ensures
        final(r)@.map_values(|s: String| s@) == old(r)@.map_values(|s: String| s@) + spec_advisories(b@),
{
    let ghost start = r@.map_values(|s: String| s@);
    let ghost p = spec_view_purpose(b@);
    if b.purpose() == Purpose::Unknown {
        r.push(UNKNOWN_PURPOSE_NOTE.to_owned());
    }
    let ghost a1 = r@.map_values(|s: String| s@);
    assert(a1 =~= start + if p == Purpose::Unknown { seq![UNKNOWN_PURPOSE_NOTE@] } else { Seq::empty() });
    if b.is_short_path() {
        r.push(SHORT_PATH_WARN_1.to_owned());
        r.push(SHORT_PATH_WARN_2.to_owned());
    }
    let ghost a2 = r@.map_values(|s: String| s@);
    assert(a2 =~= a1 + if spec_is_short_path_for(p, b@.levels.len() as int) {
        seq![SHORT_PATH_WARN_1@, SHORT_PATH_WARN_2@]
    } else {
        Seq::empty()
    });
    if b.is_unconventional_combo() {
        r.push(COMBO_WARN_1.to_owned());
        r.push(COMBO_WARN_2.to_owned());
    }
    let ghost a3 = r@.map_values(|s: String| s@);
    assert(a3 =~= a2 + if spec_is_unconventional_combo_for(p, b@.script) {
        seq![COMBO_WARN_1@, COMBO_WARN_2@]
    } else {
        Seq::empty()
    });
    if b.is_nonzero_coin_type() {
        r.push(COIN_TYPE_WARN_1.to_owned());
        r.push(COIN_TYPE_WARN_2.to_owned());
        r.push(COIN_TYPE_WARN_3.to_owned());
    }
    let ghost a4 = r@.map_values(|s: String| s@);
    assert(a4 =~= a3 + if spec_is_nonzero_coin_type_for(p, spec_children(b@.levels, b@.flags)) {
        seq![COIN_TYPE_WARN_1@, COIN_TYPE_WARN_2@, COIN_TYPE_WARN_3@]
    } else {
        Seq::empty()
    });
    assert(a4 =~= start + spec_advisories(b@));
}

/// The lines of the browse-only result screen for one committed leaf: the
/// fingerprint, the path, the script type, the `address`, the passphrase
/// caveat, every applicable advisory, and the "not authoritative" framing.
pub fn result_lines(b: &PathBuilder, fingerprint: [u8; 4], address: &str, passphrase_set: bool) -> (r: Vec<String>)
    ensures
        r@.map_values(|s: String| s@) == spec_result_lines(b@, fingerprint, address@, passphrase_set),
{
    let mut r: Vec<String> = Vec::new();
    r.push(RESULT_TITLE.to_owned());
    r.push("".to_owned());
    let mut fp = String::new();
    push_str(&mut fp, FINGERPRINT_LABEL);
    push_str(&mut fp, "   ");
    let hex = hex8_text(fingerprint);
    push_str(&mut fp, hex.as_str());
    r.push(fp);
    let mut path = String::new();
    push_str(&mut path, "Path     ");
    write_path(&mut path, b);
    r.push(path);
    let mut script = String::new();
    push_str(&mut script, "Script   ");
    push_str(&mut script, script_label(b.script()));
    r.push(script);
    let mut addr = String::new();
    push_str(&mut addr, "Address  ");
    push_str(&mut addr, address);
    r.push(addr);
    r.push("".to_owned());
    r.push(passphrase_caveat(passphrase_set).to_owned());
    let ghost head = r@.map_values(|s: String| s@);
    push_advisories(&mut r, b);
    let ghost mid = r@.map_values(|s: String| s@);
    r.push("".to_owned());
    r.push(RESULT_FRAMING_1.to_owned());
    let framing_2 = if passphrase_set {
        RESULT_FRAMING_2_PP
    } else {
        RESULT_FRAMING_2
    };
    r.push(framing_2.to_owned());
    r.push("".to_owned());
    r.push(RESULT_BACK_PROMPT.to_owned());
    assert(r@.map_values(|s: String| s@) =~= mid + seq![
        ""@,
        RESULT_FRAMING_1@,
        framing_2@,
        ""@,
        RESULT_BACK_PROMPT@,
    ]);
    assert(r@.map_values(|s: String| s@) =~= spec_result_lines(b@, fingerprint, address@, passphrase_set));
    r
}

} // verus!
