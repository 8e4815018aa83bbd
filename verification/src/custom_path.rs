//! The structured custom derivation-path builder.
//!
//! A path is assembled level by level from a small set of self-test-safe
//! keys: `[A]`/`[Z]` change the selected level's value, `[H]` toggles its
//! hardened marker, `[S]`/`[X]` grow and shrink the depth, `[C]` moves the
//! cursor, `[1]`-`[4]` pick the script type and `[T]` toggles the detail
//! read-back. Building is pure public arithmetic; `[Enter]` commits, unless
//! the purpose is a blocked multisig/payment-code purpose.
use vstd::prelude::*;
use crate::contracts::{
    HARDENED_OFFSET, MAX_DEPTH, PathStandard, ScriptType, spec_script_for_standard,
    script_for_standard,
};
use crate::keys::{MenuKey, spec_fold};

verus! {

/// Largest base value a level may hold: `2^31 - 1`.
pub const MAX_LEVEL_VALUE: u32 = 0x7FFF_FFFF;

/// The conventional single-sig receive-leaf depth.
pub const CONVENTIONAL_LEAF_DEPTH: usize = 5;

/// A recognized non-single-sig purpose that blocks single-sig rendering.
#[derive(Debug, Clone, Copy, PartialEq, Eq, Structural)]
pub enum BlockKind {
    /// `48'` — BIP48 multisig cosigner path.
    Bip48Multisig,
    /// `45'` — BIP45 P2SH multisig structure path.
    Bip45Multisig,
    /// `47'` — BIP47 reusable payment codes.
    Bip47PaymentCode,
}

/// Classification of a path's first element.
#[derive(Debug, Clone, Copy, PartialEq, Eq, Structural)]
pub enum Purpose {
    /// A known single-sig purpose and its standard.
    SingleSigOk(PathStandard),
    /// A known non-single-sig purpose: rendering is blocked.
    MultisigBlock(BlockKind),
    /// Any other purpose (allowed, with a note).
    Unknown,
}

pub open spec fn spec_classify_purpose(first_value: u32, first_hardened: bool) -> Purpose {
    if !first_hardened {
        Purpose::Unknown
    } else if first_value == 44 {
        Purpose::SingleSigOk(PathStandard::Bip44)
    } else if first_value == 49 {
        Purpose::SingleSigOk(PathStandard::Bip49)
    } else if first_value == 84 {
        Purpose::SingleSigOk(PathStandard::Bip84)
    } else if first_value == 86 {
        Purpose::SingleSigOk(PathStandard::Bip86)
    } else if first_value == 45 {
        Purpose::MultisigBlock(BlockKind::Bip45Multisig)
    } else if first_value == 47 {
        Purpose::MultisigBlock(BlockKind::Bip47PaymentCode)
    } else if first_value == 48 {
        Purpose::MultisigBlock(BlockKind::Bip48Multisig)
    } else {
        Purpose::Unknown
    }
}

/// Classify the purpose from the first level's `(base value, hardened)`. Only
/// a hardened first level is a BIP purpose.
pub fn classify_purpose(first_value: u32, first_hardened: bool) -> (r: Purpose)
    ensures
        r == spec_classify_purpose(first_value, first_hardened),
{
    if !first_hardened {
        return Purpose::Unknown;
    }
    match first_value {
        44 => Purpose::SingleSigOk(PathStandard::Bip44),
        49 => Purpose::SingleSigOk(PathStandard::Bip49),
        84 => Purpose::SingleSigOk(PathStandard::Bip84),
        86 => Purpose::SingleSigOk(PathStandard::Bip86),
        45 => Purpose::MultisigBlock(BlockKind::Bip45Multisig),
        47 => Purpose::MultisigBlock(BlockKind::Bip47PaymentCode),
        48 => Purpose::MultisigBlock(BlockKind::Bip48Multisig),
        _ => Purpose::Unknown,
    }
}

pub open spec fn spec_classify_purpose_child(first_child: u32) -> Purpose {
    if first_child >= HARDENED_OFFSET {
        spec_classify_purpose((first_child - HARDENED_OFFSET) as u32, true)
    } else {
        spec_classify_purpose(first_child, false)
    }
}

/// Classify the purpose of an assembled first child number (hardened bit
/// baked in), as the free-form parser produces it.
pub fn classify_purpose_child(first_child: u32) -> (r: Purpose)
    ensures
        r == spec_classify_purpose_child(first_child),
{
    let hardened = first_child >= HARDENED_OFFSET;
    let value = if hardened {
        first_child - HARDENED_OFFSET
    } else {
        first_child
    };
    classify_purpose(value, hardened)
}

pub open spec fn spec_is_short_path_for(purpose: Purpose, depth: int) -> bool {
    purpose is SingleSigOk && depth < CONVENTIONAL_LEAF_DEPTH
}

/// A known single-sig purpose at a depth shorter than the conventional
/// receive leaf (an account/change node).
pub fn is_short_path_for(purpose: Purpose, depth: usize) -> (r: bool)
    ensures
        r == spec_is_short_path_for(purpose, depth as int),
{
    match purpose {
        Purpose::SingleSigOk(_) => depth < CONVENTIONAL_LEAF_DEPTH,
        _ => false,
    }
}

pub open spec fn spec_is_unconventional_combo_for(purpose: Purpose, script: ScriptType) -> bool {
    match purpose {
        Purpose::SingleSigOk(standard) => script != spec_script_for_standard(standard),
        _ => false,
    }
}

/// A known purpose rendered with a script type other than its conventional
/// form.
pub fn is_unconventional_combo_for(purpose: Purpose, script: ScriptType) -> (r: bool)
    ensures
        r == spec_is_unconventional_combo_for(purpose, script),
{
    match purpose {
        Purpose::SingleSigOk(standard) => script != script_for_standard(standard),
        _ => false,
    }
}

pub open spec fn spec_is_nonzero_coin_type_for(purpose: Purpose, path: Seq<u32>) -> bool {
    purpose is SingleSigOk && path.len() >= 2 && path[1] != HARDENED_OFFSET
}

/// A known-purpose path whose second child (the coin type) is not `0'`.
pub fn is_nonzero_coin_type_for(purpose: Purpose, path: &[u32]) -> (r: bool)
    ensures
        r == spec_is_nonzero_coin_type_for(purpose, path@),
{
    match purpose {
        Purpose::SingleSigOk(_) => path.len() >= 2 && path[1] != HARDENED_OFFSET,
        _ => false,
    }
}

/// The child number of one level: its base value, plus the hardened bit when
/// hardened.
pub open spec fn spec_child(value: u32, hardened: bool) -> u32 {
    if hardened {
        (value + HARDENED_OFFSET) as u32
    } else {
        value
    }
}

/// The assembled child numbers of the levels `values`/`flags`.
pub open spec fn spec_children(values: Seq<u32>, flags: Seq<bool>) -> Seq<u32> {
    Seq::new(values.len(), |i: int| spec_child(values[i], flags[i]))
}

/// The abstract build state: the active levels' base values and hardened
/// flags, the edit cursor, the script type and the detail toggle.
#[verifier::ext_equal]
pub struct BuilderView {
    pub levels: Seq<u32>,
    pub flags: Seq<bool>,
    pub cursor: nat,
    pub script: ScriptType,
    pub detail: bool,
}

/// `[A]` on the view: the cursor level's value plus one, clamped.
pub open spec fn spec_inc(v: BuilderView) -> BuilderView {
    let x = v.levels[v.cursor as int];
    BuilderView {
        levels: v.levels.update(v.cursor as int, if x < MAX_LEVEL_VALUE { (x + 1) as u32 } else { x }),
        ..v
    }
}

/// `[Z]` on the view: the cursor level's value minus one, clamped at 0.
pub open spec fn spec_dec(v: BuilderView) -> BuilderView {
    let x = v.levels[v.cursor as int];
    BuilderView { levels: v.levels.update(v.cursor as int, if x > 0 { (x - 1) as u32 } else { 0 }), ..v }
}

/// `[H]` on the view: the cursor level's hardened flag flipped.
pub open spec fn spec_toggle_hardened(v: BuilderView) -> BuilderView {
    BuilderView { flags: v.flags.update(v.cursor as int, !v.flags[v.cursor as int]), ..v }
}

/// `[S]` on the view: one more level `0` (normal), cursor on it; no change at
/// full depth.
pub open spec fn spec_grow(v: BuilderView) -> BuilderView {
    if v.levels.len() < MAX_DEPTH {
        BuilderView { levels: v.levels.push(0), flags: v.flags.push(false), cursor: v.levels.len(), ..v }
    } else {
        v
    }
}

/// `[X]`/Backspace on the view: the last level removed (never the only one),
/// cursor clamped.
pub open spec fn spec_shrink(v: BuilderView) -> BuilderView {
    if v.levels.len() > 1 {
        BuilderView {
            levels: v.levels.drop_last(),
            flags: v.flags.drop_last(),
            cursor: if v.cursor >= v.levels.len() - 1 { (v.levels.len() - 2) as nat } else { v.cursor },
            ..v
        }
    } else {
        v
    }
}

/// `[C]` on the view: the cursor advanced, wrapping within the depth.
pub open spec fn spec_move_cursor(v: BuilderView) -> BuilderView {
    BuilderView { cursor: ((v.cursor + 1) % v.levels.len()) as nat, ..v }
}

/// The effect of one BUILD-screen key on the view. Backspace and the
/// characters `1`-`4 A Z H S X C T` (either case) edit; every other key
/// leaves the state unchanged.
pub open spec fn spec_apply_key(v: BuilderView, key: MenuKey) -> BuilderView {
    match key {
        MenuKey::Backspace => spec_shrink(v),
        MenuKey::Char(c) => {
            let f = spec_fold(c);
            if f == 49 {
                BuilderView { script: ScriptType::P2pkh, ..v }
            } else if f == 50 {
                BuilderView { script: ScriptType::P2shP2wpkh, ..v }
            } else if f == 51 {
                BuilderView { script: ScriptType::P2wpkh, ..v }
            } else if f == 52 {
                BuilderView { script: ScriptType::P2tr, ..v }
            } else if f == 97 {
                spec_inc(v)
            } else if f == 122 {
                spec_dec(v)
            } else if f == 104 {
                spec_toggle_hardened(v)
            } else if f == 115 {
                spec_grow(v)
            } else if f == 120 {
                spec_shrink(v)
            } else if f == 99 {
                spec_move_cursor(v)
            } else if f == 116 {
                BuilderView { detail: !v.detail, ..v }
            } else {
                v
            }
        },
        _ => v,
    }
}

/// The purpose of a view's first level.
pub open spec fn spec_view_purpose(v: BuilderView) -> Purpose {
    spec_classify_purpose(v.levels[0], v.flags[0])
}

/// How a builder session ended.
#[derive(Debug, Clone, Copy, PartialEq, Eq, Structural)]
pub enum BuilderOutcome {
    /// `[Esc]`: back to the verification screen.
    Back,
    /// A `48'` path was committed: open the cosigner export.
    CosignerExport,
    /// A commit-phase derivation failed (fatal for the ceremony).
    DeriveFailed,
}

/// What one key did on the BUILD screen.
#[derive(Debug, Clone, Copy, PartialEq, Eq, Structural)]
pub enum BuilderStep {
    /// The key edited the build state, or was ignored; keep building.
    Continue,
    /// `[Esc]`: leave the builder.
    Back,
    /// `[Enter]` on a `48'` path: open the cosigner export instead.
    CosignerExport,
    /// `[Enter]` on a `45'`/`47'` path: show this block screen, derive
    /// nothing.
    Blocked(BlockKind),
    /// `[Enter]` on any other purpose: commit, deriving the current path.
    Commit,
}

/// The outcome of one BUILD-screen key.
pub open spec fn spec_step_outcome(v: BuilderView, key: MenuKey) -> BuilderStep {
    match key {
        MenuKey::Enter => match spec_view_purpose(v) {
            Purpose::MultisigBlock(BlockKind::Bip48Multisig) => BuilderStep::CosignerExport,
            Purpose::MultisigBlock(k) => BuilderStep::Blocked(k),
            _ => BuilderStep::Commit,
        },
        MenuKey::Escape => BuilderStep::Back,
        _ => BuilderStep::Continue,
    }
}

/// Well-formedness of a view: `1 <= depth <= MAX_DEPTH`, one flag per level,
/// cursor in range, values `<= MAX_LEVEL_VALUE`.
pub open spec fn view_wf(v: BuilderView) -> bool {
    &&& 1 <= v.levels.len() <= MAX_DEPTH
    &&& v.flags.len() == v.levels.len()
    &&& v.cursor < v.levels.len()
    &&& forall|i: int| 0 <= i < v.levels.len() ==> #[trigger] v.levels[i] <= MAX_LEVEL_VALUE
}

/// The live build state: up to [`MAX_DEPTH`] levels of `(base value,
/// hardened)`, the chosen script type, the edit cursor and the detail
/// toggle. Public path integers only.
#[derive(Debug, Clone, Copy)]
pub struct PathBuilder {
    values: [u32; MAX_DEPTH],
    hardened: [bool; MAX_DEPTH],
    depth: usize,
    cursor: usize,
    script: ScriptType,
    detail: bool,
}

impl View for PathBuilder {
    type V = BuilderView;

    closed spec fn view(&self) -> BuilderView {
        BuilderView {
            levels: self.values@.subrange(0, self.depth as int),
            flags: self.hardened@.subrange(0, self.depth as int),
            cursor: self.cursor as nat,
            script: self.script,
            detail: self.detail,
        }
    }
}

impl PathBuilder {
    /// Well-formedness: `1 <= depth <= MAX_DEPTH`, `cursor < depth`, every
    /// base value `<= MAX_LEVEL_VALUE`, retired slots cleared.
    #[verifier::type_invariant]
    spec fn inv(self) -> bool {
        &&& 1 <= self.depth <= MAX_DEPTH
        &&& self.cursor < self.depth
        &&& forall|i: int| 0 <= i < MAX_DEPTH ==> #[trigger] self.values[i] <= MAX_LEVEL_VALUE
        &&& forall|i: int|
            #![trigger self.values[i]]
            #![trigger self.hardened[i]]
            self.depth <= i < MAX_DEPTH ==> (self.values[i] == 0 && !self.hardened[i])
    }

    /// The default scaffold `m/84'/0'/0'/0/0` as native segwit, cursor on the
    /// first level, detail off.
    pub fn new() -> (r: Self)
        ensures
            r@ == (BuilderView {
                levels: seq![84u32, 0, 0, 0, 0],
                flags: seq![true, true, true, false, false],
                cursor: 0,
                script: ScriptType::P2wpkh,
                detail: false,
            }),
    {
        let values: [u32; MAX_DEPTH] = [84, 0, 0, 0, 0, 0, 0, 0, 0, 0];
        let hardened: [bool; MAX_DEPTH] = [true, true, true, false, false, false, false, false, false, false];
        let r = PathBuilder {
            values,
            hardened,
            depth: CONVENTIONAL_LEAF_DEPTH,
            cursor: 0,
            script: ScriptType::P2wpkh,
            detail: false,
        };
        assert(r@.levels =~= seq![84u32, 0, 0, 0, 0]);
        assert(r@.flags =~= seq![true, true, true, false, false]);
        r
    }

    /// Active depth.
    pub fn depth(&self) -> (r: usize)
        ensures
            r == self@.levels.len(),
            view_wf(self@),
    {
        proof {
            use_type_invariant(self);
        }
        self.depth
    }

    /// The edit cursor level.
    pub fn cursor(&self) -> (r: usize)
        ensures
            r == self@.cursor,
    {
        self.cursor
    }

    /// The chosen script type.
    pub fn script(&self) -> (r: ScriptType)
        ensures
            r == self@.script,
    {
        self.script
    }

    /// Whether the detail read-back is on.
    pub fn detail(&self) -> (r: bool)
        ensures
            r == self@.detail,
    {
        self.detail
    }

    /// The base value of level `i`.
    pub fn value_at(&self, i: usize) -> (r: u32)
        requires
            i < self@.levels.len(),
        ensures
            r == self@.levels[i as int],
    {
        proof {
            use_type_invariant(self);
        }
        self.values[i]
    }

    /// The hardened flag of level `i`.
    pub fn hardened_at(&self, i: usize) -> (r: bool)
        requires
            i < self@.levels.len(),
        ensures
            r == self@.flags[i as int],
    {
        proof {
            use_type_invariant(self);
        }
        self.hardened[i]
    }

    /// `[A]`: increment the selected level's base value, clamped at
    /// [`MAX_LEVEL_VALUE`].
    pub fn inc_value(&mut self)
        ensures
            final(self)@ == spec_inc(old(self)@),
    {
        proof {
            use_type_invariant(&*self);
        }
        let c = self.cursor;
        let v = self.values[c];
        if v < MAX_LEVEL_VALUE {
            let mut values = self.values;
            values[c] = v + 1;
            let new_b = PathBuilder {
                values,
                hardened: self.hardened,
                depth: self.depth,
                cursor: c,
                script: self.script,
                detail: self.detail,
            };
            *self = new_b;
        }
        assert(self@ =~= spec_inc(old(self)@));
    }

    /// `[Z]`: decrement the selected level's base value, clamped at 0.
    pub fn dec_value(&mut self)
        ensures
            final(self)@ == spec_dec(old(self)@),
    {
        proof {
            use_type_invariant(&*self);
        }
        let c = self.cursor;
        let v = self.values[c];
        if v > 0 {
            let mut values = self.values;
            values[c] = v - 1;
            let new_b = PathBuilder {
                values,
                hardened: self.hardened,
                depth: self.depth,
                cursor: c,
                script: self.script,
                detail: self.detail,
            };
            *self = new_b;
        }
        assert(self@ =~= spec_dec(old(self)@));
    }

    /// `[H]`: toggle the selected level's hardened marker.
    pub fn toggle_hardened(&mut self)
        ensures
            final(self)@ == spec_toggle_hardened(old(self)@),
    {
        proof {
            use_type_invariant(&*self);
        }
        let c = self.cursor;
        let mut hardened = self.hardened;
        let h = hardened[c];
        hardened[c] = !h;
        assert forall|i: int| self.depth <= i < MAX_DEPTH implies #[trigger] hardened[i] == self.hardened[i] by {
            assert(i != c);
        }
        let new_b = PathBuilder {
            values: self.values,
            hardened,
            depth: self.depth,
            cursor: c,
            script: self.script,
            detail: self.detail,
        };
        *self = new_b;
        assert(self@ =~= spec_toggle_hardened(old(self)@));
    }

    /// `[S]`: append a level (value 0, not hardened) and move the cursor onto
    /// it; no change at [`MAX_DEPTH`].
    pub fn grow(&mut self)
        ensures
            final(self)@ == spec_grow(old(self)@),
    {
        proof {
            use_type_invariant(&*self);
        }
        if self.depth < MAX_DEPTH {
            let d = self.depth;
            assert(self.values[d as int] == 0 && !self.hardened[d as int]);
            let new_b = PathBuilder {
                values: self.values,
                hardened: self.hardened,
                depth: d + 1,
                cursor: d,
                script: self.script,
                detail: self.detail,
            };
            *self = new_b;
            assert(self@ =~= spec_grow(old(self)@));
        }
    }

    /// `[X]` / Backspace: remove the last level, keeping at least one; the
    /// cursor is clamped back into range and the retired slot cleared.
    pub fn shrink(&mut self)
        ensures
            final(self)@ == spec_shrink(old(self)@),
    {
        proof {
            use_type_invariant(&*self);
        }
        if self.depth > 1 {
            let nd = self.depth - 1;
            let mut values = self.values;
            let mut hardened = self.hardened;
            values[nd] = 0;
            hardened[nd] = false;
            let cursor = if self.cursor >= nd {
                nd - 1
            } else {
                self.cursor
            };
            assert forall|i: int| 0 <= i < MAX_DEPTH implies #[trigger] values[i] <= MAX_LEVEL_VALUE by {
                if i != nd {
                    assert(values[i] == self.values[i]);
                }
            }
            assert forall|i: int| nd <= i < MAX_DEPTH implies (#[trigger] values[i] == 0 && !hardened[i]) by {
                if i != nd {
                    assert(values[i] == self.values[i]);
                    assert(hardened[i] == self.hardened[i]);
                }
            }
            let new_b = PathBuilder { values, hardened, depth: nd, cursor, script: self.script, detail: self.detail };
            *self = new_b;
            assert(self@ =~= spec_shrink(old(self)@));
        }
    }

    /// `[C]`: move the cursor to the next level, wrapping within the depth.
    pub fn move_cursor(&mut self)
        ensures
            final(self)@ == spec_move_cursor(old(self)@),
    {
        proof {
            use_type_invariant(&*self);
        }
        self.cursor = (self.cursor + 1) % self.depth;
        assert(self@ =~= spec_move_cursor(old(self)@));
    }

    /// `[1]`-`[4]`: pick the script type.
    pub fn set_script(&mut self, script: ScriptType)
        ensures
            final(self)@ == (BuilderView { script, ..old(self)@ }),
    {
        proof {
            use_type_invariant(&*self);
        }
        self.script = script;
        assert(self@ =~= (BuilderView { script, ..old(self)@ }));
    }

    /// `[T]`: toggle the detail read-back.
    pub fn toggle_detail(&mut self)
        ensures
            final(self)@ == (BuilderView { detail: !old(self)@.detail, ..old(self)@ }),
    {
        proof {
            use_type_invariant(&*self);
        }
        self.detail = !self.detail;
        assert(self@ =~= (BuilderView { detail: !old(self)@.detail, ..old(self)@ }));
    }

    /// The bounded child-number array and its length: each level's base value
    /// plus the hardened bit where hardened; unused slots are zero.
    pub fn build_path(&self) -> (r: ([u32; MAX_DEPTH], usize))
        ensures
            r.1 == self@.levels.len(),
            r.0@.subrange(0, r.1 as int) == spec_children(self@.levels, self@.flags),
            forall|i: int| r.1 <= i < MAX_DEPTH ==> #[trigger] r.0@[i] == 0,
    {
        proof {
            use_type_invariant(self);
        }
        let mut out: [u32; MAX_DEPTH] = [0u32; MAX_DEPTH];
        let mut i: usize = 0;
        while i < self.depth
            invariant
                1 <= self.depth <= MAX_DEPTH,
                i <= self.depth,
                forall|j: int| 0 <= j < MAX_DEPTH ==> #[trigger] self.values[j] <= MAX_LEVEL_VALUE,
                forall|j: int| 0 <= j < i ==> #[trigger] out@[j] == spec_child(self.values[j], self.hardened[j]),
                forall|j: int| i <= j < MAX_DEPTH ==> #[trigger] out@[j] == 0,
            decreases self.depth - i,
        {
            let v = self.values[i];
            out[i] = if self.hardened[i] {
                v + HARDENED_OFFSET
            } else {
                v
            };
            i = i + 1;
        }
        assert(out@.subrange(0, self.depth as int) =~= spec_children(self@.levels, self@.flags));
        (out, self.depth)
    }

    /// Classify the first level's purpose.
    pub fn purpose(&self) -> (r: Purpose)
        ensures
            r == spec_view_purpose(self@),
    {
        proof {
            use_type_invariant(self);
        }
        classify_purpose(self.values[0], self.hardened[0])
    }

    /// A known purpose at a depth shorter than the conventional receive leaf.
    pub fn is_short_path(&self) -> (r: bool)
        ensures
            r == spec_is_short_path_for(spec_view_purpose(self@), self@.levels.len() as int),
    {
        is_short_path_for(self.purpose(), self.depth())
    }

    /// A known purpose rendered with a script type other than its
    /// conventional one.
    pub fn is_unconventional_combo(&self) -> (r: bool)
        ensures
            r == spec_is_unconventional_combo_for(spec_view_purpose(self@), self@.script),
    {
        is_unconventional_combo_for(self.purpose(), self.script)
    }

    /// A known-purpose path whose coin-type level is not `0'`.
    pub fn is_nonzero_coin_type(&self) -> (r: bool)
        ensures
            r == spec_is_nonzero_coin_type_for(
                spec_view_purpose(self@),
                spec_children(self@.levels, self@.flags),
            ),
    {
        proof {
            use_type_invariant(self);
        }
        let (path, len) = self.build_path();
        let p = self.purpose();
        proof {
            if len >= 2 {
                assert(path@[1] == path@.subrange(0, len as int)[1]);
            }
        }
        match p {
            Purpose::SingleSigOk(_) => len >= 2 && path[1] != HARDENED_OFFSET,
            _ => false,
        }
    }

    /// Apply one BUILD-screen key: Enter commits (or routes/blocks a
    /// multisig purpose), Escape backs out, Backspace shrinks, and the
    /// characters `1`-`4`, `A`, `Z`, `H`, `S`, `X`, `C`, `T` (either case)
    /// perform their edit. Every other key is ignored.
    pub fn handle_key(&mut self, key: MenuKey) -> (r: BuilderStep)
        ensures
            r == spec_step_outcome(old(self)@, key),
            final(self)@ == spec_apply_key(old(self)@, key),
    {
        match key {
            MenuKey::Enter => match self.purpose() {
                Purpose::MultisigBlock(BlockKind::Bip48Multisig) => BuilderStep::CosignerExport,
                Purpose::MultisigBlock(k) => BuilderStep::Blocked(k),
                _ => BuilderStep::Commit,
            },
            MenuKey::Escape => BuilderStep::Back,
            MenuKey::Backspace => {
                self.shrink();
                BuilderStep::Continue
            },
            MenuKey::Char(c) => {
                let u = c as u32;
                let f = if 65 <= u && u <= 90 {
                    u + 32
                } else {
                    u
                };
                if f == 49 {
                    self.set_script(ScriptType::P2pkh);
                } else if f == 50 {
                    self.set_script(ScriptType::P2shP2wpkh);
                } else if f == 51 {
                    self.set_script(ScriptType::P2wpkh);
                } else if f == 52 {
                    self.set_script(ScriptType::P2tr);
                } else if f == 97 {
                    self.inc_value();
                } else if f == 122 {
                    self.dec_value();
                } else if f == 104 {
                    self.toggle_hardened();
                } else if f == 115 {
                    self.grow();
                } else if f == 120 {
                    self.shrink();
                } else if f == 99 {
                    self.move_cursor();
                } else if f == 116 {
                    self.toggle_detail();
                }
                BuilderStep::Continue
            },
            MenuKey::Other => BuilderStep::Continue,
        }
    }
}


/// Every BUILD-screen key keeps the build state well formed: depth within
/// `1..=MAX_DEPTH`, cursor within the depth, values below `2^31`.
pub proof fn lemma_apply_key_preserves_wf(v: BuilderView, key: MenuKey)
    requires
        view_wf(v),
    ensures
        view_wf(spec_apply_key(v, key)),
{
    let r = spec_apply_key(v, key);
    assert forall|i: int| 0 <= i < r.levels.len() implies #[trigger] r.levels[i] <= MAX_LEVEL_VALUE by {
        if i < v.levels.len() {
            assert(v.levels[i] <= MAX_LEVEL_VALUE);
        }
    }
}

/// `[H]` twice restores the build state.
pub proof fn lemma_toggle_hardened_twice(v: BuilderView)
    requires
        view_wf(v),
    ensures
        spec_toggle_hardened(spec_toggle_hardened(v)) == v,
{
    assert(spec_toggle_hardened(spec_toggle_hardened(v)).flags =~= v.flags);
    assert(spec_toggle_hardened(spec_toggle_hardened(v)) =~= v);
}

/// `[A]` then `[Z]` restores a value below the clamp.
pub proof fn lemma_inc_then_dec(v: BuilderView)
    requires
        view_wf(v),
        v.levels[v.cursor as int] < MAX_LEVEL_VALUE,
    ensures
        spec_dec(spec_inc(v)) == v,
{
    assert(spec_dec(spec_inc(v)).levels =~= v.levels);
    assert(spec_dec(spec_inc(v)) =~= v);
}

/// `[S]` then `[X]` below full depth restores every level and flag.
pub proof fn lemma_grow_then_shrink(v: BuilderView)
    requires
        view_wf(v),
        v.levels.len() < MAX_DEPTH,
    ensures
        spec_shrink(spec_grow(v)).levels == v.levels,
        spec_shrink(spec_grow(v)).flags == v.flags,
        spec_shrink(spec_grow(v)).script == v.script,
        spec_shrink(spec_grow(v)).detail == v.detail,
{
    assert(v.levels.push(0).drop_last() =~= v.levels);
    assert(v.flags.push(false).drop_last() =~= v.flags);
}

/// The builder's purpose and the purpose read back from its assembled first
/// child number agree, so both custom-path surfaces classify a path alike.
pub proof fn lemma_purpose_of_built_path(v: BuilderView)
    requires
        view_wf(v),
    ensures
        spec_classify_purpose_child(spec_children(v.levels, v.flags)[0]) == spec_view_purpose(v),
{
    assert(v.levels[0] <= MAX_LEVEL_VALUE);
}

/// A child number is hardened exactly when its level's flag is set, and its
/// base value is recovered by dropping the hardened bit.
pub proof fn lemma_child_round_trip(value: u32, hardened: bool)
    requires
        value <= MAX_LEVEL_VALUE,
    ensures
        (spec_child(value, hardened) >= HARDENED_OFFSET) == hardened,
        (if hardened { spec_child(value, hardened) - HARDENED_OFFSET } else { spec_child(value, hardened) as int })
            == value,
{
}

/// The BIP number a blocked purpose stands for: 45, 47 or 48.
pub open spec fn spec_block_bip(k: BlockKind) -> nat {
    match k {
        BlockKind::Bip45Multisig => 45,
        BlockKind::Bip47PaymentCode => 47,
        BlockKind::Bip48Multisig => 48,
    }
}

/// A first level classifies as single-sig standard `s` exactly when it is
/// hardened and its value is the BIP number of `s` (44, 49, 84, 86); it is
/// blocked as `k` exactly when it is hardened and its value is 45, 47 or 48
/// as `k` says. Every other first level is of unknown purpose.
pub proof fn lemma_purpose_by_bip_number(value: u32, hardened: bool, s: PathStandard, k: BlockKind)
    ensures
        (spec_classify_purpose(value, hardened) == Purpose::SingleSigOk(s)) == (hardened && value
            == crate::contracts::spec_standard_bip(s)),
        (spec_classify_purpose(value, hardened) == Purpose::MultisigBlock(k)) == (hardened && value
            == spec_block_bip(k)),
        spec_classify_purpose(value, hardened) == Purpose::Unknown <==> !(hardened && (value == 44 || value == 49
            || value == 84 || value == 86 || value == 45 || value == 47 || value == 48)),
{
}

} // verus!
