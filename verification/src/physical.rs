//! Physical-entropy entry: the dice/coin session bookkeeping (budget, undo,
//! capacity), the raw byte staging kept in lockstep with it, the
//! secret-bearing history-strip ring, the budget bar arithmetic, and the
//! per-key decisions of the entry screen.
use vstd::prelude::*;
use crate::contracts::{TargetBits, spec_target_bits};
use crate::keys::{MenuKey, ScriptedKeys, spec_fold, spec_confirm_or_decline, read_confirm_or_decline};

verus! {

/// Capacity of one physical session (dice and coins together).
pub const MAX_PHYSICAL_EVENTS: usize = 1024;

/// Counted milli-bits per die roll (log2 6 = 2.585 bits).
pub const MILLI_BITS_PER_ROLL: u64 = 2585;

/// Counted milli-bits per coin flip.
pub const MILLI_BITS_PER_FLIP: u64 = 1000;

/// One side of a coin.
#[derive(Debug, Clone, Copy, PartialEq, Eq, Structural)]
pub enum CoinFace {
    Heads,
    Tails,
}

/// One physical event, in entry order.
#[derive(Debug, Clone, Copy, PartialEq, Eq, Structural)]
pub enum PhysicalEvent {
    /// A die roll showing `1`-`6`.
    Roll(u8),
    /// A coin flip.
    Flip(CoinFace),
}

/// Why a push was refused.
#[derive(Debug, Clone, Copy, PartialEq, Eq, Structural)]
pub enum PhysicalError {
    /// A die value outside `1`-`6`.
    InvalidRoll,
    /// The session already holds [`MAX_PHYSICAL_EVENTS`] events.
    Full,
}

/// Which instrument's UI leads the entry screen (layout only).
#[derive(Debug, Clone, Copy, PartialEq, Eq, Structural)]
pub enum Instrument {
    Dice,
    Coins,
    Both,
}

/// The die values of `ev`, in order.
pub open spec fn spec_dice_bytes(ev: Seq<PhysicalEvent>) -> Seq<u8>
    decreases ev.len(),
{
    if ev.len() == 0 {
        Seq::empty()
    } else {
        let p = spec_dice_bytes(ev.drop_last());
        match ev.last() {
            PhysicalEvent::Roll(v) => p.push(v),
            PhysicalEvent::Flip(_) => p,
        }
    }
}

/// The coin bytes of `ev` (`1` heads, `0` tails), in order.
pub open spec fn spec_coin_bytes(ev: Seq<PhysicalEvent>) -> Seq<u8>
    decreases ev.len(),
{
    if ev.len() == 0 {
        Seq::empty()
    } else {
        let p = spec_coin_bytes(ev.drop_last());
        match ev.last() {
            PhysicalEvent::Roll(_) => p,
            PhysicalEvent::Flip(CoinFace::Heads) => p.push(1),
            PhysicalEvent::Flip(CoinFace::Tails) => p.push(0),
        }
    }
}

pub proof fn lemma_counts_bounded(ev: Seq<PhysicalEvent>)
    ensures
        spec_dice_bytes(ev).len() + spec_coin_bytes(ev).len() == ev.len(),
    decreases ev.len(),
{
    if ev.len() > 0 {
        lemma_counts_bounded(ev.drop_last());
    }
}

/// The counted budget, in milli-bits.
pub open spec fn spec_budget_x1000(ev: Seq<PhysicalEvent>) -> nat {
    (spec_dice_bytes(ev).len() * 2585 + spec_coin_bytes(ev).len() * 1000) as nat
}

/// `true` once the counted budget reaches the target.
pub open spec fn spec_budget_met(ev: Seq<PhysicalEvent>, target: TargetBits) -> bool {
    spec_budget_x1000(ev) >= spec_target_bits(target) * 1000
}

/// The session bookkeeping: the ordered events, capacity-bounded.
pub struct PhysicalSession {
    events: Vec<PhysicalEvent>,
    rolls: usize,
    flips: usize,
}

impl View for PhysicalSession {
    type V = Seq<PhysicalEvent>;

    closed spec fn view(&self) -> Seq<PhysicalEvent> {
        self.events@
    }
}

impl PhysicalSession {
    #[verifier::type_invariant]
    spec fn inv(self) -> bool {
        &&& self.events@.len() <= MAX_PHYSICAL_EVENTS
        &&& self.rolls == spec_dice_bytes(self.events@).len()
        &&& self.flips == spec_coin_bytes(self.events@).len()
        &&& forall|i: int| 0 <= i < self.events@.len() ==> spec_valid_event(#[trigger] self.events@[i])
    }

    /// An empty session.
    pub fn new() -> (r: Self)
        ensures
            r@ == Seq::<PhysicalEvent>::empty(),
    {
        PhysicalSession { events: Vec::new(), rolls: 0, flips: 0 }
    }

    /// Every session is within capacity and holds only valid events.
    pub fn len(&self) -> (r: usize)
        ensures
            r == self@.len(),
            r <= MAX_PHYSICAL_EVENTS,
    {
        proof {
            use_type_invariant(self);
        }
        self.events.len()
    }

    /// Number of die rolls.
    pub fn roll_count(&self) -> (r: u32)
        ensures
            r == spec_dice_bytes(self@).len(),
    {
        proof {
            use_type_invariant(self);
            lemma_counts_bounded(self.events@);
        }
        self.rolls as u32
    }

    /// Number of coin flips.
    pub fn flip_count(&self) -> (r: u32)
        ensures
            r == spec_coin_bytes(self@).len(),
    {
        proof {
            use_type_invariant(self);
            lemma_counts_bounded(self.events@);
        }
        self.flips as u32
    }

    /// The counted budget in milli-bits: 2585 per roll, 1000 per flip.
    pub fn budget_bits_x1000(&self) -> (r: u64)
        ensures
            r == spec_budget_x1000(self@),
    {
        proof {
            use_type_invariant(self);
            lemma_counts_bounded(self.events@);
        }
        (self.rolls as u64) * MILLI_BITS_PER_ROLL + (self.flips as u64) * MILLI_BITS_PER_FLIP
    }

    /// Whether the counted budget has reached `target`.
    pub fn budget_met(&self, target: TargetBits) -> (r: bool)
        ensures
            r == spec_budget_met(self@, target),
    {
        let b = self.budget_bits_x1000();
        let t: u64 = match target {
            TargetBits::Bits128 => 128,
            TargetBits::Bits256 => 256,
        };
        b >= t * 1000
    }

    /// Append a die roll; refused for a value outside `1`-`6` or a full
    /// session.
    pub fn push_roll(&mut self, value: u8) -> (r: Result<(), PhysicalError>)
        ensures
            !(1 <= value <= 6) ==> r == Err::<(), PhysicalError>(PhysicalError::InvalidRoll) && final(self)@
                == old(self)@,
            1 <= value <= 6 && old(self)@.len() >= MAX_PHYSICAL_EVENTS ==> r == Err::<(), PhysicalError>(
                PhysicalError::Full,
            ) && final(self)@ == old(self)@,
            1 <= value <= 6 && old(self)@.len() < MAX_PHYSICAL_EVENTS ==> r is Ok && final(self)@ == old(
                self,
            )@.push(PhysicalEvent::Roll(value)),
    {
        proof {
            use_type_invariant(&*self);
        }
        if !(1 <= value && value <= 6) {
            return Err(PhysicalError::InvalidRoll);
        }
        if self.events.len() >= MAX_PHYSICAL_EVENTS {
            return Err(PhysicalError::Full);
        }
        let mut tmp = PhysicalSession { events: Vec::new(), rolls: 0, flips: 0 };
        std::mem::swap(&mut tmp, self);
        proof {
            use_type_invariant(&tmp);
        }
        let PhysicalSession { events: mut events, rolls: old_rolls, flips: old_flips } = tmp;
        let ghost old_ev = events@;
        proof {
            lemma_counts_bounded(old_ev);
        }
        events.push(PhysicalEvent::Roll(value));
        proof {
            assert(events@.drop_last() =~= old_ev);
        }
        *self = PhysicalSession { events, rolls: old_rolls + 1, flips: old_flips };
        Ok(())
    }

    /// Append a coin flip; refused for a full session.
    pub fn push_flip(&mut self, face: CoinFace) -> (r: Result<(), PhysicalError>)
        ensures
            old(self)@.len() >= MAX_PHYSICAL_EVENTS ==> r == Err::<(), PhysicalError>(PhysicalError::Full)
                && final(self)@ == old(self)@,
            old(self)@.len() < MAX_PHYSICAL_EVENTS ==> r is Ok && final(self)@ == old(self)@.push(
                PhysicalEvent::Flip(face),
            ),
    {
        proof {
            use_type_invariant(&*self);
        }
        if self.events.len() >= MAX_PHYSICAL_EVENTS {
            return Err(PhysicalError::Full);
        }
        let mut tmp = PhysicalSession { events: Vec::new(), rolls: 0, flips: 0 };
        std::mem::swap(&mut tmp, self);
        proof {
            use_type_invariant(&tmp);
        }
        let PhysicalSession { events: mut events, rolls: old_rolls, flips: old_flips } = tmp;
        let ghost old_ev = events@;
        proof {
            lemma_counts_bounded(old_ev);
        }
        events.push(PhysicalEvent::Flip(face));
        proof {
            assert(events@.drop_last() =~= old_ev);
        }
        *self = PhysicalSession { events, rolls: old_rolls, flips: old_flips + 1 };
        Ok(())
    }

    /// Remove and return the newest event, if any.
    pub fn undo(&mut self) -> (r: Option<PhysicalEvent>)
        ensures
            old(self)@.len() == 0 ==> r is None && final(self)@ == old(self)@,
            old(self)@.len() > 0 ==> r == Some(old(self)@.last()) && final(self)@ == old(self)@.drop_last(),
    {
        proof {
            use_type_invariant(&*self);
        }
        let mut tmp = PhysicalSession { events: Vec::new(), rolls: 0, flips: 0 };
        std::mem::swap(&mut tmp, self);
        proof {
            use_type_invariant(&tmp);
        }
        let PhysicalSession { events: mut events, rolls: old_rolls, flips: old_flips } = tmp;
        let ghost old_ev = events@;
        proof {
            lemma_counts_bounded(old_ev);
        }
        match events.pop() {
            None => {
                *self = PhysicalSession { events, rolls: old_rolls, flips: old_flips };
                None
            },
            Some(e) => {
                proof {
                    assert(events@ =~= old_ev.drop_last());
                    assert(spec_valid_event(old_ev[old_ev.len() - 1]));
                }
                let (rolls, flips) = match e {
                    PhysicalEvent::Roll(_) => (old_rolls - 1, old_flips),
                    PhysicalEvent::Flip(_) => (old_rolls, old_flips - 1),
                };
                *self = PhysicalSession { events, rolls, flips };
                Some(e)
            },
        }
    }

    /// Remove every event.
    pub fn clear(&mut self)
        ensures
            final(self)@ == Seq::<PhysicalEvent>::empty(),
    {
        *self = PhysicalSession { events: Vec::new(), rolls: 0, flips: 0 };
    }
}

/// Undo takes back exactly what the last push added: after a successful
/// push of `e` onto a session holding `before`, undo hands back `e` and
/// leaves `before`.
pub proof fn lemma_push_then_undo(before: Seq<PhysicalEvent>, e: PhysicalEvent)
    ensures
        before.push(e).len() > 0,
        before.push(e).last() == e,
        before.push(e).drop_last() == before,
{
    assert(before.push(e).drop_last() =~= before);
}

/// Staging round trip: pushing a dice (or coin) byte and then undoing it
/// leaves both staged byte strings as they were.
pub proof fn lemma_staging_push_then_undo(before: StagingView, value: u8)
    ensures
        before.dice.push(value).drop_last() == before.dice,
        before.coins.push(value).drop_last() == before.coins,
{
    assert(before.dice.push(value).drop_last() =~= before.dice);
    assert(before.coins.push(value).drop_last() =~= before.coins);
}

/// A well-formed event: a roll of `1`-`6`, or any flip.
pub open spec fn spec_valid_event(e: PhysicalEvent) -> bool {
    match e {
        PhysicalEvent::Roll(v) => 1 <= v <= 6,
        PhysicalEvent::Flip(_) => true,
    }
}

/// The raw dice/coin byte history for the entropy transcript, kept in
/// lockstep with a [`PhysicalSession`]. Storage past the live lengths is
/// always zero.
pub struct PhysicalStaging {
    dice: [u8; MAX_PHYSICAL_EVENTS],
    dice_len: usize,
    coin: [u8; MAX_PHYSICAL_EVENTS],
    coin_len: usize,
}

/// The abstract staging contents: the dice bytes and the coin bytes.
pub struct StagingView {
    pub dice: Seq<u8>,
    pub coins: Seq<u8>,
}

impl View for PhysicalStaging {
    type V = StagingView;

    closed spec fn view(&self) -> StagingView {
        StagingView {
            dice: self.dice@.subrange(0, self.dice_len as int),
            coins: self.coin@.subrange(0, self.coin_len as int),
        }
    }
}

impl PhysicalStaging {
    #[verifier::type_invariant]
    spec fn inv(self) -> bool {
        &&& self.dice_len <= MAX_PHYSICAL_EVENTS
        &&& self.coin_len <= MAX_PHYSICAL_EVENTS
        &&& forall|i: int| self.dice_len <= i < MAX_PHYSICAL_EVENTS ==> #[trigger] self.dice[i] == 0
        &&& forall|i: int| self.coin_len <= i < MAX_PHYSICAL_EVENTS ==> #[trigger] self.coin[i] == 0
    }

    /// `true` iff every storage byte, live or not, is zero.
    pub closed spec fn storage_zeroed(&self) -> bool {
        &&& forall|i: int| 0 <= i < MAX_PHYSICAL_EVENTS ==> #[trigger] self.dice[i] == 0
        &&& forall|i: int| 0 <= i < MAX_PHYSICAL_EVENTS ==> #[trigger] self.coin[i] == 0
    }

    /// Empty staging.
    pub fn new() -> (r: Self)
        ensures
            r@.dice == Seq::<u8>::empty(),
            r@.coins == Seq::<u8>::empty(),
            r.storage_zeroed(),
    {
        let r = PhysicalStaging {
            dice: [0u8; MAX_PHYSICAL_EVENTS],
            dice_len: 0,
            coin: [0u8; MAX_PHYSICAL_EVENTS],
            coin_len: 0,
        };
        assert(r@.dice =~= Seq::<u8>::empty());
        assert(r@.coins =~= Seq::<u8>::empty());
        r
    }

    /// Number of staged dice bytes.
    pub fn dice_len(&self) -> (r: usize)
        ensures
            r == self@.dice.len(),
    {
        proof {
            use_type_invariant(self);
        }
        self.dice_len
    }

    /// Number of staged coin bytes.
    pub fn coin_len(&self) -> (r: usize)
        ensures
            r == self@.coins.len(),
    {
        proof {
            use_type_invariant(self);
        }
        self.coin_len
    }

    /// Append one dice byte.
    pub fn push_dice(&mut self, value: u8)
        requires
            old(self)@.dice.len() < MAX_PHYSICAL_EVENTS,
        ensures
            final(self)@.dice == old(self)@.dice.push(value),
            final(self)@.coins == old(self)@.coins,
    {
        proof {
            use_type_invariant(&*self);
        }
        let n = self.dice_len;
        let mut dice = self.dice;
        dice[n] = value;
        assert forall|i: int| n + 1 <= i < MAX_PHYSICAL_EVENTS implies #[trigger] dice[i] == 0 by {
            assert(dice[i] == self.dice[i]);
        }
        *self = PhysicalStaging { dice, dice_len: n + 1, coin: self.coin, coin_len: self.coin_len };
        assert(self@.dice =~= old(self)@.dice.push(value));
        assert(self@.coins =~= old(self)@.coins);
    }

    /// Append one coin byte (`1` heads, `0` tails).
    pub fn push_coin(&mut self, value: u8)
        requires
            old(self)@.coins.len() < MAX_PHYSICAL_EVENTS,
        ensures
            final(self)@.coins == old(self)@.coins.push(value),
            final(self)@.dice == old(self)@.dice,
    {
        proof {
            use_type_invariant(&*self);
        }
        let n = self.coin_len;
        let mut coin = self.coin;
        coin[n] = value;
        assert forall|i: int| n + 1 <= i < MAX_PHYSICAL_EVENTS implies #[trigger] coin[i] == 0 by {
            assert(coin[i] == self.coin[i]);
        }
        *self = PhysicalStaging { dice: self.dice, dice_len: self.dice_len, coin, coin_len: n + 1 };
        assert(self@.coins =~= old(self)@.coins.push(value));
        assert(self@.dice =~= old(self)@.dice);
    }

    /// Remove the newest dice byte, zeroing its cell.
    pub fn undo_dice(&mut self)
        requires
            old(self)@.dice.len() > 0,
        ensures
            final(self)@.dice == old(self)@.dice.drop_last(),
            final(self)@.coins == old(self)@.coins,
    {
        proof {
            use_type_invariant(&*self);
        }
        let n = self.dice_len - 1;
        let mut dice = self.dice;
        dice[n] = 0;
        assert forall|i: int| n <= i < MAX_PHYSICAL_EVENTS implies #[trigger] dice[i] == 0 by {
            if i != n {
                assert(dice[i] == self.dice[i]);
            }
        }
        *self = PhysicalStaging { dice, dice_len: n, coin: self.coin, coin_len: self.coin_len };
        assert(self@.dice =~= old(self)@.dice.drop_last());
        assert(self@.coins =~= old(self)@.coins);
    }

    /// Remove the newest coin byte, zeroing its cell.
    pub fn undo_coin(&mut self)
        requires
            old(self)@.coins.len() > 0,
        ensures
            final(self)@.coins == old(self)@.coins.drop_last(),
            final(self)@.dice == old(self)@.dice,
    {
        proof {
            use_type_invariant(&*self);
        }
        let n = self.coin_len - 1;
        let mut coin = self.coin;
        coin[n] = 0;
        assert forall|i: int| n <= i < MAX_PHYSICAL_EVENTS implies #[trigger] coin[i] == 0 by {
            if i != n {
                assert(coin[i] == self.coin[i]);
            }
        }
        *self = PhysicalStaging { dice: self.dice, dice_len: self.dice_len, coin, coin_len: n };
        assert(self@.coins =~= old(self)@.coins.drop_last());
        assert(self@.dice =~= old(self)@.dice);
    }

    /// The staged dice bytes.
    pub fn dice_bytes(&self) -> (r: Vec<u8>)
        ensures
            r@ == self@.dice,
    {
        proof {
            use_type_invariant(self);
        }
        let mut r: Vec<u8> = Vec::new();
        let mut i: usize = 0;
        while i < self.dice_len
            invariant
                self.dice_len <= MAX_PHYSICAL_EVENTS,
                i <= self.dice_len,
                r@ == self.dice@.subrange(0, i as int),
            decreases self.dice_len - i,
        {
            r.push(self.dice[i]);
            i = i + 1;
            assert(r@ =~= self.dice@.subrange(0, i as int));
        }
        r
    }

    /// The staged coin bytes.
    pub fn coin_bytes(&self) -> (r: Vec<u8>)
        ensures
            r@ == self@.coins,
    {
        proof {
            use_type_invariant(self);
        }
        let mut r: Vec<u8> = Vec::new();
        let mut i: usize = 0;
        while i < self.coin_len
            invariant
                self.coin_len <= MAX_PHYSICAL_EVENTS,
                i <= self.coin_len,
                r@ == self.coin@.subrange(0, i as int),
            decreases self.coin_len - i,
        {
            r.push(self.coin[i]);
            i = i + 1;
            assert(r@ =~= self.coin@.subrange(0, i as int));
        }
        r
    }

    /// Zero both buffers and reset both lengths.
    pub fn scrub(&mut self)
        ensures
            final(self)@.dice == Seq::<u8>::empty(),
            final(self)@.coins == Seq::<u8>::empty(),
            final(self).storage_zeroed(),
    {
        let mut dice = self.dice;
        let mut coin = self.coin;
        let mut i: usize = 0;
        while i < MAX_PHYSICAL_EVENTS
            invariant
                i <= MAX_PHYSICAL_EVENTS,
                forall|j: int| 0 <= j < i ==> #[trigger] dice[j] == 0,
                forall|j: int| 0 <= j < i ==> #[trigger] coin[j] == 0,
            decreases MAX_PHYSICAL_EVENTS - i,
        {
            dice[i] = 0;
            coin[i] = 0;
            i = i + 1;
        }
        *self = PhysicalStaging { dice, dice_len: 0, coin, coin_len: 0 };
        assert(self@.dice =~= Seq::<u8>::empty());
        assert(self@.coins =~= Seq::<u8>::empty());
    }
}

// ---------------------------------------------------------------------------
// The history-strip ring
// ---------------------------------------------------------------------------

/// Tail-window capacity of the history strip.
pub const STRIP_TAIL_CAP: usize = 11;

/// Ring code of a heads flip (`1`-`6` are die faces).
pub const CODE_HEADS: u8 = 7;

/// Ring code of a tails flip.
pub const CODE_TAILS: u8 = 8;

/// The window after pushing `code`: appended, with the oldest code scrolled
/// off once the window is full.
pub open spec fn spec_ring_push(w: Seq<u8>, code: u8) -> Seq<u8> {
    if w.len() < STRIP_TAIL_CAP {
        w.push(code)
    } else {
        w.drop_first().push(code)
    }
}

/// The window after pushing every code of `codes` in order onto `w`.
pub open spec fn spec_ring_push_all(w: Seq<u8>, codes: Seq<u8>) -> Seq<u8>
    decreases codes.len(),
{
    if codes.len() == 0 {
        w
    } else {
        spec_ring_push(spec_ring_push_all(w, codes.drop_last()), codes.last())
    }
}

/// The bounded ring of the last [`STRIP_TAIL_CAP`] event codes in entry
/// order. Cells outside the window are always zero.
pub struct StripRing {
    codes: [u8; STRIP_TAIL_CAP],
    len: usize,
    head: usize,
}

impl View for StripRing {
    type V = Seq<u8>;

    closed spec fn view(&self) -> Seq<u8> {
        Seq::new(self.len as nat, |i: int| self.codes[(self.head + i) % (STRIP_TAIL_CAP as int)])
    }
}

impl StripRing {
    #[verifier::type_invariant]
    spec fn inv(self) -> bool {
        &&& self.len <= STRIP_TAIL_CAP
        &&& self.head < STRIP_TAIL_CAP
        &&& forall|i: int|
            0 <= i < STRIP_TAIL_CAP && !Self::in_window(self.head as int, self.len as int, i) ==> #[trigger] self.codes[i]
                == 0
    }

    /// Whether cell `i` lies inside the window `[head, head + len)` taken
    /// modulo the capacity.
    pub open spec fn in_window(head: int, len: int, i: int) -> bool {
        (i - head + STRIP_TAIL_CAP) % (STRIP_TAIL_CAP as int) < len
    }

    /// `true` iff every cell is zero.
    pub closed spec fn storage_zeroed(&self) -> bool {
        forall|i: int| 0 <= i < STRIP_TAIL_CAP ==> #[trigger] self.codes[i] == 0
    }

    /// An empty ring.
    pub fn new() -> (r: Self)
        ensures
            r@ == Seq::<u8>::empty(),
            r.storage_zeroed(),
    {
        let r = StripRing { codes: [0u8; STRIP_TAIL_CAP], len: 0, head: 0 };
        assert(r@ =~= Seq::<u8>::empty());
        r
    }

    /// Number of codes in the window.
    pub fn len(&self) -> (r: usize)
        ensures
            r == self@.len(),
            r <= STRIP_TAIL_CAP,
    {
        proof {
            use_type_invariant(self);
        }
        self.len
    }

    /// The `i`-th oldest code in the window.
    pub fn get(&self, i: usize) -> (r: u8)
        requires
            i < self@.len(),
        ensures
            r == self@[i as int],
    {
        proof {
            use_type_invariant(self);
        }
        self.codes[(self.head + i) % STRIP_TAIL_CAP]
    }

    /// Append `code` as the newest tile; once full, the oldest tile scrolls
    /// off and is gone.
    pub fn push(&mut self, code: u8)
        ensures
            final(self)@ == spec_ring_push(old(self)@, code),
    {
        proof {
            use_type_invariant(&*self);
        }
        let head = self.head;
        let len = self.len;
        let mut codes = self.codes;
        if len < STRIP_TAIL_CAP {
            let idx = (head + len) % STRIP_TAIL_CAP;
            codes[idx] = code;
            proof {
                lemma_offset_of_slot(head as int, len as int);
                assert forall|i: int|
                    0 <= i < STRIP_TAIL_CAP && !Self::in_window(head as int, len + 1, i) implies #[trigger] codes[i]
                    == 0 by {
                    if i != idx {
                        assert(codes[i] == self.codes[i]);
                    }
                }
            }
            *self = StripRing { codes, len: len + 1, head };
            proof {
                assert forall|k: int| 0 <= k < len implies #[trigger] self@[k] == old(self)@[k] by {
                    lemma_mod_distinct(head as int, k, len as int);
                }
                assert(self@ =~= old(self)@.push(code));
            }
        } else {
            codes[head] = code;
            let nh = (head + 1) % STRIP_TAIL_CAP;
            proof {
                assert forall|i: int| 0 <= i < STRIP_TAIL_CAP implies Self::in_window(nh as int, len as int, i) by {
                    lemma_offset_bound(nh as int, i);
                }
            }
            *self = StripRing { codes, len, head: nh };
            proof {
                assert forall|k: int| 0 <= k < len implies #[trigger] self@[k] == spec_ring_push(
                    old(self)@,
                    code,
                )[k] by {
                    lemma_shifted_slot(head as int, k);
                    if k < len - 1 {
                        lemma_mod_distinct(head as int, k + 1, 0);
                    }
                }
                assert(self@ =~= spec_ring_push(old(self)@, code));
            }
        }
    }

    /// Remove the newest tile (undo), zeroing its cell. A tile that already
    /// scrolled off is not restored.
    #[verifier::spinoff_prover]
    #[verifier::rlimit(40)]
    pub fn pop(&mut self)
        ensures
            old(self)@.len() == 0 ==> final(self)@ == old(self)@,
            old(self)@.len() > 0 ==> final(self)@ == old(self)@.drop_last(),
    {
        proof {
            use_type_invariant(&*self);
        }
        if self.len == 0 {
            return;
        }
        let head = self.head;
        let len = self.len;
        let last = (head + len - 1) % STRIP_TAIL_CAP;
        let mut codes = self.codes;
        codes[last] = 0;
        proof {
            assert forall|i: int|
                0 <= i < STRIP_TAIL_CAP && !Self::in_window(head as int, len - 1, i) implies #[trigger] codes[i]
                == 0 by {
                if i != last {
                    assert(codes[i] == self.codes[i]);
                }
            }
        }
        *self = StripRing { codes, len: len - 1, head };
        proof {
            assert forall|k: int| 0 <= k < len - 1 implies #[trigger] self@[k] == old(self)@[k] by {
                lemma_mod_distinct(head as int, k, len - 1);
            }
            assert(self@ =~= old(self)@.drop_last());
        }
    }

    /// Zero every cell and reset to empty.
    pub fn scrub(&mut self)
        ensures
            final(self)@ == Seq::<u8>::empty(),
            final(self).storage_zeroed(),
    {
        let r = StripRing { codes: [0u8; STRIP_TAIL_CAP], len: 0, head: 0 };
        *self = r;
        assert(self@ =~= Seq::<u8>::empty());
    }
}

/// The slot `len` past `head` sits at window offset `len`.
proof fn lemma_offset_of_slot(head: int, len: int)
    requires
        0 <= head < STRIP_TAIL_CAP,
        0 <= len < STRIP_TAIL_CAP,
    ensures
        (((head + len) % (STRIP_TAIL_CAP as int)) - head + STRIP_TAIL_CAP) % (STRIP_TAIL_CAP as int) == len,
{
}

/// Every window offset is below the capacity.
proof fn lemma_offset_bound(head: int, i: int)
    requires
        0 <= head < STRIP_TAIL_CAP,
        0 <= i < STRIP_TAIL_CAP,
    ensures
        (i - head + STRIP_TAIL_CAP) % (STRIP_TAIL_CAP as int) < STRIP_TAIL_CAP,
{
}

/// After the head advances by one, offset `k` is the old offset `k + 1`
/// (and the last offset is the old head).
proof fn lemma_shifted_slot(head: int, k: int)
    requires
        0 <= head < STRIP_TAIL_CAP,
        0 <= k < STRIP_TAIL_CAP,
    ensures
        k < STRIP_TAIL_CAP - 1 ==> ((head + 1) % (STRIP_TAIL_CAP as int) + k) % (STRIP_TAIL_CAP as int) == (head
            + (k + 1)) % (STRIP_TAIL_CAP as int),
        k == STRIP_TAIL_CAP - 1 ==> ((head + 1) % (STRIP_TAIL_CAP as int) + k) % (STRIP_TAIL_CAP as int) == head,
{
}

/// Two distinct window offsets below the capacity land on distinct cells.
proof fn lemma_mod_distinct(head: int, k: int, m: int)
    requires
        0 <= head < STRIP_TAIL_CAP,
        0 <= k < STRIP_TAIL_CAP,
        0 <= m < STRIP_TAIL_CAP,
        k != m,
    ensures
        (head + k) % (STRIP_TAIL_CAP as int) != (head + m) % (STRIP_TAIL_CAP as int),
{
}

/// Pushing any sequence of codes onto an empty window leaves exactly the
/// last [`STRIP_TAIL_CAP`] of them (all of them, if fewer), in entry order.
pub proof fn lemma_ring_holds_tail(codes: Seq<u8>)
    ensures
        spec_ring_push_all(Seq::empty(), codes) == codes.subrange(
            if codes.len() > STRIP_TAIL_CAP {
                codes.len() - STRIP_TAIL_CAP
            } else {
                0
            },
            codes.len() as int,
        ),
    decreases codes.len(),
{
    if codes.len() > 0 {
        let p = codes.drop_last();
        lemma_ring_holds_tail(p);
        let w = spec_ring_push_all(Seq::empty(), p);
        let n = codes.len() as int;
        if p.len() < STRIP_TAIL_CAP {
            assert(w.push(codes.last()) =~= codes.subrange(0, n));
        } else {
            let s = if p.len() > STRIP_TAIL_CAP { p.len() - STRIP_TAIL_CAP } else { 0 };
            assert(w =~= p.subrange(s, p.len() as int));
            assert(w.drop_first().push(codes.last()) =~= codes.subrange(n - STRIP_TAIL_CAP, n));
        }
    }
}

// ---------------------------------------------------------------------------
// Budget arithmetic
// ---------------------------------------------------------------------------

/// The recommended margin: the target plus 25%, in whole bits.
pub fn recommended_bits(target: TargetBits) -> (r: u32)
    ensures
        r == spec_target_bits(target) + spec_target_bits(target) / 4,
{
    let t: u32 = match target {
        TargetBits::Bits128 => 128,
        TargetBits::Bits256 => 256,
    };
    t + t / 4
}

/// Cell width of the budget progress bar.
pub const BUDGET_BAR_WIDTH: usize = 40;

pub open spec fn spec_bar_cells(done: nat, budget: nat, width: nat) -> nat {
    if budget == 0 || done >= budget {
        width
    } else {
        (done * width) / budget
    }
}

/// How many of `width` bar cells are filled for `done` out of `budget`:
/// full once `done >= budget` (and for a zero budget), otherwise
/// `done * width / budget`, rounded down.
pub fn bar_cells(done: u64, budget: u64, width: usize) -> (r: usize)
    requires
        width <= u32::MAX,
    ensures
        r == spec_bar_cells(done as nat, budget as nat, width as nat),
        r <= width,
{
    if budget == 0 || done >= budget {
        return width;
    }
    proof {
        lemma_bar_bounds(done as nat, budget as nat, width as nat);
    }
    let w = width as u128;
    let d = done as u128;
    assert(d * w <= 0xFFFF_FFFF_FFFF_FFFFu128 * 0xFFFF_FFFFu128) by (nonlinear_arith)
        requires
            d <= 0xFFFF_FFFF_FFFF_FFFFu128,
            w <= 0xFFFF_FFFFu128,
    ;
    ((d * w) / budget as u128) as usize
}

proof fn lemma_bar_bounds(done: nat, budget: nat, width: nat)
    requires
        done < budget,
    ensures
        (done * width) / budget <= width,
{
    assert(done * width <= budget * width) by (nonlinear_arith)
        requires
            done < budget,
    ;
    assert((done * width) / budget <= (budget * width) / budget) by (nonlinear_arith)
        requires
            done * width <= budget * width,
            budget > 0,
    ;
    assert((budget * width) / budget == width) by (nonlinear_arith)
        requires
            budget > 0,
    ;
}

/// More progress never fills fewer bar cells.
pub proof fn lemma_bar_cells_monotone(d1: nat, d2: nat, budget: nat, width: nat)
    requires
        d1 <= d2,
    ensures
        spec_bar_cells(d1, budget, width) <= spec_bar_cells(d2, budget, width),
{
    if budget > 0 && d1 < budget {
        lemma_bar_bounds(d1, budget, width);
        if d2 < budget {
            assert(d1 * width <= d2 * width) by (nonlinear_arith)
                requires
                    d1 <= d2,
            ;
            assert((d1 * width) / budget <= (d2 * width) / budget) by (nonlinear_arith)
                requires
                    d1 * width <= d2 * width,
                    budget > 0,
            ;
        }
    }
}

// ---------------------------------------------------------------------------
// The entry screen's key handling
// ---------------------------------------------------------------------------

/// What a key means on the physical-entry screen.
#[derive(Debug, Clone, Copy, PartialEq, Eq, Structural)]
pub enum EntryKey {
    /// `1`-`6`: a die roll of that value.
    Roll(u8),
    /// `H`/`h`: a heads flip.
    Heads,
    /// `T`/`t`: a tails flip.
    Tails,
    /// Backspace: undo the newest event.
    Undo,
    /// `C`/`c`: ask to clear everything.
    Clear,
    /// `K`/`k`: switch the leading instrument.
    Switch,
    Enter,
    Escape,
    Ignore,
}

pub open spec fn spec_entry_key(k: MenuKey) -> EntryKey {
    match k {
        MenuKey::Char(c) => {
            let u = c as u32;
            let f = spec_fold(c);
            if 49 <= u && u <= 54 {
                EntryKey::Roll((u - 48) as u8)
            } else if f == 104 {
                EntryKey::Heads
            } else if f == 116 {
                EntryKey::Tails
            } else if f == 99 {
                EntryKey::Clear
            } else if f == 107 {
                EntryKey::Switch
            } else {
                EntryKey::Ignore
            }
        },
        MenuKey::Backspace => EntryKey::Undo,
        MenuKey::Enter => EntryKey::Enter,
        MenuKey::Escape => EntryKey::Escape,
        MenuKey::Other => EntryKey::Ignore,
    }
}

/// Classify a key on the physical-entry screen.
pub fn entry_key_of(k: MenuKey) -> (r: EntryKey)
    ensures
        r == spec_entry_key(k),
{
    match k {
        MenuKey::Char(c) => {
            let u = c as u32;
            let f = if 65 <= u && u <= 90 {
                u + 32
            } else {
                u
            };
            if 49 <= u && u <= 54 {
                EntryKey::Roll((u - 48) as u8)
            } else if f == 104 {
                EntryKey::Heads
            } else if f == 116 {
                EntryKey::Tails
            } else if f == 99 {
                EntryKey::Clear
            } else if f == 107 {
                EntryKey::Switch
            } else {
                EntryKey::Ignore
            }
        },
        MenuKey::Backspace => EntryKey::Undo,
        MenuKey::Enter => EntryKey::Enter,
        MenuKey::Escape => EntryKey::Escape,
        MenuKey::Other => EntryKey::Ignore,
    }
}

/// How the physical-entry loop ended.
#[derive(Debug, Clone, Copy, PartialEq, Eq, Structural)]
pub enum PhysicalEntryOutcome {
    /// The minimum budget was met and Enter pressed.
    BudgetMet,
    /// Escape: go back one step.
    Back,
}

/// What the entry loop does after one key.
#[derive(Debug, Clone, Copy, PartialEq, Eq, Structural)]
pub enum PhysicalStep {
    /// Keep reading keys.
    Continue,
    /// Show the clear confirmation and apply [`clear_all`] only if it is
    /// confirmed.
    ConfirmClear,
    /// Leave the loop with this outcome.
    Done(PhysicalEntryOutcome),
}

/// The session after one key.
pub open spec fn spec_session_after(ev: Seq<PhysicalEvent>, k: MenuKey) -> Seq<PhysicalEvent> {
    match spec_entry_key(k) {
        EntryKey::Roll(v) => if ev.len() < MAX_PHYSICAL_EVENTS {
            ev.push(PhysicalEvent::Roll(v))
        } else {
            ev
        },
        EntryKey::Heads => if ev.len() < MAX_PHYSICAL_EVENTS {
            ev.push(PhysicalEvent::Flip(CoinFace::Heads))
        } else {
            ev
        },
        EntryKey::Tails => if ev.len() < MAX_PHYSICAL_EVENTS {
            ev.push(PhysicalEvent::Flip(CoinFace::Tails))
        } else {
            ev
        },
        EntryKey::Undo => if ev.len() > 0 {
            ev.drop_last()
        } else {
            ev
        },
        _ => ev,
    }
}

/// The strip window after removing its newest tile, if any.
pub open spec fn spec_ring_pop(w: Seq<u8>) -> Seq<u8> {
    if w.len() == 0 {
        w
    } else {
        w.drop_last()
    }
}

/// The strip window after one key.
pub open spec fn spec_ring_after(w: Seq<u8>, ev: Seq<PhysicalEvent>, k: MenuKey) -> Seq<u8> {
    match spec_entry_key(k) {
        EntryKey::Roll(v) => if ev.len() < MAX_PHYSICAL_EVENTS {
            spec_ring_push(w, v)
        } else {
            w
        },
        EntryKey::Heads => if ev.len() < MAX_PHYSICAL_EVENTS {
            spec_ring_push(w, CODE_HEADS)
        } else {
            w
        },
        EntryKey::Tails => if ev.len() < MAX_PHYSICAL_EVENTS {
            spec_ring_push(w, CODE_TAILS)
        } else {
            w
        },
        EntryKey::Undo => if ev.len() > 0 {
            spec_ring_pop(w)
        } else {
            w
        },
        _ => w,
    }
}

/// The leading instrument after one key: `K` swaps dice and coins; `Both`
/// has no switch.
pub open spec fn spec_lead_after(l: Instrument, k: MenuKey) -> Instrument {
    if spec_entry_key(k) == EntryKey::Switch {
        match l {
            Instrument::Dice => Instrument::Coins,
            Instrument::Coins => Instrument::Dice,
            Instrument::Both => Instrument::Both,
        }
    } else {
        l
    }
}

/// The loop's decision after one key (judged on the session before it).
pub open spec fn spec_step_result(ev: Seq<PhysicalEvent>, k: MenuKey, target: TargetBits) -> PhysicalStep {
    match spec_entry_key(k) {
        EntryKey::Clear => PhysicalStep::ConfirmClear,
        EntryKey::Enter => if spec_budget_met(ev, target) {
            PhysicalStep::Done(PhysicalEntryOutcome::BudgetMet)
        } else {
            PhysicalStep::Continue
        },
        EntryKey::Escape => PhysicalStep::Done(PhysicalEntryOutcome::Back),
        _ => PhysicalStep::Continue,
    }
}

/// The staging holds exactly the session's dice and coin bytes.
pub open spec fn lockstep(ev: Seq<PhysicalEvent>, st: StagingView) -> bool {
    st.dice == spec_dice_bytes(ev) && st.coins == spec_coin_bytes(ev)
}

/// Apply one key of the physical-entry screen: a die value or `H`/`T`
/// records an event (session, staging and strip in lockstep; refused when
/// the session is full), Backspace undoes the newest event from all three,
/// `K` switches the leading instrument, `C` asks for the clear
/// confirmation, Enter finishes once the budget is met, Escape goes back.
/// The leading instrument never affects what is recorded.
pub fn physical_entry_step(
    session: &mut PhysicalSession,
    staging: &mut PhysicalStaging,
    ring: &mut StripRing,
    lead: &mut Instrument,
    target: TargetBits,
    key: MenuKey,
) -> (r: PhysicalStep)
    requires
        lockstep(old(session)@, old(staging)@),
    ensures
        r == spec_step_result(old(session)@, key, target),
        final(session)@ == spec_session_after(old(session)@, key),
        lockstep(final(session)@, final(staging)@),
        final(ring)@ == spec_ring_after(old(ring)@, old(session)@, key),
        *final(lead) == spec_lead_after(*old(lead), key),
{
    let ghost ev0 = session@;
    proof {
        lemma_counts_bounded(ev0);
    }
    match entry_key_of(key) {
        EntryKey::Roll(v) => {
            if session.push_roll(v).is_ok() {
                staging.push_dice(v);
                ring.push(v);
                assert(spec_dice_bytes(session@) == spec_dice_bytes(ev0).push(v)) by {
                    assert(session@.drop_last() =~= ev0);
                }
                assert(spec_coin_bytes(session@) == spec_coin_bytes(ev0)) by {
                    assert(session@.drop_last() =~= ev0);
                }
            }
            PhysicalStep::Continue
        },
        EntryKey::Heads => {
            if session.push_flip(CoinFace::Heads).is_ok() {
                staging.push_coin(1);
                ring.push(CODE_HEADS);
                assert(session@.drop_last() =~= ev0);
                assert(spec_coin_bytes(session@) == spec_coin_bytes(ev0).push(1));
                assert(spec_dice_bytes(session@) == spec_dice_bytes(ev0));
            }
            PhysicalStep::Continue
        },
        EntryKey::Tails => {
            if session.push_flip(CoinFace::Tails).is_ok() {
                staging.push_coin(0);
                ring.push(CODE_TAILS);
                assert(session@.drop_last() =~= ev0);
                assert(spec_coin_bytes(session@) == spec_coin_bytes(ev0).push(0));
                assert(spec_dice_bytes(session@) == spec_dice_bytes(ev0));
            }
            PhysicalStep::Continue
        },
        EntryKey::Undo => {
            match session.undo() {
                Some(PhysicalEvent::Roll(v)) => {
                    assert(spec_dice_bytes(ev0) == spec_dice_bytes(ev0.drop_last()).push(v));
                    assert(spec_coin_bytes(ev0) == spec_coin_bytes(ev0.drop_last()));
                    staging.undo_dice();
                    ring.pop();
                    assert(spec_dice_bytes(ev0).drop_last() =~= spec_dice_bytes(ev0.drop_last()));
                },
                Some(PhysicalEvent::Flip(f)) => {
                    assert(spec_dice_bytes(ev0) == spec_dice_bytes(ev0.drop_last()));
                    assert(spec_coin_bytes(ev0).len() == spec_coin_bytes(ev0.drop_last()).len() + 1);
                    staging.undo_coin();
                    ring.pop();
                    assert(spec_coin_bytes(ev0).drop_last() =~= spec_coin_bytes(ev0.drop_last()));
                },
                None => {},
            }
            PhysicalStep::Continue
        },
        EntryKey::Clear => PhysicalStep::ConfirmClear,
        EntryKey::Switch => {
            *lead = match *lead {
                Instrument::Dice => Instrument::Coins,
                Instrument::Coins => Instrument::Dice,
                Instrument::Both => Instrument::Both,
            };
            PhysicalStep::Continue
        },
        EntryKey::Enter => {
            if session.budget_met(target) {
                PhysicalStep::Done(PhysicalEntryOutcome::BudgetMet)
            } else {
                PhysicalStep::Continue
            }
        },
        EntryKey::Escape => PhysicalStep::Done(PhysicalEntryOutcome::Back),
        EntryKey::Ignore => PhysicalStep::Continue,
    }
}

/// The confirmed `[C] Clear all`: empty the session and scrub the staging
/// and the strip together.
pub fn clear_all(session: &mut PhysicalSession, staging: &mut PhysicalStaging, ring: &mut StripRing)
    ensures
        final(session)@ == Seq::<PhysicalEvent>::empty(),
        final(staging)@.dice == Seq::<u8>::empty(),
        final(staging)@.coins == Seq::<u8>::empty(),
        final(staging).storage_zeroed(),
        final(ring)@ == Seq::<u8>::empty(),
        final(ring).storage_zeroed(),
        lockstep(final(session)@, final(staging)@),
{
    session.clear();
    staging.scrub();
    ring.scrub();
}

/// The index just past the first Enter or `decline_key` at or after `pos`,
/// with the confirmation it gave; `None` when the keys run out first.
pub open spec fn spec_first_confirm(keys: Seq<MenuKey>, pos: int, decline_key: char) -> Option<(int, bool)>
    decreases keys.len() - pos,
{
    if pos < 0 || pos >= keys.len() {
        None
    } else {
        match spec_confirm_or_decline(keys[pos], decline_key) {
            Some(b) => Some((pos + 1, b)),
            None => spec_first_confirm(keys, pos + 1, decline_key),
        }
    }
}

/// A scripted run of the entry loop from key `pos` over session `ev`: the
/// outcome (`None` if the keys run out first), the final session and the
/// position just past the last key read.
pub open spec fn spec_entry_run(ev: Seq<PhysicalEvent>, keys: Seq<MenuKey>, pos: int, target: TargetBits) -> (
    Option<PhysicalEntryOutcome>,
    Seq<PhysicalEvent>,
    int,
)
    decreases keys.len() - pos, 0int,
{
    if pos < 0 || pos >= keys.len() {
        (None, ev, pos)
    } else {
        let k = keys[pos];
        let ev2 = spec_session_after(ev, k);
        match spec_step_result(ev, k, target) {
            PhysicalStep::Done(o) => (Some(o), ev2, pos + 1),
            PhysicalStep::Continue => spec_entry_run(ev2, keys, pos + 1, target),
            PhysicalStep::ConfirmClear => match spec_first_confirm(keys, pos + 1, 'n') {
                None => (None, ev2, keys.len() as int),
                Some((j, yes)) => {
                    proof {
                        lemma_first_confirm_advances(keys, pos + 1, 'n');
                    }
                    spec_entry_run(if yes { Seq::empty() } else { ev2 }, keys, j, target)
                },
            },
        }
    }
}

pub proof fn lemma_first_confirm_advances(keys: Seq<MenuKey>, pos: int, decline_key: char)
    ensures
        spec_first_confirm(keys, pos, decline_key) matches Some((j, b)) ==> pos < j <= keys.len()
            && 0 <= pos,
    decreases keys.len() - pos,
{
    if 0 <= pos < keys.len() {
        lemma_first_confirm_advances(keys, pos + 1, decline_key);
    }
}

/// Drive the entry loop over a scripted keystream until the budget is met
/// and Enter pressed, or Escape; `None` if the keys run out first. The
/// session and staging stay in lockstep throughout, and the leading
/// `instrument` only affects layout: the outcome and the recorded events
/// do not depend on it.
pub fn run_physical_entry(
    keys: &mut ScriptedKeys,
    session: &mut PhysicalSession,
    staging: &mut PhysicalStaging,
    target: TargetBits,
    instrument: Instrument,
) -> (r: Option<PhysicalEntryOutcome>)
    requires
        old(keys).pos <= old(keys).events@.len(),
        lockstep(old(session)@, old(staging)@),
    ensures
        lockstep(final(session)@, final(staging)@),
        (r, final(session)@, final(keys).pos as int) == spec_entry_run(
            old(session)@,
            old(keys).events@,
            old(keys).pos as int,
            target,
        ),
        final(keys).events@ == old(keys).events@,
{
    let mut ring = StripRing::new();
    let mut lead = instrument;
    let ghost keyseq = keys.events@;
    loop
        invariant
            keys.events@ == keyseq,
            keyseq == old(keys).events@,
            keys.pos <= keyseq.len(),
            lockstep(session@, staging@),
            spec_entry_run(old(session)@, keyseq, old(keys).pos as int, target) == spec_entry_run(
                session@,
                keyseq,
                keys.pos as int,
                target,
            ),
        decreases keyseq.len() - keys.pos,
    {
        let ghost ev = session@;
        let ghost p = keys.pos as int;
        let key = match keys.read_menu_key() {
            None => {
                ring.scrub();
                return None;
            },
            Some(k) => k,
        };
        match physical_entry_step(session, staging, &mut ring, &mut lead, target, key) {
            PhysicalStep::Continue => {},
            PhysicalStep::Done(o) => {
                ring.scrub();
                return Some(o);
            },
            PhysicalStep::ConfirmClear => {
                let ghost p1 = keys.pos as int;
                let answer = read_confirm_or_decline(keys, 'n');
                proof {
                    let step = |x: MenuKey| spec_confirm_or_decline(x, 'n');
                    assert forall|j: int| p1 <= j < keys.pos - 1 implies (#[trigger] spec_confirm_or_decline(
                        keyseq[j],
                        'n',
                    )) is None by {
                        assert(step(keyseq[j]) is None);
                    }
                    lemma_confirm_read_matches(keyseq, p1, keys.pos as int, 'n', answer);
                }
                match answer {
                    None => {
                        ring.scrub();
                        return None;
                    },
                    Some(true) => {
                        clear_all(session, staging, &mut ring);
                    },
                    Some(false) => {},
                }
            },
        }
    }
}

/// A confirmation read from `p` to `q` with result `answer` is exactly the
/// first decisive confirmation key at or after `p`.
proof fn lemma_confirm_read_matches(keys: Seq<MenuKey>, p: int, q: int, decline_key: char, answer: Option<bool>)
    requires
        0 <= p <= q <= keys.len(),
        forall|j: int| p <= j < q - 1 ==> (#[trigger] spec_confirm_or_decline(keys[j], decline_key)) is None,
        match answer {
            Some(v) => q > p && spec_confirm_or_decline(keys[q - 1], decline_key) == Some(v),
            None => q == keys.len() && (q > p ==> spec_confirm_or_decline(keys[q - 1], decline_key) is None),
        },
    ensures
        match answer {
            Some(v) => spec_first_confirm(keys, p, decline_key) == Some((q, v)),
            None => spec_first_confirm(keys, p, decline_key) is None,
        },
    decreases q - p,
{
    if p < q {
        if p < q - 1 || answer is None {
            if p < keys.len() {
                assert(spec_confirm_or_decline(keys[p], decline_key) is None);
            }
            lemma_confirm_read_matches(keys, p + 1, q, decline_key, answer);
        }
    }
}

/// Recording events never depends on the leading instrument: a key moves
/// the session, the strip and the loop's decision the same way whatever
/// instrument leads, and only `K` changes the lead.
pub proof fn lemma_lead_is_layout_only(ev: Seq<PhysicalEvent>, w: Seq<u8>, k: MenuKey, target: TargetBits, l1: Instrument)
    ensures
        spec_entry_key(k) != EntryKey::Switch ==> spec_lead_after(l1, k) == l1,
        spec_entry_key(k) == EntryKey::Switch ==> spec_session_after(ev, k) == ev && spec_ring_after(w, ev, k) == w
            && spec_step_result(ev, k, target) == PhysicalStep::Continue,
{
}

/// How an entry run can end: with `BudgetMet` only right after an Enter,
/// once the counted budget of the final session is met; with `Back` only
/// right after an Escape. Either way the run reads at least one key and
/// stops at that key.
pub proof fn lemma_entry_run_outcomes(ev: Seq<PhysicalEvent>, keys: Seq<MenuKey>, pos: int, target: TargetBits)
    requires
        0 <= pos,
    ensures
        ({
            let (o, ev2, end) = spec_entry_run(ev, keys, pos, target);
            &&& o is Some ==> pos < end <= keys.len()
            &&& o == Some(PhysicalEntryOutcome::BudgetMet) ==> spec_budget_met(ev2, target) && keys[end - 1]
                == MenuKey::Enter
            &&& o == Some(PhysicalEntryOutcome::Back) ==> keys[end - 1] == MenuKey::Escape
            &&& o is None ==> end == keys.len() || pos > keys.len()
        }),
    decreases keys.len() - pos,
{
    if 0 <= pos < keys.len() {
        let k = keys[pos];
        let ev2 = spec_session_after(ev, k);
        match spec_step_result(ev, k, target) {
            PhysicalStep::Done(o) => {
                if o == PhysicalEntryOutcome::Back {
                    assert(spec_entry_key(k) == EntryKey::Escape);
                    assert(k == MenuKey::Escape);
                } else {
                    assert(spec_entry_key(k) == EntryKey::Enter);
                    assert(k == MenuKey::Enter);
                    assert(ev2 == ev);
                }
            },
            PhysicalStep::Continue => {
                lemma_entry_run_outcomes(ev2, keys, pos + 1, target);
            },
            PhysicalStep::ConfirmClear => {
                lemma_first_confirm_advances(keys, pos + 1, 'n');
                match spec_first_confirm(keys, pos + 1, 'n') {
                    None => {},
                    Some((j, yes)) => {
                        lemma_entry_run_outcomes(if yes { Seq::empty() } else { ev2 }, keys, j, target);
                    },
                }
            },
        }
    }
}

/// A `K` (switch) key read by the entry loop changes nothing the run
/// records or decides: the run from it is the run from the key after it.
/// So any number of switch keys can be added to a key stream at the loop's
/// reading positions without changing the outcome or the session.
pub proof fn lemma_switch_key_is_inert(ev: Seq<PhysicalEvent>, keys: Seq<MenuKey>, pos: int, target: TargetBits)
    requires
        0 <= pos < keys.len(),
        spec_entry_key(keys[pos]) == EntryKey::Switch,
    ensures
        spec_entry_run(ev, keys, pos, target) == spec_entry_run(ev, keys, pos + 1, target),
{
}

/// Whether `k` is a switch (`K`) key.
pub open spec fn spec_is_switch(k: MenuKey) -> bool {
    spec_entry_key(k) == EntryKey::Switch
}

/// `keys` with every switch key taken out.
pub open spec fn spec_drop_switch(keys: Seq<MenuKey>) -> Seq<MenuKey>
    decreases keys.len(),
{
    if keys.len() == 0 {
        Seq::empty()
    } else if spec_is_switch(keys[0]) {
        spec_drop_switch(keys.drop_first())
    } else {
        seq![keys[0]] + spec_drop_switch(keys.drop_first())
    }
}

proof fn lemma_tail_step(a: Seq<MenuKey>, i: int)
    requires
        0 <= i < a.len(),
    ensures
        a.subrange(i, a.len() as int)[0] == a[i],
        a.subrange(i, a.len() as int).drop_first() == a.subrange(i + 1, a.len() as int),
{
    assert(a.subrange(i, a.len() as int).drop_first() =~= a.subrange(i + 1, a.len() as int));
}

/// The clear confirmation ignores switch keys: where the key tails agree
/// once switch keys are taken out, the confirmation finds the same answer,
/// and the tails after it agree again.
proof fn lemma_confirm_ignores_switch(a: Seq<MenuKey>, i: int, b: Seq<MenuKey>, j: int)
    requires
        0 <= i <= a.len(),
        0 <= j <= b.len(),
        spec_drop_switch(a.subrange(i, a.len() as int)) == b.subrange(j, b.len() as int),
    ensures
        spec_first_confirm(a, i, 'n') is None <==> spec_first_confirm(b, j, 'n') is None,
        spec_first_confirm(a, i, 'n') matches Some((p, ya)) ==> spec_first_confirm(b, j, 'n') matches Some((q, yb))
            && ya == yb && 0 <= p <= a.len() && 0 <= q <= b.len() && spec_drop_switch(a.subrange(p, a.len() as int))
            == b.subrange(q, b.len() as int),
    decreases a.len() - i,
{
    if i == a.len() {
        assert(a.subrange(i, a.len() as int) =~= Seq::<MenuKey>::empty());
        assert(b.subrange(j, b.len() as int).len() == 0);
    } else {
        lemma_tail_step(a, i);
        let k = a[i];
        if spec_is_switch(k) {
            assert(spec_confirm_or_decline(k, 'n') is None);
            lemma_confirm_ignores_switch(a, i + 1, b, j);
        } else {
            let bt = b.subrange(j, b.len() as int);
            assert(bt.len() >= 1);
            assert(bt[0] == k);
            assert(b[j] == k);
            lemma_tail_step(b, j);
            assert(spec_drop_switch(a.subrange(i + 1, a.len() as int)) == b.subrange(j + 1, b.len() as int)) by {
                assert(bt.drop_first() == b.subrange(j + 1, b.len() as int));
                assert(bt == seq![k] + spec_drop_switch(a.subrange(i + 1, a.len() as int)));
                assert((seq![k] + spec_drop_switch(a.subrange(i + 1, a.len() as int))).drop_first()
                    =~= spec_drop_switch(a.subrange(i + 1, a.len() as int)));
            }
            if spec_confirm_or_decline(k, 'n') is None {
                lemma_confirm_ignores_switch(a, i + 1, b, j + 1);
            }
        }
    }
}

/// Switch keys change nothing a run records or decides, wherever they
/// stand in the key stream, the clear confirmation included: a run over a
/// stream ends with the same outcome and the same session as a run over the
/// stream with every switch key taken out.
pub proof fn lemma_switch_keys_anywhere_are_inert(
    ev: Seq<PhysicalEvent>,
    a: Seq<MenuKey>,
    i: int,
    b: Seq<MenuKey>,
    j: int,
    target: TargetBits,
)
    requires
        0 <= i <= a.len(),
        0 <= j <= b.len(),
        spec_drop_switch(a.subrange(i, a.len() as int)) == b.subrange(j, b.len() as int),
    ensures
        spec_entry_run(ev, a, i, target).0 == spec_entry_run(ev, b, j, target).0,
        spec_entry_run(ev, a, i, target).1 == spec_entry_run(ev, b, j, target).1,
    decreases a.len() - i,
{
    if i == a.len() {
        assert(a.subrange(i, a.len() as int) =~= Seq::<MenuKey>::empty());
        assert(b.subrange(j, b.len() as int).len() == 0);
    } else {
        lemma_tail_step(a, i);
        let k = a[i];
        if spec_is_switch(k) {
            lemma_switch_key_is_inert(ev, a, i, target);
            lemma_switch_keys_anywhere_are_inert(ev, a, i + 1, b, j, target);
        } else {
            let bt = b.subrange(j, b.len() as int);
            assert(bt.len() >= 1);
            assert(bt[0] == k);
            assert(b[j] == k);
            lemma_tail_step(b, j);
            assert(spec_drop_switch(a.subrange(i + 1, a.len() as int)) == b.subrange(j + 1, b.len() as int)) by {
                assert(bt.drop_first() == b.subrange(j + 1, b.len() as int));
                assert(bt == seq![k] + spec_drop_switch(a.subrange(i + 1, a.len() as int)));
                assert((seq![k] + spec_drop_switch(a.subrange(i + 1, a.len() as int))).drop_first()
                    =~= spec_drop_switch(a.subrange(i + 1, a.len() as int)));
            }
            let ev2 = spec_session_after(ev, k);
            match spec_step_result(ev, k, target) {
                PhysicalStep::Done(o) => {},
                PhysicalStep::Continue => {
                    lemma_switch_keys_anywhere_are_inert(ev2, a, i + 1, b, j + 1, target);
                },
                PhysicalStep::ConfirmClear => {
                    lemma_confirm_ignores_switch(a, i + 1, b, j + 1);
                    lemma_first_confirm_advances(a, i + 1, 'n');
                    match spec_first_confirm(a, i + 1, 'n') {
                        None => {},
                        Some((p, yes)) => {
                            let (q, yb) = spec_first_confirm(b, j + 1, 'n')->0;
                            lemma_switch_keys_anywhere_are_inert(
                                if yes { Seq::empty() } else { ev2 },
                                a,
                                p,
                                b,
                                q,
                                target,
                            );
                        },
                    }
                },
            }
        }
    }
}

/// The entry may continue exactly when the counted rolls and flips reach
/// the target: 2585 milli-bits per roll plus 1000 per flip, against 128 000
/// for the 12-word target and 256 000 for the 24-word one. Meeting the
/// 24-word minimum always meets the 12-word one.
pub proof fn lemma_budget_met_against_target(ev: Seq<PhysicalEvent>, target: TargetBits)
    ensures
        spec_budget_met(ev, target) == (2585 * spec_dice_bytes(ev).len() + 1000 * spec_coin_bytes(ev).len() >= 1000
            * (if target == TargetBits::Bits128 {
            128int
        } else {
            256int
        })),
        spec_budget_met(ev, TargetBits::Bits256) ==> spec_budget_met(ev, TargetBits::Bits128),
{
}

} // verus!
