//! The counted-vs-claimed entropy-composition panel: the verbatim per-source
//! phrasings, the set of present machine tags, the mode the panel describes,
//! and the plan of what the panel shows (which rows, which pages, which
//! verdict) — never a claimed source counted toward the floor.
use vstd::prelude::*;
use crate::contracts::{SourceTag, TargetBits, spec_target_bits, spec_target_words, target_bits_number, target_word_count};
use crate::text::{TextOp, TextOpView, clear, push_decimal, push_str, spec_decimal, spec_ops, write_line, write_prose, write_string};

verus! {

pub const EDU_HEADER: &'static str =
    "Your entropy is made of these sources. Alea mixes them all, but it can only count the ones you witnessed.";

pub const EDU_DICE_PHYS: &'static str =
    "Dice: you rolled a physical six-sided die; the randomness is the physics of the throw, which you performed and Alea counted.";

pub const EDU_DICE_COUNT: &'static str = "WITNESSED -- 2.585 bits per roll (counted toward the floor)";

pub const EDU_COIN_PHYS: &'static str =
    "Coins: you flipped a physical coin; the randomness is the physics of the flip, which you performed and Alea counted.";

pub const EDU_COIN_COUNT: &'static str = "WITNESSED -- 1 bit per flip (counted toward the floor)";

pub const EDU_RDSEED_PHYS: &'static str = "RDSEED: a CPU instruction that samples an on-die noise source inside this processor. You cannot watch it work, and Alea cannot prove it is unpredictable.";

pub const EDU_RDSEED_CLAIM: &'static str = "CLAIMED -- bytes returned and health-checked, not proven; 0 counted bits";

pub const EDU_EFIRNG_PHYS: &'static str = "EFI RNG: a random-number service provided by this computer's firmware, backed by hardware the firmware vendor chose. You cannot watch it work.";

pub const EDU_EFIRNG_CLAIM: &'static str = "CLAIMED -- bytes returned and health-checked, not proven; 0 counted bits";

pub const EDU_RDRAND_PHYS: &'static str =
    "RDRAND: a CPU instruction that returns numbers from a generator seeded by the processor's noise source. Supplementary only -- it never stands alone.";

pub const EDU_RDRAND_CLAIM: &'static str = "CLAIMED (supplementary) -- health-checked, not proven; 0 counted bits";

pub const EDU_COUNTED_TOTAL_PREFIX: &'static str = "Counted (witnessed) toward the security floor:";

pub const EDU_CLAIMED_NOTE: &'static str = "Claimed sources are mixed in and can only help -- but they add 0 counted bits, because health checks are not proof of unpredictability.";

pub const EDU_USBTRNG_PHYS: &'static str = "USB TRNG: an external dongle you attached that samples its own physical noise source; a separate device, but you cannot watch it work, and Alea cannot prove it is honest or that its data arrived unaltered.";

pub const EDU_USBTRNG_CLAIM: &'static str = "CLAIMED -- health-checked, not proven; 0 counted bits (reinforcement only)";

/// Shown when the counted section is empty (machine-only mode).
pub const EDU_NOTHING_WITNESSED: &'static str =
    "Nothing on this screen is witnessed -- machine-only mode has no counted bits.";

pub const PANEL_CONTINUE_PROMPT: &'static str = "[Enter] Continue to generate";

pub const PANEL_RETURN_PROMPT: &'static str = "[Esc] Return to entropy entry";

pub const RULE_LINE: &'static str = "-------------------------------------------------------------------";

pub const COUNTED_SECTION_HEADER: &'static str = "  COUNTED -- WITNESSED   (you performed these; Alea counted them)";

pub const CLAIMED_SECTION_HEADER: &'static str = "  CLAIMED -- UNPROVEN    (mixed in; health-checked; NOT counted)";

/// Maximum present machine tags on one claimed-section page.
pub const MAX_TAGS_PER_CLAIMED_PAGE: usize = 2;

/// The canonical order of the four machine tags the panel can show.
pub open spec fn spec_machine_order() -> Seq<SourceTag> {
    seq![
        SourceTag::ApprovedEfiRng,
        SourceTag::X86Rdseed64,
        SourceTag::X86RdrandSupplementary,
        SourceTag::ApprovedUsbTrng,
    ]
}

/// The set of present machine tags (EFI RNG, RDSEED, RDRAND, USB TRNG),
/// stored as four flags so it holds at most four tags.
#[derive(Debug, Clone, Copy, PartialEq, Eq, Structural)]
pub struct MachineTagSet {
    efi_rng: bool,
    rdseed: bool,
    rdrand: bool,
    usb_trng: bool,
}

impl MachineTagSet {
    /// Whether `tag` is present.
    pub closed spec fn has(self, tag: SourceTag) -> bool {
        match tag {
            SourceTag::ApprovedEfiRng => self.efi_rng,
            SourceTag::X86Rdseed64 => self.rdseed,
            SourceTag::X86RdrandSupplementary => self.rdrand,
            SourceTag::ApprovedUsbTrng => self.usb_trng,
            _ => false,
        }
    }

    /// The present tags in canonical order.
    pub closed spec fn spec_tags(self) -> Seq<SourceTag> {
        spec_machine_order().filter(|t: SourceTag| self.has(t))
    }

    /// An empty set.
    pub fn new() -> (r: Self)
        ensures
            forall|t: SourceTag| !r.has(t),
    {
        MachineTagSet { efi_rng: false, rdseed: false, rdrand: false, usb_trng: false }
    }

    /// Mark `tag` present; dice/coin and TPM tags are not shown on the panel
    /// and are ignored.
    pub fn insert(&mut self, tag: SourceTag)
        ensures
            forall|t: SourceTag| #[trigger] final(self).has(t) == (old(self).has(t) || (t == tag && spec_is_panel_tag(tag))),
    {
        match tag {
            SourceTag::ApprovedEfiRng => self.efi_rng = true,
            SourceTag::X86Rdseed64 => self.rdseed = true,
            SourceTag::X86RdrandSupplementary => self.rdrand = true,
            SourceTag::ApprovedUsbTrng => self.usb_trng = true,
            _ => {},
        }
    }

    /// Whether `tag` is present.
    pub fn contains(&self, tag: SourceTag) -> (r: bool)
        ensures
            r == self.has(tag),
    {
        match tag {
            SourceTag::ApprovedEfiRng => self.efi_rng,
            SourceTag::X86Rdseed64 => self.rdseed,
            SourceTag::X86RdrandSupplementary => self.rdrand,
            SourceTag::ApprovedUsbTrng => self.usb_trng,
            _ => false,
        }
    }

    /// Whether no tag is present.
    pub fn is_empty(&self) -> (r: bool)
        ensures
            r == (forall|t: SourceTag| !self.has(t)),
    {
        let r = !(self.efi_rng || self.rdseed || self.rdrand || self.usb_trng);
        proof {
            if !r {
                if self.efi_rng {
                    assert(self.has(SourceTag::ApprovedEfiRng));
                } else if self.rdseed {
                    assert(self.has(SourceTag::X86Rdseed64));
                } else if self.rdrand {
                    assert(self.has(SourceTag::X86RdrandSupplementary));
                } else {
                    assert(self.has(SourceTag::ApprovedUsbTrng));
                }
            }
        }
        r
    }

    /// The present tags in canonical order: EFI RNG, RDSEED, RDRAND, USB
    /// TRNG.
    pub fn iter(&self) -> (r: Vec<SourceTag>)
        ensures
            r@ == self.spec_tags(),
    {
        let mut r: Vec<SourceTag> = Vec::new();
        if self.efi_rng {
            r.push(SourceTag::ApprovedEfiRng);
        }
        if self.rdseed {
            r.push(SourceTag::X86Rdseed64);
        }
        if self.rdrand {
            r.push(SourceTag::X86RdrandSupplementary);
        }
        if self.usb_trng {
            r.push(SourceTag::ApprovedUsbTrng);
        }
        proof {
            let o = spec_machine_order();
            let f = |t: SourceTag| self.has(t);
            reveal_with_fuel(Seq::filter, 5);
            assert(o.drop_last().drop_last().drop_last().drop_last() =~= Seq::<SourceTag>::empty());
            assert(o.drop_last().drop_last().drop_last() =~= seq![SourceTag::ApprovedEfiRng]);
            assert(o.drop_last().drop_last() =~= seq![SourceTag::ApprovedEfiRng, SourceTag::X86Rdseed64]);
            assert(o.drop_last() =~= seq![
                SourceTag::ApprovedEfiRng,
                SourceTag::X86Rdseed64,
                SourceTag::X86RdrandSupplementary,
            ]);
            assert(r@ =~= o.filter(f));
        }
        r
    }

    /// Number of present tags (at most four).
    pub fn len(&self) -> (r: usize)
        ensures
            r == self.spec_tags().len(),
            r <= 4,
    {
        let v = self.iter();
        proof {
            lemma_tags_len_bound(*self);
        }
        v.len()
    }
}

/// A tag the panel lists in its claimed section.
pub open spec fn spec_is_panel_tag(t: SourceTag) -> bool {
    t == SourceTag::ApprovedEfiRng || t == SourceTag::X86Rdseed64 || t == SourceTag::X86RdrandSupplementary || t
        == SourceTag::ApprovedUsbTrng
}

/// The present tags, spelled out: each in canonical position when present.
pub open spec fn spec_tags_listed(efi: bool, rdseed: bool, rdrand: bool, usb: bool) -> Seq<SourceTag> {
    (if efi { seq![SourceTag::ApprovedEfiRng] } else { Seq::empty() }) + (if rdseed {
        seq![SourceTag::X86Rdseed64]
    } else {
        Seq::empty()
    }) + (if rdrand { seq![SourceTag::X86RdrandSupplementary] } else { Seq::empty() }) + (if usb {
        seq![SourceTag::ApprovedUsbTrng]
    } else {
        Seq::empty()
    })
}

/// What the tag list of a set is: the present panel tags in canonical
/// order (EFI RNG, RDSEED, RDRAND, USB TRNG), each once; it is empty
/// exactly when no tag is present, and a tag is listed exactly when it is
/// present.
pub proof fn lemma_tag_list(s: MachineTagSet)
    ensures
        s.spec_tags() == spec_tags_listed(
            s.has(SourceTag::ApprovedEfiRng),
            s.has(SourceTag::X86Rdseed64),
            s.has(SourceTag::X86RdrandSupplementary),
            s.has(SourceTag::ApprovedUsbTrng),
        ),
        (s.spec_tags().len() == 0) == (forall|t: SourceTag| !s.has(t)),
        forall|t: SourceTag| s.has(t) == s.spec_tags().contains(t),
        s.spec_tags().len() <= 4,
{
    let o = spec_machine_order();
    let f = |t: SourceTag| s.has(t);
    reveal_with_fuel(Seq::filter, 5);
    assert(o.drop_last().drop_last().drop_last().drop_last() =~= Seq::<SourceTag>::empty());
    assert(o.drop_last().drop_last().drop_last() =~= seq![SourceTag::ApprovedEfiRng]);
    assert(o.drop_last().drop_last() =~= seq![SourceTag::ApprovedEfiRng, SourceTag::X86Rdseed64]);
    assert(o.drop_last() =~= seq![
        SourceTag::ApprovedEfiRng,
        SourceTag::X86Rdseed64,
        SourceTag::X86RdrandSupplementary,
    ]);
    let l = spec_tags_listed(s.efi_rng, s.rdseed, s.rdrand, s.usb_trng);
    assert(o.filter(f) =~= l);
    lemma_tags_len_bound(s);
    if s.spec_tags().len() == 0 {
        assert(!s.efi_rng && !s.rdseed && !s.rdrand && !s.usb_trng);
    } else {
        assert(s.efi_rng || s.rdseed || s.rdrand || s.usb_trng);
        if s.efi_rng {
            assert(s.has(SourceTag::ApprovedEfiRng));
        } else if s.rdseed {
            assert(s.has(SourceTag::X86Rdseed64));
        } else if s.rdrand {
            assert(s.has(SourceTag::X86RdrandSupplementary));
        } else {
            assert(s.has(SourceTag::ApprovedUsbTrng));
        }
    }
    assert forall|t: SourceTag| s.has(t) == s.spec_tags().contains(t) by {
        if s.has(t) {
            if t == SourceTag::ApprovedEfiRng {
                assert(l[0] == t);
            } else if t == SourceTag::X86Rdseed64 {
                assert(l[if s.efi_rng { 1int } else { 0int }] == t);
            } else if t == SourceTag::X86RdrandSupplementary {
                let k = (if s.efi_rng { 1int } else { 0int }) + (if s.rdseed { 1int } else { 0int });
                assert(l[k] == t);
            } else {
                let k = (if s.efi_rng { 1int } else { 0int }) + (if s.rdseed { 1int } else { 0int }) + (if s.rdrand {
                    1int
                } else {
                    0int
                });
                assert(l[k] == t);
            }
        } else if l.contains(t) {
            let k = choose|k: int| 0 <= k < l.len() && l[k] == t;
            assert(s.has(l[k]));
        }
    }
}

impl Default for MachineTagSet {
    /// An empty set, as [`MachineTagSet::new`] gives.
    fn default() -> (r: Self)
        ensures
            forall|t: SourceTag| !r.has(t),
            r.spec_tags() == Seq::<SourceTag>::empty(),
    {
        let r = MachineTagSet::new();
        proof {
            lemma_tag_list(r);
        }
        r
    }
}

proof fn lemma_tags_len_bound(s: MachineTagSet)
    ensures
        s.spec_tags().len() <= 4,
{
    let o = spec_machine_order();
    o.lemma_filter_len(|t: SourceTag| s.has(t));
}

/// The entropy mode the panel describes.
#[derive(Debug, Clone, Copy, PartialEq, Eq, Structural)]
pub enum EntropyMode {
    DiceOnly,
    MachineOnly,
    Combined,
}

/// The mode implied by what was collected: physical and machine together is
/// combined, physical alone is dice-only, anything else (machine alone, or
/// nothing at all) is machine-only.
pub open spec fn spec_mode(dice_rolls: u32, coin_flips: u32, has_machine: bool) -> EntropyMode {
    let has_physical = dice_rolls > 0 || coin_flips > 0;
    if has_physical && has_machine {
        EntropyMode::Combined
    } else if has_physical {
        EntropyMode::DiceOnly
    } else {
        EntropyMode::MachineOnly
    }
}

/// What the session collected: counts and tags only, never a secret byte.
pub struct CompositionModel {
    pub mode: EntropyMode,
    pub target: TargetBits,
    pub dice_rolls: u32,
    pub coin_flips: u32,
    pub machine_tags: MachineTagSet,
    pub policy_version: u16,
}

impl CompositionModel {
    /// Build the model, inferring the mode from the counts and tags.
    pub fn new(
        dice_rolls: u32,
        coin_flips: u32,
        machine_tags: MachineTagSet,
        target: TargetBits,
        policy_version: u16,
    ) -> (r: Self)
        ensures
            r.mode == spec_mode(dice_rolls, coin_flips, exists|t: SourceTag| machine_tags.has(t)),
            r.target == target,
            r.dice_rolls == dice_rolls,
            r.coin_flips == coin_flips,
            r.machine_tags == machine_tags,
            r.policy_version == policy_version,
    {
        let has_physical = dice_rolls > 0 || coin_flips > 0;
        let has_machine = !machine_tags.is_empty();
        let mode = if has_physical && has_machine {
            EntropyMode::Combined
        } else if has_physical {
            EntropyMode::DiceOnly
        } else {
            EntropyMode::MachineOnly
        };
        CompositionModel { mode, target, dice_rolls, coin_flips, machine_tags, policy_version }
    }
}

/// The counted total in milli-bits: 2585 per roll, 1000 per flip. Machine
/// sources never contribute.
pub open spec fn spec_counted_milli_bits(dice_rolls: nat, coin_flips: nat) -> nat {
    dice_rolls * 2585 + coin_flips * 1000
}

/// The counted total for the panel.
pub fn counted_milli_bits(dice_rolls: u32, coin_flips: u32) -> (r: u64)
    ensures
        r == spec_counted_milli_bits(dice_rolls as nat, coin_flips as nat),
{
    (dice_rolls as u64) * 2585 + (coin_flips as u64) * 1000
}

/// The counted total and its floor verdict.
#[derive(Debug, Clone, Copy, PartialEq, Eq, Structural)]
pub struct CountedTotal {
    pub milli_bits: u64,
    pub meets_floor: bool,
}

/// What the counted section shows.
#[derive(Debug, Clone, Copy, PartialEq, Eq, Structural)]
pub struct CountedSection {
    /// Whether the dice row is shown.
    pub dice_row: bool,
    /// Whether the coin row is shown.
    pub coin_row: bool,
    /// `None` when nothing was witnessed (the section says so); otherwise
    /// the counted total in milli-bits and whether it meets the floor.
    pub total: Option<CountedTotal>,
}

pub open spec fn spec_counted_section(dice_rolls: u32, coin_flips: u32, target: TargetBits) -> CountedSection {
    let total = spec_counted_milli_bits(dice_rolls as nat, coin_flips as nat);
    CountedSection {
        dice_row: dice_rolls > 0,
        coin_row: coin_flips > 0,
        total: if dice_rolls == 0 && coin_flips == 0 {
            None
        } else {
            Some(CountedTotal { milli_bits: total as u64, meets_floor: total >= spec_target_bits(target) * 1000 })
        },
    }
}

/// Plan the counted section of `m`: one row per witnessed instrument, then
/// either the nothing-witnessed statement or the counted total with its
/// floor verdict. Only dice and coins count.
pub fn counted_section(m: &CompositionModel) -> (r: CountedSection)
    ensures
        r == spec_counted_section(m.dice_rolls, m.coin_flips, m.target),
{
    let total = counted_milli_bits(m.dice_rolls, m.coin_flips);
    let floor: u64 = match m.target {
        TargetBits::Bits128 => 128000,
        TargetBits::Bits256 => 256000,
    };
    CountedSection {
        dice_row: m.dice_rolls > 0,
        coin_row: m.coin_flips > 0,
        total: if m.dice_rolls == 0 && m.coin_flips == 0 {
            None
        } else {
            Some(CountedTotal { milli_bits: total, meets_floor: total >= floor })
        },
    }
}

/// Inserting a tag a second time changes nothing: if `s2` is `s1` with
/// `tag` inserted and `s3` is `s2` with `tag` inserted again, `s3` shows
/// exactly the tags of `s2`, in the same order.
pub proof fn lemma_insert_idempotent(s1: MachineTagSet, s2: MachineTagSet, s3: MachineTagSet, tag: SourceTag)
    requires
        forall|t: SourceTag| #[trigger] s2.has(t) == (s1.has(t) || (t == tag && spec_is_panel_tag(tag))),
        forall|t: SourceTag| #[trigger] s3.has(t) == (s2.has(t) || (t == tag && spec_is_panel_tag(tag))),
    ensures
        forall|t: SourceTag| #[trigger] s3.has(t) == s2.has(t),
        s3.spec_tags() == s2.spec_tags(),
{
    let f3 = |t: SourceTag| s3.has(t);
    let f2 = |t: SourceTag| s2.has(t);
    assert(f3 =~= f2);
}

/// Claimed sources never change the counted section the panel shows: two
/// models with the same counts and target render the same counted lines,
/// total line included, whatever machine tags either holds.
pub proof fn lemma_claimed_never_counted(
    m1: CompositionModel,
    m2: CompositionModel,
    dice_bits: Seq<char>,
    coin_bits: Seq<char>,
    total_bits: Seq<char>,
)
    requires
        m1.dice_rolls == m2.dice_rolls,
        m1.coin_flips == m2.coin_flips,
        m1.target == m2.target,
    ensures
        spec_counted_lines(m1, dice_bits, coin_bits, total_bits) == spec_counted_lines(
            m2,
            dice_bits,
            coin_bits,
            total_bits,
        ),
{
}

/// The three fixed texts of a claimed row: the physical sentence, the
/// accounting line and the short name.
pub open spec fn spec_claimed_row_text(tag: SourceTag) -> (Seq<char>, Seq<char>, Seq<char>) {
    match tag {
        SourceTag::ApprovedEfiRng => (EDU_EFIRNG_PHYS@, EDU_EFIRNG_CLAIM@, "EFI RNG"@),
        SourceTag::X86Rdseed64 => (EDU_RDSEED_PHYS@, EDU_RDSEED_CLAIM@, "RDSEED"@),
        SourceTag::X86RdrandSupplementary => (EDU_RDRAND_PHYS@, EDU_RDRAND_CLAIM@, "RDRAND"@),
        SourceTag::ApprovedUsbTrng => (EDU_USBTRNG_PHYS@, EDU_USBTRNG_CLAIM@, "USB TRNG"@),
        _ => (""@, ""@, ""@),
    }
}

/// The physical sentence, accounting line and short name of a claimed row.
pub fn claimed_row_text(tag: SourceTag) -> (r: (&'static str, &'static str, &'static str))
    ensures
        (r.0@, r.1@, r.2@) == spec_claimed_row_text(tag),
{
    match tag {
        SourceTag::ApprovedEfiRng => (EDU_EFIRNG_PHYS, EDU_EFIRNG_CLAIM, "EFI RNG"),
        SourceTag::X86Rdseed64 => (EDU_RDSEED_PHYS, EDU_RDSEED_CLAIM, "RDSEED"),
        SourceTag::X86RdrandSupplementary => (EDU_RDRAND_PHYS, EDU_RDRAND_CLAIM, "RDRAND"),
        SourceTag::ApprovedUsbTrng => (EDU_USBTRNG_PHYS, EDU_USBTRNG_CLAIM, "USB TRNG"),
        _ => ("", "", ""),
    }
}

pub open spec fn spec_claimed_page_count(len: nat) -> nat {
    if len == 0 {
        0
    } else {
        ((len + 1) / 2) as nat
    }
}

/// Number of claimed-section pages for `len` present tags (two per page).
pub fn claimed_page_count(len: usize) -> (r: usize)
    ensures
        r == spec_claimed_page_count(len as nat),
{
    if len == 0 {
        0
    } else {
        len / 2 + len % 2
    }
}

/// The tags shown on claimed page `page`: indices `[start, end)` into the
/// canonical tag list.
pub open spec fn spec_claimed_page_range(len: nat, page: nat) -> (nat, nat) {
    let start = page * 2;
    let end = if start + 2 <= len { start + 2 } else { len };
    (start, end)
}

/// The index range of the tags shown on claimed page `page_index`.
pub fn claimed_page_range(len: usize, page_index: usize) -> (r: (usize, usize))
    requires
        page_index < spec_claimed_page_count(len as nat),
    ensures
        r.0 == spec_claimed_page_range(len as nat, page_index as nat).0,
        r.1 == spec_claimed_page_range(len as nat, page_index as nat).1,
        r.0 < r.1 <= len,
{
    let start = page_index * MAX_TAGS_PER_CLAIMED_PAGE;
    let end = if len - start >= MAX_TAGS_PER_CLAIMED_PAGE {
        start + MAX_TAGS_PER_CLAIMED_PAGE
    } else {
        len
    };
    (start, end)
}

/// The claimed pages split the present tags exactly: consecutive pages are
/// adjacent, the first starts at 0, the last ends at `len`, and every page
/// holds one or two tags.
pub proof fn lemma_claimed_pages_partition(len: nat)
    ensures
        len > 0 ==> spec_claimed_page_range(len, 0).0 == 0,
        len > 0 ==> spec_claimed_page_range(len, (spec_claimed_page_count(len) - 1) as nat).1 == len,
        forall|p: nat|
            p + 1 < spec_claimed_page_count(len) ==> #[trigger] spec_claimed_page_range(len, p).1
                == spec_claimed_page_range(len, p + 1).0,
        forall|p: nat|
            p < spec_claimed_page_count(len) ==> 1 <= #[trigger] spec_claimed_page_range(len, p).1
                - spec_claimed_page_range(len, p).0 <= 2,
{
}

/// One page of the panel.
#[derive(Debug, Clone, Copy, PartialEq, Eq, Structural)]
pub enum PanelPage {
    /// Header, the composition overview and the counted section.
    Overview,
    /// Claimed-section page `index`; the last one closes with the note.
    Claimed(usize),
    /// The closing notices: the health-check disclaimer when any claimed
    /// source is present, the machine-only warning in machine-only mode.
    Notices { disclaimer: bool, machine_only_warning: bool },
}

/// The pages of the panel, in order.
pub open spec fn spec_panel_pages(mode: EntropyMode, n_tags: nat) -> Seq<PanelPage> {
    let claimed = Seq::new(spec_claimed_page_count(n_tags), |i: int| PanelPage::Claimed(i as usize));
    let notices = if n_tags > 0 || mode == EntropyMode::MachineOnly {
        seq![PanelPage::Notices { disclaimer: n_tags > 0, machine_only_warning: mode == EntropyMode::MachineOnly }]
    } else {
        Seq::empty()
    };
    seq![PanelPage::Overview] + claimed + notices
}

/// Plan the panel's pages: the overview, then the claimed pages, then the
/// notices whenever a claimed source is present or the mode is
/// machine-only.
pub fn panel_pages(m: &CompositionModel) -> (r: Vec<PanelPage>)
    ensures
        r@ == spec_panel_pages(m.mode, m.machine_tags.spec_tags().len()),
{
    let n = m.machine_tags.len();
    let mut r: Vec<PanelPage> = Vec::new();
    r.push(PanelPage::Overview);
    let count = claimed_page_count(n);
    let mut i: usize = 0;
    while i < count
        invariant
            i <= count,
            count == spec_claimed_page_count(n as nat),
            r@ == seq![PanelPage::Overview] + Seq::new(i as nat, |j: int| PanelPage::Claimed(j as usize)),
        decreases count - i,
    {
        r.push(PanelPage::Claimed(i));
        i = i + 1;
        assert(r@ =~= seq![PanelPage::Overview] + Seq::new(i as nat, |j: int| PanelPage::Claimed(j as usize)));
    }
    let machine_only = match m.mode {
        EntropyMode::MachineOnly => true,
        _ => false,
    };
    if n > 0 || machine_only {
        r.push(PanelPage::Notices { disclaimer: n > 0, machine_only_warning: machine_only });
    }
    assert(r@ =~= spec_panel_pages(m.mode, n as nat));
    r
}


/// The panel's header line.
pub open spec fn spec_panel_header(m: CompositionModel) -> Seq<char> {
    "ENTROPY COMPOSITION -- "@ + spec_decimal(spec_target_words(m.target)) + " words (target "@ + spec_decimal(
        spec_target_bits(m.target),
    ) + " bits)   policy v"@ + spec_decimal(m.policy_version as nat)
}

/// The panel's header: word count, target bits and policy version.
pub fn render_header(out: &mut Vec<TextOp>, m: &CompositionModel)
    ensures
        spec_ops(final(out)@) == spec_ops(old(out)@).push(TextOpView::Line(spec_panel_header(*m))),
{
    let mut line = String::new();
    push_str(&mut line, "ENTROPY COMPOSITION -- ");
    push_decimal(&mut line, target_word_count(m.target) as u64);
    push_str(&mut line, " words (target ");
    push_decimal(&mut line, target_bits_number(m.target) as u64);
    push_str(&mut line, " bits)   policy v");
    push_decimal(&mut line, m.policy_version as u64);
    write_string(out, line);
}

/// The top of every claimed page: a clear, the section header and a rule.
pub open spec fn spec_claimed_page_header() -> Seq<TextOpView> {
    seq![TextOpView::Clear, TextOpView::Line(CLAIMED_SECTION_HEADER@), TextOpView::Line(RULE_LINE@)]
}

/// Start a claimed-section page: clear, the section header, a rule.
pub fn render_claimed_page_header(out: &mut Vec<TextOp>)
    ensures
        spec_ops(final(out)@) == spec_ops(old(out)@) + spec_claimed_page_header(),
{
    clear(out);
    write_line(out, CLAIMED_SECTION_HEADER);
    write_line(out, RULE_LINE);
    assert(spec_ops(out@) =~= spec_ops(old(out)@) + spec_claimed_page_header());
}

/// One claimed row: the physical sentence as prose, the accounting line,
/// then the short name and `claimed, 0 counted` — never a number.
pub open spec fn spec_claimed_row(tag: SourceTag) -> Seq<TextOpView> {
    let (phys, claim, short) = spec_claimed_row_text(tag);
    seq![
        TextOpView::Prose(phys),
        TextOpView::Line(claim),
        TextOpView::Line("  "@ + short + "   claimed, 0 counted"@),
    ]
}

/// The claimed rows of `tags`, in order.
pub open spec fn spec_claimed_rows(tags: Seq<SourceTag>) -> Seq<TextOpView>
    decreases tags.len(),
{
    if tags.len() == 0 {
        Seq::empty()
    } else {
        spec_claimed_rows(tags.drop_last()) + spec_claimed_row(tags.last())
    }
}

/// One claimed row per tag of `tags[start..end]`.
pub fn render_claimed_rows(out: &mut Vec<TextOp>, tags: &Vec<SourceTag>, start: usize, end: usize)
    requires
        start <= end <= tags.len(),
    ensures
        spec_ops(final(out)@) == spec_ops(old(out)@) + spec_claimed_rows(tags@.subrange(start as int, end as int)),
{
    let mut i = start;
    while i < end
        invariant
            start <= i <= end,
            end <= tags.len(),
            spec_ops(out@) == spec_ops(old(out)@) + spec_claimed_rows(tags@.subrange(start as int, i as int)),
        decreases end - i,
    {
        let (phys, claim, short) = claimed_row_text(tags[i]);
        write_prose(out, phys);
        write_line(out, claim);
        let mut line = String::new();
        push_str(&mut line, "  ");
        push_str(&mut line, short);
        push_str(&mut line, "   claimed, 0 counted");
        write_string(out, line);
        proof {
            let s = tags@.subrange(start as int, i + 1);
            assert(s.drop_last() =~= tags@.subrange(start as int, i as int));
            assert(s.last() == tags@[i as int]);
        }
        i = i + 1;
        assert(spec_ops(out@) =~= spec_ops(old(out)@) + spec_claimed_rows(tags@.subrange(start as int, i as int)));
    }
}

/// The closing rule and honesty note of the last claimed page.
pub open spec fn spec_claimed_note() -> Seq<TextOpView> {
    seq![TextOpView::Line(RULE_LINE@), TextOpView::Prose(EDU_CLAIMED_NOTE@)]
}

/// Close the claimed section: a rule, then the note that claimed sources
/// add 0 counted bits.
pub fn render_claimed_note(out: &mut Vec<TextOp>)
    ensures
        spec_ops(final(out)@) == spec_ops(old(out)@) + spec_claimed_note(),
{
    write_line(out, RULE_LINE);
    write_prose(out, EDU_CLAIMED_NOTE);
    assert(spec_ops(out@) =~= spec_ops(old(out)@) + spec_claimed_note());
}

/// Claimed page `page` of the tags `tags`: the header, its one or two rows,
/// and on the last page the closing note.
pub open spec fn spec_claimed_page(tags: Seq<SourceTag>, page: nat) -> Seq<TextOpView> {
    let (start, end) = spec_claimed_page_range(tags.len(), page);
    spec_claimed_page_header() + spec_claimed_rows(tags.subrange(start as int, end as int)) + if page + 1
        == spec_claimed_page_count(tags.len()) {
        spec_claimed_note()
    } else {
        Seq::empty()
    }
}

/// Render claimed-section page `page_index` of the model's machine tags.
pub fn render_claimed_page(out: &mut Vec<TextOp>, m: &CompositionModel, page_index: usize)
    requires
        page_index < spec_claimed_page_count(m.machine_tags.spec_tags().len()),
    ensures
        spec_ops(final(out)@) == spec_ops(old(out)@) + spec_claimed_page(m.machine_tags.spec_tags(), page_index as nat),
{
    let tags = m.machine_tags.iter();
    let len = tags.len();
    let (start, end) = claimed_page_range(len, page_index);
    let ghost a = spec_ops(old(out)@);
    render_claimed_page_header(out);
    render_claimed_rows(out, &tags, start, end);
    let ghost b = spec_ops(out@);
    if page_index + 1 == claimed_page_count(len) {
        render_claimed_note(out);
    }
    assert(spec_ops(out@) =~= spec_ops(old(out)@) + spec_claimed_page(m.machine_tags.spec_tags(), page_index as nat));
}

/// The closing notices page: the health-check disclaimer when any claimed
/// source is present, the machine-only warning in machine-only mode, each
/// followed by a blank line.
pub open spec fn spec_notices_page(
    mode: EntropyMode,
    has_claimed: bool,
    disclaimer: Seq<char>,
    machine_only_warning: Seq<char>,
) -> Seq<TextOpView> {
    seq![TextOpView::Clear] + (if has_claimed {
        seq![TextOpView::Prose(disclaimer), TextOpView::Line(""@)]
    } else {
        Seq::empty()
    }) + if mode == EntropyMode::MachineOnly {
        seq![TextOpView::Prose(machine_only_warning), TextOpView::Line(""@)]
    } else {
        Seq::empty()
    }
}

/// Render the closing notices page with the health-check `disclaimer` and
/// the `machine_only_warning` texts.
pub fn render_notices_page(
    out: &mut Vec<TextOp>,
    m: &CompositionModel,
    has_claimed: bool,
    disclaimer: &str,
    machine_only_warning: &str,
)
    ensures
        spec_ops(final(out)@) == spec_ops(old(out)@) + spec_notices_page(
            m.mode,
            has_claimed,
            disclaimer@,
            machine_only_warning@,
        ),
{
    clear(out);
    if has_claimed {
        write_prose(out, disclaimer);
        write_line(out, "");
    }
    let machine_only = match m.mode {
        EntropyMode::MachineOnly => true,
        _ => false,
    };
    if machine_only {
        write_prose(out, machine_only_warning);
        write_line(out, "");
    }
    assert(spec_ops(out@) =~= spec_ops(old(out)@) + spec_notices_page(
        m.mode,
        has_claimed,
        disclaimer@,
        machine_only_warning@,
    ));
}


/// The counted (witnessed) section, given the accounting formatter's
/// one-decimal renderings of the dice, coin and total bit counts: a row per
/// witnessed instrument, then the nothing-witnessed statement or the total
/// with its floor verdict. Only dice and coins ever carry a figure.
pub open spec fn spec_counted_lines(
    m: CompositionModel,
    dice_bits: Seq<char>,
    coin_bits: Seq<char>,
    total_bits: Seq<char>,
) -> Seq<TextOpView> {
    let c = spec_counted_section(m.dice_rolls, m.coin_flips, m.target);
    seq![TextOpView::Line(COUNTED_SECTION_HEADER@), TextOpView::Line(RULE_LINE@)] + (if c.dice_row {
        seq![
            TextOpView::Prose(EDU_DICE_PHYS@),
            TextOpView::Line(
                "  "@ + EDU_DICE_COUNT@ + "   "@ + spec_decimal(m.dice_rolls as nat) + " rolls = "@ + dice_bits
                    + " bits"@,
            ),
        ]
    } else {
        Seq::empty()
    }) + (if c.coin_row {
        seq![
            TextOpView::Prose(EDU_COIN_PHYS@),
            TextOpView::Line(
                "  "@ + EDU_COIN_COUNT@ + "   "@ + spec_decimal(m.coin_flips as nat) + " flips = "@ + coin_bits
                    + " bits"@,
            ),
        ]
    } else {
        Seq::empty()
    }) + seq![TextOpView::Line(RULE_LINE@)] + match c.total {
        None => seq![TextOpView::Line(EDU_NOTHING_WITNESSED@)],
        Some(t) => if t.meets_floor {
            seq![
                TextOpView::Line(
                    "  "@ + EDU_COUNTED_TOTAL_PREFIX@ + "  "@ + total_bits + " bits  >= "@ + spec_decimal(
                        spec_target_bits(m.target),
                    ),
                ),
            ]
        } else {
            seq![
                TextOpView::Line(
                    "  "@ + EDU_COUNTED_TOTAL_PREFIX@ + "  "@ + total_bits + " bits  < "@ + spec_decimal(
                        spec_target_bits(m.target),
                    ) + " (BELOW FLOOR)"@,
                ),
            ]
        },
    }
}

fn counted_row(count_text: &str, n: u32, unit: &str, bits: &str) -> (r: String)
    ensures
        r@ == "  "@ + count_text@ + "   "@ + spec_decimal(n as nat) + unit@ + bits@ + " bits"@,
{
    let mut line = String::new();
    push_str(&mut line, "  ");
    push_str(&mut line, count_text);
    push_str(&mut line, "   ");
    push_decimal(&mut line, n as u64);
    push_str(&mut line, unit);
    push_str(&mut line, bits);
    push_str(&mut line, " bits");
    line
}

/// Render the counted section with the accounting formatter's renderings
/// of the dice (`dice_bits`), coin (`coin_bits`) and total (`total_bits`)
/// figures.
pub fn render_counted_section(
    out: &mut Vec<TextOp>,
    m: &CompositionModel,
    dice_bits: &str,
    coin_bits: &str,
    total_bits: &str,
)
    ensures
        spec_ops(final(out)@) == spec_ops(old(out)@) + spec_counted_lines(*m, dice_bits@, coin_bits@, total_bits@),
{
    let ghost a = spec_ops(old(out)@);
    let c = counted_section(m);
    write_line(out, COUNTED_SECTION_HEADER);
    write_line(out, RULE_LINE);
    if c.dice_row {
        write_prose(out, EDU_DICE_PHYS);
        write_string(out, counted_row(EDU_DICE_COUNT, m.dice_rolls, " rolls = ", dice_bits));
    }
    if c.coin_row {
        write_prose(out, EDU_COIN_PHYS);
        write_string(out, counted_row(EDU_COIN_COUNT, m.coin_flips, " flips = ", coin_bits));
    }
    write_line(out, RULE_LINE);
    match c.total {
        None => {
            write_line(out, EDU_NOTHING_WITNESSED);
        },
        Some(t) => {
            let mut line = String::new();
            push_str(&mut line, "  ");
            push_str(&mut line, EDU_COUNTED_TOTAL_PREFIX);
            push_str(&mut line, "  ");
            push_str(&mut line, total_bits);
            if t.meets_floor {
                push_str(&mut line, " bits  >= ");
                push_decimal(&mut line, target_bits_number(m.target) as u64);
            } else {
                push_str(&mut line, " bits  < ");
                push_decimal(&mut line, target_bits_number(m.target) as u64);
                push_str(&mut line, " (BELOW FLOOR)");
            }
            write_string(out, line);
        },
    }
    assert(spec_ops(out@) =~= a + spec_counted_lines(*m, dice_bits@, coin_bits@, total_bits@));
}

/// The panel's first page: clear, the header, the framing sentence and the
/// counted section.
pub open spec fn spec_overview_page(
    m: CompositionModel,
    dice_bits: Seq<char>,
    coin_bits: Seq<char>,
    total_bits: Seq<char>,
) -> Seq<TextOpView> {
    seq![
        TextOpView::Clear,
        TextOpView::Line(spec_panel_header(m)),
        TextOpView::Line(""@),
        TextOpView::Prose(EDU_HEADER@),
        TextOpView::Line(""@),
    ] + spec_counted_lines(m, dice_bits, coin_bits, total_bits)
}

/// Render the panel's first page.
pub fn render_overview_page(
    out: &mut Vec<TextOp>,
    m: &CompositionModel,
    dice_bits: &str,
    coin_bits: &str,
    total_bits: &str,
)
    ensures
        spec_ops(final(out)@) == spec_ops(old(out)@) + spec_overview_page(*m, dice_bits@, coin_bits@, total_bits@),
{
    let ghost a = spec_ops(old(out)@);
    clear(out);
    render_header(out, m);
    write_line(out, "");
    write_prose(out, EDU_HEADER);
    write_line(out, "");
    let ghost b = spec_ops(out@);
    render_counted_section(out, m, dice_bits, coin_bits, total_bits);
    assert(b =~= a + spec_overview_page(*m, dice_bits@, coin_bits@, total_bits@).take(5));
    assert(spec_ops(out@) =~= a + spec_overview_page(*m, dice_bits@, coin_bits@, total_bits@));
}

/// Claimed pages `0..n` of `tags`, in order.
pub open spec fn spec_claimed_pages(tags: Seq<SourceTag>, n: nat) -> Seq<TextOpView>
    decreases n,
{
    if n == 0 {
        Seq::empty()
    } else {
        spec_claimed_pages(tags, (n - 1) as nat) + spec_claimed_page(tags, (n - 1) as nat)
    }
}

/// The whole panel: the overview, every claimed page, the notices page when
/// a claimed source is present or the mode is machine-only, then the
/// continue and return prompts.
pub open spec fn spec_composition_panel(
    m: CompositionModel,
    dice_bits: Seq<char>,
    coin_bits: Seq<char>,
    total_bits: Seq<char>,
    disclaimer: Seq<char>,
    machine_only_warning: Seq<char>,
) -> Seq<TextOpView> {
    let tags = m.machine_tags.spec_tags();
    let has_claimed = tags.len() > 0;
    spec_overview_page(m, dice_bits, coin_bits, total_bits) + spec_claimed_pages(
        tags,
        spec_claimed_page_count(tags.len()),
    ) + (if has_claimed || m.mode == EntropyMode::MachineOnly {
        spec_notices_page(m.mode, has_claimed, disclaimer, machine_only_warning)
    } else {
        Seq::empty()
    }) + seq![TextOpView::Line(PANEL_CONTINUE_PROMPT@), TextOpView::Line(PANEL_RETURN_PROMPT@)]
}

/// Render the whole composition panel on the line-oriented screen, given
/// the accounting formatter's renderings of the counted figures and the
/// health-check disclaimer and machine-only warning texts.
pub fn render_composition_panel(
    out: &mut Vec<TextOp>,
    m: &CompositionModel,
    dice_bits: &str,
    coin_bits: &str,
    total_bits: &str,
    disclaimer: &str,
    machine_only_warning: &str,
)
    ensures
        spec_ops(final(out)@) == spec_ops(old(out)@) + spec_composition_panel(
            *m,
            dice_bits@,
            coin_bits@,
            total_bits@,
            disclaimer@,
            machine_only_warning@,
        ),
{
    let ghost a = spec_ops(old(out)@);
    let ghost tags = m.machine_tags.spec_tags();
    render_overview_page(out, m, dice_bits, coin_bits, total_bits);
    let ghost b = spec_ops(out@);
    let n = m.machine_tags.len();
    let pages = claimed_page_count(n);
    let mut i: usize = 0;
    while i < pages
        invariant
            i <= pages,
            n == tags.len(),
            tags == m.machine_tags.spec_tags(),
            pages == spec_claimed_page_count(n as nat),
            spec_ops(out@) == b + spec_claimed_pages(tags, i as nat),
        decreases pages - i,
    {
        render_claimed_page(out, m, i);
        i = i + 1;
        assert(spec_ops(out@) =~= b + spec_claimed_pages(tags, i as nat));
    }
    let ghost c = spec_ops(out@);
    let has_claimed = n > 0;
    let machine_only = match m.mode {
        EntropyMode::MachineOnly => true,
        _ => false,
    };
    if has_claimed || machine_only {
        render_notices_page(out, m, has_claimed, disclaimer, machine_only_warning);
    }
    write_line(out, PANEL_CONTINUE_PROMPT);
    write_line(out, PANEL_RETURN_PROMPT);
    assert(spec_ops(out@) =~= a + spec_composition_panel(
        *m,
        dice_bits@,
        coin_bits@,
        total_bits@,
        disclaimer@,
        machine_only_warning@,
    ));
}

/// The compact claimed row of every panel tag carries no figure: its only
/// digit is the `0` of the fixed `claimed, 0 counted`, and it has no
/// decimal point, so nothing on it can read as a counted amount.
pub proof fn lemma_claimed_row_has_no_figure(t: SourceTag)
    requires
        spec_is_panel_tag(t),
    ensures
        ({
            let row = "  "@ + spec_claimed_row_text(t).2 + "   claimed, 0 counted"@;
            &&& spec_claimed_row(t) == seq![
                TextOpView::Prose(spec_claimed_row_text(t).0),
                TextOpView::Line(spec_claimed_row_text(t).1),
                TextOpView::Line(row),
            ]
            &&& forall|i: int| 0 <= i < row.len() && '0' <= #[trigger] row[i] <= '9' ==> i == row.len() - 9
                && row[i] == '0'
            &&& forall|i: int| 0 <= i < row.len() ==> #[trigger] row[i] != '.'
        }),
{
    reveal_strlit("  ");
    reveal_strlit("   claimed, 0 counted");
    reveal_strlit("EFI RNG");
    reveal_strlit("RDSEED");
    reveal_strlit("RDRAND");
    reveal_strlit("USB TRNG");
    let short = spec_claimed_row_text(t).2;
    let row = "  "@ + short + "   claimed, 0 counted"@;
    let tail = "   claimed, 0 counted"@;
    assert forall|i: int| 0 <= i < row.len() implies ('0' <= #[trigger] row[i] <= '9' ==> i == row.len() - 9
        && row[i] == '0') && row[i] != '.' by {
        if i < 2 {
            assert(row[i] == ' ');
        } else if i < 2 + short.len() {
            assert(row[i] == short[i - 2]);
        } else {
            assert(row[i] == tail[i - 2 - short.len()]);
        }
    }
}

/// The counted section's total is the counted milli-bits, 2585 per roll and
/// 1000 per flip, present exactly when something was witnessed; it meets
/// the floor exactly when it reaches 128 000 for the 12-word target or
/// 256 000 for the 24-word one, so the panel never shows `>=` the target
/// for a total below it.
pub proof fn lemma_counted_total_against_floor(dice_rolls: u32, coin_flips: u32, target: TargetBits)
    ensures
        (spec_counted_section(dice_rolls, coin_flips, target).total is None) == (dice_rolls == 0 && coin_flips
            == 0),
        spec_counted_section(dice_rolls, coin_flips, target).total matches Some(t) ==> t.milli_bits == 2585
            * dice_rolls + 1000 * coin_flips && t.meets_floor == (t.milli_bits >= 1000 * (
        if target == TargetBits::Bits128 {
            128int
        } else {
            256int
        })),
{
    let total = spec_counted_milli_bits(dice_rolls as nat, coin_flips as nat);
    assert(total <= 2585 * 0xffff_ffff + 1000 * 0xffff_ffffnat);
    assert(total as u64 == total);
}

} // verus!
