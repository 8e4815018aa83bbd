//! Machine-source acquisition: the acquired record types, the rule that
//! turns up to five raw per-mechanism outcomes into a successful
//! acquisition (RDRAND never counts on its own), and the sole-source check
//! machine-only mode needs.
use vstd::prelude::*;
use crate::contracts::SourceTag;
use vstd::string::StrSliceExecFns;
use crate::text::{TextOp, TextOpView, clear, push_str, spec_ops, write_line, write_prose, write_string};

verus! {

/// Capacity of one record's algorithm identifier.
pub const MAX_ALGO_ID: usize = 32;

/// Capacity of one record's raw bytes.
pub const MAX_MACHINE_SOURCE_BYTES: usize = 64;

/// Capacity of [`AcquiredSources`].
pub const MAX_ACQUIRED_SOURCES: usize = 5;

/// The abstract contents of one acquired record.
pub struct SourceView {
    pub tag: SourceTag,
    pub algo_id: Seq<u8>,
    pub bytes: Seq<u8>,
}

/// One acquired machine-source record: tag, algorithm identifier and raw
/// bytes, in fixed buffers whose unused tails are always zero.
pub struct AcquiredSource {
    tag: SourceTag,
    algo_id: [u8; MAX_ALGO_ID],
    algo_len: usize,
    bytes: [u8; MAX_MACHINE_SOURCE_BYTES],
    bytes_len: usize,
}

impl View for AcquiredSource {
    type V = SourceView;

    closed spec fn view(&self) -> SourceView {
        SourceView {
            tag: self.tag,
            algo_id: self.algo_id@.subrange(0, self.algo_len as int),
            bytes: self.bytes@.subrange(0, self.bytes_len as int),
        }
    }
}

impl AcquiredSource {
    #[verifier::type_invariant]
    spec fn inv(self) -> bool {
        &&& self.algo_len <= MAX_ALGO_ID
        &&& self.bytes_len <= MAX_MACHINE_SOURCE_BYTES
        &&& forall|i: int| self.algo_len <= i < MAX_ALGO_ID ==> #[trigger] self.algo_id[i] == 0
        &&& forall|i: int| self.bytes_len <= i < MAX_MACHINE_SOURCE_BYTES ==> #[trigger] self.bytes[i] == 0
    }

    /// `true` iff every buffer byte is zero.
    pub closed spec fn storage_zeroed(&self) -> bool {
        &&& forall|i: int| 0 <= i < MAX_ALGO_ID ==> #[trigger] self.algo_id[i] == 0
        &&& forall|i: int| 0 <= i < MAX_MACHINE_SOURCE_BYTES ==> #[trigger] self.bytes[i] == 0
    }

    /// Copy `algo_id` and `bytes` into a new record; `None` when either
    /// exceeds its fixed capacity.
    pub fn new(tag: SourceTag, algo_id: &[u8], bytes: &[u8]) -> (r: Option<Self>)
        ensures
            (algo_id@.len() <= MAX_ALGO_ID && bytes@.len() <= MAX_MACHINE_SOURCE_BYTES) == r is Some,
            r matches Some(s) ==> s@.tag == tag && s@.algo_id == algo_id@ && s@.bytes == bytes@,
    {
        if algo_id.len() > MAX_ALGO_ID || bytes.len() > MAX_MACHINE_SOURCE_BYTES {
            return None;
        }
        let mut a = [0u8; MAX_ALGO_ID];
        let mut i: usize = 0;
        while i < algo_id.len()
            invariant
                algo_id@.len() <= MAX_ALGO_ID,
                i <= algo_id@.len(),
                forall|j: int| 0 <= j < i ==> #[trigger] a[j] == algo_id@[j],
                forall|j: int| i <= j < MAX_ALGO_ID ==> #[trigger] a[j] == 0,
            decreases algo_id@.len() - i,
        {
            a[i] = algo_id[i];
            i = i + 1;
        }
        let mut b = [0u8; MAX_MACHINE_SOURCE_BYTES];
        let mut k: usize = 0;
        while k < bytes.len()
            invariant
                bytes@.len() <= MAX_MACHINE_SOURCE_BYTES,
                k <= bytes@.len(),
                forall|j: int| 0 <= j < k ==> #[trigger] b[j] == bytes@[j],
                forall|j: int| k <= j < MAX_MACHINE_SOURCE_BYTES ==> #[trigger] b[j] == 0,
            decreases bytes@.len() - k,
        {
            b[k] = bytes[k];
            k = k + 1;
        }
        let r = AcquiredSource { tag, algo_id: a, algo_len: algo_id.len(), bytes: b, bytes_len: bytes.len() };
        assert(r@.algo_id =~= algo_id@);
        assert(r@.bytes =~= bytes@);
        Some(r)
    }

    /// The record's source tag.
    pub fn tag(&self) -> (r: SourceTag)
        ensures
            r == self@.tag,
    {
        self.tag
    }

    /// The record's algorithm identifier.
    pub fn algo_id(&self) -> (r: Vec<u8>)
        ensures
            r@ == self@.algo_id,
    {
        proof {
            use_type_invariant(self);
        }
        let mut r: Vec<u8> = Vec::new();
        let mut i: usize = 0;
        while i < self.algo_len
            invariant
                self.algo_len <= MAX_ALGO_ID,
                i <= self.algo_len,
                r@ == self.algo_id@.subrange(0, i as int),
            decreases self.algo_len - i,
        {
            r.push(self.algo_id[i]);
            i = i + 1;
            assert(r@ =~= self.algo_id@.subrange(0, i as int));
        }
        r
    }

    /// The record's raw bytes.
    pub fn bytes(&self) -> (r: Vec<u8>)
        ensures
            r@ == self@.bytes,
    {
        proof {
            use_type_invariant(self);
        }
        let mut r: Vec<u8> = Vec::new();
        let mut i: usize = 0;
        while i < self.bytes_len
            invariant
                self.bytes_len <= MAX_MACHINE_SOURCE_BYTES,
                i <= self.bytes_len,
                r@ == self.bytes@.subrange(0, i as int),
            decreases self.bytes_len - i,
        {
            r.push(self.bytes[i]);
            i = i + 1;
            assert(r@ =~= self.bytes@.subrange(0, i as int));
        }
        r
    }

    /// Zero both buffers and both lengths; the tag is kept.
    pub fn scrub(&mut self)
        ensures
            final(self)@.tag == old(self)@.tag,
            final(self)@.algo_id == Seq::<u8>::empty(),
            final(self)@.bytes == Seq::<u8>::empty(),
            final(self).storage_zeroed(),
    {
        let r = AcquiredSource {
            tag: self.tag,
            algo_id: [0u8; MAX_ALGO_ID],
            algo_len: 0,
            bytes: [0u8; MAX_MACHINE_SOURCE_BYTES],
            bytes_len: 0,
        };
        *self = r;
        assert(self@.algo_id =~= Seq::<u8>::empty());
        assert(self@.bytes =~= Seq::<u8>::empty());
    }
}

/// Up to [`MAX_ACQUIRED_SOURCES`] acquired records, in acquisition order.
/// The records are the first `len` slots; every slot past them has been
/// scrubbed and holds only zero bytes.
pub struct AcquiredSources {
    slots: Vec<AcquiredSource>,
    len: usize,
}

impl View for AcquiredSources {
    type V = Seq<SourceView>;

    closed spec fn view(&self) -> Seq<SourceView> {
        self.slots@.subrange(0, self.len as int).map_values(|s: AcquiredSource| s@)
    }
}

impl AcquiredSources {
    #[verifier::type_invariant]
    spec fn inv(self) -> bool {
        &&& self.len <= self.slots@.len() <= MAX_ACQUIRED_SOURCES
        &&& forall|i: int| self.len <= i < self.slots@.len() ==> (#[trigger] self.slots@[i]).storage_zeroed()
    }

    /// `true` iff every slot the container holds, records and spare slots
    /// alike, has only zero bytes.
    pub closed spec fn storage_zeroed(&self) -> bool {
        forall|i: int| 0 <= i < self.slots@.len() ==> (#[trigger] self.slots@[i]).storage_zeroed()
    }

    /// An empty container.
    pub fn new() -> (r: Self)
        ensures
            r@ == Seq::<SourceView>::empty(),
            r.storage_zeroed(),
    {
        let r = AcquiredSources { slots: Vec::new(), len: 0 };
        assert(r@ =~= Seq::<SourceView>::empty());
        r
    }

    /// Append `source`; when the container is already full the record is
    /// scrubbed and dropped.
    pub fn push(&mut self, source: AcquiredSource)
        ensures
            old(self)@.len() < MAX_ACQUIRED_SOURCES ==> final(self)@ == old(self)@.push(source@),
            old(self)@.len() >= MAX_ACQUIRED_SOURCES ==> final(self)@ == old(self)@,
    {
        proof {
            use_type_invariant(&*self);
        }
        let mut source = source;
        if self.len < MAX_ACQUIRED_SOURCES {
            let ghost src = source@;
            let mut tmp = AcquiredSources { slots: Vec::new(), len: 0 };
            std::mem::swap(&mut tmp, self);
            proof {
                use_type_invariant(&tmp);
            }
            let AcquiredSources { slots: mut slots, len } = tmp;
            let ghost before = slots@;
            if len < slots.len() {
                slots.set(len, source);
            } else {
                slots.push(source);
            }
            assert(slots@.subrange(0, len as int) =~= before.subrange(0, len as int));
            assert(forall|i: int| len + 1 <= i < slots@.len() ==> slots@[i] == before[i]);
            *self = AcquiredSources { slots, len: len + 1 };
            assert(self@ =~= old(self)@.push(src));
        } else {
            source.scrub();
        }
    }

    /// Number of records.
    pub fn len(&self) -> (r: usize)
        ensures
            r == self@.len(),
            r <= MAX_ACQUIRED_SOURCES,
    {
        proof {
            use_type_invariant(self);
        }
        self.len
    }

    /// Whether there is no record.
    pub fn is_empty(&self) -> (r: bool)
        ensures
            r == (self@.len() == 0),
    {
        proof {
            use_type_invariant(self);
        }
        self.len == 0
    }

    /// Record `i`.
    pub fn get(&self, i: usize) -> (r: &AcquiredSource)
        requires
            i < self@.len(),
        ensures
            r@ == self@[i as int],
    {
        proof {
            use_type_invariant(self);
        }
        &self.slots[i]
    }

    /// The records' tags, in order.
    pub fn tags(&self) -> (r: Vec<SourceTag>)
        ensures
            r@ == self@.map_values(|s: SourceView| s.tag),
    {
        proof {
            use_type_invariant(self);
        }
        let mut r: Vec<SourceTag> = Vec::new();
        let mut i: usize = 0;
        while i < self.len
            invariant
                self.len <= self.slots@.len(),
                i <= self.len,
                r@ == self@.map_values(|s: SourceView| s.tag).subrange(0, i as int),
            decreases self.len - i,
        {
            r.push(self.slots[i].tag());
            i = i + 1;
            assert(r@ =~= self@.map_values(|s: SourceView| s.tag).subrange(0, i as int));
        }
        assert(r@ =~= self@.map_values(|s: SourceView| s.tag));
        r
    }

    /// Scrub every record, zeroing its bytes in place, and empty the
    /// container; the zeroed records stay in their slots.
    pub fn scrub(&mut self)
        ensures
            final(self)@ == Seq::<SourceView>::empty(),
            final(self).storage_zeroed(),
    {
        let mut tmp = AcquiredSources { slots: Vec::new(), len: 0 };
        std::mem::swap(&mut tmp, self);
        proof {
            use_type_invariant(&tmp);
        }
        let AcquiredSources { slots: mut slots, len: _ } = tmp;
        let n = slots.len();
        let mut i: usize = 0;
        while i < n
            invariant
                n == slots@.len(),
                i <= n,
                n <= MAX_ACQUIRED_SOURCES,
                forall|j: int| 0 <= j < i ==> (#[trigger] slots@[j]).storage_zeroed(),
            decreases n - i,
        {
            let mut s = slots.remove(i);
            s.scrub();
            slots.insert(i, s);
            i = i + 1;
        }
        *self = AcquiredSources { slots, len: 0 };
        assert(self@ =~= Seq::<SourceView>::empty());
    }

    /// Whether any present record can stand alone as a sole source under the
    /// current policy: an EFI RNG record when `efi_rng_sole_allowed`, an
    /// RDSEED record when `rdseed_sole_allowed`. RDRAND, USB TRNG and TPM
    /// records never qualify.
    pub fn has_sole_source_approved(&self, efi_rng_sole_allowed: bool, rdseed_sole_allowed: bool) -> (r: bool)
        ensures
            r == exists|i: int|
                0 <= i < self@.len() && spec_sole_source_ok(
                    #[trigger] self@[i].tag,
                    efi_rng_sole_allowed,
                    rdseed_sole_allowed,
                ),
    {
        proof {
            use_type_invariant(self);
        }
        let mut i: usize = 0;
        while i < self.len
            invariant
                self.len <= self.slots@.len(),
                i <= self.len,
                forall|j: int|
                    0 <= j < i ==> !spec_sole_source_ok(
                        #[trigger] self@[j].tag,
                        efi_rng_sole_allowed,
                        rdseed_sole_allowed,
                    ),
            decreases self.len - i,
        {
            let t = self.slots[i].tag();
            let ok = match t {
                SourceTag::ApprovedEfiRng => efi_rng_sole_allowed,
                SourceTag::X86Rdseed64 => rdseed_sole_allowed,
                _ => false,
            };
            assert(self@[i as int].tag == t);
            if ok {
                return true;
            }
            i = i + 1;
        }
        false
    }
}

/// Whether a record of tag `t` may stand alone under the current policy.
pub open spec fn spec_sole_source_ok(t: SourceTag, efi_rng_sole_allowed: bool, rdseed_sole_allowed: bool) -> bool {
    match t {
        SourceTag::ApprovedEfiRng => efi_rng_sole_allowed,
        SourceTag::X86Rdseed64 => rdseed_sole_allowed,
        _ => false,
    }
}

/// Why machine-source acquisition failed.
#[derive(Debug, Clone, Copy, PartialEq, Eq, Structural)]
pub enum MachineAcquisitionError {
    /// No machine source could be acquired.
    NoSourceAvailable,
    /// An approved primary source hit its acquisition deadline.
    SourceTimedOut,
}

/// The user's opt-in machine extras (non-secret; all off by default).
#[derive(Debug, Clone, Copy, PartialEq, Eq, Structural)]
pub struct MachineExtras {
    /// "Add TPM entropy".
    pub tpm: bool,
    /// "Add USB TRNG".
    pub usb_trng: bool,
}

impl MachineExtras {
    /// Every extra off.
    pub fn none() -> (r: Self)
        ensures
            !r.tpm && !r.usb_trng,
    {
        MachineExtras { tpm: false, usb_trng: false }
    }
}

/// The views of the present optional records, in order.
pub open spec fn spec_present(xs: Seq<Option<AcquiredSource>>) -> Seq<SourceView>
    decreases xs.len(),
{
    if xs.len() == 0 {
        Seq::empty()
    } else {
        let p = spec_present(xs.drop_last());
        match xs.last() {
            Some(s) => p.push(s@),
            None => p,
        }
    }
}

/// `w` after appending each of `vs` in order, dropping any that arrive once
/// the container is full.
pub open spec fn spec_push_all(w: Seq<SourceView>, vs: Seq<SourceView>) -> Seq<SourceView>
    decreases vs.len(),
{
    if vs.len() == 0 {
        w
    } else {
        let p = spec_push_all(w, vs.drop_last());
        if p.len() < MAX_ACQUIRED_SOURCES {
            p.push(vs.last())
        } else {
            p
        }
    }
}

/// Whether any of the four primary mechanisms succeeded.
pub open spec fn spec_primary_succeeded(
    efi_rng: Option<AcquiredSource>,
    rdseed: Option<AcquiredSource>,
    tpm: Option<AcquiredSource>,
    tpm12: Option<AcquiredSource>,
) -> bool {
    efi_rng is Some || rdseed is Some || tpm is Some || tpm12 is Some
}

fn push_if_some(into: &mut AcquiredSources, s: Option<AcquiredSource>) -> (r: bool)
    ensures
        r == s is Some,
        final(into)@ == spec_push_all(old(into)@, spec_present(seq![s])),
{
    let ghost xs = seq![s];
    proof {
        assert(xs.drop_last() =~= Seq::<Option<AcquiredSource>>::empty());
        reveal_with_fuel(spec_present, 2);
        reveal_with_fuel(spec_push_all, 2);
    }
    match s {
        Some(rec) => {
            proof {
                assert(spec_present(xs) =~= seq![rec@]);
                assert(seq![rec@].drop_last() =~= Seq::<SourceView>::empty());
            }
            into.push(rec);
            true
        },
        None => {
            assert(spec_present(xs) =~= Seq::<SourceView>::empty());
            false
        },
    }
}

proof fn lemma_push_all_append(w: Seq<SourceView>, a: Seq<SourceView>, b: Seq<SourceView>)
    ensures
        spec_push_all(spec_push_all(w, a), b) == spec_push_all(w, a + b),
    decreases b.len(),
{
    if b.len() == 0 {
        assert(a + b =~= a);
    } else {
        lemma_push_all_append(w, a, b.drop_last());
        assert((a + b).drop_last() =~= a + b.drop_last());
        assert((a + b).last() == b.last());
    }
}

proof fn lemma_present_append(xs: Seq<Option<AcquiredSource>>, x: Option<AcquiredSource>)
    ensures
        spec_present(xs.push(x)) == spec_present(xs) + spec_present(seq![x]),
{
    assert(xs.push(x).drop_last() =~= xs);
    assert(seq![x].drop_last() =~= Seq::<Option<AcquiredSource>>::empty());
    reveal_with_fuel(spec_present, 2);
    match x {
        Some(s) => {
            assert(spec_present(seq![x]) =~= seq![s@]);
            assert(spec_present(xs).push(s@) =~= spec_present(xs) + seq![s@]);
        },
        None => {
            assert(spec_present(seq![x]) =~= Seq::<SourceView>::empty());
            assert(spec_present(xs) + Seq::<SourceView>::empty() =~= spec_present(xs));
        },
    }
}

/// Turn up to five raw per-mechanism outcomes into an acquisition result,
/// appending to `into`. The primary records (EFI RNG, RDSEED, TPM 2.0, TPM
/// 1.2, in that order) are appended; the RDRAND record is appended after
/// them, and the result is `Ok`, only when at least one primary succeeded.
/// Otherwise the RDRAND record is scrubbed and discarded and the result is
/// [`MachineAcquisitionError::NoSourceAvailable`]: RDRAND alone is never a
/// successful acquisition.
pub fn assemble_acquired_sources(
    efi_rng: Option<AcquiredSource>,
    rdseed: Option<AcquiredSource>,
    rdrand: Option<AcquiredSource>,
    tpm: Option<AcquiredSource>,
    tpm12: Option<AcquiredSource>,
    into: &mut AcquiredSources,
) -> (r: Result<(), MachineAcquisitionError>)
    ensures
        r is Ok == spec_primary_succeeded(efi_rng, rdseed, tpm, tpm12),
        r is Err ==> r == Err::<(), MachineAcquisitionError>(MachineAcquisitionError::NoSourceAvailable)
            && final(into)@ == old(into)@,
        r is Ok ==> final(into)@ == spec_push_all(old(into)@, spec_present(seq![efi_rng, rdseed, tpm, tpm12, rdrand])),
{
    let ghost w0 = into@;
    let ghost xs = seq![efi_rng, rdseed, tpm, tpm12, rdrand];
    proof {
        lemma_present_append(seq![efi_rng], rdseed);
        lemma_present_append(seq![efi_rng, rdseed], tpm);
        lemma_present_append(seq![efi_rng, rdseed, tpm], tpm12);
        lemma_present_append(seq![efi_rng, rdseed, tpm, tpm12], rdrand);
        assert(seq![efi_rng].push(rdseed) =~= seq![efi_rng, rdseed]);
        assert(seq![efi_rng, rdseed].push(tpm) =~= seq![efi_rng, rdseed, tpm]);
        assert(seq![efi_rng, rdseed, tpm].push(tpm12) =~= seq![efi_rng, rdseed, tpm, tpm12]);
        assert(seq![efi_rng, rdseed, tpm, tpm12].push(rdrand) =~= xs);
    }
    let any = efi_rng.is_some() || rdseed.is_some() || tpm.is_some() || tpm12.is_some();
    if !any {
        if let Some(mut rec) = rdrand {
            rec.scrub();
        }
        return Err(MachineAcquisitionError::NoSourceAvailable);
    }
    let ghost p1 = spec_present(seq![efi_rng]);
    let ghost p2 = spec_present(seq![rdseed]);
    let ghost p3 = spec_present(seq![tpm]);
    let ghost p4 = spec_present(seq![tpm12]);
    let ghost p5 = spec_present(seq![rdrand]);
    push_if_some(into, efi_rng);
    push_if_some(into, rdseed);
    push_if_some(into, tpm);
    push_if_some(into, tpm12);
    push_if_some(into, rdrand);
    proof {
        lemma_push_all_append(w0, p1, p2);
        lemma_push_all_append(w0, p1 + p2, p3);
        lemma_push_all_append(w0, p1 + p2 + p3, p4);
        lemma_push_all_append(w0, p1 + p2 + p3 + p4, p5);
    }
    Ok(())
}


/// The acquisition screen's first line.
pub const ACQUIRING_LINE: &'static str = "Sampling approved machine entropy source(s)...";

/// The duration line, shown in a panel so a slow source does not look
/// frozen.
pub const ACQUIRING_DURATION_LINE: &'static str =
    "This normally takes under a second (up to 5 seconds on some systems). Each dot is progress:";

/// Timed-out headline.
pub const TIMED_OUT_HEADLINE: &'static str = "Machine entropy is too slow or unresponsive on this system.";

/// Timed-out detail.
pub const TIMED_OUT_DETAIL: &'static str = "The approved hardware source did not deliver entropy within the 5-second budget. No entropy was accepted from it, and nothing was generated.";

/// Timed-out guidance.
pub const TIMED_OUT_GUIDANCE: &'static str = "Restart the ceremony and choose physical dice or coin entry instead, or retry machine entropy if you believe this system is normally faster.";

/// No-source headline.
pub const NO_SOURCE_HEADLINE: &'static str = "No approved machine entropy source could be sampled on this system.";

/// No-source guidance.
pub const NO_SOURCE_GUIDANCE: &'static str = "Restart the ceremony and choose physical dice or coin entry instead.";

/// The failure screen's exit prompt.
pub const EXIT_LINE: &'static str = "[Enter] Exit to firmware";

/// The three rows of a one-line ASCII panel around `line`: a `+---+`
/// border as wide as the line, `|line|`, and the border again.
pub open spec fn spec_ticker_panel(line: Seq<char>) -> Seq<Seq<char>> {
    let border = seq!['+'] + Seq::new(line.len(), |i: int| '-') + seq!['+'];
    seq![border, seq!['|'] + line + seq!['|'], border]
}

/// The panel border for a line of `w` characters.
fn panel_border(w: usize) -> (r: String)
    ensures
        r@ == seq!['+'] + Seq::new(w as nat, |i: int| '-') + seq!['+'],
{
    let mut s = String::new();
    proof {
        reveal_strlit("+");
        reveal_strlit("-");
    }
    push_str(&mut s, "+");
    let mut i: usize = 0;
    while i < w
        invariant
            i <= w,
            "-"@ == seq!['-'],
            s@ == seq!['+'] + Seq::new(i as nat, |j: int| '-'),
        decreases w - i,
    {
        push_str(&mut s, "-");
        i = i + 1;
        assert(s@ =~= seq!['+'] + Seq::new(i as nat, |j: int| '-'));
    }
    push_str(&mut s, "+");
    s
}

/// Draw `line` inside a one-line ASCII panel hugging its width.
pub fn write_ticker_panel(out: &mut Vec<TextOp>, line: &str)
    ensures
        spec_ops(final(out)@) == spec_ops(old(out)@) + spec_ticker_panel(line@).map_values(
            |l: Seq<char>| TextOpView::Line(l),
        ),
{
    let w = line.unicode_len();
    let border = panel_border(w);
    let border2 = panel_border(w);
    let mut content = String::new();
    proof {
        reveal_strlit("|");
    }
    push_str(&mut content, "|");
    push_str(&mut content, line);
    push_str(&mut content, "|");
    let ghost panel = spec_ticker_panel(line@);
    assert(border@ == panel[0]);
    assert(content@ =~= panel[1]);
    assert(border2@ == panel[2]);
    write_string(out, border);
    write_string(out, content);
    write_string(out, border2);
    assert(spec_ops(out@) =~= spec_ops(old(out)@) + spec_ticker_panel(line@).map_values(
        |l: Seq<char>| TextOpView::Line(l),
    ));
}

/// The acquisition screen, carrying the health-check `disclaimer` as
/// prose.
pub open spec fn spec_acquiring(disclaimer: Seq<char>) -> Seq<TextOpView> {
    seq![
        TextOpView::Clear,
        TextOpView::Line(ACQUIRING_LINE@),
        TextOpView::Line(""@),
        TextOpView::Prose(disclaimer),
        TextOpView::Line(""@),
    ] + spec_ticker_panel(ACQUIRING_DURATION_LINE@).map_values(|l: Seq<char>| TextOpView::Line(l))
}

/// Render the machine-acquisition screen: the sampling line, the
/// health-check disclaimer, then the duration line in its panel. Its text
/// never depends on what is being collected.
pub fn render_acquiring(out: &mut Vec<TextOp>, disclaimer: &str)
    ensures
        spec_ops(final(out)@) == spec_ops(old(out)@) + spec_acquiring(disclaimer@),
{
    clear(out);
    write_line(out, ACQUIRING_LINE);
    write_line(out, "");
    write_prose(out, disclaimer);
    write_line(out, "");
    let ghost mid = spec_ops(out@);
    write_ticker_panel(out, ACQUIRING_DURATION_LINE);
    assert(mid =~= spec_ops(old(out)@) + spec_acquiring(disclaimer@).take(5));
    assert(spec_ops(out@) =~= spec_ops(old(out)@) + spec_acquiring(disclaimer@));
}

/// The acquisition-failure screen for `err`.
pub open spec fn spec_machine_failed(err: MachineAcquisitionError) -> Seq<TextOpView> {
    seq![TextOpView::Clear] + match err {
        MachineAcquisitionError::SourceTimedOut => seq![
            TextOpView::Line(TIMED_OUT_HEADLINE@),
            TextOpView::Line(""@),
            TextOpView::Prose(TIMED_OUT_DETAIL@),
            TextOpView::Line(""@),
            TextOpView::Prose(TIMED_OUT_GUIDANCE@),
        ],
        MachineAcquisitionError::NoSourceAvailable => seq![
            TextOpView::Line(NO_SOURCE_HEADLINE@),
            TextOpView::Line(""@),
            TextOpView::Prose(NO_SOURCE_GUIDANCE@),
        ],
    } + seq![TextOpView::Line(""@), TextOpView::Line(EXIT_LINE@)]
}

/// Render the acquisition-failure screen: a timeout reads differently from
/// "no source available", and both direct the operator to physical entry
/// before the exit prompt.
pub fn render_machine_failed(out: &mut Vec<TextOp>, err: MachineAcquisitionError)
    ensures
        spec_ops(final(out)@) == spec_ops(old(out)@) + spec_machine_failed(err),
{
    clear(out);
    match err {
        MachineAcquisitionError::SourceTimedOut => {
            write_line(out, TIMED_OUT_HEADLINE);
            write_line(out, "");
            write_prose(out, TIMED_OUT_DETAIL);
            write_line(out, "");
            write_prose(out, TIMED_OUT_GUIDANCE);
        },
        MachineAcquisitionError::NoSourceAvailable => {
            write_line(out, NO_SOURCE_HEADLINE);
            write_line(out, "");
            write_prose(out, NO_SOURCE_GUIDANCE);
        },
    }
    write_line(out, "");
    write_line(out, EXIT_LINE);
    assert(spec_ops(out@) =~= spec_ops(old(out)@) + spec_machine_failed(err));
}

} // verus!
