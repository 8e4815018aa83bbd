//! The source records a derivation is made from, and the scrubs that follow
//! it.
//!
//! The records come in a fixed order: the dice rolls (when any were
//! entered), the coin flips (when any were entered), then every acquired
//! machine record in acquisition order. There is room for at most
//! [`MAX_SOURCE_RECORDS`]; more is refused rather than truncated. Whatever
//! the outcome, the physical staging and the machine sources are scrubbed
//! as soon as the records are taken.
use vstd::prelude::*;
use crate::contracts::SourceTag;
use crate::machine::{AcquiredSources, SourceView};
use crate::physical::{PhysicalStaging, StagingView};

verus! {

/// The most source records one transcript holds.
pub const MAX_SOURCE_RECORDS: usize = 8;

/// One source record handed to the transcript: tag, algorithm identifier
/// (empty for physical sources) and raw bytes.
pub struct SourceRecord {
    pub tag: SourceTag,
    pub algo_id: Vec<u8>,
    pub bytes: Vec<u8>,
}

impl View for SourceRecord {
    type V = SourceView;

    open spec fn view(&self) -> SourceView {
        SourceView { tag: self.tag, algo_id: self.algo_id@, bytes: self.bytes@ }
    }
}

/// Why the source records could not be assembled.
#[derive(Debug, Clone, Copy, PartialEq, Eq, Structural)]
pub enum SourceAssemblyError {
    /// More records than a transcript holds.
    TooManySources,
}

/// The physical records: dice first, then coins, each only when non-empty.
pub open spec fn spec_physical_records(s: StagingView) -> Seq<SourceView> {
    let dice = if s.dice.len() > 0 {
        seq![SourceView { tag: SourceTag::DiceRolls, algo_id: Seq::empty(), bytes: s.dice }]
    } else {
        Seq::empty()
    };
    let coins = if s.coins.len() > 0 {
        seq![SourceView { tag: SourceTag::CoinFlips, algo_id: Seq::empty(), bytes: s.coins }]
    } else {
        Seq::empty()
    };
    dice + coins
}

/// Every record, in transcript order.
pub open spec fn spec_source_records(s: StagingView, machine: Seq<SourceView>) -> Seq<SourceView> {
    spec_physical_records(s) + machine
}

/// The views of a list of records.
pub open spec fn spec_record_views(v: Seq<SourceRecord>) -> Seq<SourceView> {
    v.map_values(|r: SourceRecord| r@)
}

/// Assemble the transcript's source records from the physical staging and
/// the acquired machine sources: dice, coins, then the machine records in
/// order. Refused with `TooManySources` when there would be more than
/// [`MAX_SOURCE_RECORDS`].
pub fn source_records(staging: &PhysicalStaging, machine: &AcquiredSources) -> (r: Result<
    Vec<SourceRecord>,
    SourceAssemblyError,
>)
    ensures
        r is Ok <==> spec_source_records(staging@, machine@).len() <= MAX_SOURCE_RECORDS,
        r matches Ok(v) ==> spec_record_views(v@) == spec_source_records(staging@, machine@),
{
    let dice = staging.dice_bytes();
    let coins = staging.coin_bytes();
    let n_machine = machine.len();
    let want = (if dice.len() > 0 { 1usize } else { 0usize }) + (if coins.len() > 0 { 1usize } else { 0usize })
        + n_machine;
    if want > MAX_SOURCE_RECORDS {
        return Err(SourceAssemblyError::TooManySources);
    }
    let mut out: Vec<SourceRecord> = Vec::new();
    if dice.len() > 0 {
        out.push(SourceRecord { tag: SourceTag::DiceRolls, algo_id: Vec::new(), bytes: dice });
    }
    if coins.len() > 0 {
        out.push(SourceRecord { tag: SourceTag::CoinFlips, algo_id: Vec::new(), bytes: coins });
    }
    assert(spec_record_views(out@) =~= spec_physical_records(staging@));
    let mut i: usize = 0;
    while i < n_machine
        invariant
            i <= n_machine,
            n_machine == machine@.len(),
            spec_record_views(out@) =~= spec_physical_records(staging@) + machine@.subrange(0, i as int),
        decreases n_machine - i,
    {
        let src = machine.get(i);
        let rec = SourceRecord { tag: src.tag(), algo_id: src.algo_id(), bytes: src.bytes() };
        assert(rec@ == machine@[i as int]);
        let ghost before = out@;
        out.push(rec);
        assert(spec_record_views(out@) =~= spec_record_views(before).push(machine@[i as int]));
        i = i + 1;
        assert(spec_record_views(out@) =~= spec_physical_records(staging@) + machine@.subrange(0, i as int));
    }
    assert(machine@.subrange(0, n_machine as int) =~= machine@);
    Ok(out)
}

/// Take the records a derivation is made from, then scrub the physical
/// staging and the machine sources, whether or not the records could be
/// assembled.
pub fn take_source_records(staging: &mut PhysicalStaging, machine: &mut AcquiredSources) -> (r: Result<
    Vec<SourceRecord>,
    SourceAssemblyError,
>)
    ensures
        r is Ok <==> spec_source_records(old(staging)@, old(machine)@).len() <= MAX_SOURCE_RECORDS,
        r matches Ok(v) ==> spec_record_views(v@) == spec_source_records(old(staging)@, old(machine)@),
        final(staging)@.dice == Seq::<u8>::empty(),
        final(staging)@.coins == Seq::<u8>::empty(),
        final(staging).storage_zeroed(),
        final(machine)@ == Seq::<SourceView>::empty(),
        final(machine).storage_zeroed(),
{
    let r = source_records(staging, machine);
    staging.scrub();
    machine.scrub();
    r
}

} // verus!
