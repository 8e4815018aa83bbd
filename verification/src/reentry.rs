//! Complete hidden re-entry: the per-word prompt, the judgement of one
//! entered word, and the mismatch screen's retry / reveal / destroy choice.
//!
//! A judgement says only whether *this* position matched — never which
//! letters were right, and never anything about other positions.
use vstd::prelude::*;
use crate::keys::{MenuKey, ScriptedKeys, reads_first};
use crate::text::{push_decimal, push_str, spec_decimal};

verus! {

/// The mismatch screen's heading (names no position and no letter count).
pub const MISMATCH_HEADER: &'static str = "The entered word does not match this position.";

/// `[1]`.
pub const RETRY_PROMPT: &'static str = "[1] Retry this position";

/// `[2]`.
pub const REVEAL_PROMPT: &'static str = "[2] Reveal the phrase again";

/// `[3]`.
pub const DESTROY_PROMPT: &'static str = "[3] Destroy phrase and shut down";

/// The entry row's fixed text, before the hidden-character stars.
pub const WORD_PROMPT: &'static str = "Type the first four letters, then Enter: ";

/// The most characters typed for one word.
pub const MAX_PREFIX_CHARS: usize = 4;

/// Non-secret outcome of checking one re-entered word.
#[derive(Debug, Clone, Copy, PartialEq, Eq, Structural)]
pub enum ReentryOutcome {
    Matched,
    Mismatch,
}

/// The user's choice on the re-entry mismatch screen.
#[derive(Debug, Clone, Copy, PartialEq, Eq, Structural)]
pub enum MismatchChoice {
    /// `[1]` retry the same position.
    Retry,
    /// `[2]` reveal the phrase again (all re-entry progress is discarded).
    RevealAgain,
    /// `[3]` destroy (a second confirmation follows).
    Destroy,
}

/// `Word <position + 1> of <total>`.
pub open spec fn spec_word_header(position: nat, total: nat) -> Seq<char> {
    "Word "@ + spec_decimal(position + 1) + " of "@ + spec_decimal(total)
}

/// The progress header of the word prompt: `position` is 0-based and shown
/// 1-based, without zero padding.
pub fn word_header(position: usize, total: usize) -> (r: String)
    requires
        position < usize::MAX,
    ensures
        r@ == spec_word_header(position as nat, total as nat),
{
    let mut header = String::new();
    push_str(&mut header, "Word ");
    push_decimal(&mut header, (position + 1) as u64);
    push_str(&mut header, " of ");
    push_decimal(&mut header, total as u64);
    header
}

/// The entry row: the fixed prompt, then one `*` per typed character and
/// spaces up to four.
pub open spec fn spec_entry_row(dots: nat) -> Seq<char> {
    WORD_PROMPT@ + Seq::new(4, |i: int| if i < dots { '*' } else { ' ' })
}

/// Build the entry row for `dots` hidden characters typed so far (the
/// letters themselves are never shown).
pub fn entry_row(dots: usize) -> (r: String)
    ensures
        r@ == spec_entry_row(dots as nat),
{
    let mut line = String::new();
    push_str(&mut line, WORD_PROMPT);
    let ghost start = line@;
    proof {
        reveal_strlit("*");
        reveal_strlit(" ");
    }
    let mut i: usize = 0;
    while i < 4
        invariant
            i <= 4,
            "*"@ == seq!['*'],
            " "@ == seq![' '],
            line@ == start + Seq::new(i as nat, |j: int| if j < dots { '*' } else { ' ' }),
        decreases 4 - i,
    {
        if i < dots {
            push_str(&mut line, "*");
        } else {
            push_str(&mut line, " ");
        }
        i = i + 1;
        assert(line@ =~= start + Seq::new(i as nat, |j: int| if j < dots { '*' } else { ' ' }));
    }
    line
}

/// The judgement of one Enter-terminated entry of `typed` characters whose
/// prefix resolved to exactly one word (`unique`) with index `resolved`:
/// `None` for an empty entry (the prompt is shown again, not counted as
/// wrong), otherwise a match iff the prefix was unique and resolved to the
/// expected index.
pub open spec fn spec_judge_entry(typed: nat, unique: bool, resolved: u16, expected: u16) -> Option<ReentryOutcome> {
    if typed == 0 {
        None
    } else if unique && resolved == expected {
        Some(ReentryOutcome::Matched)
    } else {
        Some(ReentryOutcome::Mismatch)
    }
}

/// Judge one re-entered word (see [`spec_judge_entry`]).
pub fn judge_entry(typed: usize, unique: bool, resolved: &u16, expected: &u16) -> (r: Option<ReentryOutcome>)
    ensures
        r == spec_judge_entry(typed as nat, unique, *resolved, *expected),
{
    if typed == 0 {
        None
    } else if unique && *resolved == *expected {
        Some(ReentryOutcome::Matched)
    } else {
        Some(ReentryOutcome::Mismatch)
    }
}

pub open spec fn spec_mismatch_choice(k: MenuKey) -> Option<MismatchChoice> {
    match k {
        MenuKey::Char(c) => if c == '1' {
            Some(MismatchChoice::Retry)
        } else if c == '2' {
            Some(MismatchChoice::RevealAgain)
        } else if c == '3' {
            Some(MismatchChoice::Destroy)
        } else {
            None
        },
        _ => None,
    }
}

/// `1` retries, `2` reveals again, `3` destroys; every other key is
/// ignored.
pub fn mismatch_choice_of(k: MenuKey) -> (r: Option<MismatchChoice>)
    ensures
        r == spec_mismatch_choice(k),
{
    match k {
        MenuKey::Char(c) => {
            if c == '1' {
                Some(MismatchChoice::Retry)
            } else if c == '2' {
                Some(MismatchChoice::RevealAgain)
            } else if c == '3' {
                Some(MismatchChoice::Destroy)
            } else {
                None
            }
        },
        _ => None,
    }
}

/// Read until `1`, `2` or `3`.
pub fn read_mismatch_choice(k: &mut ScriptedKeys) -> (r: Option<MismatchChoice>)
    requires
        old(k).pos <= old(k).events@.len(),
    ensures
        reads_first(*old(k), *final(k), |x: MenuKey| spec_mismatch_choice(x), r),
{
    let ghost start = k.pos;
    loop
        invariant
            k.events@ == old(k).events@,
            old(k).pos <= k.pos <= k.events@.len(),
            start == old(k).pos,
            forall|j: int| start <= j < k.pos ==> (#[trigger] spec_mismatch_choice(k.events@[j])) is None,
        decreases k.events@.len() - k.pos,
    {
        match k.read_menu_key() {
            None => {
                return None;
            },
            Some(key) => {
                let d = mismatch_choice_of(key);
                if d.is_some() {
                    return d;
                }
            },
        }
    }
}

} // verus!
