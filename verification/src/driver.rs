//! The decisions of the secret-phase ceremony driver.
//!
//! The driver walks the ceremony state by state: it shows the screen that
//! belongs to the current state, collects what the user (or the platform)
//! answered, and fires one state-machine event. Everything it *decides* is
//! here, as one function from (state, carried context, screen result) to
//! (event, scrubs, next context, how the run ends): [`decide`]. The caller
//! performs the screens, the transitions, the scrubs and the shutdown.
//!
//! What the driver promises, stated as laws below:
//! - a menu return is only ever the consequence of an explicit operator
//!   choice, and is honoured only at the clean scrub terminal;
//! - the fatal chain always scrubs and powers off;
//! - no post-secret state ever ends the run as if no secret existed;
//! - every pre-secret return scrubs the physical staging and the machine
//!   sources first.
use vstd::prelude::*;
use crate::contracts::WordCount;
use crate::composition::EntropyMode;
use crate::machine::MachineExtras;
use crate::physical::{Instrument, PhysicalEntryOutcome};
use crate::display::{DisplayChoice, DestroyDecision};
use crate::reentry::{ReentryOutcome, MismatchChoice};
use crate::passphrase::{OfferChoice, EntryOutcome};

verus! {

/// The longest mnemonic, in words; re-entry positions index a buffer of
/// this many indexes.
pub const MAX_MNEMONIC_WORDS: usize = 24;

/// The ceremony states the secret-phase driver can find itself in.
#[derive(Debug, Clone, Copy, PartialEq, Eq, Structural)]
pub enum FlowState {
    MachineEntropyAcquisition,
    PhysicalCollection,
    FinalGenerationConfirmation,
    SetupSelection,
    FinalEntropyDerivation,
    MnemonicGeneration,
    MnemonicDisplay,
    DestroyConfirm,
    DisplayScrub,
    CompleteHiddenReentry,
    ReentryMismatchChoice,
    PassphraseOffer,
    PassphraseEntry,
    PassphraseConfirm,
    DerivationVerificationDisplay,
    CompletionEducation,
    /// The clean scrub terminal (arena scrub, framebuffer scrub, shutdown).
    SecretArenaScrub,
    FramebufferScrub,
    Shutdown,
    /// The fatal chain and the shutdown-failure halt.
    ShutdownFailedHalt,
    ScrubWhatIsReachable,
    BlankDisplay,
    ShutdownOrHalt,
    ExitToFirmware,
    /// Any other state before a secret exists.
    OtherPreSecret,
    /// Any other state after a secret exists.
    OtherPostSecret,
}

/// Whether a secret may exist in `s` (final-entropy derivation and every
/// state after it).
pub open spec fn spec_is_post_secret(s: FlowState) -> bool {
    !(s == FlowState::MachineEntropyAcquisition || s == FlowState::PhysicalCollection
        || s == FlowState::FinalGenerationConfirmation || s == FlowState::SetupSelection
        || s == FlowState::ExitToFirmware || s == FlowState::OtherPreSecret)
}

/// The clean scrub terminal: the only place a menu return is honoured.
pub open spec fn spec_is_clean_terminal(s: FlowState) -> bool {
    s == FlowState::SecretArenaScrub || s == FlowState::FramebufferScrub || s == FlowState::Shutdown
}

/// The fatal chain and the shutdown-failure halt: always power off.
pub open spec fn spec_is_fatal_terminal(s: FlowState) -> bool {
    s == FlowState::ShutdownFailedHalt || s == FlowState::ScrubWhatIsReachable
        || s == FlowState::BlankDisplay || s == FlowState::ShutdownOrHalt
}

impl FlowState {
    /// Whether a secret may exist in this state.
    pub fn is_post_secret(&self) -> (r: bool)
        ensures
            r == spec_is_post_secret(*self),
    {
        match self {
            FlowState::MachineEntropyAcquisition | FlowState::PhysicalCollection
            | FlowState::FinalGenerationConfirmation | FlowState::SetupSelection
            | FlowState::ExitToFirmware | FlowState::OtherPreSecret => false,
            _ => true,
        }
    }
}

/// The state-machine events the driver fires.
#[derive(Debug, Clone, Copy, PartialEq, Eq, Structural)]
pub enum FlowEvent {
    MachineEntropyComplete,
    /// Machine acquisition failed; the disposition is "exit to firmware".
    MachineEntropyFailedExitToFirmware,
    PhysicalBudgetMet,
    Back,
    FinalConfirm,
    SetupCommitted { word_count: WordCount, mode: EntropyMode, instrument: Instrument },
    DerivationComplete,
    /// Final-entropy derivation failed (fatal from here on).
    DerivationFailed,
    MnemonicReady,
    HideAndReenter,
    DestroyRequested,
    DestroyConfirmed,
    Continue,
    ScrubComplete,
    ReentryComplete,
    ReentryPositionMatched,
    ReentryMismatch,
    RetryPosition,
    RevealAgain,
    PassphraseUseEmpty,
    PassphraseOfferYes,
    PassphraseEntered,
    PassphraseConfirmMatch,
    PassphraseConfirmMismatch,
    VerificationFailed,
    VerificationAcknowledged,
    EducationAcknowledged,
    /// An internal driver invariant failed (state-machine error class).
    Fault,
}

/// What the setup screen answered.
#[derive(Debug, Clone, Copy, PartialEq, Eq, Structural)]
pub enum SetupResult {
    /// No word count was ever committed before this driver ran.
    NotCommitted,
    /// `[Enter]`: the whole setup re-committed at once.
    Committed { words24: bool, mode: EntropyMode, instrument: Instrument, extras: MachineExtras },
    /// `[Esc]`: back past setup, out of this driver.
    Back,
}

/// What the screen (or platform step) of the current state answered.
#[derive(Debug, Clone, Copy, PartialEq, Eq, Structural)]
pub enum ScreenResult {
    /// States that read nothing.
    Nothing,
    /// Whether the entropy sources were acquired.
    Acquisition { acquired: bool },
    Physical(PhysicalEntryOutcome),
    /// The generate screen: `[G]` (true) or `[Esc]` (false).
    Generate { generate: bool },
    Setup(SetupResult),
    /// Final-entropy derivation: the word count on success.
    Derivation(Option<WordCount>),
    Display(DisplayChoice),
    Destroy(DestroyDecision),
    Reentry(ReentryOutcome),
    Mismatch(MismatchChoice),
    Offer(OfferChoice),
    /// First masked entry: how it ended and whether the buffer is empty.
    Entry { outcome: EntryOutcome, empty: bool },
    /// Confirm entry: how it ended and whether both buffers match.
    Confirm { outcome: EntryOutcome, matches: bool },
    /// The verify screen: whether any derivation on it failed.
    Verification { failed: bool },
    /// The finish screen: `[M]` (true) or `[Enter]` (false).
    Finish { return_to_menu: bool },
}

/// How a run of the secret-phase driver ended, when it returns at all.
#[derive(Debug, Clone, Copy, PartialEq, Eq, Structural)]
pub enum SecretFlowOutcome {
    /// Machine acquisition failed before any secret existed.
    ExitedToFirmwareBeforeSecret,
    /// The user backed out of setup before any secret existed.
    BackBeforeSecret,
    /// The operator chose to wipe every secret and return to the menu.
    DestroyedReturnToMenu,
}

/// What the driver does after this step.
#[derive(Debug, Clone, Copy, PartialEq, Eq, Structural)]
pub enum FlowFinish {
    /// Keep driving the state machine.
    Continue,
    /// Return this outcome to the caller (after the scrubs of the step).
    Return(SecretFlowOutcome),
    /// Run the full ordered scrub, then show the non-secret return notice
    /// and return [`SecretFlowOutcome::DestroyedReturnToMenu`].
    ScrubAndReturnToMenu,
    /// Run the full ordered scrub and shut down (never returns).
    ScrubAndShutdown,
}

/// Which passphrase buffers a step scrubs.
#[derive(Debug, Clone, Copy, PartialEq, Eq, Structural)]
pub enum PassphraseScrub {
    Neither,
    /// The committed (first-entry) buffer.
    Committed,
    /// The confirm (second-entry) buffer.
    Confirm,
    Both,
}

/// What the driver carries from state to state.
#[derive(Debug, Clone, Copy, PartialEq, Eq, Structural)]
pub struct FlowContext {
    /// Set at final-entropy derivation.
    pub word_count: Option<WordCount>,
    /// The 0-based re-entry position.
    pub position: usize,
    /// Set only by an explicit menu choice; read at the clean terminal.
    pub return_to_menu: bool,
    /// The leading picker of physical entry.
    pub instrument: Instrument,
    /// The machine extras opted into.
    pub extras: MachineExtras,
}

/// One decision of the driver.
#[derive(Debug, Clone, Copy, PartialEq, Eq, Structural)]
pub struct FlowDecision {
    /// The event to fire, if any.
    pub event: Option<FlowEvent>,
    /// Scrub the physical staging buffers.
    pub scrub_staging: bool,
    /// Scrub the acquired machine sources.
    pub scrub_machine: bool,
    /// Scrub passphrase buffers.
    pub scrub_passphrase: PassphraseScrub,
    /// The context for the next state.
    pub next: FlowContext,
    /// How the run goes on.
    pub finish: FlowFinish,
}

/// The number of mnemonic words a (possibly unknown) word count stands for.
pub open spec fn spec_word_count_len(wc: Option<WordCount>) -> nat {
    match wc {
        Some(WordCount::Twelve) => 12,
        Some(WordCount::TwentyFour) => 24,
        None => 0,
    }
}

/// The number of mnemonic words: 12, 24, or 0 when none was derived.
pub fn word_count_len(word_count: Option<WordCount>) -> (r: usize)
    ensures
        r == spec_word_count_len(word_count),
{
    match word_count {
        Some(WordCount::Twelve) => 12,
        Some(WordCount::TwentyFour) => 24,
        None => 0,
    }
}

/// A decision that fires `event` and changes nothing else.
pub open spec fn spec_fire(ctx: FlowContext, event: FlowEvent) -> FlowDecision {
    FlowDecision {
        event: Some(event),
        scrub_staging: false,
        scrub_machine: false,
        scrub_passphrase: PassphraseScrub::Neither,
        next: ctx,
        finish: FlowFinish::Continue,
    }
}

/// The answer to a screen result that does not belong to the state: an
/// internal driver error, handled like an unrecognised state (a fault after
/// a secret exists, a scrubbed exit to firmware before).
pub open spec fn spec_unexpected(state: FlowState, ctx: FlowContext) -> FlowDecision {
    if spec_is_post_secret(state) {
        spec_fire(ctx, FlowEvent::Fault)
    } else {
        FlowDecision {
            event: None,
            scrub_staging: true,
            scrub_machine: true,
            scrub_passphrase: PassphraseScrub::Neither,
            next: ctx,
            finish: FlowFinish::Return(SecretFlowOutcome::ExitedToFirmwareBeforeSecret),
        }
    }
}

/// The re-entry step: on a match advance one position, completing once the
/// last word matched.
pub open spec fn spec_reentry_decision(ctx: FlowContext, outcome: ReentryOutcome) -> FlowDecision {
    match outcome {
        ReentryOutcome::Matched => {
            let pos = (ctx.position + 1) as usize;
            let ev = if pos >= spec_word_count_len(ctx.word_count) {
                FlowEvent::ReentryComplete
            } else {
                FlowEvent::ReentryPositionMatched
            };
            spec_fire(FlowContext { position: pos, ..ctx }, ev)
        },
        ReentryOutcome::Mismatch => spec_fire(ctx, FlowEvent::ReentryMismatch),
    }
}

/// The decisions before any secret exists: acquisition, physical entry, the
/// generate screen and setup.
pub open spec fn spec_decide_pre_secret(state: FlowState, ctx: FlowContext, input: ScreenResult) -> FlowDecision {
    match state {
        FlowState::MachineEntropyAcquisition => match input {
            ScreenResult::Acquisition { acquired } => spec_fire(
                ctx,
                if acquired {
                    FlowEvent::MachineEntropyComplete
                } else {
                    FlowEvent::MachineEntropyFailedExitToFirmware
                },
            ),
            _ => spec_unexpected(state, ctx),
        },
        FlowState::PhysicalCollection => match input {
            ScreenResult::Physical(PhysicalEntryOutcome::BudgetMet) => spec_fire(ctx, FlowEvent::PhysicalBudgetMet),
            ScreenResult::Physical(PhysicalEntryOutcome::Back) => FlowDecision {
                scrub_staging: true,
                ..spec_fire(ctx, FlowEvent::Back)
            },
            _ => spec_unexpected(state, ctx),
        },
        FlowState::FinalGenerationConfirmation => match input {
            ScreenResult::Generate { generate } => if generate {
                spec_fire(ctx, FlowEvent::FinalConfirm)
            } else {
                FlowDecision { scrub_staging: true, scrub_machine: true, ..spec_fire(ctx, FlowEvent::Back) }
            },
            _ => spec_unexpected(state, ctx),
        },
        FlowState::SetupSelection => match input {
            ScreenResult::Setup(SetupResult::NotCommitted) => FlowDecision {
                event: None,
                scrub_staging: true,
                scrub_machine: true,
                scrub_passphrase: PassphraseScrub::Neither,
                next: ctx,
                finish: FlowFinish::Return(SecretFlowOutcome::ExitedToFirmwareBeforeSecret),
            },
            ScreenResult::Setup(SetupResult::Committed { words24, mode, instrument, extras }) => FlowDecision {
                scrub_machine: true,
                ..spec_fire(
                    FlowContext { instrument, extras, ..ctx },
                    FlowEvent::SetupCommitted {
                        word_count: if words24 { WordCount::TwentyFour } else { WordCount::Twelve },
                        mode,
                        instrument,
                    },
                )
            },
            ScreenResult::Setup(SetupResult::Back) => FlowDecision {
                event: Some(FlowEvent::Back),
                scrub_staging: true,
                scrub_machine: true,
                scrub_passphrase: PassphraseScrub::Neither,
                next: ctx,
                finish: FlowFinish::Return(SecretFlowOutcome::BackBeforeSecret),
            },
            _ => spec_unexpected(state, ctx),
        },
        _ => spec_unexpected(state, ctx),
    }
}

/// The decisions from derivation through display, destroy and re-entry.
pub open spec fn spec_decide_mnemonic(state: FlowState, ctx: FlowContext, input: ScreenResult) -> FlowDecision {
    match state {
        FlowState::FinalEntropyDerivation => match input {
            ScreenResult::Derivation(Some(wc)) => spec_fire(
                FlowContext { word_count: Some(wc), ..ctx },
                FlowEvent::DerivationComplete,
            ),
            ScreenResult::Derivation(None) => spec_fire(ctx, FlowEvent::DerivationFailed),
            _ => spec_unexpected(state, ctx),
        },
        FlowState::MnemonicGeneration => spec_fire(ctx, FlowEvent::MnemonicReady),
        FlowState::MnemonicDisplay => match input {
            ScreenResult::Display(DisplayChoice::Hide) => spec_fire(ctx, FlowEvent::HideAndReenter),
            ScreenResult::Display(DisplayChoice::DestroyRequested) => spec_fire(ctx, FlowEvent::DestroyRequested),
            _ => spec_unexpected(state, ctx),
        },
        FlowState::DestroyConfirm => match input {
            ScreenResult::Destroy(DestroyDecision::ReturnToMenu) => spec_fire(
                FlowContext { return_to_menu: true, ..ctx },
                FlowEvent::DestroyConfirmed,
            ),
            ScreenResult::Destroy(DestroyDecision::PowerOff) => spec_fire(
                FlowContext { return_to_menu: false, ..ctx },
                FlowEvent::DestroyConfirmed,
            ),
            ScreenResult::Destroy(DestroyDecision::Cancel) => spec_fire(ctx, FlowEvent::Continue),
            _ => spec_unexpected(state, ctx),
        },
        FlowState::DisplayScrub => spec_fire(FlowContext { position: 0, ..ctx }, FlowEvent::ScrubComplete),
        FlowState::CompleteHiddenReentry => if ctx.position >= MAX_MNEMONIC_WORDS {
            spec_fire(ctx, FlowEvent::Fault)
        } else {
            match input {
                ScreenResult::Reentry(outcome) => spec_reentry_decision(ctx, outcome),
                _ => spec_unexpected(state, ctx),
            }
        },
        FlowState::ReentryMismatchChoice => match input {
            ScreenResult::Mismatch(MismatchChoice::Retry) => spec_fire(ctx, FlowEvent::RetryPosition),
            ScreenResult::Mismatch(MismatchChoice::RevealAgain) => spec_fire(ctx, FlowEvent::RevealAgain),
            ScreenResult::Mismatch(MismatchChoice::Destroy) => spec_fire(ctx, FlowEvent::DestroyRequested),
            _ => spec_unexpected(state, ctx),
        },
        _ => spec_unexpected(state, ctx),
    }
}

/// The decisions of the passphrase, verification and finish screens.
pub open spec fn spec_decide_confirmation(state: FlowState, ctx: FlowContext, input: ScreenResult) -> FlowDecision {
    match state {
        FlowState::PassphraseOffer => match input {
            ScreenResult::Offer(OfferChoice::No) => FlowDecision {
                scrub_passphrase: PassphraseScrub::Committed,
                ..spec_fire(ctx, FlowEvent::PassphraseUseEmpty)
            },
            ScreenResult::Offer(OfferChoice::Yes) => spec_fire(ctx, FlowEvent::PassphraseOfferYes),
            _ => spec_unexpected(state, ctx),
        },
        FlowState::PassphraseEntry => match input {
            ScreenResult::Entry { outcome, empty } => if outcome == EntryOutcome::Committed && !empty {
                spec_fire(ctx, FlowEvent::PassphraseEntered)
            } else {
                spec_fire(ctx, FlowEvent::PassphraseUseEmpty)
            },
            _ => spec_unexpected(state, ctx),
        },
        FlowState::PassphraseConfirm => match input {
            ScreenResult::Confirm { outcome, matches } => if outcome == EntryOutcome::Committed && matches {
                FlowDecision {
                    scrub_passphrase: PassphraseScrub::Confirm,
                    ..spec_fire(ctx, FlowEvent::PassphraseConfirmMatch)
                }
            } else {
                FlowDecision {
                    scrub_passphrase: PassphraseScrub::Both,
                    ..spec_fire(ctx, FlowEvent::PassphraseConfirmMismatch)
                }
            },
            _ => spec_unexpected(state, ctx),
        },
        FlowState::DerivationVerificationDisplay => if ctx.word_count is None {
            spec_fire(ctx, FlowEvent::Fault)
        } else {
            match input {
                ScreenResult::Verification { failed } => spec_fire(
                    ctx,
                    if failed {
                        FlowEvent::VerificationFailed
                    } else {
                        FlowEvent::VerificationAcknowledged
                    },
                ),
                _ => spec_unexpected(state, ctx),
            }
        },
        FlowState::CompletionEducation => match input {
            ScreenResult::Finish { return_to_menu } => spec_fire(
                FlowContext { return_to_menu, ..ctx },
                FlowEvent::EducationAcknowledged,
            ),
            _ => spec_unexpected(state, ctx),
        },
        _ => spec_unexpected(state, ctx),
    }
}

/// The decisions of the terminal states and of unrecognised states.
pub open spec fn spec_decide_terminal(state: FlowState, ctx: FlowContext, input: ScreenResult) -> FlowDecision {
    match state {
        FlowState::SecretArenaScrub | FlowState::FramebufferScrub | FlowState::Shutdown => FlowDecision {
            event: None,
            scrub_staging: ctx.return_to_menu,
            scrub_machine: ctx.return_to_menu,
            scrub_passphrase: PassphraseScrub::Neither,
            next: ctx,
            finish: if ctx.return_to_menu {
                FlowFinish::ScrubAndReturnToMenu
            } else {
                FlowFinish::ScrubAndShutdown
            },
        },
        FlowState::ShutdownFailedHalt | FlowState::ScrubWhatIsReachable | FlowState::BlankDisplay
        | FlowState::ShutdownOrHalt => FlowDecision {
            event: None,
            scrub_staging: false,
            scrub_machine: false,
            scrub_passphrase: PassphraseScrub::Neither,
            next: ctx,
            finish: FlowFinish::ScrubAndShutdown,
        },
        FlowState::ExitToFirmware => FlowDecision {
            event: None,
            scrub_staging: true,
            scrub_machine: true,
            scrub_passphrase: PassphraseScrub::Neither,
            next: ctx,
            finish: FlowFinish::Return(SecretFlowOutcome::ExitedToFirmwareBeforeSecret),
        },
        FlowState::OtherPreSecret | FlowState::OtherPostSecret => spec_unexpected(state, ctx),
        _ => spec_unexpected(state, ctx),
    }
}

/// The driver's decision for `state`, carrying `ctx`, given what the state's
/// screen answered.
pub open spec fn spec_decide(state: FlowState, ctx: FlowContext, input: ScreenResult) -> FlowDecision {
    match state {
        FlowState::MachineEntropyAcquisition | FlowState::PhysicalCollection
        | FlowState::FinalGenerationConfirmation | FlowState::SetupSelection => spec_decide_pre_secret(
            state,
            ctx,
            input,
        ),
        FlowState::FinalEntropyDerivation | FlowState::MnemonicGeneration | FlowState::MnemonicDisplay
        | FlowState::DestroyConfirm | FlowState::DisplayScrub | FlowState::CompleteHiddenReentry
        | FlowState::ReentryMismatchChoice => spec_decide_mnemonic(state, ctx, input),
        FlowState::PassphraseOffer | FlowState::PassphraseEntry | FlowState::PassphraseConfirm
        | FlowState::DerivationVerificationDisplay | FlowState::CompletionEducation => spec_decide_confirmation(
            state,
            ctx,
            input,
        ),
        _ => spec_decide_terminal(state, ctx, input),
    }
}

/// A decision that fires `event` and changes nothing else.
fn fire(ctx: FlowContext, event: FlowEvent) -> (r: FlowDecision)
    ensures
        r == spec_fire(ctx, event),
{
    FlowDecision {
        event: Some(event),
        scrub_staging: false,
        scrub_machine: false,
        scrub_passphrase: PassphraseScrub::Neither,
        next: ctx,
        finish: FlowFinish::Continue,
    }
}

fn unexpected(state: FlowState, ctx: FlowContext) -> (r: FlowDecision)
    ensures
        r == spec_unexpected(state, ctx),
{
    if state.is_post_secret() {
        fire(ctx, FlowEvent::Fault)
    } else {
        FlowDecision {
            event: None,
            scrub_staging: true,
            scrub_machine: true,
            scrub_passphrase: PassphraseScrub::Neither,
            next: ctx,
            finish: FlowFinish::Return(SecretFlowOutcome::ExitedToFirmwareBeforeSecret),
        }
    }
}

fn decide_pre_secret(state: FlowState, ctx: FlowContext, input: ScreenResult) -> (r: FlowDecision)
    ensures
        r == spec_decide_pre_secret(state, ctx, input),
{
    match state {
        FlowState::MachineEntropyAcquisition => match input {
            ScreenResult::Acquisition { acquired } => fire(
                ctx,
                if acquired {
                    FlowEvent::MachineEntropyComplete
                } else {
                    FlowEvent::MachineEntropyFailedExitToFirmware
                },
            ),
            _ => unexpected(state, ctx),
        },
        FlowState::PhysicalCollection => match input {
            ScreenResult::Physical(PhysicalEntryOutcome::BudgetMet) => fire(ctx, FlowEvent::PhysicalBudgetMet),
            ScreenResult::Physical(PhysicalEntryOutcome::Back) => {
                let mut d = fire(ctx, FlowEvent::Back);
                d.scrub_staging = true;
                d
            },
            _ => unexpected(state, ctx),
        },
        FlowState::FinalGenerationConfirmation => match input {
            ScreenResult::Generate { generate } => if generate {
                fire(ctx, FlowEvent::FinalConfirm)
            } else {
                let mut d = fire(ctx, FlowEvent::Back);
                d.scrub_staging = true;
                d.scrub_machine = true;
                d
            },
            _ => unexpected(state, ctx),
        },
        FlowState::SetupSelection => match input {
            ScreenResult::Setup(SetupResult::NotCommitted) => FlowDecision {
                event: None,
                scrub_staging: true,
                scrub_machine: true,
                scrub_passphrase: PassphraseScrub::Neither,
                next: ctx,
                finish: FlowFinish::Return(SecretFlowOutcome::ExitedToFirmwareBeforeSecret),
            },
            ScreenResult::Setup(SetupResult::Committed { words24, mode, instrument, extras }) => {
                let word_count = if words24 { WordCount::TwentyFour } else { WordCount::Twelve };
                let next = FlowContext { instrument, extras, ..ctx };
                let mut d = fire(next, FlowEvent::SetupCommitted { word_count, mode, instrument });
                d.scrub_machine = true;
                d
            },
            ScreenResult::Setup(SetupResult::Back) => FlowDecision {
                event: Some(FlowEvent::Back),
                scrub_staging: true,
                scrub_machine: true,
                scrub_passphrase: PassphraseScrub::Neither,
                next: ctx,
                finish: FlowFinish::Return(SecretFlowOutcome::BackBeforeSecret),
            },
            _ => unexpected(state, ctx),
        },
        _ => unexpected(state, ctx),
    }
}

fn decide_mnemonic(state: FlowState, ctx: FlowContext, input: ScreenResult) -> (r: FlowDecision)
    ensures
        r == spec_decide_mnemonic(state, ctx, input),
{
    match state {
        FlowState::FinalEntropyDerivation => match input {
            ScreenResult::Derivation(Some(wc)) => fire(
                FlowContext { word_count: Some(wc), ..ctx },
                FlowEvent::DerivationComplete,
            ),
            ScreenResult::Derivation(None) => fire(ctx, FlowEvent::DerivationFailed),
            _ => unexpected(state, ctx),
        },
        FlowState::MnemonicGeneration => fire(ctx, FlowEvent::MnemonicReady),
        FlowState::MnemonicDisplay => match input {
            ScreenResult::Display(DisplayChoice::Hide) => fire(ctx, FlowEvent::HideAndReenter),
            ScreenResult::Display(DisplayChoice::DestroyRequested) => fire(ctx, FlowEvent::DestroyRequested),
            _ => unexpected(state, ctx),
        },
        FlowState::DestroyConfirm => match input {
            ScreenResult::Destroy(DestroyDecision::ReturnToMenu) => fire(
                FlowContext { return_to_menu: true, ..ctx },
                FlowEvent::DestroyConfirmed,
            ),
            ScreenResult::Destroy(DestroyDecision::PowerOff) => fire(
                FlowContext { return_to_menu: false, ..ctx },
                FlowEvent::DestroyConfirmed,
            ),
            ScreenResult::Destroy(DestroyDecision::Cancel) => fire(ctx, FlowEvent::Continue),
            _ => unexpected(state, ctx),
        },
        FlowState::DisplayScrub => fire(FlowContext { position: 0, ..ctx }, FlowEvent::ScrubComplete),
        FlowState::CompleteHiddenReentry => if ctx.position >= MAX_MNEMONIC_WORDS {
            fire(ctx, FlowEvent::Fault)
        } else {
            match input {
                ScreenResult::Reentry(ReentryOutcome::Matched) => {
                    let pos = ctx.position + 1;
                    let count = word_count_len(ctx.word_count);
                    let ev = if pos >= count {
                        FlowEvent::ReentryComplete
                    } else {
                        FlowEvent::ReentryPositionMatched
                    };
                    fire(FlowContext { position: pos, ..ctx }, ev)
                },
                ScreenResult::Reentry(ReentryOutcome::Mismatch) => fire(ctx, FlowEvent::ReentryMismatch),
                _ => unexpected(state, ctx),
            }
        },
        FlowState::ReentryMismatchChoice => match input {
            ScreenResult::Mismatch(MismatchChoice::Retry) => fire(ctx, FlowEvent::RetryPosition),
            ScreenResult::Mismatch(MismatchChoice::RevealAgain) => fire(ctx, FlowEvent::RevealAgain),
            ScreenResult::Mismatch(MismatchChoice::Destroy) => fire(ctx, FlowEvent::DestroyRequested),
            _ => unexpected(state, ctx),
        },
        _ => unexpected(state, ctx),
    }
}

fn decide_confirmation(state: FlowState, ctx: FlowContext, input: ScreenResult) -> (r: FlowDecision)
    ensures
        r == spec_decide_confirmation(state, ctx, input),
{
    match state {
        FlowState::PassphraseOffer => match input {
            ScreenResult::Offer(OfferChoice::No) => {
                let mut d = fire(ctx, FlowEvent::PassphraseUseEmpty);
                d.scrub_passphrase = PassphraseScrub::Committed;
                d
            },
            ScreenResult::Offer(OfferChoice::Yes) => fire(ctx, FlowEvent::PassphraseOfferYes),
            _ => unexpected(state, ctx),
        },
        FlowState::PassphraseEntry => match input {
            ScreenResult::Entry { outcome, empty } => match outcome {
                EntryOutcome::Committed if !empty => fire(ctx, FlowEvent::PassphraseEntered),
                _ => fire(ctx, FlowEvent::PassphraseUseEmpty),
            },
            _ => unexpected(state, ctx),
        },
        FlowState::PassphraseConfirm => match input {
            ScreenResult::Confirm { outcome, matches } => match outcome {
                EntryOutcome::Committed if matches => {
                    let mut d = fire(ctx, FlowEvent::PassphraseConfirmMatch);
                    d.scrub_passphrase = PassphraseScrub::Confirm;
                    d
                },
                _ => {
                    let mut d = fire(ctx, FlowEvent::PassphraseConfirmMismatch);
                    d.scrub_passphrase = PassphraseScrub::Both;
                    d
                },
            },
            _ => unexpected(state, ctx),
        },
        FlowState::DerivationVerificationDisplay => match ctx.word_count {
            None => fire(ctx, FlowEvent::Fault),
            Some(_) => match input {
                ScreenResult::Verification { failed } => fire(
                    ctx,
                    if failed {
                        FlowEvent::VerificationFailed
                    } else {
                        FlowEvent::VerificationAcknowledged
                    },
                ),
                _ => unexpected(state, ctx),
            },
        },
        FlowState::CompletionEducation => match input {
            ScreenResult::Finish { return_to_menu } => fire(
                FlowContext { return_to_menu, ..ctx },
                FlowEvent::EducationAcknowledged,
            ),
            _ => unexpected(state, ctx),
        },
        _ => unexpected(state, ctx),
    }
}

fn decide_terminal(state: FlowState, ctx: FlowContext, input: ScreenResult) -> (r: FlowDecision)
    ensures
        r == spec_decide_terminal(state, ctx, input),
{
    match state {
        FlowState::SecretArenaScrub | FlowState::FramebufferScrub | FlowState::Shutdown => FlowDecision {
            event: None,
            scrub_staging: ctx.return_to_menu,
            scrub_machine: ctx.return_to_menu,
            scrub_passphrase: PassphraseScrub::Neither,
            next: ctx,
            finish: if ctx.return_to_menu {
                FlowFinish::ScrubAndReturnToMenu
            } else {
                FlowFinish::ScrubAndShutdown
            },
        },
        FlowState::ShutdownFailedHalt | FlowState::ScrubWhatIsReachable | FlowState::BlankDisplay
        | FlowState::ShutdownOrHalt => FlowDecision {
            event: None,
            scrub_staging: false,
            scrub_machine: false,
            scrub_passphrase: PassphraseScrub::Neither,
            next: ctx,
            finish: FlowFinish::ScrubAndShutdown,
        },
        FlowState::ExitToFirmware => FlowDecision {
            event: None,
            scrub_staging: true,
            scrub_machine: true,
            scrub_passphrase: PassphraseScrub::Neither,
            next: ctx,
            finish: FlowFinish::Return(SecretFlowOutcome::ExitedToFirmwareBeforeSecret),
        },
        FlowState::OtherPreSecret | FlowState::OtherPostSecret => unexpected(state, ctx),
        _ => unexpected(state, ctx),
    }
}

/// Decide what the driver does in `state`, carrying `ctx`, once the state's
/// screen answered `input`: which event to fire, what to scrub, what to
/// carry on, and whether the run goes on, returns or shuts down.
pub fn decide(state: FlowState, ctx: FlowContext, input: ScreenResult) -> (r: FlowDecision)
    ensures
        r == spec_decide(state, ctx, input),
{
    match state {
        FlowState::MachineEntropyAcquisition | FlowState::PhysicalCollection
        | FlowState::FinalGenerationConfirmation | FlowState::SetupSelection => decide_pre_secret(
            state,
            ctx,
            input,
        ),
        FlowState::FinalEntropyDerivation | FlowState::MnemonicGeneration | FlowState::MnemonicDisplay
        | FlowState::DestroyConfirm | FlowState::DisplayScrub | FlowState::CompleteHiddenReentry
        | FlowState::ReentryMismatchChoice => decide_mnemonic(state, ctx, input),
        FlowState::PassphraseOffer | FlowState::PassphraseEntry | FlowState::PassphraseConfirm
        | FlowState::DerivationVerificationDisplay | FlowState::CompletionEducation => decide_confirmation(
            state,
            ctx,
            input,
        ),
        _ => decide_terminal(state, ctx, input),
    }
}

/// Before the first step: the driver runs only once the firmware watchdog
/// is confirmed disabled; otherwise it leaves before any secret exists,
/// exiting to firmware.
pub open spec fn spec_watchdog_gate(disabled: bool) -> Option<SecretFlowOutcome> {
    if disabled {
        None
    } else {
        Some(SecretFlowOutcome::ExitedToFirmwareBeforeSecret)
    }
}

/// The early exit when the watchdog could not be disabled: `None` to run
/// the ceremony, or the outcome to return at once.
pub fn watchdog_gate(disabled: bool) -> (r: Option<SecretFlowOutcome>)
    ensures
        r == spec_watchdog_gate(disabled),
{
    if disabled {
        None
    } else {
        Some(SecretFlowOutcome::ExitedToFirmwareBeforeSecret)
    }
}

/// After the machine-acquisition transition: the machine landed on the
/// generate screen (machine-only mode, nothing physical follows), but what
/// was acquired is not itself sole-source approved. Then the machine
/// sources are scrubbed and the acquisition is failed closed, exiting to
/// firmware.
pub open spec fn spec_machine_only_follow_up(landed_on_generate: bool, sole_source_approved: bool) -> Option<
    FlowEvent,
> {
    if landed_on_generate && !sole_source_approved {
        Some(FlowEvent::MachineEntropyFailedExitToFirmware)
    } else {
        None
    }
}

/// The event (fired after scrubbing the machine sources) that fails a
/// machine-only acquisition closed when what was acquired is not
/// sole-source approved; `None` when the ceremony goes on.
pub fn machine_only_follow_up(landed_on_generate: bool, sole_source_approved: bool) -> (r: Option<FlowEvent>)
    ensures
        r == spec_machine_only_follow_up(landed_on_generate, sole_source_approved),
{
    if landed_on_generate && !sole_source_approved {
        Some(FlowEvent::MachineEntropyFailedExitToFirmware)
    } else {
        None
    }
}

/// Why a derivation could not produce its result.
#[derive(Debug, Clone, Copy, PartialEq, Eq, Structural)]
pub enum DeriveError {
    /// The artifact does not fit its fixed buffer (a size refusal).
    BufferTooSmall,
    InvalidChildKey,
    InvalidIndex,
    PointAtInfinity,
}

/// How the export branch ended.
#[derive(Debug, Clone, Copy, PartialEq, Eq, Structural)]
pub enum ExportBranchOutcome {
    /// The user left the branch normally; back to the verify screen.
    Returned,
    /// A real derivation failure: the fatal chain follows.
    DeriveFailed,
}

/// The in-place refusal drawn when an export cannot be shown at its size.
pub const EXPORT_REFUSED_LINE: &'static str =
    "This export cannot be shown correctly at this size - choose another type with [1]-[5].";

/// The disposition of an export failure.
pub open spec fn spec_export_error_disposition(e: DeriveError) -> ExportBranchOutcome {
    match e {
        DeriveError::BufferTooSmall => ExportBranchOutcome::Returned,
        _ => ExportBranchOutcome::DeriveFailed,
    }
}

/// A size refusal stays on the export screen (the user picks another
/// type); every other derivation error is a cryptographic failure that
/// leaves for the fatal chain.
pub fn export_error_disposition(e: DeriveError) -> (r: ExportBranchOutcome)
    ensures
        r == spec_export_error_disposition(e),
        (r == ExportBranchOutcome::Returned) == (e == DeriveError::BufferTooSmall),
{
    match e {
        DeriveError::BufferTooSmall => ExportBranchOutcome::Returned,
        DeriveError::InvalidChildKey | DeriveError::InvalidIndex | DeriveError::PointAtInfinity => {
            ExportBranchOutcome::DeriveFailed
        },
    }
}

/// A menu return is only ever set by an explicit operator choice: `[M]` at
/// the destroy confirmation or `[M]` on the finish screen. No other state
/// or answer turns it on.
pub proof fn lemma_menu_return_only_by_explicit_choice(state: FlowState, ctx: FlowContext, input: ScreenResult)
    ensures
        spec_decide(state, ctx, input).next.return_to_menu && !ctx.return_to_menu ==> (state
            == FlowState::DestroyConfirm && input == ScreenResult::Destroy(DestroyDecision::ReturnToMenu)) || (
        state == FlowState::CompletionEducation && input == ScreenResult::Finish { return_to_menu: true }),
{
}

/// The fatal chain and the shutdown-failure halt always scrub and power
/// off, whatever the operator chose earlier.
pub proof fn lemma_fatal_chain_always_powers_off(state: FlowState, ctx: FlowContext, input: ScreenResult)
    requires
        spec_is_fatal_terminal(state),
    ensures
        spec_decide(state, ctx, input).finish == FlowFinish::ScrubAndShutdown,
{
}

/// The menu return is honoured exactly at the clean scrub terminal when the
/// operator chose it; the clean terminal otherwise powers off.
pub proof fn lemma_menu_return_only_at_clean_terminal(state: FlowState, ctx: FlowContext, input: ScreenResult)
    ensures
        (spec_decide(state, ctx, input).finish == FlowFinish::ScrubAndReturnToMenu) == (spec_is_clean_terminal(
            state,
        ) && ctx.return_to_menu),
        spec_is_clean_terminal(state) && !ctx.return_to_menu ==> spec_decide(state, ctx, input).finish
            == FlowFinish::ScrubAndShutdown,
{
}

/// Once a secret may exist, the run never ends as if none did: no
/// post-secret state returns to the caller directly.
pub proof fn lemma_post_secret_never_returns_early(state: FlowState, ctx: FlowContext, input: ScreenResult)
    requires
        spec_is_post_secret(state),
    ensures
        !(spec_decide(state, ctx, input).finish is Return),
{
}

/// Every direct return happens before any secret exists and scrubs both the
/// physical staging and the machine sources first.
pub proof fn lemma_early_return_scrubs_everything(state: FlowState, ctx: FlowContext, input: ScreenResult)
    ensures
        spec_decide(state, ctx, input).finish is Return ==> !spec_is_post_secret(state) && spec_decide(
            state,
            ctx,
            input,
        ).scrub_staging && spec_decide(state, ctx, input).scrub_machine,
{
}

/// The re-entry position moves only one word forward on a match, or back to
/// the first word when the display is scrubbed for another reveal.
pub proof fn lemma_reentry_position_moves_only_on_match_or_rescrub(
    state: FlowState,
    ctx: FlowContext,
    input: ScreenResult,
)
    ensures
        spec_decide(state, ctx, input).next.position != ctx.position ==> (state
            == FlowState::CompleteHiddenReentry && input == ScreenResult::Reentry(ReentryOutcome::Matched)
            && spec_decide(state, ctx, input).next.position == ctx.position + 1) || (state
            == FlowState::DisplayScrub && spec_decide(state, ctx, input).next.position == 0),
{
}

/// Re-entry completes exactly when the last word of the derived mnemonic
/// matched.
pub proof fn lemma_reentry_completes_at_last_word(ctx: FlowContext)
    requires
        ctx.position < MAX_MNEMONIC_WORDS,
    ensures
        (spec_decide(FlowState::CompleteHiddenReentry, ctx, ScreenResult::Reentry(ReentryOutcome::Matched)).event
            == Some(FlowEvent::ReentryComplete)) == (ctx.position + 1 >= spec_word_count_len(ctx.word_count)),
{
}

/// Going back before a secret exists always discards what was staged: every
/// `Back` the driver fires scrubs the physical staging, and every `Back`
/// past the generate screen or out of setup scrubs the machine sources too.
pub proof fn lemma_back_discards_staged(state: FlowState, ctx: FlowContext, input: ScreenResult)
    ensures
        spec_decide(state, ctx, input).event == Some(FlowEvent::Back) ==> spec_decide(state, ctx, input).scrub_staging,
        spec_decide(state, ctx, input).event == Some(FlowEvent::Back) && state != FlowState::PhysicalCollection
            ==> spec_decide(state, ctx, input).scrub_machine,
{
}

/// A setup commit always starts from a clean machine-source set, so a
/// re-chosen mode never inherits records acquired under an earlier one.
pub proof fn lemma_setup_commit_starts_clean(
    ctx: FlowContext,
    words24: bool,
    mode: EntropyMode,
    instrument: Instrument,
    extras: MachineExtras,
)
    ensures
        spec_decide(
            FlowState::SetupSelection,
            ctx,
            ScreenResult::Setup(SetupResult::Committed { words24, mode, instrument, extras }),
        ).scrub_machine,
{
}

/// The confirmation entry lets the passphrase through only when it was
/// committed and matches the first entry: then the confirm buffer alone is
/// scrubbed and the passphrase is kept. Any other answer (a confirmation
/// that differs, or Escape) fires the mismatch event and scrubs both
/// buffers, so a mistyped passphrase is never used.
pub proof fn lemma_confirm_accepts_only_a_matching_commit(ctx: FlowContext, outcome: EntryOutcome, matches: bool)
    ensures
        ({
            let d = spec_decide(FlowState::PassphraseConfirm, ctx, ScreenResult::Confirm { outcome, matches });
            &&& (d.event == Some(FlowEvent::PassphraseConfirmMatch)) == (outcome == EntryOutcome::Committed
                && matches)
            &&& outcome == EntryOutcome::Committed && matches ==> d.scrub_passphrase == PassphraseScrub::Confirm
            &&& !(outcome == EntryOutcome::Committed && matches) ==> d.event == Some(
                FlowEvent::PassphraseConfirmMismatch,
            ) && d.scrub_passphrase == PassphraseScrub::Both
            &&& d.finish == FlowFinish::Continue
        }),
{
}

} // verus!
