use seed_flow::composition::EntropyMode;
use seed_flow::contracts::WordCount;
use seed_flow::display::{DestroyDecision, DisplayChoice};
use seed_flow::driver::{
    decide, export_error_disposition, watchdog_gate, machine_only_follow_up, word_count_len, DeriveError, ExportBranchOutcome,
    FlowContext, FlowEvent, FlowFinish, FlowState, PassphraseScrub, ScreenResult, SecretFlowOutcome, SetupResult,
    EXPORT_REFUSED_LINE,
};
use seed_flow::machine::MachineExtras;
use seed_flow::passphrase::{EntryOutcome, OfferChoice};
use seed_flow::physical::{Instrument, PhysicalEntryOutcome};
use seed_flow::reentry::{MismatchChoice, ReentryOutcome};

fn ctx() -> FlowContext {
    FlowContext {
        word_count: None,
        position: 0,
        return_to_menu: false,
        instrument: Instrument::Dice,
        extras: MachineExtras::none(),
    }
}

fn ctx12() -> FlowContext {
    FlowContext { word_count: Some(WordCount::Twelve), ..ctx() }
}

const POST_SECRET: [FlowState; 20] = [
    FlowState::FinalEntropyDerivation,
    FlowState::MnemonicGeneration,
    FlowState::MnemonicDisplay,
    FlowState::DestroyConfirm,
    FlowState::DisplayScrub,
    FlowState::CompleteHiddenReentry,
    FlowState::ReentryMismatchChoice,
    FlowState::PassphraseOffer,
    FlowState::PassphraseEntry,
    FlowState::PassphraseConfirm,
    FlowState::DerivationVerificationDisplay,
    FlowState::CompletionEducation,
    FlowState::SecretArenaScrub,
    FlowState::FramebufferScrub,
    FlowState::Shutdown,
    FlowState::ShutdownFailedHalt,
    FlowState::ScrubWhatIsReachable,
    FlowState::BlankDisplay,
    FlowState::ShutdownOrHalt,
    FlowState::OtherPostSecret,
];

#[test]
fn word_count_lengths() {
    assert_eq!(word_count_len(Some(WordCount::Twelve)), 12);
    assert_eq!(word_count_len(Some(WordCount::TwentyFour)), 24);
    assert_eq!(word_count_len(None), 0);
}

#[test]
fn machine_acquisition_failure_exits_to_firmware_before_any_secret() {
    let d = decide(FlowState::MachineEntropyAcquisition, ctx(), ScreenResult::Acquisition { acquired: false });
    assert_eq!(d.event, Some(FlowEvent::MachineEntropyFailedExitToFirmware));
    let ok = decide(FlowState::MachineEntropyAcquisition, ctx(), ScreenResult::Acquisition { acquired: true });
    assert_eq!(ok.event, Some(FlowEvent::MachineEntropyComplete));
    let exit = decide(FlowState::ExitToFirmware, ctx(), ScreenResult::Nothing);
    assert_eq!(exit.finish, FlowFinish::Return(SecretFlowOutcome::ExitedToFirmwareBeforeSecret));
    assert!(exit.scrub_staging && exit.scrub_machine);
}

#[test]
fn machine_only_without_a_sole_source_fails_closed() {
    assert_eq!(machine_only_follow_up(true, false), Some(FlowEvent::MachineEntropyFailedExitToFirmware));
    assert_eq!(machine_only_follow_up(true, true), None);
    assert_eq!(machine_only_follow_up(false, false), None);
}

#[test]
fn back_from_physical_collection_discards_the_rolls() {
    let d = decide(FlowState::PhysicalCollection, ctx(), ScreenResult::Physical(PhysicalEntryOutcome::Back));
    assert_eq!(d.event, Some(FlowEvent::Back));
    assert!(d.scrub_staging);
    let met = decide(FlowState::PhysicalCollection, ctx(), ScreenResult::Physical(PhysicalEntryOutcome::BudgetMet));
    assert_eq!(met.event, Some(FlowEvent::PhysicalBudgetMet));
    assert!(!met.scrub_staging);
}

#[test]
fn generate_screen_arms_only_on_generate_and_back_scrubs_everything() {
    let g = decide(FlowState::FinalGenerationConfirmation, ctx(), ScreenResult::Generate { generate: true });
    assert_eq!(g.event, Some(FlowEvent::FinalConfirm));
    let b = decide(FlowState::FinalGenerationConfirmation, ctx(), ScreenResult::Generate { generate: false });
    assert_eq!(b.event, Some(FlowEvent::Back));
    assert!(b.scrub_staging && b.scrub_machine);
}

#[test]
fn setup_recommit_clears_stale_machine_sources_and_back_leaves_the_driver() {
    let extras = MachineExtras { tpm: true, usb_trng: false };
    let d = decide(
        FlowState::SetupSelection,
        ctx(),
        ScreenResult::Setup(SetupResult::Committed {
            words24: true,
            mode: EntropyMode::DiceOnly,
            instrument: Instrument::Coins,
            extras,
        }),
    );
    assert_eq!(
        d.event,
        Some(FlowEvent::SetupCommitted {
            word_count: WordCount::TwentyFour,
            mode: EntropyMode::DiceOnly,
            instrument: Instrument::Coins,
        })
    );
    assert!(d.scrub_machine);
    assert_eq!(d.next.instrument, Instrument::Coins);
    assert_eq!(d.next.extras, extras);
    let back = decide(FlowState::SetupSelection, ctx(), ScreenResult::Setup(SetupResult::Back));
    assert_eq!(back.event, Some(FlowEvent::Back));
    assert_eq!(back.finish, FlowFinish::Return(SecretFlowOutcome::BackBeforeSecret));
    let none = decide(FlowState::SetupSelection, ctx(), ScreenResult::Setup(SetupResult::NotCommitted));
    assert_eq!(none.event, None);
    assert_eq!(none.finish, FlowFinish::Return(SecretFlowOutcome::ExitedToFirmwareBeforeSecret));
}

#[test]
fn derivation_records_the_word_count_or_fails_fatally() {
    let d = decide(FlowState::FinalEntropyDerivation, ctx(), ScreenResult::Derivation(Some(WordCount::Twelve)));
    assert_eq!(d.event, Some(FlowEvent::DerivationComplete));
    assert_eq!(d.next.word_count, Some(WordCount::Twelve));
    let f = decide(FlowState::FinalEntropyDerivation, ctx(), ScreenResult::Derivation(None));
    assert_eq!(f.event, Some(FlowEvent::DerivationFailed));
    assert_eq!(f.finish, FlowFinish::Continue);
}

#[test]
fn destroy_choices_set_the_terminal_action() {
    let m = decide(FlowState::DestroyConfirm, ctx12(), ScreenResult::Destroy(DestroyDecision::ReturnToMenu));
    assert_eq!(m.event, Some(FlowEvent::DestroyConfirmed));
    assert!(m.next.return_to_menu);
    let p = decide(FlowState::DestroyConfirm, m.next, ScreenResult::Destroy(DestroyDecision::PowerOff));
    assert!(!p.next.return_to_menu);
    let c = decide(FlowState::DestroyConfirm, ctx12(), ScreenResult::Destroy(DestroyDecision::Cancel));
    assert_eq!(c.event, Some(FlowEvent::Continue));
    let shown = decide(FlowState::MnemonicDisplay, ctx12(), ScreenResult::Display(DisplayChoice::Hide));
    assert_eq!(shown.event, Some(FlowEvent::HideAndReenter));
}

#[test]
fn clean_terminal_honours_the_menu_choice_and_fatal_chain_never_does() {
    let menu = FlowContext { return_to_menu: true, ..ctx12() };
    let clean = decide(FlowState::SecretArenaScrub, menu, ScreenResult::Nothing);
    assert_eq!(clean.finish, FlowFinish::ScrubAndReturnToMenu);
    assert!(clean.scrub_staging && clean.scrub_machine);
    let off = decide(FlowState::Shutdown, ctx12(), ScreenResult::Nothing);
    assert_eq!(off.finish, FlowFinish::ScrubAndShutdown);
    for s in [
        FlowState::ShutdownFailedHalt,
        FlowState::ScrubWhatIsReachable,
        FlowState::BlankDisplay,
        FlowState::ShutdownOrHalt,
    ] {
        assert_eq!(decide(s, menu, ScreenResult::Nothing).finish, FlowFinish::ScrubAndShutdown);
    }
}

#[test]
fn reentry_advances_completes_and_resets_on_reveal() {
    let mut c = ctx12();
    for i in 0..11 {
        let d = decide(FlowState::CompleteHiddenReentry, c, ScreenResult::Reentry(ReentryOutcome::Matched));
        assert_eq!(d.event, Some(FlowEvent::ReentryPositionMatched));
        assert_eq!(d.next.position, i + 1);
        c = d.next;
    }
    let done = decide(FlowState::CompleteHiddenReentry, c, ScreenResult::Reentry(ReentryOutcome::Matched));
    assert_eq!(done.event, Some(FlowEvent::ReentryComplete));
    let miss = decide(FlowState::CompleteHiddenReentry, c, ScreenResult::Reentry(ReentryOutcome::Mismatch));
    assert_eq!(miss.event, Some(FlowEvent::ReentryMismatch));
    assert_eq!(miss.next.position, c.position);
    let reveal = decide(FlowState::ReentryMismatchChoice, c, ScreenResult::Mismatch(MismatchChoice::RevealAgain));
    assert_eq!(reveal.event, Some(FlowEvent::RevealAgain));
    let scrub = decide(FlowState::DisplayScrub, c, ScreenResult::Nothing);
    assert_eq!(scrub.event, Some(FlowEvent::ScrubComplete));
    assert_eq!(scrub.next.position, 0);
}

#[test]
fn reentry_out_of_range_position_is_a_fault_not_a_panic() {
    let c = FlowContext { position: 24, ..ctx12() };
    let d = decide(FlowState::CompleteHiddenReentry, c, ScreenResult::Reentry(ReentryOutcome::Matched));
    assert_eq!(d.event, Some(FlowEvent::Fault));
}

#[test]
fn passphrase_branches_scrub_the_right_buffers() {
    let no = decide(FlowState::PassphraseOffer, ctx12(), ScreenResult::Offer(OfferChoice::No));
    assert_eq!(no.event, Some(FlowEvent::PassphraseUseEmpty));
    assert_eq!(no.scrub_passphrase, PassphraseScrub::Committed);
    let yes = decide(FlowState::PassphraseOffer, ctx12(), ScreenResult::Offer(OfferChoice::Yes));
    assert_eq!(yes.event, Some(FlowEvent::PassphraseOfferYes));
    let empty = decide(
        FlowState::PassphraseEntry,
        ctx12(),
        ScreenResult::Entry { outcome: EntryOutcome::Committed, empty: true },
    );
    assert_eq!(empty.event, Some(FlowEvent::PassphraseUseEmpty));
    let entered = decide(
        FlowState::PassphraseEntry,
        ctx12(),
        ScreenResult::Entry { outcome: EntryOutcome::Committed, empty: false },
    );
    assert_eq!(entered.event, Some(FlowEvent::PassphraseEntered));
    let matched = decide(
        FlowState::PassphraseConfirm,
        ctx12(),
        ScreenResult::Confirm { outcome: EntryOutcome::Committed, matches: true },
    );
    assert_eq!(matched.event, Some(FlowEvent::PassphraseConfirmMatch));
    assert_eq!(matched.scrub_passphrase, PassphraseScrub::Confirm);
    let cancelled = decide(
        FlowState::PassphraseConfirm,
        ctx12(),
        ScreenResult::Confirm { outcome: EntryOutcome::Cancelled, matches: true },
    );
    assert_eq!(cancelled.event, Some(FlowEvent::PassphraseConfirmMismatch));
    assert_eq!(cancelled.scrub_passphrase, PassphraseScrub::Both);
}

#[test]
fn verification_without_a_word_count_is_a_fault() {
    let d = decide(FlowState::DerivationVerificationDisplay, ctx(), ScreenResult::Verification { failed: false });
    assert_eq!(d.event, Some(FlowEvent::Fault));
    let failed = decide(FlowState::DerivationVerificationDisplay, ctx12(), ScreenResult::Verification { failed: true });
    assert_eq!(failed.event, Some(FlowEvent::VerificationFailed));
    let ok = decide(FlowState::DerivationVerificationDisplay, ctx12(), ScreenResult::Verification { failed: false });
    assert_eq!(ok.event, Some(FlowEvent::VerificationAcknowledged));
}

#[test]
fn finish_screen_choice_is_carried_to_the_terminal() {
    let d = decide(FlowState::CompletionEducation, ctx12(), ScreenResult::Finish { return_to_menu: true });
    assert_eq!(d.event, Some(FlowEvent::EducationAcknowledged));
    assert!(d.next.return_to_menu);
}

#[test]
fn post_secret_states_never_return_as_if_no_secret_existed() {
    for s in POST_SECRET {
        for input in [
            ScreenResult::Nothing,
            ScreenResult::Acquisition { acquired: false },
            ScreenResult::Setup(SetupResult::Back),
            ScreenResult::Reentry(ReentryOutcome::Matched),
        ] {
            for c in [ctx(), ctx12(), FlowContext { return_to_menu: true, ..ctx12() }] {
                let d = decide(s, c, input);
                assert!(!matches!(d.finish, FlowFinish::Return(_)), "{s:?} must not return directly");
            }
        }
    }
}

#[test]
fn mismatched_screen_results_are_handled_like_an_unknown_state() {
    let pre = decide(FlowState::PhysicalCollection, ctx(), ScreenResult::Nothing);
    assert_eq!(pre.finish, FlowFinish::Return(SecretFlowOutcome::ExitedToFirmwareBeforeSecret));
    let post = decide(FlowState::MnemonicDisplay, ctx12(), ScreenResult::Nothing);
    assert_eq!(post.event, Some(FlowEvent::Fault));
    let other = decide(FlowState::OtherPostSecret, ctx12(), ScreenResult::Nothing);
    assert_eq!(other.event, Some(FlowEvent::Fault));
}

#[test]
fn export_errors_split_into_a_size_refusal_and_a_fatal_failure() {
    assert_eq!(export_error_disposition(DeriveError::BufferTooSmall), ExportBranchOutcome::Returned);
    for e in [DeriveError::InvalidChildKey, DeriveError::InvalidIndex, DeriveError::PointAtInfinity] {
        assert_eq!(export_error_disposition(e), ExportBranchOutcome::DeriveFailed);
    }
    assert!(EXPORT_REFUSED_LINE.contains("[1]-[5]"));
}

#[test]
fn watchdog_not_disabled_exits_to_firmware_before_anything_else() {
    assert_eq!(watchdog_gate(true), None);
    assert_eq!(watchdog_gate(false), Some(SecretFlowOutcome::ExitedToFirmwareBeforeSecret));
}
