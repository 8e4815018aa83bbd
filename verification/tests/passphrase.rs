use seed_flow::keys::{MenuKey, ScriptedKeys};
use seed_flow::passphrase::{
    entry_lines, entry_step, offer_lines, read_offer_choice, run_entry, EntryBanner, EntryOutcome, EntryPhase,
    EntryStep, OfferChoice, PassphraseBuffer, PassphraseInputError, ENTRY_ERR_FULL, ENTRY_ERR_NON_ASCII,
    OFFER_DISABLED_PROMPT, OFFER_OPTIONAL_STEP, OFFER_PROMPT, OFFER_SKIP_HINT, OFFER_WARN,
};

const CAPACITY: usize = 100;

#[test]
fn offer_reads_yes_and_no_when_available() {
    let mut k = ScriptedKeys::new(vec![MenuKey::Char('y')]);
    assert_eq!(read_offer_choice(&mut k, true), Some(OfferChoice::Yes));
    let mut k = ScriptedKeys::new(vec![MenuKey::Char('N')]);
    assert_eq!(read_offer_choice(&mut k, true), Some(OfferChoice::No));
}

#[test]
fn offer_ignores_yes_when_entry_unavailable() {
    let mut k = ScriptedKeys::new(vec![MenuKey::Char('y'), MenuKey::Char('n')]);
    assert_eq!(read_offer_choice(&mut k, false), Some(OfferChoice::No));
}

#[test]
fn offer_ignores_enter_and_requires_explicit_y_or_n() {
    let mut k = ScriptedKeys::new(vec![MenuKey::Enter, MenuKey::Backspace, MenuKey::Char('n')]);
    assert_eq!(read_offer_choice(&mut k, true), Some(OfferChoice::No));
}

#[test]
fn offer_shows_the_clarifying_optional_step_line() {
    let step = OFFER_OPTIONAL_STEP.to_lowercase();
    assert!(step.contains("optional"), "must plainly say the step is optional");
    assert!(step.contains("25th word"), "must name the BIP39 25th word framing");
    assert!(OFFER_SKIP_HINT.contains("[Y]") && OFFER_SKIP_HINT.contains("[N]"));
    assert!(OFFER_SKIP_HINT.to_lowercase().contains("skip"));
    let lines = offer_lines(true);
    assert!(lines.contains(&OFFER_OPTIONAL_STEP));
    assert!(lines.contains(&OFFER_SKIP_HINT));
}

#[test]
fn render_offer_shows_warnings_and_disabled_variant() {
    let available = offer_lines(true);
    assert_eq!(available.last(), Some(&OFFER_PROMPT));
    let disabled = offer_lines(false);
    assert_eq!(disabled.last(), Some(&OFFER_DISABLED_PROMPT));
    assert!(!disabled.contains(&OFFER_PROMPT));
    let all = OFFER_WARN.join(" ").to_lowercase();
    assert!(all.contains("separate wallet"));
    assert!(all.contains("lost forever"));
    assert!(all.contains("own backup"));
    assert!(all.contains("different wallet"));
    assert!(all.contains("no recovery") || all.contains("no reset"));
}

#[test]
fn run_entry_commits_typed_printable_ascii() {
    let mut buf = PassphraseBuffer::new(CAPACITY);
    let mut k = ScriptedKeys::new(vec![
        MenuKey::Char('A'),
        MenuKey::Char(' '),
        MenuKey::Char('4'),
        MenuKey::Char('2'),
        MenuKey::Char('!'),
        MenuKey::Enter,
    ]);
    assert_eq!(run_entry(&mut k, &mut buf, None), Some(EntryOutcome::Committed));
    assert_eq!(buf.as_bytes(), b"A 42!".to_vec());
}

#[test]
fn run_entry_rejects_non_ascii_and_supports_backspace() {
    let mut buf = PassphraseBuffer::new(CAPACITY);
    let mut k = ScriptedKeys::new(vec![
        MenuKey::Char('a'),
        MenuKey::Char('é'),
        MenuKey::Char('b'),
        MenuKey::Backspace,
        MenuKey::Char('c'),
        MenuKey::Enter,
    ]);
    assert_eq!(run_entry(&mut k, &mut buf, None), Some(EntryOutcome::Committed));
    assert_eq!(buf.as_bytes(), b"ac".to_vec());
}

#[test]
fn run_entry_escape_scrubs_and_cancels() {
    let mut buf = PassphraseBuffer::new(CAPACITY);
    let mut k = ScriptedKeys::new(vec![MenuKey::Char('s'), MenuKey::Char('e'), MenuKey::Char('c'), MenuKey::Escape]);
    assert_eq!(run_entry(&mut k, &mut buf, None), Some(EntryOutcome::Cancelled));
    assert!(buf.is_empty(), "Escape must scrub the buffer before cancelling");
}

#[test]
fn empty_commit_is_allowed() {
    let mut buf = PassphraseBuffer::new(CAPACITY);
    let mut k = ScriptedKeys::new(vec![MenuKey::Enter]);
    assert_eq!(run_entry(&mut k, &mut buf, None), Some(EntryOutcome::Committed));
    assert!(buf.is_empty());
}

#[test]
fn full_buffer_refuses_more_and_says_so() {
    let mut buf = PassphraseBuffer::new(2);
    assert_eq!(buf.push_char('a'), Ok(()));
    assert_eq!(buf.push_char('b'), Ok(()));
    assert_eq!(buf.push_char('c'), Err(PassphraseInputError::Full));
    assert_eq!(buf.push_char('\u{7f}'), Err(PassphraseInputError::NotPrintableAscii));
    assert_eq!(buf.as_bytes(), b"ab".to_vec());
    assert_eq!(entry_step(&mut buf, None, MenuKey::Char('z')), EntryStep::Continue(Some(EntryBanner::Full)));
    assert_eq!(
        entry_step(&mut buf, Some(EntryBanner::Full), MenuKey::Other),
        EntryStep::Continue(Some(EntryBanner::Full))
    );
    assert_eq!(entry_step(&mut buf, Some(EntryBanner::Full), MenuKey::Backspace), EntryStep::Continue(None));
    assert_eq!(buf.as_bytes(), b"a".to_vec());
}

#[test]
fn confirm_compare_matches_only_identical_entries() {
    let mut a = PassphraseBuffer::new(CAPACITY);
    let mut b = PassphraseBuffer::new(CAPACITY);
    for c in "Correct Horse 42!".chars() {
        a.push_char(c).unwrap();
        b.push_char(c).unwrap();
    }
    assert!(a.same_contents(&b));
    b.backspace();
    assert!(!a.same_contents(&b));
    b.push_char('?').unwrap();
    assert!(!a.same_contents(&b));
    a.scrub();
    b.scrub();
    assert!(a.same_contents(&b));
}

#[test]
fn entry_frame_shows_only_a_mask_and_the_length() {
    let lines = entry_lines(EntryPhase::First, 3, Some(EntryBanner::NonAscii));
    assert_eq!(lines[0], "ENTER PASSPHRASE (masked)");
    assert_eq!(lines[4], "  ***");
    assert_eq!(lines[5], "Length: 3");
    assert_eq!(lines[7], ENTRY_ERR_NON_ASCII);
    let confirm = entry_lines(EntryPhase::Confirm, 0, Some(EntryBanner::Full));
    assert_eq!(confirm[0], "RE-ENTER PASSPHRASE (masked; must match)");
    assert_eq!(confirm[4], "  ");
    assert_eq!(confirm[7], ENTRY_ERR_FULL);
}

#[test]
fn backspace_takes_back_exactly_one_accepted_character() {
    let mut buf = PassphraseBuffer::new(CAPACITY);
    assert!(buf.push_char('x').is_ok());
    assert!(buf.push_char('~').is_ok());
    buf.backspace();
    assert_eq!(buf.as_bytes(), b"x".to_vec());
    buf.backspace();
    assert!(buf.is_empty());
    buf.backspace();
    assert!(buf.is_empty());
}
