use seed_flow::keys::{MenuKey, ScriptedKeys};
use seed_flow::reentry::{
    entry_row, judge_entry, read_mismatch_choice, word_header, MismatchChoice, ReentryOutcome, DESTROY_PROMPT,
    MISMATCH_HEADER, RETRY_PROMPT, REVEAL_PROMPT,
};

#[test]
fn word_header_formats_word_n_of_total_without_zero_padding() {
    assert_eq!(word_header(6, 24), "Word 7 of 24");
    assert_eq!(word_header(0, 12), "Word 1 of 12");
    assert_eq!(word_header(23, 24), "Word 24 of 24");
}

#[test]
fn mismatch_choice_reads_1_2_3() {
    let mut k = ScriptedKeys::new(vec![MenuKey::Char('1')]);
    assert_eq!(read_mismatch_choice(&mut k), Some(MismatchChoice::Retry));
    let mut k = ScriptedKeys::new(vec![MenuKey::Char('2')]);
    assert_eq!(read_mismatch_choice(&mut k), Some(MismatchChoice::RevealAgain));
    let mut k = ScriptedKeys::new(vec![MenuKey::Char('3')]);
    assert_eq!(read_mismatch_choice(&mut k), Some(MismatchChoice::Destroy));
}

#[test]
fn mismatch_header_never_names_a_position_or_letter_count() {
    assert!(!MISMATCH_HEADER.chars().any(|c| c.is_ascii_digit()), "mismatch header must not name a position");
    assert!(RETRY_PROMPT.starts_with("[1]"));
    assert!(REVEAL_PROMPT.starts_with("[2]"));
    assert!(DESTROY_PROMPT.starts_with("[3]"));
}

#[test]
fn mismatch_choice_ignores_every_other_key() {
    let mut k = ScriptedKeys::new(vec![MenuKey::Enter, MenuKey::Escape, MenuKey::Char('4'), MenuKey::Char('2')]);
    assert_eq!(read_mismatch_choice(&mut k), Some(MismatchChoice::RevealAgain));
    assert_eq!(k.pos, 4);
}

#[test]
fn empty_buffer_enter_redisplays_prompt_instead_of_a_mismatch() {
    assert_eq!(judge_entry(0, false, &0, &0), None);
    assert_eq!(judge_entry(0, true, &5, &5), None);
}

#[test]
fn correct_unique_prefix_matches_expected_index() {
    assert_eq!(judge_entry(4, true, &0, &0), Some(ReentryOutcome::Matched));
}

#[test]
fn wrong_word_or_unresolvable_prefix_is_a_mismatch() {
    assert_eq!(judge_entry(4, true, &1, &0), Some(ReentryOutcome::Mismatch));
    assert_eq!(judge_entry(2, false, &0, &0), Some(ReentryOutcome::Mismatch));
}

#[test]
fn entry_row_shows_only_a_star_per_typed_letter() {
    assert_eq!(entry_row(0), "Type the first four letters, then Enter:     ");
    assert_eq!(entry_row(2), "Type the first four letters, then Enter: **  ");
    assert_eq!(entry_row(4), "Type the first four letters, then Enter: ****");
}
