use seed_flow::contracts::TargetBits;
use seed_flow::keys::{MenuKey, ScriptedKeys};
use seed_flow::physical::{
    bar_cells, recommended_bits, CoinFace, PhysicalEvent, run_physical_entry, Instrument, PhysicalEntryOutcome, PhysicalSession,
    PhysicalStaging, StripRing, CODE_HEADS, CODE_TAILS, STRIP_TAIL_CAP,
};
use seed_flow::physical_screen::{render_clear_confirm, render_physical_screen, CLEAR_CONFIRM_LINE, write_budget_bar, write_history_strip, FAIRNESS_DISCLAIMER};
use seed_flow::text::TextOp;

const BACK_PROMPT: &str = "[Esc] Back";

fn phys_screen(ops: &[TextOp]) -> Vec<String> {
    let start = ops.iter().rposition(|o| matches!(o, TextOp::Clear)).map(|i| i + 1).unwrap_or(0);
    ops[start..]
        .iter()
        .map(|o| match o {
            TextOp::Line(s) | TextOp::Prose(s) => s.clone(),
            TextOp::Clear => String::new(),
        })
        .collect()
}

fn contains(ops: &[TextOp], needle: &str) -> bool {
    phys_screen(ops).iter().any(|l| l.contains(needle))
}

fn render(session: &PhysicalSession, target: TargetBits, lead: Instrument, ring: &StripRing) -> Vec<TextOp> {
    let mut out = Vec::new();
    render_physical_screen(&mut out, session, target, lead, ring, BACK_PROMPT);
    out
}

fn drive_with_outcome(events: Vec<MenuKey>, target: TargetBits) -> (PhysicalSession, PhysicalStaging, PhysicalEntryOutcome) {
    let mut keys = ScriptedKeys::new(events);
    let mut session = PhysicalSession::new();
    let mut staging = PhysicalStaging::new();
    let outcome = run_physical_entry(&mut keys, &mut session, &mut staging, target, Instrument::Both)
        .expect("the scripted keys end the entry");
    (session, staging, outcome)
}

fn drive(events: Vec<MenuKey>, target: TargetBits) -> (PhysicalSession, PhysicalStaging) {
    let (session, staging, outcome) = drive_with_outcome(events, target);
    assert_eq!(outcome, PhysicalEntryOutcome::BudgetMet, "drive() is for the budget-met happy path only");
    (session, staging)
}

#[test]
fn render_physical_screen_carries_the_spec_17_2_disclaimer() {
    let frag1 = "The number of rolls or flips does not prove that your dice or coins are fair or";
    let frag2 = "that the events are independent.";
    assert_eq!(format!("{frag1} {frag2}"), FAIRNESS_DISCLAIMER);
    let ring = StripRing::new();
    let session = PhysicalSession::new();
    let out = render(&session, TargetBits::Bits128, Instrument::Dice, &ring);
    let rows = phys_screen(&out);
    assert_eq!(rows[19], frag1);
    assert_eq!(rows[20], frag2);
    assert!(!rows.iter().any(|r| r == FAIRNESS_DISCLAIMER), "the unwrapped disclaimer must never be drawn");
    let mut session2 = PhysicalSession::new();
    for _ in 0..50 {
        session2.push_roll(3).unwrap();
    }
    let out2 = render(&session2, TargetBits::Bits128, Instrument::Coins, &ring);
    let rows2 = phys_screen(&out2);
    assert_eq!(rows2[19], frag1);
    assert_eq!(rows2[20], frag2);
    assert!(!rows2.iter().any(|r| r == FAIRNESS_DISCLAIMER), "the unwrapped disclaimer must never be drawn");
}

#[test]
fn staging_push_undo_round_trips_dice() {
    let mut s = PhysicalStaging::new();
    s.push_dice(4);
    s.push_dice(2);
    assert_eq!(s.dice_bytes(), vec![4, 2]);
    s.undo_dice();
    assert_eq!(s.dice_bytes(), vec![4]);
}

#[test]
fn staging_push_undo_round_trips_coin() {
    let mut s = PhysicalStaging::new();
    s.push_coin(1);
    s.push_coin(0);
    assert_eq!(s.coin_bytes(), vec![1, 0]);
    s.undo_coin();
    assert_eq!(s.coin_bytes(), vec![1]);
}

#[test]
fn staging_scrub_zeroes_and_resets() {
    let mut s = PhysicalStaging::new();
    s.push_dice(3);
    s.push_coin(1);
    s.scrub();
    assert!(s.dice_bytes().is_empty());
    assert!(s.coin_bytes().is_empty());
    assert_eq!(s.dice_len(), 0);
    assert_eq!(s.coin_len(), 0);
}

#[test]
fn interleaved_dice_and_coin_pushes_stay_independent() {
    let mut s = PhysicalStaging::new();
    s.push_dice(1);
    s.push_coin(1);
    s.push_dice(2);
    s.push_coin(0);
    s.push_dice(3);
    assert_eq!(s.dice_bytes(), vec![1, 2, 3]);
    assert_eq!(s.coin_bytes(), vec![1, 0]);
}

#[test]
fn escape_returns_back_without_requiring_budget_met() {
    let (_session, _staging, outcome) =
        drive_with_outcome(vec![MenuKey::Char('1'), MenuKey::Escape], TargetBits::Bits128);
    assert_eq!(outcome, PhysicalEntryOutcome::Back);
}

#[test]
fn physical_screen_shows_the_back_prompt() {
    let ring = StripRing::new();
    let session = PhysicalSession::new();
    let out = render(&session, TargetBits::Bits128, Instrument::Dice, &ring);
    assert!(contains(&out, BACK_PROMPT));
}

#[test]
fn enter_before_budget_met_is_ignored_and_the_loop_keeps_reading() {
    let mut events = vec![MenuKey::Char('1'), MenuKey::Char('2'), MenuKey::Char('3'), MenuKey::Enter];
    for _ in 0..47 {
        events.push(MenuKey::Char('6'));
    }
    events.push(MenuKey::Enter);
    let (session, staging) = drive(events, TargetBits::Bits128);
    assert!(session.budget_met(TargetBits::Bits128));
    assert_eq!(staging.dice_bytes().len(), 50);
}

#[test]
fn dice_only_budget_met_then_enter_proceeds_and_bytes_match_pushes() {
    let mut events = Vec::new();
    for _ in 0..50 {
        events.push(MenuKey::Char('4'));
    }
    events.push(MenuKey::Enter);
    let (session, staging) = drive(events, TargetBits::Bits128);
    assert!(session.budget_met(TargetBits::Bits128));
    assert_eq!(staging.dice_bytes().len(), 50);
    assert!(staging.dice_bytes().iter().all(|&b| b == 4));
    assert!(staging.coin_bytes().is_empty());
}

#[test]
fn coin_flip_h_and_t_accepted_case_insensitively() {
    let mut events = Vec::new();
    for i in 0..128 {
        events.push(if i % 2 == 0 { MenuKey::Char('h') } else { MenuKey::Char('T') });
    }
    events.push(MenuKey::Enter);
    let (session, staging) = drive(events, TargetBits::Bits128);
    assert!(session.budget_met(TargetBits::Bits128));
    assert_eq!(staging.coin_bytes().len(), 128);
}

#[test]
fn undo_removes_last_event_from_both_session_and_staging_via_the_real_driver() {
    let mut events = vec![MenuKey::Char('5'), MenuKey::Char('h'), MenuKey::Backspace];
    for _ in 0..50 {
        events.push(MenuKey::Char('6'));
    }
    events.push(MenuKey::Enter);
    let (session, staging) = drive(events, TargetBits::Bits128);
    assert!(session.budget_met(TargetBits::Bits128));
    assert_eq!(staging.dice_bytes()[0], 5);
    assert!(staging.coin_bytes().is_empty(), "the undone flip must not appear in staging");
}

#[test]
fn clear_confirmation_declined_keeps_events_via_the_real_driver() {
    let mut events = vec![MenuKey::Char('3'), MenuKey::Char('c'), MenuKey::Char('n')];
    for _ in 0..49 {
        events.push(MenuKey::Char('6'));
    }
    events.push(MenuKey::Enter);
    let (session, staging) = drive(events, TargetBits::Bits128);
    assert!(session.budget_met(TargetBits::Bits128));
    assert_eq!(staging.dice_bytes()[0], 3, "the pre-clear-attempt roll must survive a declined clear");
    assert_eq!(staging.dice_bytes().len(), 50);
}

#[test]
fn clear_confirmation_accepted_wipes_session_and_staging() {
    let mut session = PhysicalSession::new();
    let mut staging = PhysicalStaging::new();
    session.push_roll(3).unwrap();
    staging.push_dice(3);
    session.clear();
    staging.scrub();
    assert_eq!(session.len(), 0);
    assert!(staging.dice_bytes().is_empty());
}

#[test]
fn render_includes_progress_rolls_flips_and_controls() {
    let ring = StripRing::new();
    let session = PhysicalSession::new();
    let out = render(&session, TargetBits::Bits128, Instrument::Dice, &ring);
    assert!(contains(&out, "Progress:"));
    assert!(contains(&out, "Rolls: 0"));
    assert!(contains(&out, "Flips: 0"));
    assert!(contains(&out, "[1-6]"));
    assert!(contains(&out, "[Backspace] Undo"));
}

#[test]
fn recommended_bits_is_25_percent_over_minimum_with_pure_integers() {
    assert_eq!(recommended_bits(TargetBits::Bits128), 160);
    assert_eq!(recommended_bits(TargetBits::Bits256), 320);
}

#[test]
fn bar_cells_zero_progress_is_empty() {
    assert_eq!(bar_cells(0, 100, 20), 0);
}

#[test]
fn bar_cells_mid_progress_is_proportional() {
    assert_eq!(bar_cells(50, 100, 20), 10);
    assert_eq!(bar_cells(25, 100, 20), 5);
}

#[test]
fn bar_cells_at_or_over_budget_saturates_at_width() {
    assert_eq!(bar_cells(100, 100, 20), 20);
    assert_eq!(bar_cells(150, 100, 20), 20, "overshoot past budget must not overflow the bar");
}

#[test]
fn bar_cells_zero_budget_saturates_full_rather_than_dividing_by_zero() {
    assert_eq!(bar_cells(0, 0, 20), 20);
}

#[test]
fn bar_cells_zero_width_is_always_empty() {
    assert_eq!(bar_cells(50, 100, 0), 0);
    assert_eq!(bar_cells(100, 100, 0), 0);
}

#[test]
fn render_physical_screen_shows_an_empty_budget_bar_at_zero_progress() {
    let ring = StripRing::new();
    let session = PhysicalSession::new();
    let out = render(&session, TargetBits::Bits128, Instrument::Dice, &ring);
    let screen = phys_screen(&out);
    let bar = &screen[2];
    assert!(bar.starts_with('[') && bar.ends_with(']'), "bar row must be bracketed: {bar:?}");
    assert!(!bar.contains('#'), "zero progress must show no filled cells: {bar:?}");
    assert!(bar.contains('-'), "zero progress must show empty cells: {bar:?}");
}

#[test]
fn render_physical_screen_budget_bar_fills_once_budget_is_met() {
    let ring = StripRing::new();
    let mut session = PhysicalSession::new();
    for _ in 0..50 {
        session.push_roll(6).unwrap();
    }
    assert!(session.budget_met(TargetBits::Bits128));
    let out = render(&session, TargetBits::Bits128, Instrument::Dice, &ring);
    let screen = phys_screen(&out);
    let bar = &screen[2];
    assert!(!bar.contains('-'), "budget met must show a fully filled bar: {bar:?}");
}

#[test]
fn dice_lead_screen_shows_the_six_face_picker_and_switch_to_coins() {
    let ring = StripRing::new();
    let session = PhysicalSession::new();
    let out = render(&session, TargetBits::Bits128, Instrument::Dice, &ring);
    assert!(contains(&out, "Roll a die -- press the number you see:"));
    assert!(contains(&out, "   [1]       [2]       [3]       [4]       [5]       [6]"));
    assert!(contains(&out, "[K] Switch to coins"));
    assert!(!contains(&out, "[L] Show all six faces"));
}

#[test]
fn coin_lead_screen_shows_the_heads_tails_picker_and_switch_to_dice() {
    let ring = StripRing::new();
    let session = PhysicalSession::new();
    let out = render(&session, TargetBits::Bits128, Instrument::Coins, &ring);
    assert!(contains(&out, "Flip a coin -- press H or T:"));
    assert!(contains(&out, "  [H]         [T]"));
    assert!(contains(&out, "[K] Switch to dice"));
}

#[test]
fn both_lead_screen_shows_both_key_families_and_no_switch_key() {
    let ring = StripRing::new();
    let session = PhysicalSession::new();
    let out = render(&session, TargetBits::Bits128, Instrument::Both, &ring);
    assert!(contains(&out, "[1-6] Roll   [H]/[T] Flip   [Backspace] Undo   [C] Clear"));
    assert!(!contains(&out, "[K] Switch"), "Both mode hides the instrument switch");
}

#[test]
fn every_lead_variant_fits_23_rows_and_79_cols() {
    for lead in [Instrument::Dice, Instrument::Coins, Instrument::Both] {
        let mut ring = StripRing::new();
        for i in 0..200u32 {
            ring.push((i % 6) as u8 + 1);
        }
        let mut session = PhysicalSession::new();
        for _ in 0..200 {
            session.push_roll(6).unwrap();
        }
        let out = render(&session, TargetBits::Bits256, lead, &ring);
        let start = out.iter().rposition(|o| matches!(o, TextOp::Clear)).unwrap() + 1;
        assert_eq!(out.len() - start, 23, "{lead:?} must render exactly 23 content rows");
        for o in &out[start..] {
            match o {
                TextOp::Line(line) => {
                    assert!(line.chars().count() <= 79, "{lead:?} line exceeds 79 cols: {line:?}")
                }
                _ => panic!("{lead:?}: every content row is a fixed line"),
            }
        }
    }
}

#[test]
fn strip_ring_grows_one_tile_at_a_time_then_tail_windows() {
    let mut ring = StripRing::new();
    ring.push(1);
    ring.push(5);
    ring.push(6);
    assert_eq!(ring.len(), 3);
    assert_eq!([ring.get(0), ring.get(1), ring.get(2)], [1, 5, 6]);
    while ring.len() < STRIP_TAIL_CAP {
        ring.push(2);
    }
    assert_eq!(ring.len(), STRIP_TAIL_CAP);
    ring.push(3);
    assert_eq!(ring.len(), STRIP_TAIL_CAP);
    assert_eq!(ring.get(0), 5, "the very first tile (1) has scrolled off");
    assert_eq!(ring.get(STRIP_TAIL_CAP - 1), 3, "the newest push is at the right end");
}

#[test]
fn history_strip_earlier_count_marker_matches_the_roll_off() {
    let mut ring = StripRing::new();
    for _ in 0..5 {
        ring.push(4);
    }
    let mut out = Vec::new();
    write_history_strip(&mut out, &ring, 5, Instrument::Dice);
    assert!(contains(&out, "Recent rolls (5):"));
    assert!(!contains(&out, "<+"), "no roll-off marker before the window fills");

    let mut ring2 = StripRing::new();
    for _ in 0..30 {
        ring2.push(4);
    }
    assert_eq!(ring2.len(), STRIP_TAIL_CAP);
    let mut out2 = Vec::new();
    write_history_strip(&mut out2, &ring2, 30, Instrument::Dice);
    assert!(contains(&out2, "Recent rolls (30):"));
    assert!(contains(&out2, "<+19"), "30 total - 11 shown = 19 earlier");
}

#[test]
fn both_mode_strip_renders_one_interleaved_timeline() {
    let mut ring = StripRing::new();
    ring.push(5);
    ring.push(CODE_HEADS);
    ring.push(2);
    ring.push(CODE_TAILS);
    let mut out = Vec::new();
    write_history_strip(&mut out, &ring, 4, Instrument::Both);
    let screen = phys_screen(&out);
    assert_eq!(screen.len(), 3, "the strip is exactly 3 top-aligned rows");
    assert!(screen[0].starts_with("Recent picks (4):"));
    assert!(screen[1].contains("(H)"));
    assert!(screen[1].contains("(T)"));
    for line in &screen {
        assert!(line.len() <= 79);
    }
}

#[test]
fn strip_ring_scrub_zeroes_and_resets() {
    let mut ring = StripRing::new();
    ring.push(6);
    ring.push(CODE_HEADS);
    ring.push(3);
    ring.scrub();
    assert_eq!(ring.len(), 0);
    ring.push(1);
    assert_eq!(ring.get(0), 1);
}

#[test]
fn strip_ring_pop_scrubs_the_popped_cell() {
    let mut ring = StripRing::new();
    ring.push(6);
    ring.push(4);
    ring.pop();
    assert_eq!(ring.len(), 1);
    assert_eq!(ring.get(0), 6);
}

#[test]
fn clear_all_scrubs_staging_in_lockstep_via_the_real_driver() {
    let mut events = vec![MenuKey::Char('4'), MenuKey::Char('h'), MenuKey::Char('c'), MenuKey::Enter];
    for _ in 0..50 {
        events.push(MenuKey::Char('6'));
    }
    events.push(MenuKey::Enter);
    let (session, staging) = drive(events, TargetBits::Bits128);
    assert_eq!(staging.dice_bytes().len(), 50);
    assert!(staging.coin_bytes().is_empty(), "the pre-clear flip must be gone");
    assert_eq!(session.roll_count(), 50);
}

#[test]
fn k_switch_never_changes_the_pushed_bytes() {
    let mut base = vec![MenuKey::Char('4'), MenuKey::Char('h'), MenuKey::Char('2')];
    for _ in 0..50 {
        base.push(MenuKey::Char('6'));
    }
    base.push(MenuKey::Enter);
    let mut with_k = vec![
        MenuKey::Char('4'),
        MenuKey::Char('k'),
        MenuKey::Char('h'),
        MenuKey::Char('k'),
        MenuKey::Char('2'),
    ];
    for _ in 0..50 {
        with_k.push(MenuKey::Char('6'));
    }
    with_k.push(MenuKey::Enter);
    let (_s1, staging_base) = drive(base, TargetBits::Bits128);
    let (_s2, staging_k) = drive(with_k, TargetBits::Bits128);
    assert_eq!(staging_base.dice_bytes(), staging_k.dice_bytes(), "K must not alter dice bytes");
    assert_eq!(staging_base.coin_bytes(), staging_k.coin_bytes(), "K must not alter coin bytes");
}

#[test]
fn instrument_choice_never_changes_the_pushed_bytes() {
    let keystream = || {
        let mut v = vec![MenuKey::Char('3'), MenuKey::Char('h'), MenuKey::Char('t'), MenuKey::Char('5')];
        for _ in 0..50 {
            v.push(MenuKey::Char('6'));
        }
        v.push(MenuKey::Enter);
        v
    };
    let run = |instr: Instrument| {
        let mut keys = ScriptedKeys::new(keystream());
        let mut session = PhysicalSession::new();
        let mut staging = PhysicalStaging::new();
        let outcome = run_physical_entry(&mut keys, &mut session, &mut staging, TargetBits::Bits128, instr);
        assert_eq!(outcome, Some(PhysicalEntryOutcome::BudgetMet));
        (staging.dice_bytes(), staging.coin_bytes())
    };
    let dice = run(Instrument::Dice);
    let coins = run(Instrument::Coins);
    let both = run(Instrument::Both);
    assert_eq!(dice, coins);
    assert_eq!(coins, both);
}

#[test]
fn budget_bar_renders_forty_cells() {
    let mut out = Vec::new();
    write_budget_bar(&mut out, 64, 128);
    let s = phys_screen(&out);
    assert_eq!(s[0].len(), 42);
    assert_eq!(s[0], format!("[{}{}]", "#".repeat(20), "-".repeat(20)));
}

#[test]
fn physical_screen_title_and_progress_lines_are_exact() {
    let ring = StripRing::new();
    let mut session = PhysicalSession::new();
    for _ in 0..10 {
        session.push_roll(2).unwrap();
    }
    session.push_flip(seed_flow::physical::CoinFace::Heads).unwrap();
    let out = render(&session, TargetBits::Bits256, Instrument::Both, &ring);
    let s = phys_screen(&out);
    assert_eq!(s[0], "Physical entropy -- dice and coins -- 24 words");
    assert_eq!(s[1], "Progress: 26 of minimum 256 bits   (recommended 320)");
    assert_eq!(s[3], "Rolls: 10   Flips: 1");
    assert_eq!(s[s.len() - 1], format!("[Enter] Continue (minimum not yet reached)      {BACK_PROMPT}"));
}

#[test]
fn clear_confirm_screen_clears_then_asks() {
    let mut ops = Vec::new();
    render_clear_confirm(&mut ops);
    assert_eq!(ops.len(), 2);
    assert!(matches!(ops[0], TextOp::Clear));
    assert!(matches!(&ops[1], TextOp::Line(l) if l == CLEAR_CONFIRM_LINE));
    assert_eq!(CLEAR_CONFIRM_LINE, "Clear every entered roll and flip? [Enter] Confirm   [N] Cancel");
}

#[test]
fn session_undo_takes_back_exactly_the_last_push() {
    let mut s = PhysicalSession::new();
    assert!(s.push_roll(3).is_ok());
    assert!(s.push_flip(CoinFace::Heads).is_ok());
    assert_eq!(s.undo(), Some(PhysicalEvent::Flip(CoinFace::Heads)));
    assert_eq!(s.roll_count(), 1);
    assert_eq!(s.flip_count(), 0);
    assert_eq!(s.undo(), Some(PhysicalEvent::Roll(3)));
    assert_eq!(s.len(), 0);
    assert_eq!(s.undo(), None);
}

#[test]
fn switch_keys_anywhere_in_the_stream_change_nothing_recorded() {
    let base = vec![MenuKey::Char('3'), MenuKey::Char('h'), MenuKey::Backspace, MenuKey::Char('5'), MenuKey::Escape];
    let mut with_k = Vec::new();
    for k in &base {
        with_k.push(MenuKey::Char('k'));
        with_k.push(*k);
        with_k.push(MenuKey::Char('K'));
    }
    let (s1, st1, o1) = drive_with_outcome(base, TargetBits::Bits128);
    let (s2, st2, o2) = drive_with_outcome(with_k, TargetBits::Bits128);
    assert_eq!(o1, PhysicalEntryOutcome::Back);
    assert_eq!(o1, o2);
    assert_eq!(s1.roll_count(), s2.roll_count());
    assert_eq!(s1.flip_count(), s2.flip_count());
    assert_eq!(st1.dice_bytes(), st2.dice_bytes());
    assert_eq!(st1.coin_bytes(), st2.coin_bytes());
}

#[test]
fn switch_keys_inside_the_clear_confirmation_change_nothing() {
    let plain = vec![
        MenuKey::Char('3'),
        MenuKey::Char('c'),
        MenuKey::Char('n'),
        MenuKey::Char('4'),
        MenuKey::Escape,
    ];
    let with_k = vec![
        MenuKey::Char('3'),
        MenuKey::Char('c'),
        MenuKey::Char('k'),
        MenuKey::Char('K'),
        MenuKey::Char('n'),
        MenuKey::Char('4'),
        MenuKey::Char('k'),
        MenuKey::Escape,
    ];
    let (s1, st1, o1) = drive_with_outcome(plain, TargetBits::Bits128);
    let (s2, st2, o2) = drive_with_outcome(with_k, TargetBits::Bits128);
    assert_eq!(o1, o2);
    assert_eq!(s1.roll_count(), 2);
    assert_eq!(s1.roll_count(), s2.roll_count());
    assert_eq!(st1.dice_bytes(), st2.dice_bytes());
    assert_eq!(st1.dice_bytes(), vec![3, 4]);
}
