use seed_flow::display::{
    read_destroy_double_confirm, read_display_choice, read_return_notice_ack, slot_label, slot_origin, DestroyDecision,
    DisplayChoice, GridLayout, BACKUP_TITLE, DESTROYED_RETURN_NOTICE_LINES, DESTROY_CONFIRM_LINES, DESTROY_PROMPT,
    HIDE_PROMPT,
};
use seed_flow::keys::{MenuKey, ScriptedKeys};

#[test]
fn read_display_choice_h() {
    let mut k = ScriptedKeys::new(vec![MenuKey::Other, MenuKey::Char('h')]);
    assert_eq!(read_display_choice(&mut k), Some(DisplayChoice::Hide));
}

#[test]
fn read_display_choice_d_case_insensitive() {
    let mut k = ScriptedKeys::new(vec![MenuKey::Char('D')]);
    assert_eq!(read_display_choice(&mut k), Some(DisplayChoice::DestroyRequested));
}

#[test]
fn read_destroy_double_confirm_p_powers_off() {
    let mut k = ScriptedKeys::new(vec![MenuKey::Char('P')]);
    assert_eq!(read_destroy_double_confirm(&mut k), Some(DestroyDecision::PowerOff));
}

#[test]
fn read_destroy_double_confirm_m_returns_to_menu() {
    let mut k = ScriptedKeys::new(vec![MenuKey::Char('m')]);
    assert_eq!(read_destroy_double_confirm(&mut k), Some(DestroyDecision::ReturnToMenu));
}

#[test]
fn read_destroy_double_confirm_n_cancels() {
    let mut k = ScriptedKeys::new(vec![MenuKey::Char('n')]);
    assert_eq!(read_destroy_double_confirm(&mut k), Some(DestroyDecision::Cancel));
}

#[test]
fn read_destroy_double_confirm_ignores_bare_enter() {
    let mut k = ScriptedKeys::new(vec![MenuKey::Enter, MenuKey::Char('p')]);
    assert_eq!(read_destroy_double_confirm(&mut k), Some(DestroyDecision::PowerOff));
}

#[test]
fn destroy_confirm_offers_both_menu_and_power_off() {
    let joined = DESTROY_CONFIRM_LINES.join("\n");
    assert!(joined.contains("[M]") && joined.to_lowercase().contains("menu"));
    assert!(joined.contains("[P]") && joined.to_lowercase().contains("power off"));
    assert!(joined.contains("[N]"));
}

#[test]
fn return_notice_acknowledges_only_on_enter_and_warns_about_power_off() {
    let joined = DESTROYED_RETURN_NOTICE_LINES.join("\n").to_lowercase();
    assert!(joined.contains("wiped from memory"));
    assert!(joined.contains("power this machine"));
    let mut k = ScriptedKeys::new(vec![MenuKey::Char('x'), MenuKey::Enter]);
    assert!(read_return_notice_ack(&mut k));
    assert_eq!(k.pos, 2);
}

#[test]
fn hide_and_destroy_prompts_present_in_source_text() {
    assert!(HIDE_PROMPT.starts_with("[H]"));
    assert!(DESTROY_PROMPT.starts_with("[D]"));
}

#[test]
fn display_readers_stop_at_the_first_decisive_key_and_report_exhaustion() {
    let mut k = ScriptedKeys::new(vec![MenuKey::Enter, MenuKey::Char('d'), MenuKey::Char('h')]);
    assert_eq!(read_display_choice(&mut k), Some(DisplayChoice::DestroyRequested));
    assert_eq!(k.pos, 2);
    let mut none = ScriptedKeys::new(vec![MenuKey::Escape, MenuKey::Char('x')]);
    assert_eq!(read_display_choice(&mut none), None);
    let mut none2 = ScriptedKeys::new(vec![MenuKey::Char('x')]);
    assert!(!read_return_notice_ack(&mut none2));
}

#[test]
fn slot_labels_are_one_based_two_digit() {
    assert_eq!(&slot_label(0), b"01. ");
    assert_eq!(&slot_label(8), b"09. ");
    assert_eq!(&slot_label(23), b"24. ");
}

#[test]
fn slot_origins_lay_out_six_by_four() {
    let g = GridLayout { left: 16, top: 100, cell_w: 96, cell_h: 32 };
    assert_eq!(slot_origin(0, g), (16, 100));
    assert_eq!(slot_origin(5, g), (16 + 5 * 96, 100));
    assert_eq!(slot_origin(6, g), (16, 132));
    assert_eq!(slot_origin(23, g), (16 + 5 * 96, 100 + 3 * 32));
    assert_eq!(slot_origin(24, g), (16, 100));
    assert!(!BACKUP_TITLE.is_empty());
}
