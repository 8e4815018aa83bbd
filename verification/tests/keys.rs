use seed_flow::keys::{
    ascii_eq_ignore_case, read_confirm_or_decline, read_continue_or_escape, read_enter, read_menu_choice,
    read_self_test_offer_choice, ContinueOrEscape, MenuChoice, MenuKey, ScriptedKeys, SelfTestOfferChoice,
};

#[test]
fn read_continue_or_escape_ignores_other_keys_first() {
    let mut k = ScriptedKeys::new(vec![MenuKey::Other, MenuKey::Char('x'), MenuKey::Enter]);
    assert_eq!(read_continue_or_escape(&mut k), Some(ContinueOrEscape::Continue));
}

#[test]
fn read_continue_or_escape_returns_escape() {
    let mut k = ScriptedKeys::new(vec![MenuKey::Escape]);
    assert_eq!(read_continue_or_escape(&mut k), Some(ContinueOrEscape::Escape));
}

#[test]
fn read_enter_ignores_escape_too() {
    let mut k = ScriptedKeys::new(vec![MenuKey::Escape, MenuKey::Enter]);
    assert!(read_enter(&mut k));
    assert_eq!(k.pos, 2);
}

#[test]
fn read_menu_choice_picks_allowed_char_case_insensitively() {
    let mut k = ScriptedKeys::new(vec![MenuKey::Char('B')]);
    let choice = read_menu_choice(&mut k, &['a', 'b', 'c'], false);
    assert_eq!(choice, Some(MenuChoice::Picked('b')));
}

#[test]
fn read_menu_choice_ignores_disallowed_char_then_accepts_allowed() {
    let mut k = ScriptedKeys::new(vec![MenuKey::Char('z'), MenuKey::Char('a')]);
    let choice = read_menu_choice(&mut k, &['a'], false);
    assert_eq!(choice, Some(MenuChoice::Picked('a')));
}

#[test]
fn read_menu_choice_returns_escape_only_when_allowed() {
    let mut k = ScriptedKeys::new(vec![MenuKey::Escape, MenuKey::Char('a')]);
    let choice = read_menu_choice(&mut k, &['a'], true);
    assert_eq!(choice, Some(MenuChoice::Escape));
}

#[test]
fn read_confirm_or_decline_returns_true_on_enter() {
    let mut k = ScriptedKeys::new(vec![MenuKey::Other, MenuKey::Enter]);
    assert_eq!(read_confirm_or_decline(&mut k, 'n'), Some(true));
}

#[test]
fn read_confirm_or_decline_returns_false_on_decline_key_case_insensitive() {
    let mut k = ScriptedKeys::new(vec![MenuKey::Char('N')]);
    assert_eq!(read_confirm_or_decline(&mut k, 'n'), Some(false));
}

#[test]
fn read_confirm_or_decline_ignores_escape() {
    let mut k = ScriptedKeys::new(vec![MenuKey::Escape, MenuKey::Enter]);
    assert_eq!(read_confirm_or_decline(&mut k, 'n'), Some(true));
}

#[test]
fn read_menu_choice_ignores_escape_when_not_allowed() {
    let mut k = ScriptedKeys::new(vec![MenuKey::Escape, MenuKey::Char('a')]);
    let choice = read_menu_choice(&mut k, &['a'], false);
    assert_eq!(choice, Some(MenuChoice::Picked('a')));
}

#[test]
fn self_test_offer_choice_enter_means_start() {
    let mut k = ScriptedKeys::new(vec![MenuKey::Enter]);
    assert_eq!(read_self_test_offer_choice(&mut k), Some(SelfTestOfferChoice::Start));
}

#[test]
fn self_test_offer_choice_s_means_skip_case_insensitively() {
    let mut k = ScriptedKeys::new(vec![MenuKey::Char('S')]);
    assert_eq!(read_self_test_offer_choice(&mut k), Some(SelfTestOfferChoice::Skip));
    let mut k = ScriptedKeys::new(vec![MenuKey::Char('s')]);
    assert_eq!(read_self_test_offer_choice(&mut k), Some(SelfTestOfferChoice::Skip));
}

#[test]
fn self_test_offer_choice_ignores_other_keys_including_escape() {
    let mut k = ScriptedKeys::new(vec![MenuKey::Escape, MenuKey::Char('x'), MenuKey::Other, MenuKey::Char('s')]);
    assert_eq!(read_self_test_offer_choice(&mut k), Some(SelfTestOfferChoice::Skip));
}

#[test]
fn readers_return_none_when_the_keys_run_out() {
    let mut k = ScriptedKeys::new(vec![MenuKey::Char('x'), MenuKey::Other]);
    assert_eq!(read_continue_or_escape(&mut k), None);
    assert_eq!(k.pos, 2);
    let mut e = ScriptedKeys::new(vec![]);
    assert!(!read_enter(&mut e));
}

#[test]
fn ascii_case_folding_only_folds_letters() {
    assert!(ascii_eq_ignore_case('A', 'a'));
    assert!(ascii_eq_ignore_case('z', 'Z'));
    assert!(!ascii_eq_ignore_case('[', '{'));
    assert!(!ascii_eq_ignore_case('1', 'q'));
}
