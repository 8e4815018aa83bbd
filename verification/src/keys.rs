//! Keystroke vocabulary and the per-key decisions of every "block until one
//! of these keys" prompt.
//!
//! Each prompt is split in two: a `*_of` step function that decides what a
//! single key means (`None` = ignored, keep reading), and a `read_*`
//! function that applies that step to a [`ScriptedKeys`] stream, consuming
//! keys up to and including the first decisive one.
use vstd::prelude::*;

verus! {

/// One normalized keystroke.
#[derive(Debug, Clone, Copy, PartialEq, Eq, Structural)]
pub enum MenuKey {
    /// A printable character key.
    Char(char),
    Enter,
    Escape,
    Backspace,
    /// Any other key (arrows, function keys, ...).
    Other,
}

/// A finite stream of keystrokes with a read cursor.
pub struct ScriptedKeys {
    pub events: Vec<MenuKey>,
    pub pos: usize,
}

impl ScriptedKeys {
    /// A stream positioned at its first key.
    pub fn new(events: Vec<MenuKey>) -> (r: Self)
        ensures
            r.events@ == events@,
            r.pos == 0,
    {
        ScriptedKeys { events, pos: 0 }
    }

    /// Take the next key, or `None` once the stream is exhausted.
    pub fn read_menu_key(&mut self) -> (r: Option<MenuKey>)
        requires
            old(self).pos <= old(self).events@.len(),
        ensures
            final(self).events@ == old(self).events@,
            old(self).pos < old(self).events@.len() ==> r == Some(old(self).events@[old(self).pos as int])
                && final(self).pos == old(self).pos + 1,
            old(self).pos >= old(self).events@.len() ==> r is None && final(self).pos == old(self).pos,
    {
        if self.pos < self.events.len() {
            let k = self.events[self.pos];
            self.pos = self.pos + 1;
            Some(k)
        } else {
            None
        }
    }
}

/// ASCII case folding on a code point: `A`-`Z` map to `a`-`z`.
pub open spec fn spec_fold(c: char) -> u32 {
    let u = c as u32;
    if 65 <= u && u <= 90 {
        (u + 32) as u32
    } else {
        u
    }
}

/// ASCII case-insensitive character equality.
pub fn ascii_eq_ignore_case(a: char, b: char) -> (r: bool)
    ensures
        r == (spec_fold(a) == spec_fold(b)),
{
    let ua = a as u32;
    let ub = b as u32;
    let fa = if 65 <= ua && ua <= 90 { ua + 32 } else { ua };
    let fb = if 65 <= ub && ub <= 90 { ub + 32 } else { ub };
    fa == fb
}

/// `true` iff the stream read from `before` to `after` consumed exactly the
/// keys up to and including the first one `step` decides on, and `r` is that
/// decision (or every remaining key was ignored and `r` is `None`).
pub open spec fn reads_first<T>(
    before: ScriptedKeys,
    after: ScriptedKeys,
    step: spec_fn(MenuKey) -> Option<T>,
    r: Option<T>,
) -> bool {
    let ev = before.events@;
    &&& after.events@ == ev
    &&& before.pos <= after.pos <= ev.len()
    &&& forall|j: int| before.pos <= j < after.pos - 1 ==> (#[trigger] step(ev[j])) is None
    &&& match r {
        Some(v) => after.pos > before.pos && step(ev[after.pos - 1]) == Some(v),
        None => after.pos == ev.len() && (after.pos > before.pos ==> step(ev[after.pos - 1]) is None),
    }
}

/// Result of [`read_continue_or_escape`].
#[derive(Debug, Clone, Copy, PartialEq, Eq, Structural)]
pub enum ContinueOrEscape {
    Continue,
    Escape,
}

pub open spec fn spec_continue_or_escape(k: MenuKey) -> Option<ContinueOrEscape> {
    match k {
        MenuKey::Enter => Some(ContinueOrEscape::Continue),
        MenuKey::Escape => Some(ContinueOrEscape::Escape),
        _ => None,
    }
}

/// Enter continues, Escape escapes, every other key is ignored.
pub fn continue_or_escape_of(k: MenuKey) -> (r: Option<ContinueOrEscape>)
    ensures
        r == spec_continue_or_escape(k),
{
    match k {
        MenuKey::Enter => Some(ContinueOrEscape::Continue),
        MenuKey::Escape => Some(ContinueOrEscape::Escape),
        _ => None,
    }
}

/// Read until Enter or Escape.
pub fn read_continue_or_escape(k: &mut ScriptedKeys) -> (r: Option<ContinueOrEscape>)
    requires
        old(k).pos <= old(k).events@.len(),
    ensures
        reads_first(*old(k), *final(k), |x: MenuKey| spec_continue_or_escape(x), r),
{
    let ghost start = k.pos;
    loop
        invariant
            k.events@ == old(k).events@,
            old(k).pos <= k.pos <= k.events@.len(),
            start == old(k).pos,
            forall|j: int| start <= j < k.pos ==> (#[trigger] spec_continue_or_escape(k.events@[j])) is None,
        decreases k.events@.len() - k.pos,
    {
        match k.read_menu_key() {
            None => {
                return None;
            },
            Some(key) => {
                let d = continue_or_escape_of(key);
                if d.is_some() {
                    return d;
                }
            },
        }
    }
}

pub open spec fn spec_enter(k: MenuKey) -> Option<()> {
    if k == MenuKey::Enter {
        Some(())
    } else {
        None
    }
}

/// Read until Enter; every other key, Escape included, is ignored. Returns
/// `true` iff an Enter was read.
pub fn read_enter(k: &mut ScriptedKeys) -> (r: bool)
    requires
        old(k).pos <= old(k).events@.len(),
    ensures
        reads_first(*old(k), *final(k), |x: MenuKey| spec_enter(x), if r { Some(()) } else { None }),
{
    let ghost start = k.pos;
    loop
        invariant
            k.events@ == old(k).events@,
            old(k).pos <= k.pos <= k.events@.len(),
            start == old(k).pos,
            forall|j: int| start <= j < k.pos ==> (#[trigger] spec_enter(k.events@[j])) is None,
        decreases k.events@.len() - k.pos,
    {
        match k.read_menu_key() {
            None => {
                return false;
            },
            Some(key) => {
                if key == MenuKey::Enter {
                    return true;
                }
            },
        }
    }
}

/// Result of [`read_menu_choice`].
#[derive(Debug, Clone, Copy, PartialEq, Eq, Structural)]
pub enum MenuChoice {
    /// One of the allowed characters (as listed in `allowed`) was pressed.
    Picked(char),
    /// Escape was pressed (only when Escape is allowed).
    Escape,
}

/// The first entry of `allowed` equal to `c` ignoring ASCII case, searching
/// from index `i`.
pub open spec fn first_allowed(allowed: Seq<char>, c: char, i: int) -> Option<char>
    decreases allowed.len() - i,
{
    if i < 0 || i >= allowed.len() {
        None
    } else if spec_fold(allowed[i]) == spec_fold(c) {
        Some(allowed[i])
    } else {
        first_allowed(allowed, c, i + 1)
    }
}

pub open spec fn spec_menu_choice(k: MenuKey, allowed: Seq<char>, escape_allowed: bool) -> Option<MenuChoice> {
    match k {
        MenuKey::Char(c) => match first_allowed(allowed, c, 0) {
            Some(a) => Some(MenuChoice::Picked(a)),
            None => None,
        },
        MenuKey::Escape => if escape_allowed {
            Some(MenuChoice::Escape)
        } else {
            None
        },
        _ => None,
    }
}

/// A character key picks the first `allowed` entry it equals ignoring case;
/// Escape is a choice only when `escape_allowed`; everything else is ignored.
pub fn menu_choice_of(k: MenuKey, allowed: &[char], escape_allowed: bool) -> (r: Option<MenuChoice>)
    ensures
        r == spec_menu_choice(k, allowed@, escape_allowed),
{
    match k {
        MenuKey::Char(c) => {
            let mut i: usize = 0;
            while i < allowed.len()
                invariant
                    k == MenuKey::Char(c),
                    i <= allowed@.len(),
                    first_allowed(allowed@, c, 0) == first_allowed(allowed@, c, i as int),
                decreases allowed@.len() - i,
            {
                let a = allowed[i];
                if ascii_eq_ignore_case(a, c) {
                    assert(first_allowed(allowed@, c, i as int) == Some(a));
                    return Some(MenuChoice::Picked(a));
                }
                i = i + 1;
            }
            None
        },
        MenuKey::Escape => {
            if escape_allowed {
                Some(MenuChoice::Escape)
            } else {
                None
            }
        },
        _ => None,
    }
}

/// Read until an allowed character (or, if allowed, Escape).
pub fn read_menu_choice(k: &mut ScriptedKeys, allowed: &[char], escape_allowed: bool) -> (r: Option<
    MenuChoice,
>)
    requires
        old(k).pos <= old(k).events@.len(),
    ensures
        reads_first(*old(k), *final(k), |x: MenuKey| spec_menu_choice(x, allowed@, escape_allowed), r),
{
    let ghost start = k.pos;
    loop
        invariant
            k.events@ == old(k).events@,
            old(k).pos <= k.pos <= k.events@.len(),
            start == old(k).pos,
            forall|j: int|
                start <= j < k.pos ==> (#[trigger] spec_menu_choice(k.events@[j], allowed@, escape_allowed))
                    is None,
        decreases k.events@.len() - k.pos,
    {
        match k.read_menu_key() {
            None => {
                return None;
            },
            Some(key) => {
                let d = menu_choice_of(key, allowed, escape_allowed);
                if d.is_some() {
                    return d;
                }
            },
        }
    }
}

pub open spec fn spec_confirm_or_decline(k: MenuKey, decline_key: char) -> Option<bool> {
    match k {
        MenuKey::Enter => Some(true),
        MenuKey::Char(c) => if spec_fold(c) == spec_fold(decline_key) {
            Some(false)
        } else {
            None
        },
        _ => None,
    }
}

/// Enter confirms (`true`), `decline_key` in either case declines (`false`),
/// everything else (Escape included) is ignored.
pub fn confirm_or_decline_of(k: MenuKey, decline_key: char) -> (r: Option<bool>)
    ensures
        r == spec_confirm_or_decline(k, decline_key),
{
    match k {
        MenuKey::Enter => Some(true),
        MenuKey::Char(c) => {
            if ascii_eq_ignore_case(c, decline_key) {
                Some(false)
            } else {
                None
            }
        },
        _ => None,
    }
}

/// Read until Enter or `decline_key`.
pub fn read_confirm_or_decline(k: &mut ScriptedKeys, decline_key: char) -> (r: Option<bool>)
    requires
        old(k).pos <= old(k).events@.len(),
    ensures
        reads_first(*old(k), *final(k), |x: MenuKey| spec_confirm_or_decline(x, decline_key), r),
{
    let ghost start = k.pos;
    loop
        invariant
            k.events@ == old(k).events@,
            old(k).pos <= k.pos <= k.events@.len(),
            start == old(k).pos,
            forall|j: int|
                start <= j < k.pos ==> (#[trigger] spec_confirm_or_decline(k.events@[j], decline_key)) is None,
        decreases k.events@.len() - k.pos,
    {
        match k.read_menu_key() {
            None => {
                return None;
            },
            Some(key) => {
                let d = confirm_or_decline_of(key, decline_key);
                if d.is_some() {
                    return d;
                }
            },
        }
    }
}

/// How far the keyboard self-test offer may be skipped.
#[derive(Debug, Clone, Copy, PartialEq, Eq, Structural)]
pub enum KeyboardSelfTestSkipPolicy {
    /// Skip is accepted immediately.
    DesktopOptional,
    /// Skip requires an explicit acknowledgement first.
    RecommendedSkippableWithAcknowledgement,
}

/// The choice at the keyboard self-test offer screen.
#[derive(Debug, Clone, Copy, PartialEq, Eq, Structural)]
pub enum SelfTestOfferChoice {
    Start,
    Skip,
}

pub open spec fn spec_self_test_offer_choice(k: MenuKey) -> Option<SelfTestOfferChoice> {
    match k {
        MenuKey::Enter => Some(SelfTestOfferChoice::Start),
        MenuKey::Char(c) => if spec_fold(c) == spec_fold('s') {
            Some(SelfTestOfferChoice::Skip)
        } else {
            None
        },
        _ => None,
    }
}

/// Enter starts the self-test, `S`/`s` skips it, everything else is ignored.
pub fn self_test_offer_choice_of(k: MenuKey) -> (r: Option<SelfTestOfferChoice>)
    ensures
        r == spec_self_test_offer_choice(k),
{
    match k {
        MenuKey::Enter => Some(SelfTestOfferChoice::Start),
        MenuKey::Char(c) => {
            if ascii_eq_ignore_case(c, 's') {
                Some(SelfTestOfferChoice::Skip)
            } else {
                None
            }
        },
        _ => None,
    }
}

/// Read until Enter or `S`/`s`.
pub fn read_self_test_offer_choice(k: &mut ScriptedKeys) -> (r: Option<SelfTestOfferChoice>)
    requires
        old(k).pos <= old(k).events@.len(),
    ensures
        reads_first(*old(k), *final(k), |x: MenuKey| spec_self_test_offer_choice(x), r),
{
    let ghost start = k.pos;
    loop
        invariant
            k.events@ == old(k).events@,
            old(k).pos <= k.pos <= k.events@.len(),
            start == old(k).pos,
            forall|j: int| start <= j < k.pos ==> (#[trigger] spec_self_test_offer_choice(k.events@[j])) is None,
        decreases k.events@.len() - k.pos,
    {
        match k.read_menu_key() {
            None => {
                return None;
            },
            Some(key) => {
                let d = self_test_offer_choice_of(key);
                if d.is_some() {
                    return d;
                }
            },
        }
    }
}

} // verus!
