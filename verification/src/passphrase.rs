//! The optional passphrase: the offer, the masked entry into a bounded
//! printable-ASCII buffer, and the confirmation compare.
//!
//! The passphrase is never rendered: the entry screen shows one `*` per
//! accepted byte and the length, nothing else.
use vstd::prelude::*;
use crate::keys::{MenuKey, ScriptedKeys, reads_first, spec_fold};
use crate::text::{push_decimal, push_str, spec_decimal};

verus! {

/// The offer's warnings: a separate wallet, lost forever if forgotten, a
/// backup of its own, every passphrase a different wallet, no recovery.
pub const OFFER_WARN: [&'static str; 7] = [
    "A passphrase creates a SEPARATE wallet (BIP39 \"25th word\").",
    "- Your words PLUS this passphrase is a DIFFERENT wallet from your words alone.",
    "- If you FORGET the passphrase, your money is LOST FOREVER, even with all your words.",
    "- The passphrase needs its OWN backup, stored APART from your words.",
    "- Every different passphrase is a different wallet. A typo just makes another wallet;",
    "  there is no \"wrong passphrase\" error, no recovery, and no reset.",
    "Leave it empty if you are not sure - you can always practice first.",
];

/// States plainly that this step is optional.
pub const OFFER_OPTIONAL_STEP: &'static str = "This is an OPTIONAL step - the passphrase is the BIP39 \"25th word\".";

/// The call to action above the prompt.
pub const OFFER_SKIP_HINT: &'static str = "Add one now with [Y], or skip it with [N]. Most people skip this.";

/// The offer prompt when entry is available.
pub const OFFER_PROMPT: &'static str = "[Y] Add a passphrase      [N] No passphrase (empty)";

/// First line of the offer when entry is not available.
pub const OFFER_DISABLED_1: &'static str =
    "A passphrase requires a verified keyboard, which was not confirmed on this device.";

/// Second line: only the empty path remains.
pub const OFFER_DISABLED_2: &'static str = "Generation continues with the EMPTY passphrase.";

/// The prompt when only the empty path is offered.
pub const OFFER_DISABLED_PROMPT: &'static str = "[N] Continue with no passphrase (empty)";

/// The offer's title.
pub const OFFER_TITLE: &'static str = "OPTIONAL PASSPHRASE";

/// Title of the first entry.
pub const ENTRY_TITLE_1: &'static str = "ENTER PASSPHRASE (masked)";

/// Title of the confirming entry.
pub const ENTRY_TITLE_2: &'static str = "RE-ENTER PASSPHRASE (masked; must match)";

/// Help line of the entry screen.
pub const ENTRY_HELP: &'static str = "Type your passphrase. Printable ASCII only (letters, digits, space, punctuation).";

/// Key line of the entry screen.
pub const ENTRY_KEYS: &'static str = "[Enter] Commit   [Backspace] Delete   [Esc] Cancel (use empty passphrase)";

/// Shown when a key that is not printable ASCII is refused.
pub const ENTRY_ERR_NON_ASCII: &'static str = "That key is not printable ASCII and was rejected (not added).";

/// Shown when the buffer is full.
pub const ENTRY_ERR_FULL: &'static str = "Passphrase is full (maximum length reached).";

/// Shown on the confirming entry after a mismatch.
pub const CONFIRM_MISMATCH_MSG: &'static str = "The two entries did not match. Both were discarded; enter it again.";

/// First line of the keyboard-unverified screen.
pub const KBD_UNVERIFIED_1: &'static str = "Keyboard check failed: this device did not deliver every required key.";

/// Second line of the keyboard-unverified screen.
pub const KBD_UNVERIFIED_2: &'static str = "Passphrase entry is disabled; generation continues with the EMPTY passphrase.";

/// Acknowledge prompt of the keyboard-unverified screen.
pub const KBD_UNVERIFIED_PROMPT: &'static str = "[Enter] Continue";

/// Title of the extended keyboard check.
pub const EXT_TITLE: &'static str = "KEYBOARD CHECK FOR PASSPHRASE (type each shown key)";

/// The user's choice at the passphrase offer.
#[derive(Debug, Clone, Copy, PartialEq, Eq, Structural)]
pub enum OfferChoice {
    /// `[Y]` add a passphrase.
    Yes,
    /// `[N]` use the empty passphrase.
    No,
}

/// Which of the two entries is being typed.
#[derive(Debug, Clone, Copy, PartialEq, Eq, Structural)]
pub enum EntryPhase {
    /// The first entry (the committed buffer).
    First,
    /// The confirming entry.
    Confirm,
}

/// How one masked entry ended.
#[derive(Debug, Clone, Copy, PartialEq, Eq, Structural)]
pub enum EntryOutcome {
    /// `[Enter]`: the buffer holds the committed bytes (possibly none).
    Committed,
    /// `[Esc]`: the buffer was scrubbed; the empty passphrase is used.
    Cancelled,
}

/// How an edition decides whether passphrase entry is available.
#[derive(Debug, Clone, Copy, PartialEq, Eq, Structural)]
pub enum PassphraseKeyboardPolicy {
    /// The host keyboard delivers every printable ASCII key.
    HostKeyboardTrusted,
    /// The extended printable-ASCII keyboard check is offered.
    RequireExtendedSelfTest,
}

/// Why a character was not added.
#[derive(Debug, Clone, Copy, PartialEq, Eq, Structural)]
pub enum PassphraseInputError {
    /// Not printable ASCII (space through tilde).
    NotPrintableAscii,
    /// The buffer is at capacity.
    Full,
}

/// Printable ASCII: space (0x20) through tilde (0x7E).
pub open spec fn spec_printable(c: char) -> bool {
    0x20 <= (c as u32) && (c as u32) <= 0x7E
}

/// A passphrase buffer of fixed capacity holding printable ASCII bytes;
/// every byte past the content is zero.
pub struct PassphraseBuffer {
    storage: Vec<u8>,
    len: usize,
}

impl View for PassphraseBuffer {
    type V = Seq<u8>;

    closed spec fn view(&self) -> Seq<u8> {
        self.storage@.subrange(0, self.len as int)
    }
}

impl PassphraseBuffer {
    #[verifier::type_invariant]
    spec fn inv(self) -> bool {
        &&& self.len <= self.storage@.len()
        &&& forall|i: int| self.len <= i < self.storage@.len() ==> self.storage@[i] == 0
    }

    /// The most bytes the buffer holds.
    pub closed spec fn capacity(self) -> nat {
        self.storage@.len()
    }

    /// Every byte of the backing storage is zero.
    pub closed spec fn storage_zeroed(self) -> bool {
        forall|i: int| 0 <= i < self.storage@.len() ==> self.storage@[i] == 0
    }

    /// An empty, zeroed buffer holding at most `capacity` bytes.
    pub fn new(capacity: usize) -> (r: Self)
        ensures
            r@ == Seq::<u8>::empty(),
            r.capacity() == capacity,
            r.storage_zeroed(),
    {
        let mut storage: Vec<u8> = Vec::new();
        let mut i: usize = 0;
        while i < capacity
            invariant
                i <= capacity,
                storage@.len() == i,
                forall|j: int| 0 <= j < i ==> storage@[j] == 0,
            decreases capacity - i,
        {
            storage.push(0);
            i = i + 1;
        }
        let r = PassphraseBuffer { storage, len: 0 };
        assert(r@ =~= Seq::<u8>::empty());
        r
    }

    /// The number of bytes held.
    pub fn len(&self) -> (r: usize)
        ensures
            r == self@.len(),
            r <= self.capacity(),
    {
        proof {
            use_type_invariant(self);
        }
        self.len
    }

    /// Whether the buffer holds nothing.
    pub fn is_empty(&self) -> (r: bool)
        ensures
            r == (self@.len() == 0),
    {
        proof {
            use_type_invariant(self);
        }
        self.len == 0
    }

    /// A copy of the held bytes.
    pub fn as_bytes(&self) -> (r: Vec<u8>)
        ensures
            r@ == self@,
    {
        proof {
            use_type_invariant(self);
        }
        let mut r: Vec<u8> = Vec::new();
        let mut i: usize = 0;
        while i < self.len
            invariant
                i <= self.len,
                self.len <= self.storage@.len(),
                r@ == self.storage@.subrange(0, i as int),
            decreases self.len - i,
        {
            r.push(self.storage[i]);
            i = i + 1;
            assert(r@ =~= self.storage@.subrange(0, i as int));
        }
        r
    }

    /// Append `c` if it is printable ASCII and there is room; a character
    /// that is not printable ASCII is refused first, then a full buffer.
    pub fn push_char(&mut self, c: char) -> (r: Result<(), PassphraseInputError>)
        ensures
            final(self).capacity() == old(self).capacity(),
            !spec_printable(c) ==> r == Err::<(), PassphraseInputError>(PassphraseInputError::NotPrintableAscii)
                && final(self)@ == old(self)@,
            spec_printable(c) && old(self)@.len() >= old(self).capacity() ==> r == Err::<
                (),
                PassphraseInputError,
            >(PassphraseInputError::Full) && final(self)@ == old(self)@,
            spec_printable(c) && old(self)@.len() < old(self).capacity() ==> r is Ok && final(self)@ == old(
                self,
            )@.push((c as u32) as u8),
    {
        proof {
            use_type_invariant(&*self);
        }
        let u = c as u32;
        if u < 0x20 || u > 0x7E {
            return Err(PassphraseInputError::NotPrintableAscii);
        }
        if self.len >= self.storage.len() {
            return Err(PassphraseInputError::Full);
        }
        let mut tmp = PassphraseBuffer { storage: Vec::new(), len: 0 };
        std::mem::swap(&mut tmp, self);
        proof {
            use_type_invariant(&tmp);
        }
        let PassphraseBuffer { storage: mut storage, len } = tmp;
        storage.set(len, u as u8);
        let r = PassphraseBuffer { storage, len: len + 1 };
        *self = r;
        assert(self@ =~= old(self)@.push((c as u32) as u8));
        Ok(())
    }

    /// Remove the last byte (if any), zeroing its cell.
    pub fn backspace(&mut self)
        ensures
            final(self).capacity() == old(self).capacity(),
            final(self)@ == if old(self)@.len() > 0 {
                old(self)@.drop_last()
            } else {
                old(self)@
            },
    {
        proof {
            use_type_invariant(&*self);
        }
        if self.len == 0 {
            return;
        }
        let mut tmp = PassphraseBuffer { storage: Vec::new(), len: 0 };
        std::mem::swap(&mut tmp, self);
        proof {
            use_type_invariant(&tmp);
        }
        let PassphraseBuffer { storage: mut storage, len: old_len } = tmp;
        let len = old_len - 1;
        storage.set(len, 0);
        let r = PassphraseBuffer { storage, len };
        *self = r;
        assert(self@ =~= old(self)@.drop_last());
    }

    /// Zero every byte and empty the buffer.
    pub fn scrub(&mut self)
        ensures
            final(self).capacity() == old(self).capacity(),
            final(self)@ == Seq::<u8>::empty(),
            final(self).storage_zeroed(),
    {
        let mut tmp = PassphraseBuffer { storage: Vec::new(), len: 0 };
        std::mem::swap(&mut tmp, self);
        let PassphraseBuffer { storage: mut storage, len: _ } = tmp;
        let n = storage.len();
        let mut i: usize = 0;
        while i < n
            invariant
                i <= n,
                storage@.len() == n,
                forall|j: int| 0 <= j < i ==> storage@[j] == 0,
            decreases n - i,
        {
            storage.set(i, 0);
            i = i + 1;
        }
        let r = PassphraseBuffer { storage, len: 0 };
        *self = r;
        assert(self@ =~= Seq::<u8>::empty());
    }

    /// Whether two buffers of the same capacity hold the same bytes,
    /// comparing the whole storage without stopping at the first
    /// difference.
    pub fn same_contents(&self, other: &PassphraseBuffer) -> (r: bool)
        requires
            self.capacity() == other.capacity(),
        ensures
            r == (self@ == other@),
    {
        proof {
            use_type_invariant(self);
            use_type_invariant(other);
        }
        let n = self.storage.len();
        let mut equal = self.len == other.len;
        let mut i: usize = 0;
        while i < n
            invariant
                i <= n,
                n == self.storage@.len(),
                n == other.storage@.len(),
                equal == (self.len == other.len && forall|j: int|
                    0 <= j < i ==> self.storage@[j] == other.storage@[j]),
            decreases n - i,
        {
            if self.storage[i] != other.storage[i] {
                equal = false;
            }
            i = i + 1;
        }
        proof {
            if equal {
                assert(self@ =~= other@);
            }
            if self@ == other@ {
                assert(self@.len() == self.len);
                assert(other@.len() == other.len);
                assert(self.len == other.len);
                assert forall|j: int| 0 <= j < n implies self.storage@[j] == other.storage@[j] by {
                    if j < self.len {
                        assert(self@[j] == other@[j]);
                    }
                }
            }
        }
        equal
    }
}

pub open spec fn spec_offer_choice(k: MenuKey, entry_available: bool) -> Option<OfferChoice> {
    match k {
        MenuKey::Char(c) => if entry_available && spec_fold(c) == spec_fold('y') {
            Some(OfferChoice::Yes)
        } else if spec_fold(c) == spec_fold('n') {
            Some(OfferChoice::No)
        } else {
            None
        },
        _ => None,
    }
}

/// `Y` adds a passphrase (only when entry is available), `N` uses the
/// empty one; Enter and every other key are ignored.
pub fn offer_choice_of(k: MenuKey, entry_available: bool) -> (r: Option<OfferChoice>)
    ensures
        r == spec_offer_choice(k, entry_available),
{
    match k {
        MenuKey::Char(c) => {
            if entry_available && crate::keys::ascii_eq_ignore_case(c, 'y') {
                Some(OfferChoice::Yes)
            } else if crate::keys::ascii_eq_ignore_case(c, 'n') {
                Some(OfferChoice::No)
            } else {
                None
            }
        },
        _ => None,
    }
}

/// Read the offer until an explicit choice.
pub fn read_offer_choice(k: &mut ScriptedKeys, entry_available: bool) -> (r: Option<OfferChoice>)
    requires
        old(k).pos <= old(k).events@.len(),
    ensures
        reads_first(*old(k), *final(k), |x: MenuKey| spec_offer_choice(x, entry_available), r),
{
    let ghost start = k.pos;
    loop
        invariant
            k.events@ == old(k).events@,
            old(k).pos <= k.pos <= k.events@.len(),
            start == old(k).pos,
            forall|j: int|
                start <= j < k.pos ==> (#[trigger] spec_offer_choice(k.events@[j], entry_available)) is None,
        decreases k.events@.len() - k.pos,
    {
        match k.read_menu_key() {
            None => {
                return None;
            },
            Some(key) => {
                let d = offer_choice_of(key, entry_available);
                if d.is_some() {
                    return d;
                }
            },
        }
    }
}

/// The lines of the offer screen.
pub open spec fn spec_offer_lines(entry_available: bool) -> Seq<Seq<char>> {
    seq![OFFER_TITLE@, ""@] + seq![
        OFFER_WARN[0]@,
        OFFER_WARN[1]@,
        OFFER_WARN[2]@,
        OFFER_WARN[3]@,
        OFFER_WARN[4]@,
        OFFER_WARN[5]@,
        OFFER_WARN[6]@,
        ""@,
    ] + if entry_available {
        seq![OFFER_OPTIONAL_STEP@, OFFER_SKIP_HINT@, ""@, OFFER_PROMPT@]
    } else {
        seq![OFFER_DISABLED_1@, OFFER_DISABLED_2@, OFFER_DISABLED_PROMPT@]
    }
}

/// The lines of the offer screen: title, the warnings, then the optional
/// step and both choices, or only the empty path when entry is not
/// available.
pub fn offer_lines(entry_available: bool) -> (r: Vec<&'static str>)
    ensures
        r@.map_values(|s: &'static str| s@) == spec_offer_lines(entry_available),
{
    let mut r: Vec<&'static str> = Vec::new();
    r.push(OFFER_TITLE);
    r.push("");
    r.push(OFFER_WARN[0]);
    r.push(OFFER_WARN[1]);
    r.push(OFFER_WARN[2]);
    r.push(OFFER_WARN[3]);
    r.push(OFFER_WARN[4]);
    r.push(OFFER_WARN[5]);
    r.push(OFFER_WARN[6]);
    r.push("");
    if entry_available {
        r.push(OFFER_OPTIONAL_STEP);
        r.push(OFFER_SKIP_HINT);
        r.push("");
        r.push(OFFER_PROMPT);
    } else {
        r.push(OFFER_DISABLED_1);
        r.push(OFFER_DISABLED_2);
        r.push(OFFER_DISABLED_PROMPT);
    }
    assert(r@.map_values(|s: &'static str| s@) =~= spec_offer_lines(entry_available));
    r
}

/// The transient note under the masked entry.
#[derive(Debug, Clone, Copy, PartialEq, Eq, Structural)]
pub enum EntryBanner {
    /// A key that is not printable ASCII was refused.
    NonAscii,
    /// The buffer is full.
    Full,
}

/// What the entry does after one key.
#[derive(Debug, Clone, Copy, PartialEq, Eq, Structural)]
pub enum EntryStep {
    /// Keep reading, showing this note (if any).
    Continue(Option<EntryBanner>),
    /// The entry ended.
    Done(EntryOutcome),
}

/// One key of the masked entry over content `content` of a buffer with
/// capacity `cap`, with `banner` currently shown: the content after the
/// key and what the entry does next.
pub open spec fn spec_entry_step(content: Seq<u8>, cap: nat, banner: Option<EntryBanner>, key: MenuKey) -> (
    Seq<u8>,
    EntryStep,
) {
    match key {
        MenuKey::Enter => (content, EntryStep::Done(EntryOutcome::Committed)),
        MenuKey::Escape => (Seq::empty(), EntryStep::Done(EntryOutcome::Cancelled)),
        MenuKey::Backspace => (
            if content.len() > 0 {
                content.drop_last()
            } else {
                content
            },
            EntryStep::Continue(None),
        ),
        MenuKey::Char(c) => if !spec_printable(c) {
            (content, EntryStep::Continue(Some(EntryBanner::NonAscii)))
        } else if content.len() >= cap {
            (content, EntryStep::Continue(Some(EntryBanner::Full)))
        } else {
            (content.push((c as u32) as u8), EntryStep::Continue(None))
        },
        MenuKey::Other => (content, EntryStep::Continue(banner)),
    }
}

/// Apply one key to the masked entry: Enter commits, Escape scrubs and
/// cancels, Backspace removes the last byte, a printable ASCII character is
/// added while there is room (a refused key shows why), any other key
/// changes nothing.
pub fn entry_step(buf: &mut PassphraseBuffer, banner: Option<EntryBanner>, key: MenuKey) -> (r: EntryStep)
    ensures
        final(buf).capacity() == old(buf).capacity(),
        (final(buf)@, r) == spec_entry_step(old(buf)@, old(buf).capacity(), banner, key),
        r == EntryStep::Done(EntryOutcome::Cancelled) ==> final(buf).storage_zeroed(),
{
    match key {
        MenuKey::Enter => EntryStep::Done(EntryOutcome::Committed),
        MenuKey::Escape => {
            buf.scrub();
            EntryStep::Done(EntryOutcome::Cancelled)
        },
        MenuKey::Backspace => {
            buf.backspace();
            EntryStep::Continue(None)
        },
        MenuKey::Char(c) => match buf.push_char(c) {
            Ok(()) => EntryStep::Continue(None),
            Err(PassphraseInputError::NotPrintableAscii) => EntryStep::Continue(Some(EntryBanner::NonAscii)),
            Err(PassphraseInputError::Full) => EntryStep::Continue(Some(EntryBanner::Full)),
        },
        MenuKey::Other => EntryStep::Continue(banner),
    }
}

/// The masked entry run over `keys` from content `content`: the content
/// when it stops, how it ended (`None` when the keys ran out first), and
/// how many keys it read.
pub open spec fn spec_entry_run(content: Seq<u8>, cap: nat, banner: Option<EntryBanner>, keys: Seq<MenuKey>) -> (
    Seq<u8>,
    Option<EntryOutcome>,
    nat,
)
    decreases keys.len(),
{
    if keys.len() == 0 {
        (content, None, 0)
    } else {
        let (c, step) = spec_entry_step(content, cap, banner, keys[0]);
        match step {
            EntryStep::Done(o) => (c, Some(o), 1),
            EntryStep::Continue(b) => {
                let (c2, o2, n2) = spec_entry_run(c, cap, b, keys.drop_first());
                (c2, o2, n2 + 1)
            },
        }
    }
}

/// Drive one masked entry over the key stream, starting with
/// `initial_banner` shown: returns how it ended, or `None` when the keys
/// ran out first.
pub fn run_entry(k: &mut ScriptedKeys, buf: &mut PassphraseBuffer, initial_banner: Option<EntryBanner>) -> (r:
    Option<EntryOutcome>)
    requires
        old(k).pos <= old(k).events@.len(),
    ensures
        final(k).events@ == old(k).events@,
        final(buf).capacity() == old(buf).capacity(),
        ({
            let run = spec_entry_run(
                old(buf)@,
                old(buf).capacity(),
                initial_banner,
                old(k).events@.subrange(old(k).pos as int, old(k).events@.len() as int),
            );
            &&& r == run.1
            &&& final(buf)@ == run.0
            &&& final(k).pos == old(k).pos + run.2
        }),
        r == Some(EntryOutcome::Cancelled) ==> final(buf)@ == Seq::<u8>::empty(),
{
    let ghost cap = buf.capacity();
    let ghost total = spec_entry_run(
        buf@,
        cap,
        initial_banner,
        k.events@.subrange(k.pos as int, k.events@.len() as int),
    );
    let ghost p0 = k.pos;
    let mut banner = initial_banner;
    loop
        invariant
            k.events@ == old(k).events@,
            p0 == old(k).pos,
            p0 <= k.pos <= k.events@.len(),
            buf.capacity() == cap,
            cap == old(buf).capacity(),
            total == spec_entry_run(
                old(buf)@,
                cap,
                initial_banner,
                old(k).events@.subrange(p0 as int, old(k).events@.len() as int),
            ),
            ({
                let rest = spec_entry_run(buf@, cap, banner, k.events@.subrange(k.pos as int, k.events@.len() as int));
                &&& rest.0 == total.0
                &&& rest.1 == total.1
                &&& rest.2 + (k.pos - p0) == total.2
            }),
        decreases k.events@.len() - k.pos,
    {
        let ghost before_pos = k.pos;
        let ghost rest_keys = k.events@.subrange(k.pos as int, k.events@.len() as int);
        match k.read_menu_key() {
            None => {
                return None;
            },
            Some(key) => {
                proof {
                    assert(rest_keys[0] == key);
                    assert(rest_keys.drop_first() =~= k.events@.subrange(k.pos as int, k.events@.len() as int));
                }
                let step = entry_step(buf, banner, key);
                match step {
                    EntryStep::Done(o) => {
                        return Some(o);
                    },
                    EntryStep::Continue(b) => {
                        banner = b;
                    },
                }
            },
        }
    }
}

/// The lines of one masked entry frame: title, help, one `*` per byte,
/// the length, the note (or a blank line) and the keys.
pub open spec fn spec_entry_lines(phase: EntryPhase, len: nat, banner: Option<EntryBanner>) -> Seq<Seq<char>> {
    seq![
        match phase {
            EntryPhase::First => ENTRY_TITLE_1@,
            EntryPhase::Confirm => ENTRY_TITLE_2@,
        },
        ""@,
        ENTRY_HELP@,
        ""@,
        seq![' ', ' '] + Seq::new(len, |i: int| '*'),
        "Length: "@ + spec_decimal(len),
        ""@,
        match banner {
            Some(EntryBanner::NonAscii) => ENTRY_ERR_NON_ASCII@,
            Some(EntryBanner::Full) => ENTRY_ERR_FULL@,
            None => ""@,
        },
        ""@,
        ENTRY_KEYS@,
    ]
}

/// The mask row: two spaces, then one `*` per byte.
fn mask_row(len: usize) -> (r: String)
    ensures
        r@ == seq![' ', ' '] + Seq::new(len as nat, |i: int| '*'),
{
    let mut s = String::new();
    proof {
        reveal_strlit("  ");
        reveal_strlit("*");
    }
    push_str(&mut s, "  ");
    let mut i: usize = 0;
    while i < len
        invariant
            i <= len,
            "*"@ == seq!['*'],
            s@ == seq![' ', ' '] + Seq::new(i as nat, |j: int| '*'),
        decreases len - i,
    {
        push_str(&mut s, "*");
        i = i + 1;
        assert(s@ =~= seq![' ', ' '] + Seq::new(i as nat, |j: int| '*'));
    }
    s
}

/// The lines of one masked entry frame (the passphrase itself is never
/// part of them).
pub fn entry_lines(phase: EntryPhase, len: usize, banner: Option<EntryBanner>) -> (r: Vec<String>)
    ensures
        r@.map_values(|s: String| s@) == spec_entry_lines(phase, len as nat, banner),
{
    let mut r: Vec<String> = Vec::new();
    let title = match phase {
        EntryPhase::First => ENTRY_TITLE_1,
        EntryPhase::Confirm => ENTRY_TITLE_2,
    };
    r.push(title.to_owned());
    r.push("".to_owned());
    r.push(ENTRY_HELP.to_owned());
    r.push("".to_owned());
    r.push(mask_row(len));
    let mut count = String::new();
    push_str(&mut count, "Length: ");
    push_decimal(&mut count, len as u64);
    r.push(count);
    r.push("".to_owned());
    let note = match banner {
        Some(EntryBanner::NonAscii) => ENTRY_ERR_NON_ASCII,
        Some(EntryBanner::Full) => ENTRY_ERR_FULL,
        None => "",
    };
    r.push(note.to_owned());
    r.push("".to_owned());
    r.push(ENTRY_KEYS.to_owned());
    assert(r@.map_values(|s: String| s@) =~= spec_entry_lines(phase, len as nat, banner));
    r
}


/// Backspace takes back exactly one accepted character: after a printable
/// `c` is appended to a buffer holding `before`, backspace leaves `before`.
pub proof fn lemma_push_then_backspace(before: Seq<u8>, c: char)
    requires
        spec_printable(c),
    ensures
        ({
            let after = before.push((c as u32) as u8);
            after.len() > 0 && after.drop_last() == before
        }),
{
    assert(before.push((c as u32) as u8).drop_last() =~= before);
}

} // verus!
