//! The completion education screen: the verbatim re-entry verdict and the
//! reminders that follow it (a memorized phrase could pass, the backup is
//! the user's responsibility, restore and verify in the signing device,
//! confirm receiving addresses, send a small test amount first). No line
//! claims the physical backup was inspected or proved.
use vstd::prelude::*;

verus! {

/// The verdict heading.
pub const HEADER: &'static str = "RE-ENTRY MATCHED";

/// The verdict line.
pub const MATCHED_LINE: &'static str = "Every word you entered matched the generated mnemonic.";

/// The reminders shown under the verdict.
pub const REMINDER_LINES: [&'static str; 8] = [
    "A memorized phrase could also pass this check.",
    "The durability and secrecy of your physical backup remain your",
    "responsibility -- this check does not prove it.",
    "",
    "Restore this phrase in your intended signing device and verify",
    "derivation (master fingerprint and addresses) before use.",
    "Independently confirm any receiving address before relying on it.",
    "Send a small test amount before depositing substantial funds.",
];

} // verus!
