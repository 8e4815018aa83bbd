//! The secret-phase seed ceremony, as verified logic.
//!
//! - `contracts`: the shared vocabulary (targets, word counts, source tags,
//!   path standards, script types).
//! - `keys`: keystrokes and the per-key decisions of every blocking prompt.
//! - `physical`, `physical_screen`, `physical_layout`, `dice_coin_art`:
//!   dice/coin bookkeeping, the entry loop, its screen and the proof that
//!   the screen fits the console.
//! - `machine`, `composition`, `derive`: machine-source assembly, the
//!   entropy-composition panel and the ordered source records.
//! - `display`, `reentry`, `passphrase`, `verification`, `education`: the
//!   post-secret screens and their decisions.
//! - `path_parse`, `custom_path`, `custom_path_screen`, `readback`: the
//!   free-form derivation-path parser, the structured path builder, its
//!   screens, and the law that the two agree.
//! - `driver`: the ceremony's decisions from state to state.
//! - `shutdown`: the ordered scrub plan, the recorded scrub calls and the
//!   shutdown request with one retry.
//! - `text`: line-oriented screen output and number formatting.
use vstd::prelude::*;

pub mod contracts;
pub mod keys;
pub mod path_parse;
pub mod custom_path;
pub mod physical;
pub mod composition;
pub mod machine;
pub mod driver;
pub mod derive;
pub mod text;
pub mod dice_coin_art;
pub mod physical_screen;
pub mod display;
pub mod reentry;
pub mod passphrase;
pub mod verification;
pub mod education;
pub mod shutdown;
pub mod custom_path_screen;
pub mod readback;
pub mod physical_layout;

verus! {

} // verus!
