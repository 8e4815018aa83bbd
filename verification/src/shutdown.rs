//! Scrub-and-shutdown: the ordered scrub plan, the shutdown request with
//! one retry, and the verbatim failure text shown when both requests fail.
//!
//! The scrub plan is the single order both exits of the ceremony follow —
//! re-entry state, mnemonic indexes, derived secrets, the whole arena, the
//! framebuffer, then fences — whether the machine then powers off or the
//! operator chose to return to the menu.
use vstd::prelude::*;

verus! {

/// Shown when shutdown fails twice.
pub const SHUTDOWN_FAILED_LINE_1: &'static str = "AUTOMATIC SHUTDOWN FAILED";

/// Shown when shutdown fails twice.
pub const SHUTDOWN_FAILED_LINE_2: &'static str = "Hold the physical power button until the machine is completely off.";

/// Shown when shutdown fails twice.
pub const SHUTDOWN_FAILED_LINE_3: &'static str = "Do not boot another operating system first.";

/// The failure screen's lines.
pub const SHUTDOWN_FAILED_LINES: [&'static str; 4] = [SHUTDOWN_FAILED_LINE_1, "", SHUTDOWN_FAILED_LINE_2, SHUTDOWN_FAILED_LINE_3];

/// A shutdown request failed (carries nothing secret).
#[derive(Debug, Clone, Copy, PartialEq, Eq, Structural)]
pub struct ShutdownFailure;

/// The platform's complete-shutdown request.
pub trait ShutdownProvider {
    /// Request a complete shutdown; returning at all means it failed, `Err`
    /// says so explicitly.
    fn request_shutdown(&mut self) -> Result<(), ShutdownFailure>;
}

/// Fault-injection seam: called immediately before each numbered step of
/// the scrub-and-shutdown sequence. Every method defaults to doing nothing.
pub trait FaultHook {
    /// Before scrubbing re-entry state.
    fn before_scrub_reentry(&mut self) {
    }

    /// Before scrubbing mnemonic indexes.
    fn before_scrub_mnemonic(&mut self) {
    }

    /// Before scrubbing derived secrets.
    fn before_scrub_derived_secrets(&mut self) {
    }

    /// Before scrubbing the whole arena.
    fn before_scrub_arena(&mut self) {
    }

    /// Before scrubbing the framebuffer.
    fn before_scrub_framebuffer(&mut self) {
    }

    /// Before the fences.
    fn before_fences(&mut self) {
    }

    /// Before the shutdown request.
    fn before_shutdown_request(&mut self) {
    }
}

/// The hook that injects nothing.
pub struct NoFaultHook;

impl FaultHook for NoFaultHook {

}

/// The arena scrub steps, in the order the plan runs them.
pub trait ArenaScrubSteps {
    fn scrub_reentry_state(&mut self);

    fn scrub_mnemonic_indexes(&mut self);

    fn scrub_derived_secrets(&mut self);

    fn scrub_all(&mut self);
}

/// One step of the ordered scrub.
#[derive(Debug, Clone, Copy, PartialEq, Eq, Structural)]
pub enum ScrubStep {
    ReentryState,
    MnemonicIndexes,
    DerivedSecrets,
    WholeArena,
    Framebuffer,
    Fences,
}

/// The scrub order.
pub open spec fn spec_scrub_plan() -> Seq<ScrubStep> {
    seq![
        ScrubStep::ReentryState,
        ScrubStep::MnemonicIndexes,
        ScrubStep::DerivedSecrets,
        ScrubStep::WholeArena,
        ScrubStep::Framebuffer,
        ScrubStep::Fences,
    ]
}

/// The ordered scrub every exit runs: re-entry state, mnemonic indexes,
/// derived secrets, the whole arena (the complete-region catch-all), the
/// framebuffer, then fences.
pub fn scrub_plan() -> (r: Vec<ScrubStep>)
    ensures
        r@ == spec_scrub_plan(),
{
    let r = vec![
        ScrubStep::ReentryState,
        ScrubStep::MnemonicIndexes,
        ScrubStep::DerivedSecrets,
        ScrubStep::WholeArena,
        ScrubStep::Framebuffer,
        ScrubStep::Fences,
    ];
    assert(r@ =~= spec_scrub_plan());
    r
}

/// One call made during the ordered scrub: the fault hook before a step,
/// an arena step, or the fault hook before the shutdown request.
#[derive(Debug, Clone, Copy, PartialEq, Eq, Structural)]
pub enum ScrubCall {
    Hook(ScrubStep),
    Step(ScrubStep),
    HookShutdownRequest,
}

/// The arena steps of the plan, each right after its fault hook.
pub open spec fn spec_arena_calls() -> Seq<ScrubCall> {
    seq![
        ScrubCall::Hook(ScrubStep::ReentryState),
        ScrubCall::Step(ScrubStep::ReentryState),
        ScrubCall::Hook(ScrubStep::MnemonicIndexes),
        ScrubCall::Step(ScrubStep::MnemonicIndexes),
        ScrubCall::Hook(ScrubStep::DerivedSecrets),
        ScrubCall::Step(ScrubStep::DerivedSecrets),
        ScrubCall::Hook(ScrubStep::WholeArena),
        ScrubCall::Step(ScrubStep::WholeArena),
    ]
}

/// An arena and its fault hook, with the record of every call the scrub
/// made on them, oldest first.
pub struct ScrubRun<A: ArenaScrubSteps, H: FaultHook> {
    pub arena: A,
    pub hook: H,
    calls: Ghost<Seq<ScrubCall>>,
}

impl<A: ArenaScrubSteps, H: FaultHook> ScrubRun<A, H> {
    /// The calls made so far.
    pub closed spec fn calls(&self) -> Seq<ScrubCall> {
        self.calls@
    }

    /// The arena the run scrubs.
    pub closed spec fn spec_arena(&self) -> A {
        self.arena
    }

    /// The fault hook the run calls.
    pub closed spec fn spec_hook(&self) -> H {
        self.hook
    }

    /// A run over `arena` and `hook` with nothing called yet.
    pub fn new(arena: A, hook: H) -> (r: Self)
        ensures
            r.spec_arena() == arena,
            r.spec_hook() == hook,
            r.calls() == Seq::<ScrubCall>::empty(),
    {
        ScrubRun { arena, hook, calls: Ghost(Seq::empty()) }
    }

    /// Call the fault hook that precedes `step`.
    pub fn hook_before(&mut self, step: ScrubStep)
        ensures
            final(self).calls() == old(self).calls().push(ScrubCall::Hook(step)),
    {
        match step {
            ScrubStep::ReentryState => self.hook.before_scrub_reentry(),
            ScrubStep::MnemonicIndexes => self.hook.before_scrub_mnemonic(),
            ScrubStep::DerivedSecrets => self.hook.before_scrub_derived_secrets(),
            ScrubStep::WholeArena => self.hook.before_scrub_arena(),
            ScrubStep::Framebuffer => self.hook.before_scrub_framebuffer(),
            ScrubStep::Fences => self.hook.before_fences(),
        }
        self.calls = Ghost(self.calls@.push(ScrubCall::Hook(step)));
    }

    /// Call the fault hook that precedes the shutdown request.
    pub fn hook_before_shutdown_request(&mut self)
        ensures
            final(self).calls() == old(self).calls().push(ScrubCall::HookShutdownRequest),
    {
        self.hook.before_shutdown_request();
        self.calls = Ghost(self.calls@.push(ScrubCall::HookShutdownRequest));
    }

    /// Run one of the four arena steps.
    fn arena_step(&mut self, step: ScrubStep)
        requires
            step == ScrubStep::ReentryState || step == ScrubStep::MnemonicIndexes || step
                == ScrubStep::DerivedSecrets || step == ScrubStep::WholeArena,
        ensures
            final(self).calls() == old(self).calls().push(ScrubCall::Step(step)),
    {
        match step {
            ScrubStep::ReentryState => self.arena.scrub_reentry_state(),
            ScrubStep::MnemonicIndexes => self.arena.scrub_mnemonic_indexes(),
            ScrubStep::DerivedSecrets => self.arena.scrub_derived_secrets(),
            _ => self.arena.scrub_all(),
        }
        self.calls = Ghost(self.calls@.push(ScrubCall::Step(step)));
    }
}

/// Run the four arena steps of the plan, in order, each right after its
/// fault hook.
pub fn scrub_arena_steps<A: ArenaScrubSteps, H: FaultHook>(run: &mut ScrubRun<A, H>)
    ensures
        final(run).calls() == old(run).calls() + spec_arena_calls(),
{
    run.hook_before(ScrubStep::ReentryState);
    run.arena_step(ScrubStep::ReentryState);
    run.hook_before(ScrubStep::MnemonicIndexes);
    run.arena_step(ScrubStep::MnemonicIndexes);
    run.hook_before(ScrubStep::DerivedSecrets);
    run.arena_step(ScrubStep::DerivedSecrets);
    run.hook_before(ScrubStep::WholeArena);
    run.arena_step(ScrubStep::WholeArena);
    assert(run.calls() =~= old(run).calls() + spec_arena_calls());
}

/// What follows a shutdown request.
#[derive(Debug, Clone, Copy, PartialEq, Eq, Structural)]
pub enum ShutdownAction {
    /// Ask again (the first request failed).
    Retry,
    /// Halt without further output (the request returned without error).
    Halt,
    /// Show the failure text, then halt (both requests failed).
    ShowFailureThenHalt,
}

/// What follows request number `attempt` (1 or 2) that succeeded (`ok`) or
/// failed.
pub open spec fn spec_after_request(attempt: u32, ok: bool) -> ShutdownAction {
    if ok {
        ShutdownAction::Halt
    } else if attempt <= 1 {
        ShutdownAction::Retry
    } else {
        ShutdownAction::ShowFailureThenHalt
    }
}

/// A failed first request is retried once; a failed second request shows
/// the failure text and halts; a request that returns without error still
/// halts (it must never return to the caller).
pub fn after_request(attempt: u32, ok: bool) -> (r: ShutdownAction)
    ensures
        r == spec_after_request(attempt, ok),
{
    if ok {
        ShutdownAction::Halt
    } else if attempt <= 1 {
        ShutdownAction::Retry
    } else {
        ShutdownAction::ShowFailureThenHalt
    }
}

/// A shutdown provider with the record of its answers, oldest first
/// (`true` for a request that returned without error).
pub struct LoggedShutdown<P: ShutdownProvider> {
    pub provider: P,
    answers: Ghost<Seq<bool>>,
}

impl<P: ShutdownProvider> LoggedShutdown<P> {
    /// The provider's answers so far.
    pub closed spec fn answers(&self) -> Seq<bool> {
        self.answers@
    }

    /// The provider asked.
    pub closed spec fn spec_provider(&self) -> P {
        self.provider
    }

    /// A provider with no request made yet.
    pub fn new(provider: P) -> (r: Self)
        ensures
            r.spec_provider() == provider,
            r.answers() == Seq::<bool>::empty(),
    {
        LoggedShutdown { provider, answers: Ghost(Seq::empty()) }
    }

    /// Request shutdown once; `true` when the request returned without
    /// error.
    pub fn request(&mut self) -> (ok: bool)
        ensures
            final(self).answers() == old(self).answers().push(ok),
    {
        let ok = self.provider.request_shutdown().is_ok();
        self.answers = Ghost(self.answers@.push(ok));
        ok
    }
}

/// Request shutdown, retrying once on failure: one request when the first
/// answer is a success, otherwise exactly two; the result is `Halt` when
/// the last answer was a success and `ShowFailureThenHalt` when both
/// failed. The second value is the number of requests made.
pub fn request_with_retry<P: ShutdownProvider>(p: &mut LoggedShutdown<P>) -> (r: (ShutdownAction, u32))
    ensures
        ({
            let before = old(p).answers();
            let after = final(p).answers();
            &&& after.len() == before.len() + r.1
            &&& after.subrange(0, before.len() as int) == before
            &&& r.1 == (if after[before.len() as int] { 1u32 } else { 2u32 })
            &&& r.0 == (if after.last() { ShutdownAction::Halt } else { ShutdownAction::ShowFailureThenHalt })
        }),
{
    let ghost before = p.answers();
    let first = p.request();
    match after_request(1, first) {
        ShutdownAction::Retry => {
            let second = p.request();
            assert(p.answers().subrange(0, before.len() as int) =~= before);
            (after_request(2, second), 2)
        },
        other => {
            assert(p.answers().subrange(0, before.len() as int) =~= before);
            (other, 1)
        },
    }
}

/// Shutdown is retried exactly once: a first failure retries, a second
/// failure shows the failure text, and a success never does.
pub proof fn lemma_retry_once_then_fail()
    ensures
        spec_after_request(1, false) == ShutdownAction::Retry,
        spec_after_request(2, false) == ShutdownAction::ShowFailureThenHalt,
        spec_after_request(1, true) == ShutdownAction::Halt,
        spec_after_request(2, true) == ShutdownAction::Halt,
{
}

} // verus!
