use std::cell::RefCell;
use std::rc::Rc;

use seed_flow::shutdown::{
    after_request, request_with_retry, scrub_arena_steps, scrub_plan, ArenaScrubSteps, FaultHook, LoggedShutdown,
    NoFaultHook, ScrubRun, ScrubStep, ShutdownAction, ShutdownFailure, ShutdownProvider, SHUTDOWN_FAILED_LINES,
    SHUTDOWN_FAILED_LINE_1, SHUTDOWN_FAILED_LINE_2, SHUTDOWN_FAILED_LINE_3,
};

type Log = Rc<RefCell<Vec<&'static str>>>;

struct SpyArena {
    log: Log,
}

impl ArenaScrubSteps for SpyArena {
    fn scrub_reentry_state(&mut self) {
        self.log.borrow_mut().push("reentry");
    }
    fn scrub_mnemonic_indexes(&mut self) {
        self.log.borrow_mut().push("mnemonic");
    }
    fn scrub_derived_secrets(&mut self) {
        self.log.borrow_mut().push("derived");
    }
    fn scrub_all(&mut self) {
        self.log.borrow_mut().push("all");
    }
}

struct RecordingHook {
    log: Log,
}

impl FaultHook for RecordingHook {
    fn before_scrub_reentry(&mut self) {
        self.log.borrow_mut().push("hook reentry");
    }
    fn before_scrub_mnemonic(&mut self) {
        self.log.borrow_mut().push("hook mnemonic");
    }
    fn before_scrub_derived_secrets(&mut self) {
        self.log.borrow_mut().push("hook derived");
    }
    fn before_scrub_arena(&mut self) {
        self.log.borrow_mut().push("hook all");
    }
    fn before_scrub_framebuffer(&mut self) {
        self.log.borrow_mut().push("hook framebuffer");
    }
    fn before_fences(&mut self) {
        self.log.borrow_mut().push("hook fences");
    }
    fn before_shutdown_request(&mut self) {
        self.log.borrow_mut().push("hook shutdown");
    }
}

struct Scripted {
    answers: Vec<bool>,
    calls: usize,
}

impl ShutdownProvider for Scripted {
    fn request_shutdown(&mut self) -> Result<(), ShutdownFailure> {
        let ok = self.answers[self.calls];
        self.calls += 1;
        if ok {
            Ok(())
        } else {
            Err(ShutdownFailure)
        }
    }
}

#[test]
fn exact_spec_26_failure_text() {
    assert_eq!(SHUTDOWN_FAILED_LINE_1, "AUTOMATIC SHUTDOWN FAILED");
    assert_eq!(SHUTDOWN_FAILED_LINE_2, "Hold the physical power button until the machine is completely off.");
    assert_eq!(SHUTDOWN_FAILED_LINE_3, "Do not boot another operating system first.");
    assert_eq!(SHUTDOWN_FAILED_LINES, [SHUTDOWN_FAILED_LINE_1, "", SHUTDOWN_FAILED_LINE_2, SHUTDOWN_FAILED_LINE_3]);
}

#[test]
fn no_fault_hook_is_a_pure_default_marker() {
    let _h = NoFaultHook;
}

#[test]
fn scrub_secrets_runs_every_step_in_spec_26_order_and_returns() {
    let log: Log = Rc::new(RefCell::new(Vec::new()));
    let mut run = ScrubRun::new(SpyArena { log: log.clone() }, RecordingHook { log: log.clone() });
    scrub_arena_steps(&mut run);
    run.hook_before(ScrubStep::Framebuffer);
    run.hook_before(ScrubStep::Fences);
    assert_eq!(
        *log.borrow(),
        vec![
            "hook reentry",
            "reentry",
            "hook mnemonic",
            "mnemonic",
            "hook derived",
            "derived",
            "hook all",
            "all",
            "hook framebuffer",
            "hook fences",
        ]
    );
    assert_eq!(
        scrub_plan(),
        vec![
            ScrubStep::ReentryState,
            ScrubStep::MnemonicIndexes,
            ScrubStep::DerivedSecrets,
            ScrubStep::WholeArena,
            ScrubStep::Framebuffer,
            ScrubStep::Fences,
        ]
    );
}

#[test]
fn shutdown_failure_retries_once_then_halts_with_exact_failure_text() {
    let mut p = LoggedShutdown::new(Scripted { answers: vec![false, false], calls: 0 });
    assert_eq!(request_with_retry(&mut p), (ShutdownAction::ShowFailureThenHalt, 2));
    assert_eq!(p.provider.calls, 2);
}

#[test]
fn shutdown_succeeding_on_retry_does_not_show_failure_screen() {
    let mut p = LoggedShutdown::new(Scripted { answers: vec![false, true], calls: 0 });
    assert_eq!(request_with_retry(&mut p), (ShutdownAction::Halt, 2));
    assert_eq!(p.provider.calls, 2);
}

#[test]
fn happy_path_requests_shutdown_once_then_halts() {
    let mut p = LoggedShutdown::new(Scripted { answers: vec![true], calls: 0 });
    assert_eq!(request_with_retry(&mut p), (ShutdownAction::Halt, 1));
    assert_eq!(p.provider.calls, 1);
    assert_eq!(after_request(1, false), ShutdownAction::Retry);
    assert_eq!(after_request(2, false), ShutdownAction::ShowFailureThenHalt);
}

#[test]
fn no_fault_hook_hooks_do_nothing() {
    let log: Log = Rc::new(RefCell::new(Vec::new()));
    let mut hook = NoFaultHook;
    hook.before_scrub_framebuffer();
    hook.before_fences();
    hook.before_shutdown_request();
    let mut run = ScrubRun::new(SpyArena { log: log.clone() }, hook);
    scrub_arena_steps(&mut run);
    run.hook_before_shutdown_request();
    assert_eq!(*log.borrow(), vec!["reentry", "mnemonic", "derived", "all"]);
}
