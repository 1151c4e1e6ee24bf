//! The run of one capture, from the first navigation to the exit status.

use vstd::prelude::*;
use crate::navigation::{classification, classify, NavigationOutcome, OutcomeView};
use crate::output::{payload_of, plan_emission, Emission, OutputTarget, TargetView};

verus! {

/// What one run is configured with.
pub struct CaptureConfig {
    pub start_url: String,
    /// The query parameter that carries the authorization code.
    pub code_param: String,
    /// The query parameter that carries an error description.
    pub error_param: String,
    pub output: OutputTarget,
    /// How long, in milliseconds, a held-back window waits for the page.
    pub visibility_timeout_ms: u64,
}

/// The process exits with 0 once a code is captured and with 1 otherwise.
pub const EXIT_CODE_CAPTURED: i32 = 0;

pub const EXIT_FAILURE: i32 = 1;

#[derive(PartialEq, Eq, Structural, Clone, Copy, Debug)]
pub enum Phase {
    Running,
    Terminating(i32),
    Exited(i32),
}

/// What the browser is to do with a navigation attempt.
#[derive(Debug)]
pub enum NavigationStep {
    /// Let the navigation go on.
    Proceed,
    /// Cancel the navigation, write the emission, close the window and exit
    /// with the code.
    Finish(Emission, i32),
    /// Cancel the navigation; the capture has already finished.
    Block,
}

pub open spec fn exit_code_of(o: OutcomeView) -> i32 {
    match o {
        OutcomeView::Code(_) => EXIT_CODE_CAPTURED,
        _ => EXIT_FAILURE,
    }
}

/// How a navigation with outcome `o` moves the run from `before` to `after`
/// with answer `r`.
pub open spec fn navigation_step_spec(
    before: Phase,
    o: OutcomeView,
    target: TargetView,
    after: Phase,
    r: NavigationStep,
) -> bool {
    if before != Phase::Running {
        after == before && r is Block
    } else if o is Continue {
        after == before && r is Proceed
    } else {
        after == Phase::Terminating(exit_code_of(o)) && match r {
            NavigationStep::Finish(e, code) => code == exit_code_of(o) && e.target@ == target
                && payload_of(o) == Some(e.text@),
            _ => false,
        }
    }
}

pub struct Lifecycle {
    pub phase: Phase,
}

impl Lifecycle {
    pub fn new() -> (r: Lifecycle)
        ensures
            r.phase == Phase::Running,
    {
        Lifecycle { phase: Phase::Running }
    }

    /// Acts on the outcome of one navigation attempt. Only the first terminal
    /// outcome is acted on; after it every navigation is blocked.
    pub fn on_outcome(&mut self, outcome: &NavigationOutcome, target: &OutputTarget) -> (r:
        NavigationStep)
        ensures
            navigation_step_spec(old(self).phase, outcome@, target@, final(self).phase, r),
    {
        if self.phase != Phase::Running {
            return NavigationStep::Block;
        }
        match plan_emission(outcome, target) {
            None => NavigationStep::Proceed,
            Some(e) => {
                let code = match outcome {
                    NavigationOutcome::Code(_) => EXIT_CODE_CAPTURED,
                    _ => EXIT_FAILURE,
                };
                self.phase = Phase::Terminating(code);
                NavigationStep::Finish(e, code)
            },
        }
    }

    /// Acts on the browser's attempt to navigate to `url`.
    pub fn on_navigation(&mut self, url: &str, cfg: &CaptureConfig) -> (r: NavigationStep)
        ensures
            navigation_step_spec(
                old(self).phase,
                classification(url@, cfg.code_param@, cfg.error_param@),
                cfg.output@,
                final(self).phase,
                r,
            ),
    {
        let outcome = classify(url, &cfg.code_param, &cfg.error_param);
        self.on_outcome(&outcome, &cfg.output)
    }

    /// The user asked to close the window: a run that is still going ends
    /// with failure; one that already finished keeps its code.
    pub fn on_close_requested(&mut self)
        ensures
            old(self).phase == Phase::Running ==> final(self).phase == Phase::Terminating(
                EXIT_FAILURE,
            ),
            old(self).phase != Phase::Running ==> final(self).phase == old(self).phase,
    {
        if self.phase == Phase::Running {
            self.phase = Phase::Terminating(EXIT_FAILURE);
        }
    }

    /// The window is gone: the run ends, and this is the exit status.
    pub fn exit(&mut self) -> (code: i32)
        ensures
            final(self).phase == Phase::Exited(code),
            code == match old(self).phase {
                Phase::Running => EXIT_FAILURE,
                Phase::Terminating(c) => c,
                Phase::Exited(c) => c,
            },
    {
        let code = match self.phase {
            Phase::Running => EXIT_FAILURE,
            Phase::Terminating(c) => c,
            Phase::Exited(c) => c,
        };
        self.phase = Phase::Exited(code);
        code
    }
}

} // verus!
