//! When the capture window becomes visible.
//!
//! A partition whose cache directory already exists has probably logged in
//! before, so the window is held back while a silent login may complete, and
//! shown by whichever comes first of the page load and a timeout.

use vstd::prelude::*;

verus! {

/// Whether an earlier session probably left stored credentials behind.
/// `cache_exists` is the outcome of asking the file system whether the cache
/// directory exists: `None` when that could not be determined.
pub fn is_likely_auto_login(cache_exists: Option<bool>) -> (r: bool)
    ensures
        r == (cache_exists == Some(true)),
{
    match cache_exists {
        Some(e) => e,
        None => false,
    }
}

/// Whether to show the window at once. It is held back only where browser
/// profiles persist and the cache directory is known to exist.
pub fn decide_initial_visibility(persistent_profiles: bool, cache_exists: Option<bool>) -> (r: bool)
    ensures
        r == !(persistent_profiles && cache_exists == Some(true)),
        cache_exists != Some(true) ==> r,
{
    !(persistent_profiles && is_likely_auto_login(cache_exists))
}

#[derive(PartialEq, Eq, Structural, Clone, Copy, Debug)]
pub enum VisibilityState {
    PendingShow,
    Shown,
}

/// The two events that may bring the window up.
#[derive(PartialEq, Eq, Structural, Clone, Copy, Debug)]
pub enum ShowTrigger {
    TimerElapsed,
    PageLoaded,
}

/// One step of the race: the next state, and whether to show the window now.
pub open spec fn visibility_step(s: VisibilityState, t: ShowTrigger) -> (VisibilityState, bool) {
    (VisibilityState::Shown, s == VisibilityState::PendingShow)
}

/// How many times the window is shown when the triggers arrive in this order.
pub open spec fn shows_signalled(s: VisibilityState, ts: Seq<ShowTrigger>) -> nat
    decreases ts.len(),
{
    if ts.len() == 0 {
        0
    } else {
        let (next, show) = visibility_step(s, ts[0]);
        (if show { 1nat } else { 0nat }) + shows_signalled(next, ts.drop_first())
    }
}

/// Once shown, no trigger shows the window again.
pub proof fn lemma_shown_stays_quiet(ts: Seq<ShowTrigger>)
    ensures
        shows_signalled(VisibilityState::Shown, ts) == 0,
    decreases ts.len(),
{
    if ts.len() > 0 {
        lemma_shown_stays_quiet(ts.drop_first());
    }
}

/// A held-back window is shown exactly once, whichever trigger comes first
/// and however many of them arrive.
pub proof fn lemma_show_signalled_once(ts: Seq<ShowTrigger>)
    requires
        ts.len() > 0,
    ensures
        shows_signalled(VisibilityState::PendingShow, ts) == 1,
{
    lemma_shown_stays_quiet(ts.drop_first());
}

pub struct VisibilityController {
    pub state: VisibilityState,
}

impl VisibilityController {
    /// A controller for a window that is shown at once or held back.
    pub fn new(show_now: bool) -> (r: VisibilityController)
        ensures
            r.state == (if show_now {
                VisibilityState::Shown
            } else {
                VisibilityState::PendingShow
            }),
    {
        if show_now {
            VisibilityController { state: VisibilityState::Shown }
        } else {
            VisibilityController { state: VisibilityState::PendingShow }
        }
    }

    /// Takes one trigger; true when the window is to be shown now, which
    /// happens for the first trigger only.
    pub fn on_trigger(&mut self, t: ShowTrigger) -> (show: bool)
        ensures
            (final(self).state, show) == visibility_step(old(self).state, t),
            show == (old(self).state == VisibilityState::PendingShow),
            final(self).state == VisibilityState::Shown,
    {
        let show = self.state == VisibilityState::PendingShow;
        self.state = VisibilityState::Shown;
        show
    }
}

} // verus!
