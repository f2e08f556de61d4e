//! The control surface: it turns what the user asks for into writes to the
//! shared settings, and the settings into what is shown.

use crate::hotkey::Hotkey;
use crate::interval::DEFAULT_STEP_MS;
use crate::interval::MAX_INTERVAL_MS;
use crate::interval::MIN_INTERVAL_MS;
use crate::shared::SharedState;
use crate::state::Effect;
use crate::state::Intent;
use crate::state::Snapshot;
use std::sync::Arc;
use vstd::prelude::*;

verus! {

/// What handling one intent read, what it left, and what it brought about.
#[derive(Clone, Copy, Debug, PartialEq, Eq, Structural)]
pub struct Handled {
    /// The settings as they were read before the intent was handled.
    pub before: Snapshot,
    /// The settings that the intent makes of `before`.
    pub after: Snapshot,
    /// What the caller has to act on or report.
    pub effect: Effect,
}

/// What the surface shows.
#[derive(Clone, Copy, Debug, PartialEq, Eq, Structural)]
pub struct ViewModel {
    /// Whether the clicker is shown as running.
    pub running: bool,
    /// Whether the start control can be used: only while stopped.
    pub start_enabled: bool,
    /// Whether the stop control can be used: only while running.
    pub stop_enabled: bool,
    /// The delay shown, and the position of the delay control.
    pub interval_ms: u32,
    /// The least delay that the delay control offers.
    pub interval_min: u32,
    /// The greatest delay that the delay control offers.
    pub interval_max: u32,
    /// The step of the delay control.
    pub interval_step: u32,
    /// The key shown as chosen.
    pub hotkey: Hotkey,
}

impl ViewModel {
    /// What is shown of `seen` by a surface whose delay control has the step
    /// `step`.
    pub open spec fn of_spec(seen: Snapshot, step: u32) -> ViewModel {
        ViewModel {
            running: seen.running,
            start_enabled: !seen.running,
            stop_enabled: seen.running,
            interval_ms: seen.interval_ms,
            interval_min: MIN_INTERVAL_MS,
            interval_max: MAX_INTERVAL_MS,
            interval_step: step,
            hotkey: seen.hotkey,
        }
    }

    /// The settings that the view shows.
    pub open spec fn shown(self) -> Snapshot {
        Snapshot { running: self.running, interval_ms: self.interval_ms, hotkey: self.hotkey }
    }

    /// The line that tells the user whether the clicker runs.
    pub open spec fn status_spec(self) -> Seq<char> {
        if self.running {
            "Auto Clicker is RUNNING"@
        } else {
            "Auto Clicker is STOPPED"@
        }
    }

    pub fn of(seen: Snapshot, step: u32) -> (view: ViewModel)
        ensures
            view == ViewModel::of_spec(seen, step),
    {
        ViewModel {
            running: seen.running,
            start_enabled: !seen.running,
            stop_enabled: seen.running,
            interval_ms: seen.interval_ms,
            interval_min: MIN_INTERVAL_MS,
            interval_max: MAX_INTERVAL_MS,
            interval_step: step,
            hotkey: seen.hotkey,
        }
    }

    pub fn status(&self) -> (line: &'static str)
        ensures
            line@ == self.status_spec(),
    {
        if self.running {
            "Auto Clicker is RUNNING"
        } else {
            "Auto Clicker is STOPPED"
        }
    }
}

/// The control surface of one process. It runs on one thread and handles one
/// intent at a time.
pub struct ControlSurface {
    pub state: Arc<SharedState>,
    pub step_ms: u32,
}

impl ControlSurface {
    /// A surface over `state` that snaps delays to the default step.
    pub fn new(state: Arc<SharedState>) -> (surface: ControlSurface)
        ensures
            surface.state == state,
            surface.step_ms == DEFAULT_STEP_MS,
    {
        ControlSurface { state, step_ms: DEFAULT_STEP_MS }
    }

    /// A surface over `state` that snaps delays to `step_ms`; zero asks for no
    /// snapping.
    pub fn with_step(state: Arc<SharedState>, step_ms: u32) -> (surface: ControlSurface)
        ensures
            surface.state == state,
            surface.step_ms == step_ms,
    {
        ControlSurface { state, step_ms }
    }

    /// Handles one intent: reads the settings, lets `Snapshot::apply` decide
    /// and writes back what the intent changed. The write is done when the
    /// call returns; nobody is waited for.
    ///
    /// On `Effect::ListenerNeeded` the caller has to create a listener bound
    /// to the new key and install it in place of the one in force.
    pub fn update(&self, intent: Intent) -> (handled: Handled)
        ensures
            handled.before.wf(),
            handled.after.wf(),
            (handled.after, handled.effect) == handled.before.apply_spec(intent, self.step_ms),
    {
        let before = self.state.snapshot();
        let (after, effect) = before.apply(intent, self.step_ms);
        self.state.publish(before, after);
        Handled { before, after, effect }
    }

    /// Reads the settings and says what to show of them. Each setting is read
    /// once, so the two controls are never both enabled or both disabled.
    pub fn view(&self) -> (view: ViewModel)
        ensures
            view == ViewModel::of_spec(view.shown(), self.step_ms),
            view.shown().wf(),
    {
        ViewModel::of(self.state.snapshot(), self.step_ms)
    }
}

} // verus!
