//! The settings as plain values, and what each user intent makes of them.
//!
//! Everything here is sequential: a `Snapshot` is one reading of the shared
//! settings, and `Snapshot::apply` says what an intent turns it into. The
//! concurrent cell that the threads share is `crate::shared::SharedState`.

use crate::hotkey::Hotkey;
use crate::interval::in_range;
use crate::interval::lemma_quantize_nearest;
use crate::interval::quantize_interval;
use crate::interval::quantize_spec;
use crate::interval::DEFAULT_INTERVAL_MS;
use vstd::prelude::*;

verus! {

/// One reading of the settings.
#[derive(Clone, Copy, Debug, PartialEq, Eq, Structural)]
pub struct Snapshot {
    /// Whether the click loop should be emitting clicks.
    pub running: bool,
    /// The delay between two clicks, in milliseconds.
    pub interval_ms: u32,
    /// The key whose press toggles `running`.
    pub hotkey: Hotkey,
}

/// What the user asks of the control surface.
#[derive(Clone, Copy, Debug, PartialEq, Eq, Structural)]
pub enum Intent {
    /// Begin clicking.
    Start,
    /// Cease clicking.
    Stop,
    /// Click every so many milliseconds; any number may be asked for.
    SetInterval(u32),
    /// Let this key toggle the clicker from now on.
    SetHotkey(Hotkey),
}

/// What handling an intent brought about, for the caller to act on or report.
#[derive(Clone, Copy, Debug, PartialEq, Eq, Structural)]
pub enum Effect {
    /// The flag already had the value asked for; nothing happened.
    Unchanged,
    /// The flag went from stopped to running.
    Started,
    /// The flag went from running to stopped.
    Stopped,
    /// This delay is now in force.
    IntervalSet(u32),
    /// A listener bound to this key has to replace the active one.
    ListenerNeeded(Hotkey),
}

/// What a change to the running flag found and what it left.
#[derive(Clone, Copy, Debug, PartialEq, Eq, Structural)]
pub struct Transition {
    /// The flag as it was read.
    pub before: bool,
    /// The flag as it stands afterwards.
    pub after: bool,
}

impl Transition {
    /// A start: the flag is set whatever it was.
    pub open spec fn start_spec(before: bool) -> Transition {
        Transition { before, after: true }
    }

    /// A stop: the flag is clear whatever it was.
    pub open spec fn stop_spec(before: bool) -> Transition {
        Transition { before, after: false }
    }

    /// A toggle: the flag is the opposite of what it was.
    pub open spec fn toggle_spec(before: bool) -> Transition {
        Transition { before, after: !before }
    }

    /// Whether the flag has to be written at all.
    pub open spec fn changed_spec(self) -> bool {
        self.before != self.after
    }

    /// What is reported of a transition: nothing where the flag stayed as it
    /// was, else the direction it went.
    pub open spec fn effect_spec(self) -> Effect {
        if self.before == self.after {
            Effect::Unchanged
        } else if self.after {
            Effect::Started
        } else {
            Effect::Stopped
        }
    }

    pub fn start(before: bool) -> (t: Transition)
        ensures
            t == Transition::start_spec(before),
    {
        Transition { before, after: true }
    }

    pub fn stop(before: bool) -> (t: Transition)
        ensures
            t == Transition::stop_spec(before),
    {
        Transition { before, after: false }
    }

    pub fn toggle(before: bool) -> (t: Transition)
        ensures
            t == Transition::toggle_spec(before),
    {
        Transition { before, after: !before }
    }

    pub fn changed(&self) -> (changed: bool)
        ensures
            changed == self.changed_spec(),
    {
        self.before != self.after
    }

    pub fn effect(&self) -> (effect: Effect)
        ensures
            effect == self.effect_spec(),
    {
        if self.before == self.after {
            Effect::Unchanged
        } else if self.after {
            Effect::Started
        } else {
            Effect::Stopped
        }
    }
}

impl Snapshot {
    /// The settings a process starts with: stopped, the default delay, F6.
    pub open spec fn initial() -> Snapshot {
        Snapshot { running: false, interval_ms: DEFAULT_INTERVAL_MS, hotkey: Hotkey::F6 }
    }

    /// The invariant of the settings: the delay lies within its range.
    pub open spec fn wf(self) -> bool {
        in_range(self.interval_ms as int)
    }

    /// The settings after `intent`, and what handling it brought about.
    /// `step` is the grid to which a new delay is snapped.
    pub open spec fn apply_spec(self, intent: Intent, step: u32) -> (Snapshot, Effect) {
        match intent {
            Intent::Start => (
                Snapshot { running: true, ..self },
                Transition::start_spec(self.running).effect_spec(),
            ),
            Intent::Stop => (
                Snapshot { running: false, ..self },
                Transition::stop_spec(self.running).effect_spec(),
            ),
            Intent::SetInterval(raw) => {
                let ms = quantize_spec(raw as int, step as int) as u32;
                (Snapshot { interval_ms: ms, ..self }, Effect::IntervalSet(ms))
            },
            Intent::SetHotkey(key) => (Snapshot { hotkey: key, ..self }, Effect::ListenerNeeded(key)),
        }
    }

    /// Handles one intent. No intent is refused: a start or stop that asks for
    /// what is already so changes nothing and reports `Effect::Unchanged`, and
    /// a delay outside the range is moved into it.
    pub fn apply(self, intent: Intent, step: u32) -> (next: (Snapshot, Effect))
        ensures
            next == self.apply_spec(intent, step),
            self.wf() ==> next.0.wf(),
            intent is SetInterval ==> next.0.wf(),
    {
        match intent {
            Intent::Start => {
                let effect = Transition::start(self.running).effect();
                (Snapshot { running: true, interval_ms: self.interval_ms, hotkey: self.hotkey }, effect)
            },
            Intent::Stop => {
                let effect = Transition::stop(self.running).effect();
                (Snapshot { running: false, interval_ms: self.interval_ms, hotkey: self.hotkey }, effect)
            },
            Intent::SetInterval(raw) => {
                let ms = quantize_interval(raw, step);
                (
                    Snapshot { running: self.running, interval_ms: ms, hotkey: self.hotkey },
                    Effect::IntervalSet(ms),
                )
            },
            Intent::SetHotkey(key) => (
                Snapshot { running: self.running, interval_ms: self.interval_ms, hotkey: key },
                Effect::ListenerNeeded(key),
            ),
        }
    }
}

impl Default for Snapshot {
    fn default() -> (snapshot: Snapshot)
        ensures
            snapshot == Snapshot::initial(),
            snapshot.wf(),
    {
        Snapshot { running: false, interval_ms: DEFAULT_INTERVAL_MS, hotkey: Hotkey::F6 }
    }
}

/// Starting is idempotent, and so is stopping: the flag ends as asked for
/// whatever it was, and asking again for what is already so changes nothing
/// and reports nothing.
pub proof fn law_start_stop_idempotent(state: Snapshot, step: u32)
    ensures
        state.apply_spec(Intent::Start, step).0.running,
        !state.apply_spec(Intent::Stop, step).0.running,
        state.running ==> state.apply_spec(Intent::Start, step) == (state, Effect::Unchanged),
        !state.running ==> state.apply_spec(Intent::Stop, step) == (state, Effect::Unchanged),
        state.apply_spec(Intent::Start, step).0.apply_spec(Intent::Start, step) == (
            state.apply_spec(Intent::Start, step).0,
            Effect::Unchanged,
        ),
        state.apply_spec(Intent::Stop, step).0.apply_spec(Intent::Stop, step) == (
            state.apply_spec(Intent::Stop, step).0,
            Effect::Unchanged,
        ),
{
}

/// A start or stop is reported exactly when the flag changes: `Started` only
/// out of stopped, `Stopped` only out of running.
pub proof fn law_signal_only_on_change(state: Snapshot, step: u32)
    ensures
        state.apply_spec(Intent::Start, step).1 == (if state.running {
            Effect::Unchanged
        } else {
            Effect::Started
        }),
        state.apply_spec(Intent::Stop, step).1 == (if state.running {
            Effect::Stopped
        } else {
            Effect::Unchanged
        }),
{
}

/// Whatever delay is asked for, and whatever the settings held before, the
/// delay in force afterwards lies within the range, and on the grid of
/// `step`; the flag and the hotkey are as they were.
pub proof fn law_interval_bound(state: Snapshot, raw: u32, step: u32)
    ensures
        in_range(state.apply_spec(Intent::SetInterval(raw), step).0.interval_ms as int),
        state.apply_spec(Intent::SetInterval(raw), step).0.interval_ms == quantize_spec(
            raw as int,
            step as int,
        ),
        state.apply_spec(Intent::SetInterval(raw), step).0.running == state.running,
        state.apply_spec(Intent::SetInterval(raw), step).0.hotkey == state.hotkey,
{
    if step > 0 {
        lemma_quantize_nearest(raw as int, step as int);
    }
}

/// No intent takes the delay out of its range.
pub proof fn law_apply_preserves_wf(state: Snapshot, intent: Intent, step: u32)
    requires
        state.wf(),
    ensures
        state.apply_spec(intent, step).0.wf(),
{
    if let Intent::SetInterval(raw) = intent {
        law_interval_bound(state, raw, step);
    }
}

} // verus!
