//! The hotkey listener: what it makes of a key event, and the registry that
//! holds the listener in force.
//!
//! A listener is bound to one key when it is created and never learns of a
//! later choice. Subscribing to the keyboard blocks its thread for good, so a
//! new choice is served by a new listener; the one it replaces is abandoned
//! where it stands and goes on reacting to its own key.

use crate::hotkey::Hotkey;
use crate::shared::toggle_clicker;
use crate::shared::SharedState;
use crate::state::Effect;
use crate::state::Intent;
use crate::state::Snapshot;
use crate::state::Transition;
use vstd::prelude::*;

verus! {

/// A key as the keyboard stream names it.
#[derive(Clone, Copy, Debug, PartialEq, Eq, Structural)]
pub enum Key {
    /// One of the keys that can be chosen as hotkey.
    Function(Hotkey),
    /// Any other key.
    Other,
}

/// One event of the keyboard stream.
#[derive(Clone, Copy, Debug, PartialEq, Eq, Structural)]
pub enum KeyEvent {
    /// The key went down, or repeats while held down.
    Press(Key),
    /// The key came up.
    Release(Key),
}

/// A listener and the key it was bound to at its creation.
#[derive(Clone, Copy, Debug, PartialEq, Eq, Structural)]
pub struct HotkeyListener {
    pub key: Hotkey,
}

impl HotkeyListener {
    /// Whether the listener flips the flag on `event`: on a press of its own
    /// key, and on nothing else. Every press that is delivered counts, a
    /// repeat of a key held down too.
    pub open spec fn toggles_spec(self, event: KeyEvent) -> bool {
        event == KeyEvent::Press(Key::Function(self.key))
    }

    /// The flag after the listener has seen `event`.
    pub open spec fn next_running(self, running: bool, event: KeyEvent) -> bool {
        if self.toggles_spec(event) {
            !running
        } else {
            running
        }
    }

    /// The flag after the listener has seen `events` in their order, where
    /// nothing else writes it.
    pub open spec fn running_after(self, running: bool, events: Seq<KeyEvent>) -> bool
        decreases events.len(),
    {
        if events.len() == 0 {
            running
        } else {
            self.next_running(self.running_after(running, events.drop_last()), events.last())
        }
    }

    /// The listener bound to `key`.
    pub open spec fn bound(key: Hotkey) -> HotkeyListener {
        HotkeyListener { key }
    }

    /// A listener bound to `key`.
    pub fn bind(key: Hotkey) -> (listener: HotkeyListener)
        ensures
            listener == HotkeyListener::bound(key),
    {
        HotkeyListener { key }
    }

    pub fn toggles(&self, event: KeyEvent) -> (hit: bool)
        ensures
            hit == self.toggles_spec(event),
    {
        match event {
            KeyEvent::Press(Key::Function(key)) => key == self.key,
            _ => false,
        }
    }

    /// Handles one event of the keyboard stream: flips the shared flag on a
    /// press of the listener's key and leaves it alone on any other event.
    /// Returns the transition where there was one.
    pub fn on_event(&self, event: KeyEvent, state: &SharedState) -> (done: Option<Transition>)
        ensures
            done is Some <==> self.toggles_spec(event),
            done matches Some(transition) ==> transition == Transition::toggle_spec(
                transition.before,
            ) && transition.after == self.next_running(transition.before, event),
    {
        if self.toggles(event) {
            Some(toggle_clicker(state))
        } else {
            None
        }
    }
}

/// The listener in force, with whatever the caller needs to own it by: the
/// handle of its thread.
pub struct ActiveListener<H> {
    pub listener: HotkeyListener,
    pub handle: H,
}

/// Holds the listener in force, so that a new one can take its place.
pub struct ListenerRegistry<H> {
    pub active: Option<ActiveListener<H>>,
}

impl<H> ListenerRegistry<H> {
    /// The key that the listener in force is bound to.
    pub open spec fn active_key_spec(self) -> Option<Hotkey> {
        match self.active {
            Some(entry) => Some(entry.listener.key),
            None => None,
        }
    }

    /// The registry once `listener` has been put in force.
    pub open spec fn install_spec(self, listener: HotkeyListener, handle: H) -> ListenerRegistry<H> {
        ListenerRegistry { active: Some(ActiveListener { listener, handle }) }
    }

    /// A registry with no listener in force.
    pub fn new() -> (registry: ListenerRegistry<H>)
        ensures
            registry.active is None,
    {
        ListenerRegistry { active: None }
    }

    /// Puts `listener` in force and hands back the one it replaces. That one
    /// cannot be stopped: the caller lets go of it, and it runs on, bound to
    /// its old key, until the process ends.
    pub fn install(&mut self, listener: HotkeyListener, handle: H) -> (abandoned: Option<
        ActiveListener<H>,
    >)
        ensures
            *final(self) == old(self).install_spec(listener, handle),
            final(self).active_key_spec() == Some(listener.key),
            abandoned == old(self).active,
    {
        let abandoned = self.active.take();
        self.active = Some(ActiveListener { listener, handle });
        abandoned
    }

    pub fn active_key(&self) -> (key: Option<Hotkey>)
        ensures
            key == self.active_key_spec(),
    {
        match &self.active {
            Some(entry) => Some(entry.listener.key),
            None => None,
        }
    }
}

/// How many presses of `key` there are among `events`.
pub open spec fn presses_of(key: Hotkey, events: Seq<KeyEvent>) -> nat
    decreases events.len(),
{
    if events.len() == 0 {
        0
    } else if events.last() == KeyEvent::Press(Key::Function(key)) {
        presses_of(key, events.drop_last()) + 1
    } else {
        presses_of(key, events.drop_last())
    }
}

/// Whether `events` holds no press of `key`.
pub open spec fn no_press_of(key: Hotkey, events: Seq<KeyEvent>) -> bool {
    forall|i: int| 0 <= i < events.len() ==> #[trigger] events[i] != KeyEvent::Press(Key::Function(key))
}

/// A press of the listener's key starts a stopped clicker, and a second press
/// stops it again. Whatever else the keyboard reports in between, an even
/// number of presses of the key leaves the flag as it was, and an odd number
/// leaves it flipped.
pub proof fn law_toggle_symmetry(listener: HotkeyListener, running: bool, events: Seq<KeyEvent>)
    ensures
        listener.next_running(false, KeyEvent::Press(Key::Function(listener.key))),
        !listener.next_running(true, KeyEvent::Press(Key::Function(listener.key))),
        listener.running_after(running, events) == (if presses_of(listener.key, events) % 2 == 0 {
            running
        } else {
            !running
        }),
    decreases events.len(),
{
    if events.len() > 0 {
        law_toggle_symmetry(listener, running, events.drop_last());
    }
}

/// Events that hold no press of the listener's key leave the flag as it was:
/// presses of other keys, and releases of any key, its own too.
pub proof fn law_other_events_ignored(
    listener: HotkeyListener,
    running: bool,
    events: Seq<KeyEvent>,
)
    requires
        no_press_of(listener.key, events),
    ensures
        listener.running_after(running, events) == running,
    decreases events.len(),
{
    if events.len() > 0 {
        let earlier = events.drop_last();
        assert(events.last() == events[events.len() - 1]);
        assert forall|i: int| 0 <= i < earlier.len() implies #[trigger] earlier[i]
            != KeyEvent::Press(Key::Function(listener.key)) by {
            assert(earlier[i] == events[i]);
        }
        law_other_events_ignored(listener, running, earlier);
    }
}

/// After the hotkey is set to `first` and then to `second`, the settings hold
/// `second`, a listener bound to `second` is asked for, and a registry in
/// which it is installed has it in force. That listener flips the flag on a
/// press of `second`, and a press of `first` means nothing to it.
///
/// This speaks of the listener in force. The listener bound to `first` is
/// abandoned, not stopped: it still flips the flag on a press of `first`.
pub proof fn law_listener_replacement<H>(
    state: Snapshot,
    step: u32,
    first: Hotkey,
    second: Hotkey,
    registry: ListenerRegistry<H>,
    handle: H,
    running: bool,
)
    requires
        first != second,
    ensures
        after_two_choices(state, step, first, second).0.hotkey == second,
        after_two_choices(state, step, first, second).0.running == state.running,
        after_two_choices(state, step, first, second).0.interval_ms == state.interval_ms,
        after_two_choices(state, step, first, second).1 == Effect::ListenerNeeded(second),
        registry.install_spec(HotkeyListener::bound(second), handle).active_key_spec() == Some(
            second,
        ),
        HotkeyListener::bound(second).next_running(running, KeyEvent::Press(Key::Function(second)))
            == !running,
        HotkeyListener::bound(second).next_running(running, KeyEvent::Press(Key::Function(first)))
            == running,
        HotkeyListener::bound(first).next_running(running, KeyEvent::Press(Key::Function(first)))
            == !running,
{
}

/// The settings after the hotkey was set to `first` and then to `second`, and
/// what handling the second choice brought about.
pub open spec fn after_two_choices(state: Snapshot, step: u32, first: Hotkey, second: Hotkey) -> (
    Snapshot,
    Effect,
) {
    state.apply_spec(Intent::SetHotkey(first), step).0.apply_spec(Intent::SetHotkey(second), step)
}

} // verus!
