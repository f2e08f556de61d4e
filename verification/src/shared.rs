//! The settings that the click loop, the hotkey listeners and the control
//! surface share.

use crate::cells::FlagCell;
use crate::cells::KeyCell;
use crate::cells::MillisCell;
use crate::hotkey::Hotkey;
use crate::interval::clamp_interval;
use crate::interval::clamp_spec;
use crate::interval::in_range;
use crate::state::Snapshot;
use crate::state::Transition;
use vstd::prelude::*;

verus! {

/// The single source of truth of a process: three cells, each synchronized on
/// its own. Nothing is atomic across two of them.
pub struct SharedState {
    running: FlagCell,
    interval_ms: MillisCell,
    hotkey: KeyCell,
}

impl SharedState {
    /// Settings holding `Snapshot::initial()`: stopped, the default delay, F6.
    /// The cells are made from `Snapshot::default()`, whose contract fixes
    /// those values; of the cells themselves no clause can speak.
    pub fn new() -> SharedState {
        let initial = Snapshot::default();
        SharedState {
            running: FlagCell::new(initial.running),
            interval_ms: MillisCell::new(initial.interval_ms),
            hotkey: KeyCell::new(initial.hotkey),
        }
    }

    /// Whether the click loop should be emitting clicks, as the flag stands
    /// at the moment of the read. The control surface and every listener may
    /// write it at any time, so either value may come back.
    pub fn running(&self) -> bool {
        self.running.get()
    }

    /// The delay between two clicks. Whatever the cell holds, a reader is
    /// handed a delay of the range.
    pub fn interval_ms(&self) -> (ms: u32)
        ensures
            in_range(ms as int),
    {
        clamp_interval(self.interval_ms.get())
    }

    /// The key that a listener created now is bound to, as the cell stands
    /// at the moment of the read: any key may come back.
    pub fn hotkey(&self) -> Hotkey {
        self.hotkey.get()
    }

    /// Reads the three cells one after the other. The three values need not
    /// have stood together at any one moment; what holds of every reading is
    /// that its delay lies within the range.
    pub fn snapshot(&self) -> (seen: Snapshot)
        ensures
            seen.wf(),
    {
        let running = self.running();
        let interval_ms = self.interval_ms();
        let hotkey = self.hotkey();
        Snapshot { running, interval_ms, hotkey }
    }

    /// Stores the delay, moved into the range first, and returns what was
    /// stored.
    pub fn set_interval(&self, raw: u32) -> (stored: u32)
        ensures
            stored == clamp_spec(raw as int),
    {
        let ms = clamp_interval(raw);
        self.interval_ms.set(ms);
        ms
    }

    /// Stores the key. Listeners that exist keep the key they were bound to.
    pub fn set_hotkey(&self, key: Hotkey) {
        self.hotkey.set(key)
    }

    /// Writes the cells in which `after` differs from `before`, and no other:
    /// a cell that the caller did not mean to change keeps whatever another
    /// thread has put there since `before` was read.
    pub fn publish(&self, before: Snapshot, after: Snapshot) {
        if after.running != before.running {
            self.running.set(after.running);
        }
        if after.interval_ms != before.interval_ms {
            self.set_interval(after.interval_ms);
        }
        if after.hotkey != before.hotkey {
            self.set_hotkey(after.hotkey);
        }
    }

    /// Writes the flag where the transition changes it.
    fn commit(&self, transition: Transition) {
        if transition.changed() {
            self.running.set(transition.after);
        }
    }
}

/// Sets the flag. Where it is already set nothing is written. The result holds
/// the flag as it was read and as it stands after: set, whatever was read.
/// `Transition::start` says what becomes of each flag that can be read.
pub fn start_clicker(state: &SharedState) -> (done: Transition)
    ensures
        done == Transition::start_spec(done.before),
{
    let done = Transition::start(state.running());
    state.commit(done);
    done
}

/// Clears the flag. Where it is already clear nothing is written. The result
/// holds the flag as it was read and as it stands after: clear, whatever was
/// read. `Transition::stop` says what becomes of each flag that can be read.
pub fn stop_clicker(state: &SharedState) -> (done: Transition)
    ensures
        done == Transition::stop_spec(done.before),
{
    let done = Transition::stop(state.running());
    state.commit(done);
    done
}

/// Flips the flag: a stopped clicker starts, a running one stops.
pub fn toggle_clicker(state: &SharedState) -> (done: Transition)
    ensures
        done == Transition::toggle_spec(done.before),
{
    let done = Transition::toggle(state.running());
    state.commit(done);
    done
}

} // verus!
