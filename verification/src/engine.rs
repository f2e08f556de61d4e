//! The click loop as a machine: each step takes a fresh reading of the
//! settings and says what to do next, to sleep or to click. The thread that
//! owns the machine does what it is told and steps again; it never ends.

use crate::interval::in_range;
use crate::shared::SharedState;
use vstd::prelude::*;

verus! {

/// How long an idle engine sleeps between two looks at the flag.
pub const DEFAULT_POLL_MS: u32 = 50;

/// How long an engine waits between seeing the flag set and its first click.
pub const DEFAULT_WARM_UP_MS: u32 = 0;

/// The two delays of an engine that are not the user's to change.
#[derive(Clone, Copy, Debug, PartialEq, Eq, Structural)]
pub struct EngineConfig {
    /// The sleep between two looks at the flag while it is clear.
    pub poll_ms: u32,
    /// The sleep between seeing the flag set and the first click.
    pub warm_up_ms: u32,
}

/// What the engine reads of the settings before a step.
#[derive(Clone, Copy, Debug, PartialEq, Eq, Structural)]
pub struct Reading {
    pub running: bool,
    pub interval_ms: u32,
}

/// Where the engine stands between two steps.
#[derive(Clone, Copy, Debug, PartialEq, Eq, Structural)]
pub enum EnginePhase {
    /// Waiting for the flag to be set.
    Idle,
    /// The flag was seen set and the warm-up has been slept: a click is due.
    Armed,
    /// A click has been emitted: the sleep that follows it is due.
    Clicked,
    /// The sleep after a click is over: the flag decides what comes next.
    Slept,
}

/// What the engine's thread has to do before the next step.
#[derive(Clone, Copy, Debug, PartialEq, Eq, Structural)]
pub enum EngineAction {
    /// Sleep for so many milliseconds.
    Sleep(u32),
    /// Emit one click.
    Click,
}

/// The engine: its configuration and where it stands.
#[derive(Clone, Copy, Debug, PartialEq, Eq, Structural)]
pub struct ClickEngine {
    pub config: EngineConfig,
    pub phase: EnginePhase,
}

/// One step of the machine: the phase it moves to and what is to be done.
///
/// An idle engine sleeps the poll delay while the flag is clear. Once it sees
/// the flag set it sleeps the warm-up, if there is one, and clicks. After each
/// click it sleeps the delay that it reads then, and after each such sleep the
/// flag decides: set, it clicks again; clear, it goes back to polling.
pub open spec fn step_spec(config: EngineConfig, phase: EnginePhase, seen: Reading) -> (
    EnginePhase,
    EngineAction,
) {
    match phase {
        EnginePhase::Idle => if !seen.running {
            (EnginePhase::Idle, EngineAction::Sleep(config.poll_ms))
        } else if config.warm_up_ms == 0 {
            (EnginePhase::Clicked, EngineAction::Click)
        } else {
            (EnginePhase::Armed, EngineAction::Sleep(config.warm_up_ms))
        },
        EnginePhase::Armed => (EnginePhase::Clicked, EngineAction::Click),
        EnginePhase::Clicked => (EnginePhase::Slept, EngineAction::Sleep(seen.interval_ms)),
        EnginePhase::Slept => if seen.running {
            (EnginePhase::Clicked, EngineAction::Click)
        } else {
            (EnginePhase::Idle, EngineAction::Sleep(config.poll_ms))
        },
    }
}

/// The phase that an engine started in `phase` stands in after one step for
/// each of `readings`, in their order.
pub open spec fn phase_after(
    config: EngineConfig,
    phase: EnginePhase,
    readings: Seq<Reading>,
) -> EnginePhase
    decreases readings.len(),
{
    if readings.len() == 0 {
        phase
    } else {
        step_spec(config, phase_after(config, phase, readings.drop_last()), readings.last()).0
    }
}

/// What the step for `readings[at]` tells an engine to do that was started in
/// `phase` and has made a step for each reading before it.
pub open spec fn action_at(
    config: EngineConfig,
    phase: EnginePhase,
    readings: Seq<Reading>,
    at: int,
) -> EngineAction
    recommends
        0 <= at < readings.len(),
{
    step_spec(config, phase_after(config, phase, readings.take(at)), readings[at]).1
}

impl Default for EngineConfig {
    fn default() -> (config: EngineConfig)
        ensures
            config == (EngineConfig { poll_ms: DEFAULT_POLL_MS, warm_up_ms: DEFAULT_WARM_UP_MS }),
    {
        EngineConfig { poll_ms: DEFAULT_POLL_MS, warm_up_ms: DEFAULT_WARM_UP_MS }
    }
}

impl ClickEngine {
    /// An idle engine.
    pub fn new(config: EngineConfig) -> (engine: ClickEngine)
        ensures
            engine == (ClickEngine { config, phase: EnginePhase::Idle }),
    {
        ClickEngine { config, phase: EnginePhase::Idle }
    }

    /// Makes one step on a reading that the caller took.
    pub fn advance(&mut self, seen: Reading) -> (action: EngineAction)
        ensures
            final(self).config == old(self).config,
            (final(self).phase, action) == step_spec(old(self).config, old(self).phase, seen),
    {
        let (next, action) = match self.phase {
            EnginePhase::Idle => if !seen.running {
                (EnginePhase::Idle, EngineAction::Sleep(self.config.poll_ms))
            } else if self.config.warm_up_ms == 0 {
                (EnginePhase::Clicked, EngineAction::Click)
            } else {
                (EnginePhase::Armed, EngineAction::Sleep(self.config.warm_up_ms))
            },
            EnginePhase::Armed => (EnginePhase::Clicked, EngineAction::Click),
            EnginePhase::Clicked => (EnginePhase::Slept, EngineAction::Sleep(seen.interval_ms)),
            EnginePhase::Slept => if seen.running {
                (EnginePhase::Clicked, EngineAction::Click)
            } else {
                (EnginePhase::Idle, EngineAction::Sleep(self.config.poll_ms))
            },
        };
        self.phase = next;
        action
    }

    /// Reads the flag and the delay afresh and makes one step on them. What
    /// the step does is `step_spec` of some reading whose delay lies within
    /// the range: which one, the other threads decide.
    pub fn step(&mut self, state: &SharedState) -> (action: EngineAction)
        ensures
            final(self).config == old(self).config,
            exists|seen: Reading|
                in_range(seen.interval_ms as int) && (final(self).phase, action) == #[trigger] step_spec(
                    old(self).config,
                    old(self).phase,
                    seen,
                ),
            action matches EngineAction::Sleep(ms) ==> ms == old(self).config.poll_ms || ms == old(
                self,
            ).config.warm_up_ms || in_range(ms as int),
    {
        let seen = Reading { running: state.running(), interval_ms: state.interval_ms() };
        self.advance(seen)
    }
}

/// Whether the flag is clear in every reading before `until`.
pub open spec fn stopped_before(readings: Seq<Reading>, until: int) -> bool {
    forall|i: int| 0 <= i < until && i < readings.len() ==> !(#[trigger] readings[i]).running
}

/// Whether the flag is clear in every reading from `from` on.
pub open spec fn stopped_from(readings: Seq<Reading>, from: int) -> bool {
    forall|i: int| from <= i < readings.len() ==> !(#[trigger] readings[i]).running
}

/// An idle engine stays idle for as long as it reads the flag clear.
proof fn lemma_idle_while_stopped(config: EngineConfig, readings: Seq<Reading>)
    requires
        stopped_before(readings, readings.len() as int),
    ensures
        phase_after(config, EnginePhase::Idle, readings) == EnginePhase::Idle,
    decreases readings.len(),
{
    if readings.len() > 0 {
        let earlier = readings.drop_last();
        assert(!readings[readings.len() - 1].running);
        assert forall|i: int| 0 <= i < earlier.len() implies !(#[trigger] earlier[i]).running by {
            assert(earlier[i] == readings[i]);
        }
        lemma_idle_while_stopped(config, earlier);
    }
}

/// A step on a reading with the flag clear never arms an engine.
proof fn lemma_never_armed_by_stopped(
    config: EngineConfig,
    phase: EnginePhase,
    readings: Seq<Reading>,
)
    requires
        readings.len() > 0,
        !readings.last().running,
    ensures
        phase_after(config, phase, readings) != EnginePhase::Armed,
{
}

/// An engine without warm-up is never armed.
proof fn lemma_never_armed_without_warm_up(
    config: EngineConfig,
    phase: EnginePhase,
    readings: Seq<Reading>,
)
    requires
        config.warm_up_ms == 0,
        phase != EnginePhase::Armed,
    ensures
        phase_after(config, phase, readings) != EnginePhase::Armed,
    decreases readings.len(),
{
    if readings.len() > 0 {
        lemma_never_armed_without_warm_up(config, phase, readings.drop_last());
    }
}

/// How soon an idle engine reacts to a start. While it reads the flag clear
/// it sleeps the poll delay, step after step. On the first reading that has
/// the flag set it clicks: at once where there is no warm-up; else it sleeps
/// the warm-up and clicks on the step after, whatever it reads then. So the
/// first click comes no later than the poll delay plus the warm-up delay after
/// the flag was set, and the time that the steps themselves take.
pub proof fn law_start_latency(config: EngineConfig, readings: Seq<Reading>, at: int)
    requires
        0 <= at < readings.len(),
        stopped_before(readings, at),
        readings[at].running,
    ensures
        forall|i: int|
            0 <= i < at ==> #[trigger] action_at(config, EnginePhase::Idle, readings, i)
                == EngineAction::Sleep(config.poll_ms),
        config.warm_up_ms == 0 ==> action_at(config, EnginePhase::Idle, readings, at)
            == EngineAction::Click,
        config.warm_up_ms != 0 ==> action_at(config, EnginePhase::Idle, readings, at)
            == EngineAction::Sleep(config.warm_up_ms),
        config.warm_up_ms != 0 && at + 1 < readings.len() ==> action_at(
            config,
            EnginePhase::Idle,
            readings,
            at + 1,
        ) == EngineAction::Click,
{
    assert forall|i: int| 0 <= i <= at implies phase_after(
        config,
        EnginePhase::Idle,
        #[trigger] readings.take(i),
    ) == EnginePhase::Idle by {
        let earlier = readings.take(i);
        assert forall|k: int| 0 <= k < earlier.len() implies !(#[trigger] earlier[k]).running by {
            assert(earlier[k] == readings[k]);
        }
        lemma_idle_while_stopped(config, earlier);
    }
    assert forall|i: int| 0 <= i < at implies #[trigger] action_at(
        config,
        EnginePhase::Idle,
        readings,
        i,
    ) == EngineAction::Sleep(config.poll_ms) by {
        assert(phase_after(config, EnginePhase::Idle, readings.take(i)) == EnginePhase::Idle);
        assert(!readings[i].running);
    }
    assert(phase_after(config, EnginePhase::Idle, readings.take(at)) == EnginePhase::Idle);
    if config.warm_up_ms != 0 && at + 1 < readings.len() {
        let through = readings.take(at + 1);
        assert(through.drop_last() == readings.take(at));
        assert(through.last() == readings[at]);
        assert(phase_after(config, EnginePhase::Idle, through) == EnginePhase::Armed);
    }
}

/// While the flag stays set, clicks and sleeps alternate, and each sleep lasts
/// the delay that is read after the click before it: a delay changed
/// mid-run takes effect on the very next sleep.
pub proof fn law_cadence(config: EngineConfig, after_click: Reading, after_sleep: Reading)
    requires
        after_sleep.running,
    ensures
        step_spec(config, EnginePhase::Clicked, after_click) == (
            EnginePhase::Slept,
            EngineAction::Sleep(after_click.interval_ms),
        ),
        step_spec(config, EnginePhase::Slept, after_sleep) == (
            EnginePhase::Clicked,
            EngineAction::Click,
        ),
{
}

/// How soon an engine reacts to a stop. From the first reading on after which
/// the flag stays clear, the engine emits at most one more click, whatever it
/// did before: the click that a warm-up had made due, as the very next
/// action. An engine without warm-up emits none. Within three steps the
/// engine is idle again, and idle it stays.
pub proof fn law_stop_latency(
    config: EngineConfig,
    phase: EnginePhase,
    readings: Seq<Reading>,
    from: int,
)
    requires
        0 <= from <= readings.len(),
        stopped_from(readings, from),
    ensures
        forall|at: int|
            from <= at < readings.len() && #[trigger] action_at(config, phase, readings, at)
                == EngineAction::Click ==> at == from && phase_after(
                config,
                phase,
                readings.take(from),
            ) == EnginePhase::Armed,
        forall|at: int|
            from <= at < readings.len() && config.warm_up_ms == 0 && phase != EnginePhase::Armed
                ==> #[trigger] action_at(config, phase, readings, at) != EngineAction::Click,
        forall|at: int|
            from + 3 <= at <= readings.len() ==> phase_after(
                config,
                phase,
                #[trigger] readings.take(at),
            ) == EnginePhase::Idle,
{
    assert forall|at: int|
        from <= at < readings.len() && #[trigger] action_at(config, phase, readings, at)
            == EngineAction::Click implies at == from && phase_after(
        config,
        phase,
        readings.take(from),
    ) == EnginePhase::Armed by {
        assert(!readings[at].running);
        if at > from {
            let earlier = readings.take(at);
            assert(earlier.last() == readings[at - 1]);
            lemma_never_armed_by_stopped(config, phase, earlier);
        }
    }
    assert forall|at: int|
        from <= at < readings.len() && config.warm_up_ms == 0 && phase
            != EnginePhase::Armed implies #[trigger] action_at(config, phase, readings, at)
        != EngineAction::Click by {
        assert(!readings[at].running);
        lemma_never_armed_without_warm_up(config, phase, readings.take(at));
    }
    assert forall|at: int| from + 3 <= at <= readings.len() implies phase_after(
        config,
        phase,
        #[trigger] readings.take(at),
    ) == EnginePhase::Idle by {
        lemma_idle_within_three(config, phase, readings, from, at);
    }
}

/// Three steps on readings with the flag clear bring any engine to idle, and
/// further such steps leave it there.
proof fn lemma_idle_within_three(
    config: EngineConfig,
    phase: EnginePhase,
    readings: Seq<Reading>,
    from: int,
    at: int,
)
    requires
        0 <= from,
        from + 3 <= at <= readings.len(),
        stopped_from(readings, from),
    ensures
        phase_after(config, phase, readings.take(at)) == EnginePhase::Idle,
{
    let now = readings.take(at);
    let one = readings.take(at - 1);
    let two = readings.take(at - 2);
    let three = readings.take(at - 3);
    assert(now.drop_last() == one && now.last() == readings[at - 1]);
    assert(one.drop_last() == two && one.last() == readings[at - 2]);
    assert(two.drop_last() == three && two.last() == readings[at - 3]);
    assert(!readings[at - 1].running && !readings[at - 2].running && !readings[at - 3].running);
    let start = phase_after(config, phase, three);
    let first = step_spec(config, start, readings[at - 3]).0;
    let second = step_spec(config, first, readings[at - 2]).0;
    assert(phase_after(config, phase, two) == first);
    assert(phase_after(config, phase, one) == second);
}

} // verus!
