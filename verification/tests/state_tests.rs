use auto_clicker::hotkey::Hotkey;
use auto_clicker::state::Effect;
use auto_clicker::state::Intent;
use auto_clicker::state::Snapshot;
use auto_clicker::state::Transition;

fn stopped() -> Snapshot {
    Snapshot::default()
}

fn running() -> Snapshot {
    Snapshot { running: true, ..Snapshot::default() }
}

#[test]
fn default_snapshot_is_stopped_800_f6() {
    let snapshot = Snapshot::default();
    assert_eq!(snapshot, Snapshot { running: false, interval_ms: 800, hotkey: Hotkey::F6 });
}

#[test]
fn start_sets_the_flag_and_reports_it() {
    let (next, effect) = stopped().apply(Intent::Start, 10);
    assert_eq!(next, running());
    assert_eq!(effect, Effect::Started);
}

#[test]
fn start_while_running_is_a_no_op() {
    let (next, effect) = running().apply(Intent::Start, 10);
    assert_eq!(next, running());
    assert_eq!(effect, Effect::Unchanged);
}

#[test]
fn stop_clears_the_flag_and_reports_it() {
    let (next, effect) = running().apply(Intent::Stop, 10);
    assert_eq!(next, stopped());
    assert_eq!(effect, Effect::Stopped);
}

#[test]
fn stop_while_stopped_is_a_no_op() {
    let (next, effect) = stopped().apply(Intent::Stop, 10);
    assert_eq!(next, stopped());
    assert_eq!(effect, Effect::Unchanged);
}

#[test]
fn start_twice_reports_once() {
    let (first, first_effect) = stopped().apply(Intent::Start, 10);
    let (second, second_effect) = first.apply(Intent::Start, 10);
    assert_eq!(first_effect, Effect::Started);
    assert_eq!(second_effect, Effect::Unchanged);
    assert_eq!(second, first);
}

#[test]
fn stop_twice_reports_once() {
    let (first, first_effect) = running().apply(Intent::Stop, 10);
    let (second, second_effect) = first.apply(Intent::Stop, 10);
    assert_eq!(first_effect, Effect::Stopped);
    assert_eq!(second_effect, Effect::Unchanged);
    assert_eq!(second, first);
}

#[test]
fn set_interval_clamps_what_is_too_large() {
    let (next, effect) = stopped().apply(Intent::SetInterval(2000), 10);
    assert_eq!(next.interval_ms, 1000);
    assert_eq!(effect, Effect::IntervalSet(1000));
}

#[test]
fn set_interval_clamps_what_is_too_small() {
    let (next, effect) = stopped().apply(Intent::SetInterval(0), 10);
    assert_eq!(next.interval_ms, 10);
    assert_eq!(effect, Effect::IntervalSet(10));
}

#[test]
fn set_interval_snaps_to_the_step() {
    let (next, effect) = stopped().apply(Intent::SetInterval(257), 10);
    assert_eq!(next.interval_ms, 260);
    assert_eq!(effect, Effect::IntervalSet(260));
    // The grid of step 100 is 10, 110, 210, 310, ...
    let (next, _) = stopped().apply(Intent::SetInterval(257), 100);
    assert_eq!(next.interval_ms, 210);
    let (next, _) = stopped().apply(Intent::SetInterval(260), 100);
    assert_eq!(next.interval_ms, 310);
    let (next, _) = stopped().apply(Intent::SetInterval(257), 0);
    assert_eq!(next.interval_ms, 257);
}

#[test]
fn set_interval_touches_nothing_else() {
    let before = Snapshot { running: true, interval_ms: 800, hotkey: Hotkey::F3 };
    let (next, _) = before.apply(Intent::SetInterval(250), 10);
    assert_eq!(next, Snapshot { running: true, interval_ms: 250, hotkey: Hotkey::F3 });
}

#[test]
fn set_interval_is_in_range_for_every_input() {
    for raw in [0u32, 1, 9, 10, 11, 500, 999, 1000, 1001, 65536, u32::MAX] {
        for step in [0u32, 1, 10, 7, 990, 991, u32::MAX] {
            let (next, _) = stopped().apply(Intent::SetInterval(raw), step);
            assert!(10 <= next.interval_ms && next.interval_ms <= 1000);
        }
    }
}

#[test]
fn set_interval_repairs_a_snapshot_that_was_out_of_range() {
    let broken = Snapshot { running: false, interval_ms: 5, hotkey: Hotkey::F6 };
    let (next, _) = broken.apply(Intent::SetInterval(40), 10);
    assert_eq!(next.interval_ms, 40);
}

#[test]
fn set_hotkey_stores_the_key_and_asks_for_a_listener() {
    let (next, effect) = stopped().apply(Intent::SetHotkey(Hotkey::F9), 10);
    assert_eq!(next, Snapshot { running: false, interval_ms: 800, hotkey: Hotkey::F9 });
    assert_eq!(effect, Effect::ListenerNeeded(Hotkey::F9));
}

#[test]
fn set_hotkey_to_the_same_key_still_asks_for_a_listener() {
    let (next, effect) = stopped().apply(Intent::SetHotkey(Hotkey::F6), 10);
    assert_eq!(next, stopped());
    assert_eq!(effect, Effect::ListenerNeeded(Hotkey::F6));
}

#[test]
fn transitions_say_what_they_leave() {
    assert_eq!(Transition::start(false), Transition { before: false, after: true });
    assert_eq!(Transition::start(true), Transition { before: true, after: true });
    assert_eq!(Transition::stop(false), Transition { before: false, after: false });
    assert_eq!(Transition::stop(true), Transition { before: true, after: false });
    assert_eq!(Transition::toggle(false), Transition { before: false, after: true });
    assert_eq!(Transition::toggle(true), Transition { before: true, after: false });
}

#[test]
fn transitions_report_only_a_change() {
    assert!(Transition::start(false).changed());
    assert!(!Transition::start(true).changed());
    assert!(!Transition::stop(false).changed());
    assert!(Transition::stop(true).changed());
    assert_eq!(Transition::start(false).effect(), Effect::Started);
    assert_eq!(Transition::start(true).effect(), Effect::Unchanged);
    assert_eq!(Transition::stop(false).effect(), Effect::Unchanged);
    assert_eq!(Transition::stop(true).effect(), Effect::Stopped);
    assert_eq!(Transition::toggle(false).effect(), Effect::Started);
    assert_eq!(Transition::toggle(true).effect(), Effect::Stopped);
}
