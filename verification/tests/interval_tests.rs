use auto_clicker::interval::clamp_interval;
use auto_clicker::interval::quantize_interval;
use auto_clicker::interval::DEFAULT_INTERVAL_MS;
use auto_clicker::interval::DEFAULT_STEP_MS;
use auto_clicker::interval::MAX_INTERVAL_MS;
use auto_clicker::interval::MIN_INTERVAL_MS;

#[test]
fn constants_are_as_documented() {
    assert_eq!(MIN_INTERVAL_MS, 10);
    assert_eq!(MAX_INTERVAL_MS, 1000);
    assert_eq!(DEFAULT_INTERVAL_MS, 800);
    assert_eq!(DEFAULT_STEP_MS, 10);
}

#[test]
fn clamp_leaves_the_range_alone() {
    assert_eq!(clamp_interval(10), 10);
    assert_eq!(clamp_interval(11), 11);
    assert_eq!(clamp_interval(800), 800);
    assert_eq!(clamp_interval(999), 999);
    assert_eq!(clamp_interval(1000), 1000);
}

#[test]
fn clamp_raises_what_is_too_small() {
    assert_eq!(clamp_interval(0), 10);
    assert_eq!(clamp_interval(1), 10);
    assert_eq!(clamp_interval(9), 10);
}

#[test]
fn clamp_lowers_what_is_too_large() {
    assert_eq!(clamp_interval(1001), 1000);
    assert_eq!(clamp_interval(2000), 1000);
    assert_eq!(clamp_interval(u32::MAX), 1000);
}

#[test]
fn quantize_rounds_to_the_nearest_step() {
    assert_eq!(quantize_interval(14, 10), 10);
    assert_eq!(quantize_interval(16, 10), 20);
    assert_eq!(quantize_interval(804, 10), 800);
    assert_eq!(quantize_interval(806, 10), 810);
    assert_eq!(quantize_interval(994, 10), 990);
    assert_eq!(quantize_interval(996, 10), 1000);
}

#[test]
fn quantize_rounds_a_half_step_up() {
    assert_eq!(quantize_interval(15, 10), 20);
    assert_eq!(quantize_interval(805, 10), 810);
    assert_eq!(quantize_interval(995, 10), 1000);
    assert_eq!(quantize_interval(11, 2), 12);
}

#[test]
fn quantize_clamps_first() {
    assert_eq!(quantize_interval(0, 10), 10);
    assert_eq!(quantize_interval(3, 10), 10);
    assert_eq!(quantize_interval(2000, 10), 1000);
    assert_eq!(quantize_interval(u32::MAX, 10), 1000);
}

#[test]
fn quantize_keeps_grid_points() {
    let mut ms = MIN_INTERVAL_MS;
    while ms <= MAX_INTERVAL_MS {
        assert_eq!(quantize_interval(ms, DEFAULT_STEP_MS), ms);
        ms += DEFAULT_STEP_MS;
    }
}

#[test]
fn quantize_stays_in_range_when_the_step_does_not_divide_it() {
    // The grid of step 300 is 10, 310, 610, 910.
    assert_eq!(quantize_interval(1000, 300), 910);
    assert_eq!(quantize_interval(760, 300), 910);
    assert_eq!(quantize_interval(759, 300), 610);
    assert_eq!(quantize_interval(159, 300), 10);
    assert_eq!(quantize_interval(160, 300), 310);
}

#[test]
fn quantize_with_a_step_wider_than_the_range_gives_the_minimum() {
    assert_eq!(quantize_interval(600, 1000), 10);
    assert_eq!(quantize_interval(1000, 991), 10);
    assert_eq!(quantize_interval(1000, u32::MAX), 10);
    assert_eq!(quantize_interval(0, u32::MAX), 10);
}

#[test]
fn quantize_with_the_widest_step_that_fits() {
    assert_eq!(quantize_interval(1000, 990), 1000);
    assert_eq!(quantize_interval(505, 990), 1000);
    assert_eq!(quantize_interval(504, 990), 10);
}

#[test]
fn quantize_without_a_step_only_clamps() {
    assert_eq!(quantize_interval(0, 0), 10);
    assert_eq!(quantize_interval(123, 0), 123);
    assert_eq!(quantize_interval(5000, 0), 1000);
    assert_eq!(quantize_interval(123, 1), 123);
}

#[test]
fn quantize_is_in_range_and_on_the_grid_for_every_input() {
    for step in [1u32, 2, 3, 7, 10, 25, 64, 100, 300, 333, 989, 990, 991, 5000] {
        for raw in 0u32..1200 {
            let ms = quantize_interval(raw, step);
            assert!(MIN_INTERVAL_MS <= ms && ms <= MAX_INTERVAL_MS);
            assert_eq!((ms - MIN_INTERVAL_MS) % step, 0);
        }
    }
}

#[test]
fn quantize_picks_the_nearest_grid_point_of_the_range() {
    for step in [1u32, 3, 10, 64, 300, 990, 2000] {
        for raw in 0u32..1200 {
            let ms = quantize_interval(raw, step);
            let clamped = clamp_interval(raw);
            let mut other = MIN_INTERVAL_MS;
            while other <= MAX_INTERVAL_MS {
                let mine = ms.abs_diff(clamped);
                let theirs = other.abs_diff(clamped);
                assert!(mine <= theirs);
                if mine == theirs {
                    assert!(other <= ms);
                }
                other += step;
            }
        }
    }
}

#[test]
fn quantize_twice_is_quantize_once() {
    for step in [0u32, 1, 3, 10, 300, 5000] {
        for raw in [0u32, 9, 10, 14, 15, 499, 805, 1000, 1001, 70000] {
            let once = quantize_interval(raw, step);
            assert_eq!(quantize_interval(once, step), once);
        }
    }
}
