//! The delay between two clicks: its bounds, and how raw input is brought
//! into them.

use vstd::arithmetic::div_mod::lemma_fundamental_div_mod;
use vstd::arithmetic::div_mod::lemma_mod_bound;
use vstd::arithmetic::div_mod::lemma_small_mod;
use vstd::prelude::*;

verus! {

/// The shortest delay between two clicks, in milliseconds.
pub const MIN_INTERVAL_MS: u32 = 10;

/// The longest delay between two clicks, in milliseconds.
pub const MAX_INTERVAL_MS: u32 = 1000;

/// The delay in force until the user chooses another.
pub const DEFAULT_INTERVAL_MS: u32 = 800;

/// The granularity to which the control surface snaps a delay.
pub const DEFAULT_STEP_MS: u32 = 10;

/// Whether `ms` is a delay the click loop may be given.
pub open spec fn in_range(ms: int) -> bool {
    MIN_INTERVAL_MS <= ms <= MAX_INTERVAL_MS
}

/// `raw` moved to the nearest end of the range where it lies outside.
pub open spec fn clamp_spec(raw: int) -> int {
    if raw < MIN_INTERVAL_MS {
        MIN_INTERVAL_MS as int
    } else if raw > MAX_INTERVAL_MS {
        MAX_INTERVAL_MS as int
    } else {
        raw
    }
}

/// Whether `ms` is a delay of the range that lies a whole number of steps
/// above the minimum. With no step (`step <= 0`) every delay of the range is.
pub open spec fn on_grid(ms: int, step: int) -> bool {
    in_range(ms) && (step > 0 ==> (ms - MIN_INTERVAL_MS) % step == 0)
}

/// The distance between two delays.
pub open spec fn distance(a: int, b: int) -> int {
    if a <= b {
        b - a
    } else {
        a - b
    }
}

/// `raw` clamped to the range and then snapped to the grid of `step`: half a
/// step or more above a grid point goes up, unless that would leave the range.
/// `lemma_quantize_nearest` says what this formula picks.
pub open spec fn quantize_spec(raw: int, step: int) -> int {
    let clamped = clamp_spec(raw);
    if step <= 0 {
        clamped
    } else {
        let snapped = MIN_INTERVAL_MS + (clamped - MIN_INTERVAL_MS + step / 2) / step * step;
        if snapped > MAX_INTERVAL_MS {
            snapped - step
        } else {
            snapped
        }
    }
}

/// Brings a raw delay into the range.
pub fn clamp_interval(raw: u32) -> (ms: u32)
    ensures
        ms == clamp_spec(raw as int),
        in_range(ms as int),
        in_range(raw as int) ==> ms == raw,
{
    if raw < MIN_INTERVAL_MS {
        MIN_INTERVAL_MS
    } else if raw > MAX_INTERVAL_MS {
        MAX_INTERVAL_MS
    } else {
        raw
    }
}

/// Brings a raw delay into the range and onto the grid of `step`. A step of
/// zero asks for no grid.
pub fn quantize_interval(raw: u32, step: u32) -> (ms: u32)
    ensures
        ms == quantize_spec(raw as int, step as int),
        on_grid(ms as int, step as int),
{
    let clamped = clamp_interval(raw);
    if step == 0 {
        return clamped;
    }
    proof {
        lemma_quantize_nearest(raw as int, step as int);
        lemma_snap_bounds((clamped - MIN_INTERVAL_MS) as int, step as int);
    }
    let offset: u32 = clamped - MIN_INTERVAL_MS;
    let lifted: u32 = offset + step / 2;
    let snapped: u32 = MIN_INTERVAL_MS + lifted / step * step;
    if snapped > MAX_INTERVAL_MS {
        snapped - step
    } else {
        snapped
    }
}

/// Where an offset lands when it is snapped: within half a step of where it
/// was, on a multiple of the step.
proof fn lemma_snap_bounds(offset: int, step: int)
    requires
        0 <= offset,
        0 < step,
    ensures
        0 <= (offset + step / 2) / step,
        (offset + step / 2) / step * step == offset + step / 2 - (offset + step / 2) % step,
        0 <= (offset + step / 2) % step < step,
        offset - (step - 1 - step / 2) <= (offset + step / 2) / step * step <= offset + step / 2,
        ((offset + step / 2) / step * step) % step == 0,
{
    let lifted = offset + step / 2;
    let k = lifted / step;
    lemma_fundamental_div_mod(lifted, step);
    lemma_mod_bound(lifted, step);
    assert(step * k == k * step) by (nonlinear_arith);
    assert(k >= 0) by (nonlinear_arith)
        requires
            k * step + lifted % step == lifted,
            0 <= lifted % step < step,
            lifted >= 0,
            step > 0,
    ;
    lemma_multiple_mod(k, step);
}

/// A multiple of the step leaves no remainder.
proof fn lemma_multiple_mod(k: int, step: int)
    requires
        0 < step,
    ensures
        (k * step) % step == 0,
{
    vstd::arithmetic::div_mod::lemma_mod_multiples_basic(k, step);
}

/// Two different multiples of the step lie at least a step apart.
proof fn lemma_grid_gap(a: int, b: int, step: int)
    requires
        0 < step,
        a % step == 0,
        b % step == 0,
        a != b,
    ensures
        distance(a, b) >= step,
{
    lemma_fundamental_div_mod(a, step);
    lemma_fundamental_div_mod(b, step);
    let j = a / step;
    let k = b / step;
    assert(a == step * j);
    assert(b == step * k);
    assert(j != k);
    if j < k {
        assert(step * k - step * j >= step) by (nonlinear_arith)
            requires
                j + 1 <= k,
                step > 0,
        ;
    } else {
        assert(step * j - step * k >= step) by (nonlinear_arith)
            requires
                k + 1 <= j,
                step > 0,
        ;
    }
}

/// What quantizing picks: a delay of the range that lies on the grid, and of
/// all such delays the one nearest to the clamped input; of two equally near,
/// the larger.
pub proof fn lemma_quantize_nearest(raw: int, step: int)
    requires
        0 < step,
    ensures
        on_grid(quantize_spec(raw, step), step),
        forall|other: int| #[trigger]
            on_grid(other, step) ==> distance(quantize_spec(raw, step), clamp_spec(raw))
                <= distance(other, clamp_spec(raw)),
        forall|other: int| #[trigger]
            on_grid(other, step) && distance(quantize_spec(raw, step), clamp_spec(raw))
                == distance(other, clamp_spec(raw)) ==> other <= quantize_spec(raw, step),
{
    let clamped = clamp_spec(raw);
    let offset = clamped - MIN_INTERVAL_MS;
    let picked = quantize_spec(raw, step);
    let multiple = (offset + step / 2) / step * step;
    let snapped = MIN_INTERVAL_MS + multiple;
    lemma_snap_bounds(offset, step);
    if snapped > MAX_INTERVAL_MS {
        assert(picked == snapped - step);
        assert((multiple - step) % step == 0) by {
            let k = (offset + step / 2) / step;
            assert(multiple - step == (k - 1) * step) by (nonlinear_arith)
                requires
                    multiple == k * step,
            ;
            lemma_multiple_mod(k - 1, step);
        }
        assert(multiple > 0);
        assert(multiple - step >= 0) by {
            if multiple - step < 0 {
                lemma_small_mod(multiple as nat, step as nat);
            }
        }
        assert(on_grid(picked, step));
        assert forall|other: int| #[trigger] on_grid(other, step) implies distance(picked, clamped)
            <= distance(other, clamped) && (distance(picked, clamped) == distance(other, clamped)
            ==> other <= picked) by {
            if other != picked {
                lemma_grid_gap(other - MIN_INTERVAL_MS, multiple - step, step);
                if other > picked {
                    assert(other >= snapped);
                }
            }
        }
    } else {
        assert(picked == snapped);
        assert(on_grid(picked, step));
        assert forall|other: int| #[trigger] on_grid(other, step) implies distance(picked, clamped)
            <= distance(other, clamped) && (distance(picked, clamped) == distance(other, clamped)
            ==> other <= picked) by {
            if other != picked {
                lemma_grid_gap(other - MIN_INTERVAL_MS, multiple, step);
            }
        }
    }
}

/// A delay that already lies on the grid is left where it is.
pub proof fn lemma_quantize_fixes_grid(ms: int, step: int)
    requires
        on_grid(ms, step),
    ensures
        quantize_spec(ms, step) == ms,
{
    if step > 0 {
        lemma_quantize_nearest(ms, step);
        assert(on_grid(ms, step));
        assert(distance(ms, clamp_spec(ms)) == 0);
    }
}

/// Quantizing twice is quantizing once: a delay that a control has already
/// snapped passes through unchanged.
pub proof fn law_quantize_idempotent(raw: int, step: int)
    ensures
        quantize_spec(quantize_spec(raw, step), step) == quantize_spec(raw, step),
{
    if step > 0 {
        lemma_quantize_nearest(raw, step);
    }
    lemma_quantize_fixes_grid(quantize_spec(raw, step), step);
}

} // verus!
