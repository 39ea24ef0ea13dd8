//! The per-sample transfer functions: a symmetric hard clip followed by
//! normalization, and a plain linear gain stage.
use vstd::prelude::*;
use vstd::arithmetic::div_mod::{
    lemma_div_is_ordered, lemma_div_multiples_vanish, lemma_div_nonincreasing,
};
use vstd::arithmetic::mul::lemma_mul_inequality;
use crate::params::{ParameterStore, Profile};
use crate::{SCALE, VAL_MAX};

verus! {

/// The smaller of two integers.
pub open spec fn min_int(x: int, y: int) -> int {
    if x <= y {
        x
    } else {
        y
    }
}

/// The magnitude of an integer.
pub open spec fn abs_int(x: int) -> int {
    if x < 0 {
        -x
    } else {
        x
    }
}

/// The clip-and-normalize transfer function: the sample is capped to the band
/// `[-a, a]` and the result divided by `a`, scaled back into hundredths.
/// Division truncates toward zero (both operands of each `/` are nonnegative).
pub open spec fn clip_shape_spec(x: int, a: int) -> int
    recommends
        a >= 1,
{
    if x >= 0 {
        (min_int(x, a) * (SCALE as int)) / a
    } else {
        -((min_int(-x, a) * (SCALE as int)) / a)
    }
}

/// Applies the clip-and-normalize transfer function to one sample.
pub fn clip_shape(x: i64, a: i64) -> (r: i64)
    requires
        1 <= a <= VAL_MAX,
        -VAL_MAX <= x <= VAL_MAX,
    ensures
        r as int == clip_shape_spec(x as int, a as int),
        -SCALE <= r <= SCALE,
{
    proof {
        lemma_clip_shape_in_band(x as int, a as int);
    }
    if x >= 0 {
        let c: u64 = if x < a {
            x as u64
        } else {
            a as u64
        };
        let q: u64 = (c * (SCALE as u64)) / (a as u64);
        q as i64
    } else {
        let m: u64 = (-x) as u64;
        let c: u64 = if m < a as u64 {
            m
        } else {
            a as u64
        };
        let q: u64 = (c * (SCALE as u64)) / (a as u64);
        -(q as i64)
    }
}

/// The linear gain stage: the sample multiplied by the gain factor, scaled
/// back into hundredths. Division truncates toward zero.
pub open spec fn gain_shape_spec(x: int, g: int) -> int {
    if x * g >= 0 {
        (x * g) / (SCALE as int)
    } else {
        -((-(x * g)) / (SCALE as int))
    }
}

/// Applies the gain stage to one sample.
pub fn gain_shape(x: i64, g: i64) -> (r: i64)
    requires
        -VAL_MAX <= x <= VAL_MAX,
        -VAL_MAX <= g <= VAL_MAX,
    ensures
        r as int == gain_shape_spec(x as int, g as int),
{
    let mx: u64 = if x >= 0 {
        x as u64
    } else {
        (-x) as u64
    };
    let mg: u64 = if g >= 0 {
        g as u64
    } else {
        (-g) as u64
    };
    proof {
        let xi: int = x as int;
        let gi: int = g as int;
        assert(mx as int * mg as int <= 1_000_000_000_000_000_000) by (nonlinear_arith)
            requires
                mx <= 1_000_000_000,
                mg <= 1_000_000_000,
        ;
        if x >= 0 && g >= 0 {
            assert(xi * gi >= 0 && xi * gi == mx as int * mg as int) by (nonlinear_arith)
                requires
                    xi >= 0,
                    gi >= 0,
                    mx as int == xi,
                    mg as int == gi,
            ;
        } else if x >= 0 && g < 0 {
            assert(xi * gi <= 0 && -(xi * gi) == mx as int * mg as int) by (nonlinear_arith)
                requires
                    xi >= 0,
                    gi < 0,
                    mx as int == xi,
                    mg as int == -gi,
            ;
        } else if x < 0 && g >= 0 {
            assert(xi * gi <= 0 && -(xi * gi) == mx as int * mg as int) by (nonlinear_arith)
                requires
                    xi < 0,
                    gi >= 0,
                    mx as int == -xi,
                    mg as int == gi,
            ;
        } else {
            assert(xi * gi >= 0 && xi * gi == mx as int * mg as int) by (nonlinear_arith)
                requires
                    xi < 0,
                    gi < 0,
                    mx as int == -xi,
                    mg as int == -gi,
            ;
        }
        lemma_div_nonincreasing(mx as int * mg as int, SCALE as int);
        lemma_div_is_ordered(0, mx as int * mg as int, SCALE as int);
        lemma_div_multiples_vanish(0, SCALE as int);
    }
    let q: u64 = (mx * mg) / (SCALE as u64);
    if (x >= 0) == (g >= 0) {
        q as i64
    } else {
        -(q as i64)
    }
}

/// The normalized clip of a sample never leaves the band `[-SCALE, SCALE]`:
/// the capped value has magnitude at most `a`, so dividing by `a` leaves at
/// most one whole unit of amplitude.
pub proof fn lemma_clip_shape_in_band(x: int, a: int)
    requires
        a >= 1,
    ensures
        -(SCALE as int) <= clip_shape_spec(x, a) <= SCALE as int,
{
    let s: int = SCALE as int;
    let m: int = if x >= 0 {
        min_int(x, a)
    } else {
        min_int(-x, a)
    };
    assert(0 <= m <= a);
    assert(m * s <= a * s) by {
        lemma_mul_inequality(m, a, s);
    }
    assert(0 <= (m * s) / a) by {
        lemma_div_nonincreasing(m * s, a);
        lemma_div_is_ordered(0, m * s, a);
        lemma_div_multiples_vanish(0, a);
    }
    assert((m * s) / a <= (a * s) / a) by {
        lemma_div_is_ordered(m * s, a * s, a);
    }
    assert((a * s) / a == s) by {
        lemma_div_multiples_vanish(s, a);
    }
}

/// Shape of the clip-and-normalize transfer function over the whole input
/// range: the output stays within one unit of full scale; a sample whose
/// magnitude is within the amount comes out rescaled by the amount; a sample
/// beyond it saturates to exactly full scale, keeping its sign.
pub proof fn lemma_clip_shape_transfer(x: int, a: int)
    requires
        a >= 1,
    ensures
        -(SCALE as int) <= clip_shape_spec(x, a) <= SCALE as int,
        abs_int(x) <= a && x >= 0 ==> clip_shape_spec(x, a) == (x * (SCALE as int)) / a,
        abs_int(x) <= a && x < 0 ==> clip_shape_spec(x, a) == -(((-x) * (SCALE as int)) / a),
        abs_int(x) > a && x > 0 ==> clip_shape_spec(x, a) == SCALE as int,
        abs_int(x) > a && x < 0 ==> clip_shape_spec(x, a) == -(SCALE as int),
{
    let s: int = SCALE as int;
    lemma_clip_shape_in_band(x, a);
    if abs_int(x) > a {
        assert((a * s) / a == s) by {
            lemma_div_multiples_vanish(s, a);
        }
    }
}

/// Applies the threshold-and-gain profile's transfer to one sample: the
/// clipped value is computed first and then superseded by the gain stage, so
/// the returned sample is the gain stage's output alone, whatever the
/// threshold. This mirrors the effect's documented behavior; a corrected
/// clip-then-gain profile would have to be a distinct third profile.
#[allow(unused_assignments)]
pub fn threshold_gain_shape(x: i64, t: i64, g: i64) -> (r: i64)
    requires
        1 <= t <= VAL_MAX,
        -VAL_MAX <= x <= VAL_MAX,
        -VAL_MAX <= g <= VAL_MAX,
    ensures
        r as int == gain_shape_spec(x as int, g as int),
{
    let mut out: i64 = clip_shape(x, t);
    out = gain_shape(x, g);
    out
}

/// What one invocation of the effect turns a sample into, given the
/// parameter snapshot held by `store`.
pub open spec fn transfer_spec(store: ParameterStore, x: int) -> int {
    match store.profile {
        Profile::SingleClip => clip_shape_spec(x, store.slot0 as int),
        Profile::ThresholdGain => gain_shape_spec(x, store.slot1 as int),
    }
}

/// Applies the store's transfer function to one sample.
pub fn transfer(store: &ParameterStore, x: i64) -> (r: i64)
    requires
        store.wf(),
        -VAL_MAX <= x <= VAL_MAX,
    ensures
        r as int == transfer_spec(*store, x as int),
{
    match store.profile {
        Profile::SingleClip => clip_shape(x, store.slot0),
        Profile::ThresholdGain => threshold_gain_shape(x, store.slot0, store.slot1),
    }
}

/// Applies the store's transfer function to every sample of one channel
/// buffer, in place.
pub fn process_channel(store: &ParameterStore, samples: &mut Vec<i64>)
    requires
        store.wf(),
        forall|i: int|
            0 <= i < old(samples)@.len() ==> -VAL_MAX <= #[trigger] old(samples)@[i] <= VAL_MAX,
    ensures
        final(samples)@.len() == old(samples)@.len(),
        forall|i: int|
            0 <= i < old(samples)@.len() ==> #[trigger] final(samples)@[i] as int == transfer_spec(
                *store,
                old(samples)@[i] as int,
            ),
{
    let n: usize = samples.len();
    let mut j: usize = 0;
    while j < n
        invariant
            store.wf(),
            n == old(samples)@.len(),
            samples@.len() == n,
            j <= n,
            forall|i: int|
                0 <= i < n ==> -VAL_MAX <= #[trigger] old(samples)@[i] <= VAL_MAX,
            forall|i: int| j <= i < n ==> #[trigger] samples@[i] == old(samples)@[i],
            forall|i: int|
                0 <= i < j ==> #[trigger] samples@[i] as int == transfer_spec(
                    *store,
                    old(samples)@[i] as int,
                ),
        decreases n - j,
    {
        let x: i64 = samples[j];
        samples[j] = transfer(store, x);
        j = j + 1;
    }
}

/// Processes one stereo block in place: both channel buffers are transformed
/// sample by sample under the same parameter snapshot, read once at the start
/// of the call.
pub fn process(store: &ParameterStore, left: &mut Vec<i64>, right: &mut Vec<i64>)
    requires
        store.wf(),
        forall|i: int|
            0 <= i < old(left)@.len() ==> -VAL_MAX <= #[trigger] old(left)@[i] <= VAL_MAX,
        forall|i: int|
            0 <= i < old(right)@.len() ==> -VAL_MAX <= #[trigger] old(right)@[i] <= VAL_MAX,
    ensures
        final(left)@.len() == old(left)@.len(),
        final(right)@.len() == old(right)@.len(),
        forall|i: int|
            0 <= i < old(left)@.len() ==> #[trigger] final(left)@[i] as int == transfer_spec(
                *store,
                old(left)@[i] as int,
            ),
        forall|i: int|
            0 <= i < old(right)@.len() ==> #[trigger] final(right)@[i] as int == transfer_spec(
                *store,
                old(right)@[i] as int,
            ),
{
    process_channel(store, left);
    process_channel(store, right);
}

/// Under the threshold-and-gain profile the threshold has no observable
/// effect: two stores that agree on the gain knob transform every sample
/// identically, and the result is exactly the gain stage's output. The clip
/// computation the profile performs first is superseded before it can be
/// heard.
pub proof fn lemma_threshold_has_no_effect(s1: ParameterStore, s2: ParameterStore, x: int)
    requires
        s1.profile == Profile::ThresholdGain,
        s2.profile == Profile::ThresholdGain,
        s1.slot1 == s2.slot1,
    ensures
        transfer_spec(s1, x) == transfer_spec(s2, x),
        transfer_spec(s1, x) == gain_shape_spec(x, s1.slot1 as int),
{
}

/// Running an already-saturated sample (its magnitude equals the amount)
/// through the transfer function twice with the same amount gives the same
/// full-scale value both times. This holds for amounts up to one unit of full
/// scale; beyond that, the second pass rescales the full-scale value downward.
pub proof fn lemma_clip_shape_idempotent_at_saturation(x: int, a: int)
    requires
        1 <= a <= SCALE as int,
        abs_int(x) == a,
    ensures
        clip_shape_spec(clip_shape_spec(x, a), a) == clip_shape_spec(x, a),
{
    let s: int = SCALE as int;
    assert((a * s) / a == s) by {
        lemma_div_multiples_vanish(s, a);
    }
    if x >= 0 {
        assert(clip_shape_spec(x, a) == s);
        assert(min_int(s, a) == a);
        assert(clip_shape_spec(s, a) == s);
    } else {
        assert(clip_shape_spec(x, a) == -s);
        assert(min_int(s, a) == a);
        assert(clip_shape_spec(-s, a) == -s);
    }
}

} // verus!
