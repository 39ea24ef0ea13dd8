use reznorify::info::effect_info;
use reznorify::params::{ParameterStore, Profile};
use reznorify::shaper::{clip_shape, gain_shape, process, threshold_gain_shape, transfer};
use reznorify::text::{centi_string, decimal_string};

fn run_block(store: &ParameterStore, input: Vec<i64>) -> Vec<i64> {
    let mut left = input.clone();
    let mut right = input;
    process(store, &mut left, &mut right);
    assert_eq!(left, right);
    left
}

#[test]
fn scenario_single_clip_half_amount() {
    let mut store = ParameterStore::new(Profile::SingleClip);
    store.set(0, 50);
    let out = run_block(&store, vec![100, 30, -80]);
    assert_eq!(out, vec![100, 60, -100]);
}

#[test]
fn scenario_single_clip_default_identity() {
    let store = ParameterStore::new(Profile::SingleClip);
    assert_eq!(store.get(0), 100);
    let out = run_block(&store, vec![50, -50]);
    assert_eq!(out, vec![50, -50]);
}

#[test]
fn scenario_gain_double() {
    for threshold in [1, 25, 50, 100, 10_000] {
        let mut store = ParameterStore::new(Profile::ThresholdGain);
        store.set(0, threshold);
        store.set(1, 200);
        let out = run_block(&store, vec![20, -30]);
        assert_eq!(out, vec![40, -60]);
    }
}

#[test]
fn clip_output_stays_in_band() {
    for amount in [1, 2, 50, 100, 300, 1_000_000] {
        for x in [-1_000_000, -101, -100, -37, -1, 0, 1, 42, 99, 100, 101, 1_000_000] {
            let r = clip_shape(x, amount);
            assert!(-100 <= r && r <= 100);
        }
    }
}

#[test]
fn clip_rescales_within_band_and_saturates_beyond() {
    assert_eq!(clip_shape(30, 50), 60);
    assert_eq!(clip_shape(-30, 50), -60);
    assert_eq!(clip_shape(50, 50), 100);
    assert_eq!(clip_shape(-50, 50), -100);
    assert_eq!(clip_shape(51, 50), 100);
    assert_eq!(clip_shape(-51, 50), -100);
    assert_eq!(clip_shape(25, 200), 12);
    assert_eq!(clip_shape(0, 7), 0);
}

#[test]
fn clip_idempotent_at_saturation() {
    for amount in [1, 40, 100] {
        for x in [amount, -amount] {
            let once = clip_shape(x, amount);
            let twice = clip_shape(once, amount);
            assert_eq!(twice, once);
        }
    }
}

#[test]
fn threshold_has_no_observable_effect() {
    for threshold in [1, 13, 50, 100, 999] {
        for x in [-250, -100, -1, 0, 1, 20, 100, 250] {
            for gain in [-200, -100, 0, 100, 150, 200] {
                assert_eq!(threshold_gain_shape(x, threshold, gain), gain_shape(x, gain));
            }
        }
    }
}

#[test]
fn gain_negative_inverts_phase() {
    let mut store = ParameterStore::new(Profile::ThresholdGain);
    store.set(1, -100);
    let out = run_block(&store, vec![20, -35, 0]);
    assert_eq!(out, vec![-20, 35, 0]);
}

#[test]
fn gain_default_is_identity() {
    let store = ParameterStore::new(Profile::ThresholdGain);
    let out = run_block(&store, vec![77, -12, 0, 100, -100]);
    assert_eq!(out, vec![77, -12, 0, 100, -100]);
}

#[test]
fn transfer_matches_process_per_sample() {
    let mut store = ParameterStore::new(Profile::SingleClip);
    store.set(0, 30);
    let input = vec![-90, -30, -10, 0, 10, 30, 90];
    let out = run_block(&store, input.clone());
    for (x, y) in input.into_iter().zip(out.into_iter()) {
        assert_eq!(transfer(&store, x), y);
    }
}

#[test]
fn process_empty_block() {
    for profile in [Profile::SingleClip, Profile::ThresholdGain] {
        let store = ParameterStore::new(profile);
        let out = run_block(&store, vec![]);
        assert!(out.is_empty());
    }
}

#[test]
fn process_keeps_channel_lengths() {
    let store = ParameterStore::new(Profile::ThresholdGain);
    let mut left = vec![1, 2, 3];
    let mut right = vec![4, 5];
    process(&store, &mut left, &mut right);
    assert_eq!(left.len(), 3);
    assert_eq!(right.len(), 2);
}

#[test]
fn set_clamps_threshold_to_floor() {
    let mut store = ParameterStore::new(Profile::ThresholdGain);
    store.set(0, 0);
    assert_eq!(store.get(0), 1);
    store.set(0, -500);
    assert_eq!(store.get(0), 1);
    store.set(0, 73);
    assert_eq!(store.get(0), 73);
    store.set(0, 1);
    assert_eq!(store.get(0), 1);
}

#[test]
fn set_clamps_to_representable_range() {
    let mut store = ParameterStore::new(Profile::ThresholdGain);
    store.set(0, i64::MAX);
    assert_eq!(store.get(0), 1_000_000_000);
    store.set(1, i64::MIN);
    assert_eq!(store.get(1), -1_000_000_000);
}

#[test]
fn invalid_index_reads_neutral_and_writes_nothing() {
    let mut store = ParameterStore::new(Profile::ThresholdGain);
    store.set(0, 42);
    store.set(1, -77);
    assert_eq!(store.get(99), 0);
    store.set(99, 12345);
    assert_eq!(store.get(0), 42);
    assert_eq!(store.get(1), -77);
    assert_eq!(store.name(99), "");
    assert_eq!(store.display_text(99), "");

    let mut single = ParameterStore::new(Profile::SingleClip);
    assert_eq!(single.get(1), 0);
    single.set(1, 55);
    assert_eq!(single.get(0), 100);
    assert_eq!(single.get(1), 0);
}

#[test]
fn display_threshold_default() {
    let store = ParameterStore::new(Profile::ThresholdGain);
    assert_eq!(store.display_text(0), "0.50");
}

#[test]
fn display_two_decimal_places() {
    let mut store = ParameterStore::new(Profile::ThresholdGain);
    assert_eq!(store.display_text(1), "1.00");
    store.set(1, -60);
    assert_eq!(store.display_text(1), "-0.60");
    store.set(1, 1);
    assert_eq!(store.display_text(1), "0.01");
    store.set(0, 12345);
    assert_eq!(store.display_text(0), "123.45");
}

#[test]
fn display_amount_as_percentage() {
    let mut store = ParameterStore::new(Profile::SingleClip);
    assert_eq!(store.display_text(0), "100");
    assert_eq!(store.label(0), "%");
    store.set(0, 50);
    assert_eq!(store.display_text(0), "50");
}

#[test]
fn rendering_helpers() {
    assert_eq!(decimal_string(0), "0");
    assert_eq!(decimal_string(7), "7");
    assert_eq!(decimal_string(100), "100");
    assert_eq!(decimal_string(98765), "98765");
    assert_eq!(centi_string(0), "0.00");
    assert_eq!(centi_string(100_000), "1000.00");
    assert_eq!(centi_string(-1), "-0.01");
    assert_eq!(centi_string(1_000_000_000), "10000000.00");
}

#[test]
fn parameter_names_and_labels() {
    let two = ParameterStore::new(Profile::ThresholdGain);
    assert_eq!(two.parameter_count(), 2);
    assert_eq!(two.name(0), "Threshold");
    assert_eq!(two.name(1), "Gain");
    assert_eq!(two.label(0), "");
    assert_eq!(two.label(1), "");

    let one = ParameterStore::new(Profile::SingleClip);
    assert_eq!(one.parameter_count(), 1);
    assert_eq!(one.name(0), "Amount");
    assert_eq!(one.name(1), "");
    assert_eq!(one.label(1), "");
}

#[test]
fn defaults_per_profile() {
    let two = ParameterStore::new(Profile::ThresholdGain);
    assert_eq!(two.get(0), 50);
    assert_eq!(two.get(1), 100);
    let one = ParameterStore::new(Profile::SingleClip);
    assert_eq!(one.get(0), 100);
}

#[test]
fn effect_metadata() {
    let two = effect_info(Profile::ThresholdGain);
    assert_eq!(two.name, "Reznorify");
    assert_eq!(two.vendor, "nicopellerin");
    assert_eq!(two.unique_id, 450845848);
    assert_eq!(two.inputs, 2);
    assert_eq!(two.outputs, 2);
    assert_eq!(two.parameters, 2);

    let one = effect_info(Profile::SingleClip);
    assert_eq!(one.name, "Reznorify Clip");
    assert_eq!(one.unique_id, 450845847);
    assert_eq!(one.parameters, 1);
}
