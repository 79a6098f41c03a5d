//! Tests of the option resolution policy.
use altjtalk::synthesis_option::{
    ResolvedSynthesisOption, SynthesisOption, DEFAULT_ALL_PASS_CONSTANT_BITS,
    DEFAULT_FRAME_PERIOD, DEFAULT_GV_WEIGHT_BITS, DEFAULT_SAMPLING_FREQUENCY,
    DEFAULT_SPEECH_SPEED_RATE_BITS, DEFAULT_VOICED_UNVOICED_THRESHOLD_BITS,
};

fn all_omitted() -> SynthesisOption {
    SynthesisOption::default()
}

fn full_snapshot() -> SynthesisOption {
    SynthesisOption {
        sampling_frequency: Some(44100),
        frame_period: Some(300),
        all_pass_constant: Some(0.42f64.to_bits()),
        postfiltering_coefficient: Some(0.9f64.to_bits()),
        speech_speed_rate: None,
        additional_half_tone: None,
        voiced_unvoiced_threshold: Some(0.7f64.to_bits()),
        weight_of_gv_for_spectrum: Some(2.0f64.to_bits()),
        weight_of_gv_for_log_f0: Some(3.0f64.to_bits()),
        volume_in_db: Some((-6.0f64).to_bits()),
    }
}

#[test]
fn default_omits_every_field() {
    let o = SynthesisOption::default();
    assert_eq!(o.sampling_frequency, None);
    assert_eq!(o.frame_period, None);
    assert_eq!(o.all_pass_constant, None);
    assert_eq!(o.postfiltering_coefficient, None);
    assert_eq!(o.speech_speed_rate, None);
    assert_eq!(o.additional_half_tone, None);
    assert_eq!(o.voiced_unvoiced_threshold, None);
    assert_eq!(o.weight_of_gv_for_spectrum, None);
    assert_eq!(o.weight_of_gv_for_log_f0, None);
    assert_eq!(o.volume_in_db, None);
}

#[test]
fn explicit_value_wins_over_snapshot_and_constant() {
    let call = SynthesisOption {
        sampling_frequency: Some(16000),
        frame_period: Some(80),
        all_pass_constant: Some(0.31f64.to_bits()),
        postfiltering_coefficient: Some(0.25f64.to_bits()),
        speech_speed_rate: Some(1.5f64.to_bits()),
        additional_half_tone: Some(2.0f64.to_bits()),
        voiced_unvoiced_threshold: Some(0.6f64.to_bits()),
        weight_of_gv_for_spectrum: Some(0.8f64.to_bits()),
        weight_of_gv_for_log_f0: Some(0.9f64.to_bits()),
        volume_in_db: Some(3.0f64.to_bits()),
    };
    let r = call.resolve(&full_snapshot());
    assert_eq!(
        r,
        ResolvedSynthesisOption {
            sampling_frequency: 16000,
            frame_period: 80,
            all_pass_constant: 0.31f64.to_bits(),
            postfiltering_coefficient: 0.25f64.to_bits(),
            speech_speed_rate: 1.5f64.to_bits(),
            additional_half_tone: 2.0f64.to_bits(),
            voiced_unvoiced_threshold: 0.6f64.to_bits(),
            weight_of_gv_for_spectrum: 0.8f64.to_bits(),
            weight_of_gv_for_log_f0: 0.9f64.to_bits(),
            volume_in_db: 3.0f64.to_bits(),
        }
    );
}

#[test]
fn snapshot_applies_to_eligible_fields_when_omitted() {
    let r = all_omitted().resolve(&full_snapshot());
    assert_eq!(r.sampling_frequency, 44100);
    assert_eq!(r.frame_period, 300);
    assert_eq!(r.all_pass_constant, 0.42f64.to_bits());
}

#[test]
fn different_snapshots_resolve_an_omitted_call_differently() {
    let mut other = full_snapshot();
    other.sampling_frequency = Some(22050);
    other.frame_period = Some(110);
    other.all_pass_constant = Some(0.33f64.to_bits());
    let a = all_omitted().resolve(&full_snapshot());
    let b = all_omitted().resolve(&other);
    assert_ne!(a.sampling_frequency, b.sampling_frequency);
    assert_ne!(a.frame_period, b.frame_period);
    assert_ne!(a.all_pass_constant, b.all_pass_constant);
}

#[test]
fn constants_apply_to_non_eligible_fields_whatever_the_snapshot_holds() {
    // The snapshot carries values for these five fields too; resolution must
    // ignore them and use the hardcoded constants.
    let r = all_omitted().resolve(&full_snapshot());
    assert_eq!(r.postfiltering_coefficient, 0.0f64.to_bits());
    assert_eq!(r.speech_speed_rate, 1.0f64.to_bits());
    assert_eq!(r.additional_half_tone, 0.0f64.to_bits());
    assert_eq!(r.voiced_unvoiced_threshold, 0.5f64.to_bits());
    assert_eq!(r.weight_of_gv_for_spectrum, 1.0f64.to_bits());
    assert_eq!(r.weight_of_gv_for_log_f0, 1.0f64.to_bits());
    assert_eq!(r.volume_in_db, 0.0f64.to_bits());
}

#[test]
fn constants_apply_when_snapshot_is_empty_too() {
    let r = all_omitted().resolve(&all_omitted());
    assert_eq!(r.sampling_frequency, DEFAULT_SAMPLING_FREQUENCY);
    assert_eq!(r.sampling_frequency, 48000);
    assert_eq!(r.frame_period, DEFAULT_FRAME_PERIOD);
    assert_eq!(r.frame_period, 240);
    assert_eq!(r.all_pass_constant, DEFAULT_ALL_PASS_CONSTANT_BITS);
    assert_eq!(r.all_pass_constant, 0.55f64.to_bits());
    assert_eq!(r.speech_speed_rate, DEFAULT_SPEECH_SPEED_RATE_BITS);
    assert_eq!(r.voiced_unvoiced_threshold, DEFAULT_VOICED_UNVOICED_THRESHOLD_BITS);
    assert_eq!(r.weight_of_gv_for_spectrum, DEFAULT_GV_WEIGHT_BITS);
}

#[test]
fn out_of_range_values_pass_through_resolution_unvalidated() {
    // Resolution performs no range validation: out-of-range values reach
    // the engine verbatim, whose own clamping governs them.
    let call = SynthesisOption {
        all_pass_constant: Some(5.0f64.to_bits()),
        speech_speed_rate: Some((-2.0f64).to_bits()),
        ..SynthesisOption::default()
    };
    let r = call.resolve(&SynthesisOption::default());
    assert_eq!(r.all_pass_constant, 5.0f64.to_bits());
    assert_eq!(r.speech_speed_rate, (-2.0f64).to_bits());
}

#[test]
fn resolution_is_deterministic() {
    let call = SynthesisOption {
        frame_period: Some(120),
        ..SynthesisOption::default()
    };
    let a = call.clone().resolve(&full_snapshot());
    let b = call.resolve(&full_snapshot());
    assert_eq!(a, b);
}

#[test]
fn scenario_frame_period_explicit_rest_from_snapshot_and_constants() {
    // A session whose engine reported a default sampling frequency of 44100:
    // a call that sets only the frame period keeps the snapshot's sampling
    // frequency and alpha, and the constants for everything else.
    let snapshot = SynthesisOption {
        sampling_frequency: Some(44100),
        frame_period: Some(240),
        all_pass_constant: Some(0.48f64.to_bits()),
        postfiltering_coefficient: Some(0.1f64.to_bits()),
        speech_speed_rate: None,
        additional_half_tone: None,
        voiced_unvoiced_threshold: Some(0.9f64.to_bits()),
        weight_of_gv_for_spectrum: Some(1.4f64.to_bits()),
        weight_of_gv_for_log_f0: Some(0.6f64.to_bits()),
        volume_in_db: Some(1.0f64.to_bits()),
    };
    let call = SynthesisOption {
        frame_period: Some(120),
        ..SynthesisOption::default()
    };
    let r = call.resolve(&snapshot);
    assert_eq!(r.sampling_frequency, 44100);
    assert_eq!(r.frame_period, 120);
    assert_eq!(r.all_pass_constant, 0.48f64.to_bits());
    assert_eq!(r.postfiltering_coefficient, 0.0f64.to_bits());
    assert_eq!(r.speech_speed_rate, 1.0f64.to_bits());
    assert_eq!(r.additional_half_tone, 0.0f64.to_bits());
    assert_eq!(r.voiced_unvoiced_threshold, 0.5f64.to_bits());
    assert_eq!(r.weight_of_gv_for_spectrum, 1.0f64.to_bits());
    assert_eq!(r.weight_of_gv_for_log_f0, 1.0f64.to_bits());
    assert_eq!(r.volume_in_db, 0.0f64.to_bits());
}
