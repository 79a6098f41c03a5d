//! The synthesis configuration record and its resolution policy.
//!
//! A call supplies a record of optional tuning parameters. Resolution merges
//! it with the session's construction-time default snapshot and with
//! hardcoded fallback constants into a fully concrete parameter set. Exactly
//! three fields (sampling frequency, frame period, spectral warping) fall
//! back to the snapshot before the constant; every other field falls
//! straight to its constant.
use vstd::prelude::*;

use crate::engine::{
    db_of_linear_bits, engine_get_alpha_bits, engine_get_beta_bits, engine_get_fperiod,
    engine_get_gv_weight_bits, engine_get_msd_threshold1_bits, engine_get_sampling_frequency,
    engine_get_volume_db_bits, engine_params, engine_set_additional_half_tone_bits,
    engine_set_alpha_bits, engine_set_beta_bits, engine_set_fperiod, engine_set_gv_weight_bits,
    engine_set_msd_threshold1_bits, engine_set_sampling_frequency, engine_set_speed_bits,
    engine_set_volume_db_bits, engine_stream_count, engine_wf, gv_stored_bits, linear_of_db_bits,
    SLOT_ALPHA, SLOT_BETA, SLOT_FPERIOD, SLOT_GV_LOG_F0, SLOT_GV_SPECTRUM, SLOT_HALF_TONE,
    SLOT_MSD_THRESHOLD, SLOT_SAMPLING_FREQUENCY, SLOT_SPEED, SLOT_VOLUME,
};
use crate::sample::{at_least_one, clamp_unit_bits, speed_stored_bits};

verus! {

/// Fallback sampling frequency in Hz.
pub const DEFAULT_SAMPLING_FREQUENCY: u32 = 48000;

/// Fallback frame period in samples.
pub const DEFAULT_FRAME_PERIOD: u32 = 240;

/// Fallback spectral warping parameter: the pattern of 0.55.
pub const DEFAULT_ALL_PASS_CONSTANT_BITS: u64 = 0x3FE1_9999_9999_999A;

/// Fallback postfiltering coefficient: the pattern of 0.0.
pub const DEFAULT_POSTFILTERING_COEFFICIENT_BITS: u64 = 0;

/// Fallback speech speed rate: the pattern of 1.0.
pub const DEFAULT_SPEECH_SPEED_RATE_BITS: u64 = 0x3FF0_0000_0000_0000;

/// Fallback additional half tone: the pattern of 0.0.
pub const DEFAULT_ADDITIONAL_HALF_TONE_BITS: u64 = 0;

/// Fallback voiced/unvoiced threshold: the pattern of 0.5.
pub const DEFAULT_VOICED_UNVOICED_THRESHOLD_BITS: u64 = 0x3FE0_0000_0000_0000;

/// Fallback weight of global variance, for both streams: the pattern of 1.0.
pub const DEFAULT_GV_WEIGHT_BITS: u64 = 0x3FF0_0000_0000_0000;

/// Fallback volume adjustment in dB: the pattern of 0.0.
pub const DEFAULT_VOLUME_BITS: u64 = 0;

/// A per-call synthesis configuration record. Every field is optional.
///
/// Integer fields carry their value directly; real-valued fields carry the
/// 64-bit IEEE 754 pattern of their value. A supplied value is used
/// verbatim, without range validation: out-of-range values are passed
/// through to the acoustic engine, whose own clamping governs them.
#[derive(Clone, Debug, PartialEq)]
pub struct SynthesisOption {
    /// Sampling frequency in Hz; meaningful from 1 up.
    pub sampling_frequency: Option<u32>,
    /// Frame shift in samples; meaningful from 1 up.
    pub frame_period: Option<u32>,
    /// Frequency warping parameter alpha, in [0.0, 1.0].
    pub all_pass_constant: Option<u64>,
    /// Postfiltering coefficient beta, in [0.0, 1.0].
    pub postfiltering_coefficient: Option<u64>,
    /// Speech speed rate, 0.0 or more; near-zero values are costly.
    pub speech_speed_rate: Option<u64>,
    /// Additional half tone, unconstrained.
    pub additional_half_tone: Option<u64>,
    /// Voiced/unvoiced threshold, in [0.0, 1.0].
    pub voiced_unvoiced_threshold: Option<u64>,
    /// Weight of global variance for the spectrum stream, 0.0 or more.
    pub weight_of_gv_for_spectrum: Option<u64>,
    /// Weight of global variance for the log-F0 stream, 0.0 or more.
    pub weight_of_gv_for_log_f0: Option<u64>,
    /// Volume adjustment in dB, unconstrained.
    pub volume_in_db: Option<u64>,
}

impl Default for SynthesisOption {
    /// The record that omits every field.
    fn default() -> (r: Self)
        ensures
            r == SynthesisOption::spec_default(),
    {
        SynthesisOption {
            sampling_frequency: None,
            frame_period: None,
            all_pass_constant: None,
            postfiltering_coefficient: None,
            speech_speed_rate: None,
            additional_half_tone: None,
            voiced_unvoiced_threshold: None,
            weight_of_gv_for_spectrum: None,
            weight_of_gv_for_log_f0: None,
            volume_in_db: None,
        }
    }
}

/// A fully concrete synthesis parameter set, as handed to the acoustic
/// engine. Real-valued fields carry 64-bit IEEE 754 patterns.
#[derive(Clone, Debug, PartialEq)]
pub struct ResolvedSynthesisOption {
    /// Sampling frequency in Hz.
    pub sampling_frequency: u32,
    /// Frame shift in samples.
    pub frame_period: u32,
    /// Frequency warping parameter alpha.
    pub all_pass_constant: u64,
    /// Postfiltering coefficient beta.
    pub postfiltering_coefficient: u64,
    /// Speech speed rate.
    pub speech_speed_rate: u64,
    /// Additional half tone.
    pub additional_half_tone: u64,
    /// Voiced/unvoiced threshold.
    pub voiced_unvoiced_threshold: u64,
    /// Weight of global variance for the spectrum stream.
    pub weight_of_gv_for_spectrum: u64,
    /// Weight of global variance for the log-F0 stream.
    pub weight_of_gv_for_log_f0: u64,
    /// Volume adjustment in dB.
    pub volume_in_db: u64,
}

/// Resolution of one snapshot-eligible integer field: the call's value if
/// supplied, else the snapshot's if present, else the fallback constant.
pub open spec fn spec_resolve_snapshot_u32(call: Option<u32>, snapshot: Option<u32>, fallback: u32) -> u32 {
    match call {
        Some(v) => v,
        None => match snapshot {
            Some(v) => v,
            None => fallback,
        },
    }
}

/// Resolution of the snapshot-eligible real field: the call's value if
/// supplied, else the snapshot's if present, else the fallback constant.
pub open spec fn spec_resolve_snapshot_bits(call: Option<u64>, snapshot: Option<u64>, fallback: u64) -> u64 {
    match call {
        Some(v) => v,
        None => match snapshot {
            Some(v) => v,
            None => fallback,
        },
    }
}

/// Resolution of a field that skips the snapshot tier: the call's value if
/// supplied, else the fallback constant.
pub open spec fn spec_resolve_direct_bits(call: Option<u64>, fallback: u64) -> u64 {
    match call {
        Some(v) => v,
        None => fallback,
    }
}

/// The full resolution policy over all ten fields. Only the sampling
/// frequency, the frame period and the spectral warping parameter consult
/// the snapshot; the seven other fields fall straight to their constants.
pub open spec fn spec_resolve(call: SynthesisOption, snapshot: SynthesisOption) -> ResolvedSynthesisOption {
    ResolvedSynthesisOption {
        sampling_frequency: spec_resolve_snapshot_u32(
            call.sampling_frequency,
            snapshot.sampling_frequency,
            DEFAULT_SAMPLING_FREQUENCY,
        ),
        frame_period: spec_resolve_snapshot_u32(
            call.frame_period,
            snapshot.frame_period,
            DEFAULT_FRAME_PERIOD,
        ),
        all_pass_constant: spec_resolve_snapshot_bits(
            call.all_pass_constant,
            snapshot.all_pass_constant,
            DEFAULT_ALL_PASS_CONSTANT_BITS,
        ),
        postfiltering_coefficient: spec_resolve_direct_bits(
            call.postfiltering_coefficient,
            DEFAULT_POSTFILTERING_COEFFICIENT_BITS,
        ),
        speech_speed_rate: spec_resolve_direct_bits(
            call.speech_speed_rate,
            DEFAULT_SPEECH_SPEED_RATE_BITS,
        ),
        additional_half_tone: spec_resolve_direct_bits(
            call.additional_half_tone,
            DEFAULT_ADDITIONAL_HALF_TONE_BITS,
        ),
        voiced_unvoiced_threshold: spec_resolve_direct_bits(
            call.voiced_unvoiced_threshold,
            DEFAULT_VOICED_UNVOICED_THRESHOLD_BITS,
        ),
        weight_of_gv_for_spectrum: spec_resolve_direct_bits(
            call.weight_of_gv_for_spectrum,
            DEFAULT_GV_WEIGHT_BITS,
        ),
        weight_of_gv_for_log_f0: spec_resolve_direct_bits(
            call.weight_of_gv_for_log_f0,
            DEFAULT_GV_WEIGHT_BITS,
        ),
        volume_in_db: spec_resolve_direct_bits(call.volume_in_db, DEFAULT_VOLUME_BITS),
    }
}

impl SynthesisOption {
    /// The record that omits every field.
    pub open spec fn spec_default() -> SynthesisOption {
        SynthesisOption {
            sampling_frequency: None,
            frame_period: None,
            all_pass_constant: None,
            postfiltering_coefficient: None,
            speech_speed_rate: None,
            additional_half_tone: None,
            voiced_unvoiced_threshold: None,
            weight_of_gv_for_spectrum: None,
            weight_of_gv_for_log_f0: None,
            volume_in_db: None,
        }
    }

    /// Merges this per-call record with the session's default snapshot into
    /// a fully concrete parameter set. Resolution is total: it cannot fail.
    pub fn resolve(&self, default: &SynthesisOption) -> (r: ResolvedSynthesisOption)
        ensures
            r == spec_resolve(*self, *default),
    {
        ResolvedSynthesisOption {
            sampling_frequency: match self.sampling_frequency {
                Some(v) => v,
                None => match default.sampling_frequency {
                    Some(v) => v,
                    None => DEFAULT_SAMPLING_FREQUENCY,
                },
            },
            frame_period: match self.frame_period {
                Some(v) => v,
                None => match default.frame_period {
                    Some(v) => v,
                    None => DEFAULT_FRAME_PERIOD,
                },
            },
            all_pass_constant: match self.all_pass_constant {
                Some(v) => v,
                None => match default.all_pass_constant {
                    Some(v) => v,
                    None => DEFAULT_ALL_PASS_CONSTANT_BITS,
                },
            },
            postfiltering_coefficient: match self.postfiltering_coefficient {
                Some(v) => v,
                None => DEFAULT_POSTFILTERING_COEFFICIENT_BITS,
            },
            speech_speed_rate: match self.speech_speed_rate {
                Some(v) => v,
                None => DEFAULT_SPEECH_SPEED_RATE_BITS,
            },
            additional_half_tone: match self.additional_half_tone {
                Some(v) => v,
                None => DEFAULT_ADDITIONAL_HALF_TONE_BITS,
            },
            voiced_unvoiced_threshold: match self.voiced_unvoiced_threshold {
                Some(v) => v,
                None => DEFAULT_VOICED_UNVOICED_THRESHOLD_BITS,
            },
            weight_of_gv_for_spectrum: match self.weight_of_gv_for_spectrum {
                Some(v) => v,
                None => DEFAULT_GV_WEIGHT_BITS,
            },
            weight_of_gv_for_log_f0: match self.weight_of_gv_for_log_f0 {
                Some(v) => v,
                None => DEFAULT_GV_WEIGHT_BITS,
            },
            volume_in_db: match self.volume_in_db {
                Some(v) => v,
                None => DEFAULT_VOLUME_BITS,
            },
        }
    }
}

/// The default snapshot a session captures from a freshly loaded engine:
/// every field but the speech speed and the additional half tone is filled
/// with the engine's current value. The integer fields are truncated to 32
/// bits, as the record holds them so.
pub open spec fn spec_snapshot(params: Seq<u64>) -> SynthesisOption {
    SynthesisOption {
        sampling_frequency: Some((params[SLOT_SAMPLING_FREQUENCY as int] % 0x1_0000_0000) as u32),
        frame_period: Some((params[SLOT_FPERIOD as int] % 0x1_0000_0000) as u32),
        all_pass_constant: Some(params[SLOT_ALPHA as int]),
        postfiltering_coefficient: Some(params[SLOT_BETA as int]),
        speech_speed_rate: None,
        additional_half_tone: None,
        voiced_unvoiced_threshold: Some(params[SLOT_MSD_THRESHOLD as int]),
        weight_of_gv_for_spectrum: Some(params[SLOT_GV_SPECTRUM as int]),
        weight_of_gv_for_log_f0: Some(params[SLOT_GV_LOG_F0 as int]),
        volume_in_db: Some(db_of_linear_bits(params[SLOT_VOLUME as int])),
    }
}

/// The engine parameter state after a resolved option set is applied: every
/// slot is overwritten with the resolved value, transformed as the engine's
/// setters transform it (integers raised to at least 1, unit-interval
/// parameters clamped, the speed floored, the volume converted from dB).
pub open spec fn spec_apply(r: ResolvedSynthesisOption, params: Seq<u64>) -> Seq<u64> {
    params.update(SLOT_SAMPLING_FREQUENCY as int, at_least_one(r.sampling_frequency as usize))
        .update(SLOT_FPERIOD as int, at_least_one(r.frame_period as usize))
        .update(SLOT_ALPHA as int, clamp_unit_bits(r.all_pass_constant))
        .update(SLOT_BETA as int, clamp_unit_bits(r.postfiltering_coefficient))
        .update(SLOT_SPEED as int, speed_stored_bits(r.speech_speed_rate))
        .update(SLOT_HALF_TONE as int, r.additional_half_tone)
        .update(SLOT_MSD_THRESHOLD as int, clamp_unit_bits(r.voiced_unvoiced_threshold))
        .update(SLOT_GV_SPECTRUM as int, gv_stored_bits(r.weight_of_gv_for_spectrum))
        .update(SLOT_GV_LOG_F0 as int, gv_stored_bits(r.weight_of_gv_for_log_f0))
        .update(SLOT_VOLUME as int, linear_of_db_bits(r.volume_in_db))
}

impl SynthesisOption {
    /// Captures the default snapshot from a freshly loaded engine: reads
    /// every parameter but the speech speed and the additional half tone,
    /// which the engine exposes too but the snapshot deliberately omits.
    pub fn from_engine(engine: &jbonsai::engine::Engine) -> (r: SynthesisOption)
        requires
            engine_wf(*engine),
            engine_stream_count(*engine) >= 2,
            engine_params(*engine).len() == 10,
        ensures
            r == spec_snapshot(engine_params(*engine)),
    {
        let sampling_frequency_raw: u64 = engine_get_sampling_frequency(engine) as u64;
        let frame_period_raw: u64 = engine_get_fperiod(engine) as u64;
        let sampling_frequency: u32 = #[verifier::truncate] (sampling_frequency_raw as u32);
        let frame_period: u32 = #[verifier::truncate] (frame_period_raw as u32);
        proof {
            assert(sampling_frequency as u64 == sampling_frequency_raw % 0x1_0000_0000)
                by (bit_vector)
                requires
                    sampling_frequency == sampling_frequency_raw as u32,
            ;
            assert(frame_period as u64 == frame_period_raw % 0x1_0000_0000) by (bit_vector)
                requires
                    frame_period == frame_period_raw as u32,
            ;
        }
        SynthesisOption {
            sampling_frequency: Some(sampling_frequency),
            frame_period: Some(frame_period),
            all_pass_constant: Some(engine_get_alpha_bits(engine)),
            postfiltering_coefficient: Some(engine_get_beta_bits(engine)),
            speech_speed_rate: None,
            additional_half_tone: None,
            voiced_unvoiced_threshold: Some(engine_get_msd_threshold1_bits(engine)),
            weight_of_gv_for_spectrum: Some(engine_get_gv_weight_bits(engine, 0)),
            weight_of_gv_for_log_f0: Some(engine_get_gv_weight_bits(engine, 1)),
            volume_in_db: Some(engine_get_volume_db_bits(engine)),
        }
    }

    /// Resolves this per-call record against the given default snapshot and
    /// pushes every resolved parameter into the engine's mutable state, in a
    /// fixed order, before synthesis. Total: it cannot fail.
    pub fn apply_to_engine(
        &self,
        engine: &mut jbonsai::engine::Engine,
        default: &SynthesisOption,
    )
        requires
            engine_wf(*old(engine)),
            engine_stream_count(*old(engine)) >= 2,
            engine_params(*old(engine)).len() == 10,
        ensures
            engine_wf(*final(engine)),
            engine_stream_count(*final(engine)) == engine_stream_count(*old(engine)),
            engine_params(*final(engine)).len() == 10,
            engine_params(*final(engine)) == spec_apply(
                spec_resolve(*self, *default),
                engine_params(*old(engine)),
            ),
    {
        let resolved = self.resolve(default);
        engine_set_sampling_frequency(engine, resolved.sampling_frequency as usize);
        engine_set_fperiod(engine, resolved.frame_period as usize);
        engine_set_alpha_bits(engine, resolved.all_pass_constant);
        engine_set_beta_bits(engine, resolved.postfiltering_coefficient);
        engine_set_speed_bits(engine, resolved.speech_speed_rate);
        engine_set_additional_half_tone_bits(engine, resolved.additional_half_tone);
        engine_set_msd_threshold1_bits(engine, resolved.voiced_unvoiced_threshold);
        engine_set_gv_weight_bits(engine, 0, resolved.weight_of_gv_for_spectrum);
        engine_set_gv_weight_bits(engine, 1, resolved.weight_of_gv_for_log_f0);
        engine_set_volume_db_bits(engine, resolved.volume_in_db);
    }
}

/// The engine parameter state after an application depends only on the
/// resolved record, never on the state earlier calls left behind: applying
/// one resolved record to any two prior states lands in the same state.
/// With the default snapshot immutable for the session's lifetime, two
/// calls that supply identical options therefore configure the engine
/// identically before synthesis.
pub proof fn lemma_apply_ignores_prior_state(
    resolved: ResolvedSynthesisOption,
    before1: Seq<u64>,
    before2: Seq<u64>,
)
    requires
        before1.len() == 10,
        before2.len() == 10,
    ensures
        spec_apply(resolved, before1) == spec_apply(resolved, before2),
{
    assert(spec_apply(resolved, before1) =~= spec_apply(resolved, before2));
}

/// For the snapshot-eligible fields, a call that omits every field pushes
/// the session's own snapshot value into the engine: after application, the
/// engine holds the snapshot's sampling frequency and frame period (when
/// they are at least 1, as a loaded engine reports them) and the snapshot's
/// spectral warping value through the engine's own unit clamp.
pub proof fn lemma_omitted_call_pushes_snapshot(snapshot: SynthesisOption, before: Seq<u64>)
    requires
        before.len() == 10,
    ensures
        snapshot.sampling_frequency matches Some(v) ==> (v >= 1 ==> spec_apply(
            spec_resolve(SynthesisOption::spec_default(), snapshot),
            before,
        )[SLOT_SAMPLING_FREQUENCY as int] == v as u64),
        snapshot.frame_period matches Some(v) ==> (v >= 1 ==> spec_apply(
            spec_resolve(SynthesisOption::spec_default(), snapshot),
            before,
        )[SLOT_FPERIOD as int] == v as u64),
        snapshot.all_pass_constant matches Some(b) ==> spec_apply(
            spec_resolve(SynthesisOption::spec_default(), snapshot),
            before,
        )[SLOT_ALPHA as int] == clamp_unit_bits(b),
{
}

/// Two sessions whose snapshots report different native sampling
/// frequencies (each at least 1) end with engines that differ there after
/// one and the same all-omitted call, whatever state either engine was in.
pub proof fn lemma_different_snapshots_differ_at_engine(
    snapshot1: SynthesisOption,
    snapshot2: SynthesisOption,
    before1: Seq<u64>,
    before2: Seq<u64>,
)
    requires
        before1.len() == 10,
        before2.len() == 10,
        snapshot1.sampling_frequency matches Some(v) ==> v >= 1,
        snapshot1.sampling_frequency is Some,
        snapshot2.sampling_frequency matches Some(v) ==> v >= 1,
        snapshot2.sampling_frequency is Some,
        snapshot1.sampling_frequency != snapshot2.sampling_frequency,
    ensures
        spec_apply(spec_resolve(SynthesisOption::spec_default(), snapshot1), before1)[
            SLOT_SAMPLING_FREQUENCY as int] != spec_apply(
            spec_resolve(SynthesisOption::spec_default(), snapshot2),
            before2,
        )[SLOT_SAMPLING_FREQUENCY as int],
{
    lemma_omitted_call_pushes_snapshot(snapshot1, before1);
    lemma_omitted_call_pushes_snapshot(snapshot2, before2);
}

/// When the call supplies an explicit value for a field, resolution uses
/// that value — never the snapshot and never the fallback constant. Holds
/// for every field and every snapshot.
pub proof fn lemma_explicit_value_wins(call: SynthesisOption, snapshot: SynthesisOption)
    ensures
        call.sampling_frequency is Some ==> call.sampling_frequency == Some(
            spec_resolve(call, snapshot).sampling_frequency,
        ),
        call.frame_period is Some ==> call.frame_period == Some(
            spec_resolve(call, snapshot).frame_period,
        ),
        call.all_pass_constant is Some ==> call.all_pass_constant == Some(
            spec_resolve(call, snapshot).all_pass_constant,
        ),
        call.postfiltering_coefficient is Some ==> call.postfiltering_coefficient == Some(
            spec_resolve(call, snapshot).postfiltering_coefficient,
        ),
        call.speech_speed_rate is Some ==> call.speech_speed_rate == Some(
            spec_resolve(call, snapshot).speech_speed_rate,
        ),
        call.additional_half_tone is Some ==> call.additional_half_tone == Some(
            spec_resolve(call, snapshot).additional_half_tone,
        ),
        call.voiced_unvoiced_threshold is Some ==> call.voiced_unvoiced_threshold == Some(
            spec_resolve(call, snapshot).voiced_unvoiced_threshold,
        ),
        call.weight_of_gv_for_spectrum is Some ==> call.weight_of_gv_for_spectrum == Some(
            spec_resolve(call, snapshot).weight_of_gv_for_spectrum,
        ),
        call.weight_of_gv_for_log_f0 is Some ==> call.weight_of_gv_for_log_f0 == Some(
            spec_resolve(call, snapshot).weight_of_gv_for_log_f0,
        ),
        call.volume_in_db is Some ==> call.volume_in_db == Some(
            spec_resolve(call, snapshot).volume_in_db,
        ),
{
}

/// When the call omits one of the three snapshot-eligible fields, the
/// session snapshot's value is used, not the fallback constant. Two
/// snapshots that differ in such a field resolve an all-omitted call
/// differently.
pub proof fn lemma_snapshot_applies_when_omitted(call: SynthesisOption, snapshot: SynthesisOption)
    ensures
        call.sampling_frequency is None && snapshot.sampling_frequency is Some
            ==> snapshot.sampling_frequency == Some(spec_resolve(call, snapshot).sampling_frequency),
        call.frame_period is None && snapshot.frame_period is Some ==> snapshot.frame_period
            == Some(spec_resolve(call, snapshot).frame_period),
        call.all_pass_constant is None && snapshot.all_pass_constant is Some
            ==> snapshot.all_pass_constant == Some(spec_resolve(call, snapshot).all_pass_constant),
{
}

/// When the call omits one of the seven fields that skip the snapshot tier,
/// the hardcoded fallback constant is used, whatever the snapshot holds; and
/// a snapshot-eligible field falls back to its constant only when the
/// snapshot omits it too.
pub proof fn lemma_constant_applies_when_omitted(call: SynthesisOption, snapshot: SynthesisOption)
    ensures
        call.postfiltering_coefficient is None ==> spec_resolve(call, snapshot).postfiltering_coefficient
            == DEFAULT_POSTFILTERING_COEFFICIENT_BITS,
        call.speech_speed_rate is None ==> spec_resolve(call, snapshot).speech_speed_rate
            == DEFAULT_SPEECH_SPEED_RATE_BITS,
        call.additional_half_tone is None ==> spec_resolve(call, snapshot).additional_half_tone
            == DEFAULT_ADDITIONAL_HALF_TONE_BITS,
        call.voiced_unvoiced_threshold is None ==> spec_resolve(call, snapshot).voiced_unvoiced_threshold
            == DEFAULT_VOICED_UNVOICED_THRESHOLD_BITS,
        call.weight_of_gv_for_spectrum is None ==> spec_resolve(call, snapshot).weight_of_gv_for_spectrum
            == DEFAULT_GV_WEIGHT_BITS,
        call.weight_of_gv_for_log_f0 is None ==> spec_resolve(call, snapshot).weight_of_gv_for_log_f0
            == DEFAULT_GV_WEIGHT_BITS,
        call.volume_in_db is None ==> spec_resolve(call, snapshot).volume_in_db
            == DEFAULT_VOLUME_BITS,
        call.sampling_frequency is None && snapshot.sampling_frequency is None ==> spec_resolve(
            call,
            snapshot,
        ).sampling_frequency == DEFAULT_SAMPLING_FREQUENCY,
        call.frame_period is None && snapshot.frame_period is None ==> spec_resolve(
            call,
            snapshot,
        ).frame_period == DEFAULT_FRAME_PERIOD,
        call.all_pass_constant is None && snapshot.all_pass_constant is None ==> spec_resolve(
            call,
            snapshot,
        ).all_pass_constant == DEFAULT_ALL_PASS_CONSTANT_BITS,
{
}

} // verus!
