//! The trusted boundary around the acoustic synthesis engine.
//!
//! The engine is an external collaborator: it loads a voice model, holds a
//! mutable parameter state, and turns full-context labels into real-valued
//! samples. Its values are opaque here; its parameter state is modeled as an
//! abstract sequence of ten slots, and each call the library makes is
//! wrapped in one trusted function whose contract states, over that
//! sequence, what the engine's source shows.
use vstd::prelude::*;

use byteorder::ByteOrder;

use crate::sample::{at_least_one, clamp_unit_bits, f64_bits_is_nan, speed_stored_bits,
    F64_NEGATIVE_ZERO_BITS};

verus! {

#[verifier::external_type_specification]
#[verifier::external_body]
pub struct ExEngine(jbonsai::engine::Engine);

#[verifier::external_type_specification]
#[verifier::external_body]
pub struct ExEngineError(jbonsai::engine::EngineError);

/// Slot of the sampling frequency (Hz, held as an integer).
pub const SLOT_SAMPLING_FREQUENCY: usize = 0;

/// Slot of the frame period (samples, held as an integer).
pub const SLOT_FPERIOD: usize = 1;

/// Slot of the frequency warping parameter alpha (an IEEE 754 pattern).
pub const SLOT_ALPHA: usize = 2;

/// Slot of the postfiltering coefficient beta (an IEEE 754 pattern).
pub const SLOT_BETA: usize = 3;

/// Slot of the speech speed rate (an IEEE 754 pattern).
pub const SLOT_SPEED: usize = 4;

/// Slot of the additional half tone (an IEEE 754 pattern).
pub const SLOT_HALF_TONE: usize = 5;

/// Slot of the voiced/unvoiced threshold of the log-F0 stream (an IEEE 754
/// pattern).
pub const SLOT_MSD_THRESHOLD: usize = 6;

/// Slot of the global-variance weight of the spectrum stream (an IEEE 754
/// pattern).
pub const SLOT_GV_SPECTRUM: usize = 7;

/// Slot of the global-variance weight of the log-F0 stream (an IEEE 754
/// pattern).
pub const SLOT_GV_LOG_F0: usize = 8;

/// Slot of the stored volume factor (an IEEE 754 pattern of the linear
/// factor the engine keeps; the engine reports it in dB).
pub const SLOT_VOLUME: usize = 9;

/// The abstract parameter state of an engine: ten slots, in the order of the
/// `SLOT_` constants. Integer-valued slots hold the integer; real-valued
/// slots hold the IEEE 754 pattern of the stored value.
pub uninterp spec fn engine_params(e: jbonsai::engine::Engine) -> Seq<u64>;

/// Whether an engine came out of a successful model load: its condition
/// holds one voiced/unvoiced threshold and one global-variance weight per
/// stream of the loaded voice set, so stream-indexed calls within that count
/// do not panic.
pub uninterp spec fn engine_wf(e: jbonsai::engine::Engine) -> bool;

/// The number of parameter streams of an engine's loaded voice set.
pub uninterp spec fn engine_stream_count(e: jbonsai::engine::Engine) -> usize;

/// What the engine stores when a global-variance weight is set: the given
/// value or 0.0, whichever is greater, and 0.0 in place of NaN. Which zero
/// is stored when negative zero is given is left open.
pub uninterp spec fn gv_stored_bits(bits: u64) -> u64;

/// What the engine stores when the volume is set to a dB value: the pattern
/// of the linear factor 10^(dB/20), computed as exp(dB * ln(10)/20).
pub uninterp spec fn linear_of_db_bits(bits: u64) -> u64;

/// What the engine reports for a stored linear volume factor: the pattern of
/// its dB value ln(factor) / (ln(10)/20).
pub uninterp spec fn db_of_linear_bits(bits: u64) -> u64;

/// What acoustic synthesis returns for a given engine and label sequence:
/// the real-valued samples as their IEEE 754 patterns, or nothing where the
/// engine fails. Synthesis is a pure function of the engine's condition and
/// voices and of the labels: its excitation noise comes from fixed-seed
/// generators created afresh inside each call, so its result carries a
/// name.
pub uninterp spec fn synth_of(e: jbonsai::engine::Engine, labels: Seq<Seq<char>>) -> Option<
    Seq<u64>,
>;

/// Relies on jbonsai's Engine::load: reads the voice model files, and on
/// success builds an engine whose condition holds one voiced/unvoiced
/// threshold and one global-variance weight per stream of the voice set.
///
/// Caveat: jbonsai's model parser aborts the process on a few shapes of
/// malformed model content (a decision tree referencing an undefined node
/// or question) instead of returning the error this wrapper would hand on.
/// No precondition over a path argument can exclude what is on disk.
#[verifier::external_body]
pub(crate) fn engine_load(model: &String) -> (r: Result<
    jbonsai::engine::Engine,
    jbonsai::engine::EngineError,
>)
    ensures
        r matches Ok(e) ==> engine_wf(e) && engine_params(e).len() == 10,
{
    jbonsai::engine::Engine::load(&[model.as_str()])
}

/// Relies on jbonsai's VoiceSet::global_metadata: the number of streams the
/// loaded voice set declares, which a load puts one threshold and one weight
/// in the condition for.
#[verifier::external_body]
pub(crate) fn engine_get_stream_count(e: &jbonsai::engine::Engine) -> (n: usize)
    requires
        engine_wf(*e),
    ensures
        n == engine_stream_count(*e),
{
    e.voices.global_metadata().num_streams
}

/// Relies on jbonsai's Condition::get_sampling_frequency: returns the stored
/// sampling frequency.
#[verifier::external_body]
pub(crate) fn engine_get_sampling_frequency(e: &jbonsai::engine::Engine) -> (n: usize)
    requires
        engine_wf(*e),
    ensures
        n as u64 == engine_params(*e)[SLOT_SAMPLING_FREQUENCY as int],
{
    e.condition.get_sampling_frequency()
}

/// Relies on jbonsai's Condition::get_fperiod: returns the stored frame
/// period.
#[verifier::external_body]
pub(crate) fn engine_get_fperiod(e: &jbonsai::engine::Engine) -> (n: usize)
    requires
        engine_wf(*e),
    ensures
        n as u64 == engine_params(*e)[SLOT_FPERIOD as int],
{
    e.condition.get_fperiod()
}

/// Relies on jbonsai's Condition::get_alpha: returns the stored frequency
/// warping parameter.
#[verifier::external_body]
pub(crate) fn engine_get_alpha_bits(e: &jbonsai::engine::Engine) -> (b: u64)
    requires
        engine_wf(*e),
    ensures
        b == engine_params(*e)[SLOT_ALPHA as int],
{
    e.condition.get_alpha().to_bits()
}

/// Relies on jbonsai's Condition::get_beta: returns the stored postfiltering
/// coefficient.
#[verifier::external_body]
pub(crate) fn engine_get_beta_bits(e: &jbonsai::engine::Engine) -> (b: u64)
    requires
        engine_wf(*e),
    ensures
        b == engine_params(*e)[SLOT_BETA as int],
{
    e.condition.get_beta().to_bits()
}

/// Relies on jbonsai's Condition::get_msd_threshold on stream 1, the log-F0
/// stream: returns the stored voiced/unvoiced threshold.
#[verifier::external_body]
pub(crate) fn engine_get_msd_threshold1_bits(e: &jbonsai::engine::Engine) -> (b: u64)
    requires
        engine_wf(*e),
        engine_stream_count(*e) >= 2,
    ensures
        b == engine_params(*e)[SLOT_MSD_THRESHOLD as int],
{
    e.condition.get_msd_threshold(1).to_bits()
}

/// Relies on jbonsai's Condition::get_gv_weight on streams 0 (spectrum) and
/// 1 (log-F0): returns the stored global-variance weight.
#[verifier::external_body]
pub(crate) fn engine_get_gv_weight_bits(e: &jbonsai::engine::Engine, stream_index: usize) -> (b:
    u64)
    requires
        engine_wf(*e),
        stream_index < 2,
        engine_stream_count(*e) >= 2,
    ensures
        b == engine_params(*e)[gv_slot(stream_index)],
{
    e.condition.get_gv_weight(stream_index).to_bits()
}

/// Relies on jbonsai's Condition::get_volume: returns the stored volume,
/// converted back from the linear factor to dB.
#[verifier::external_body]
pub(crate) fn engine_get_volume_db_bits(e: &jbonsai::engine::Engine) -> (b: u64)
    requires
        engine_wf(*e),
    ensures
        b == db_of_linear_bits(engine_params(*e)[SLOT_VOLUME as int]),
{
    e.condition.get_volume().to_bits()
}

/// The slot of a global-variance weight, by stream index.
pub open spec fn gv_slot(stream_index: usize) -> int {
    if stream_index == 0 {
        SLOT_GV_SPECTRUM as int
    } else {
        SLOT_GV_LOG_F0 as int
    }
}

/// Relies on jbonsai's Condition::set_sampling_frequency: stores the given
/// frequency, raised to at least 1.
#[verifier::external_body]
pub(crate) fn engine_set_sampling_frequency(e: &mut jbonsai::engine::Engine, i: usize)
    requires
        engine_wf(*old(e)),
    ensures
        engine_wf(*final(e)),
        engine_stream_count(*final(e)) == engine_stream_count(*old(e)),
        engine_params(*final(e)) == engine_params(*old(e)).update(
            SLOT_SAMPLING_FREQUENCY as int,
            at_least_one(i),
        ),
{
    e.condition.set_sampling_frequency(i);
}

/// Relies on jbonsai's Condition::set_fperiod: stores the given frame
/// period, raised to at least 1.
#[verifier::external_body]
pub(crate) fn engine_set_fperiod(e: &mut jbonsai::engine::Engine, i: usize)
    requires
        engine_wf(*old(e)),
    ensures
        engine_wf(*final(e)),
        engine_stream_count(*final(e)) == engine_stream_count(*old(e)),
        engine_params(*final(e)) == engine_params(*old(e)).update(
            SLOT_FPERIOD as int,
            at_least_one(i),
        ),
{
    e.condition.set_fperiod(i);
}

/// Relies on jbonsai's Condition::set_alpha: stores the given value clamped
/// into [0.0, 1.0], NaN kept as it is.
#[verifier::external_body]
pub(crate) fn engine_set_alpha_bits(e: &mut jbonsai::engine::Engine, b: u64)
    requires
        engine_wf(*old(e)),
    ensures
        engine_wf(*final(e)),
        engine_stream_count(*final(e)) == engine_stream_count(*old(e)),
        engine_params(*final(e)) == engine_params(*old(e)).update(
            SLOT_ALPHA as int,
            clamp_unit_bits(b),
        ),
{
    e.condition.set_alpha(byteorder::LittleEndian::read_f64(&b.to_le_bytes()));
}

/// Relies on jbonsai's Condition::set_beta: stores the given value clamped
/// into [0.0, 1.0], NaN kept as it is.
#[verifier::external_body]
pub(crate) fn engine_set_beta_bits(e: &mut jbonsai::engine::Engine, b: u64)
    requires
        engine_wf(*old(e)),
    ensures
        engine_wf(*final(e)),
        engine_stream_count(*final(e)) == engine_stream_count(*old(e)),
        engine_params(*final(e)) == engine_params(*old(e)).update(
            SLOT_BETA as int,
            clamp_unit_bits(b),
        ),
{
    e.condition.set_beta(byteorder::LittleEndian::read_f64(&b.to_le_bytes()));
}

/// Relies on jbonsai's Condition::set_speed: stores the given value or
/// 0.000001, whichever is greater, and 0.000001 in place of NaN.
#[verifier::external_body]
pub(crate) fn engine_set_speed_bits(e: &mut jbonsai::engine::Engine, b: u64)
    requires
        engine_wf(*old(e)),
    ensures
        engine_wf(*final(e)),
        engine_stream_count(*final(e)) == engine_stream_count(*old(e)),
        engine_params(*final(e)) == engine_params(*old(e)).update(
            SLOT_SPEED as int,
            speed_stored_bits(b),
        ),
{
    e.condition.set_speed(byteorder::LittleEndian::read_f64(&b.to_le_bytes()));
}

/// Relies on jbonsai's Condition::set_additional_half_tone: stores the given
/// value verbatim.
#[verifier::external_body]
pub(crate) fn engine_set_additional_half_tone_bits(e: &mut jbonsai::engine::Engine, b: u64)
    requires
        engine_wf(*old(e)),
    ensures
        engine_wf(*final(e)),
        engine_stream_count(*final(e)) == engine_stream_count(*old(e)),
        engine_params(*final(e)) == engine_params(*old(e)).update(SLOT_HALF_TONE as int, b),
{
    e.condition.set_additional_half_tone(byteorder::LittleEndian::read_f64(&b.to_le_bytes()));
}

/// Relies on jbonsai's Condition::set_msd_threshold on stream 1, the log-F0
/// stream: stores the given value clamped into [0.0, 1.0], NaN kept as it
/// is.
#[verifier::external_body]
pub(crate) fn engine_set_msd_threshold1_bits(e: &mut jbonsai::engine::Engine, b: u64)
    requires
        engine_wf(*old(e)),
        engine_stream_count(*old(e)) >= 2,
    ensures
        engine_wf(*final(e)),
        engine_stream_count(*final(e)) == engine_stream_count(*old(e)),
        engine_params(*final(e)) == engine_params(*old(e)).update(
            SLOT_MSD_THRESHOLD as int,
            clamp_unit_bits(b),
        ),
{
    e.condition.set_msd_threshold(1, byteorder::LittleEndian::read_f64(&b.to_le_bytes()));
}

/// Relies on jbonsai's Condition::set_gv_weight on streams 0 (spectrum) and
/// 1 (log-F0): stores the given value or 0.0, whichever is greater, and 0.0
/// in place of NaN.
#[verifier::external_body]
pub(crate) fn engine_set_gv_weight_bits(
    e: &mut jbonsai::engine::Engine,
    stream_index: usize,
    b: u64,
)
    requires
        engine_wf(*old(e)),
        stream_index < 2,
        engine_stream_count(*old(e)) >= 2,
    ensures
        engine_wf(*final(e)),
        engine_stream_count(*final(e)) == engine_stream_count(*old(e)),
        engine_params(*final(e)) == engine_params(*old(e)).update(
            gv_slot(stream_index),
            gv_stored_bits(b),
        ),
        f64_bits_is_nan(b) ==> engine_params(*final(e)) == engine_params(*old(e)).update(
            gv_slot(stream_index),
            0,
        ),
        !f64_bits_is_nan(b) && b < F64_NEGATIVE_ZERO_BITS ==> engine_params(*final(e))
            == engine_params(*old(e)).update(gv_slot(stream_index), b),
        !f64_bits_is_nan(b) && b > F64_NEGATIVE_ZERO_BITS ==> engine_params(*final(e))
            == engine_params(*old(e)).update(gv_slot(stream_index), 0),
{
    e.condition.set_gv_weight(stream_index, byteorder::LittleEndian::read_f64(&b.to_le_bytes()));
}

/// Relies on jbonsai's Condition::set_volume: stores the linear factor of
/// the given dB value.
#[verifier::external_body]
pub(crate) fn engine_set_volume_db_bits(e: &mut jbonsai::engine::Engine, b: u64)
    requires
        engine_wf(*old(e)),
    ensures
        engine_wf(*final(e)),
        engine_stream_count(*final(e)) == engine_stream_count(*old(e)),
        engine_params(*final(e)) == engine_params(*old(e)).update(
            SLOT_VOLUME as int,
            linear_of_db_bits(b),
        ),
{
    e.condition.set_volume(byteorder::LittleEndian::read_f64(&b.to_le_bytes()));
}

/// Relies on jbonsai's Engine::synthesize: turns full-context labels into a
/// sequence of real-valued samples, returned as their IEEE 754 patterns, or
/// fails. It reads the metadata of streams 0 and 2 of the voice set, so the
/// set must have at least three streams.
#[verifier::external_body]
pub(crate) fn engine_synthesize_bits(e: &jbonsai::engine::Engine, labels: Vec<String>) -> (r:
    Result<Vec<u64>, jbonsai::engine::EngineError>)
    requires
        engine_wf(*e),
        engine_stream_count(*e) >= 3,
    ensures
        r matches Ok(raw) ==> synth_of(*e, labels@.map_values(|label: String| label@)) == Some(
            raw@,
        ),
        r is Err <==> synth_of(*e, labels@.map_values(|label: String| label@)) is None,
{
    match e.synthesize(labels) {
        Ok(samples) => Ok(samples.into_iter().map(|d| d.to_bits()).collect()),
        Err(err) => Err(err),
    }
}

/// Relies on the Display impl of jbonsai's EngineError: renders the error.
#[verifier::external_body]
pub(crate) fn engine_error_message(err: &jbonsai::engine::EngineError) -> (r: String) {
    format!("{}", err)
}

} // verus!
