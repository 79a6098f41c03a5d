//! An orchestration layer for text-to-speech synthesis.
//!
//! A session owns a linguistic analyzer and an acoustic engine. Each
//! synthesis call merges the caller's optional tuning parameters with the
//! session's construction-time default snapshot and with hardcoded
//! fallbacks, pushes the resolved parameters into the engine, analyzes the
//! text into full-context labels, synthesizes a waveform, and converts the
//! real-valued samples into signed 16-bit PCM by a saturating clamp.
use vstd::prelude::*;

pub mod analyzer;
pub mod engine;
pub mod sample;
pub mod synthesis_option;

use crate::analyzer::{analysis_of, analyzer_error_message, analyzer_extract_fullcontext,
    analyzer_load, Analyzer};
use crate::engine::{
    engine_error_message, engine_get_stream_count, engine_load, engine_params,
    engine_stream_count, engine_synthesize_bits, engine_wf, synth_of,
};
use crate::sample::{convert_samples, spec_converted};
use crate::synthesis_option::{spec_apply, spec_resolve, spec_snapshot, SynthesisOption};

verus! {

/// Locations of the two resources a session is built from.
#[derive(Clone, Debug, PartialEq)]
pub struct AltJTalkConfig {
    /// Path of the system dictionary the linguistic analyzer loads.
    pub dictionary: String,
    /// Path of the voice model the acoustic engine loads.
    pub model: String,
}

/// A synthesis failure, tagged by the stage that failed.
#[derive(Clone, Debug, PartialEq)]
pub enum AltJTalkError {
    /// The dictionary or the voice model could not be loaded at
    /// construction time: the session does not exist.
    ConfigurationError(String),
    /// The linguistic analysis of one input text failed; the session stays
    /// valid for further calls.
    AnalysisError(String),
    /// The acoustic engine could not synthesize from the labels and the
    /// resolved configuration; the session stays valid for further calls.
    SynthesisError(String),
}

/// A synthesizer session: one linguistic analyzer, one acoustic engine, and
/// the immutable default snapshot captured from the engine at construction.
pub struct AltJTalk {
    analyzer: Analyzer,
    engine: jbonsai::engine::Engine,
    default_options: SynthesisOption,
}

impl AltJTalk {
    /// A usable session: its engine came out of a successful load and its
    /// voice set carries the three parameter streams synthesis reads.
    pub closed spec fn wf(self) -> bool {
        &&& engine_wf(self.engine)
        &&& engine_stream_count(self.engine) >= 3
        &&& engine_params(self.engine).len() == 10
    }

    /// The session's immutable default snapshot.
    pub closed spec fn spec_default_options(self) -> SynthesisOption {
        self.default_options
    }

    /// The abstract parameter state of the session's engine.
    pub closed spec fn spec_engine_params(self) -> Seq<u64> {
        engine_params(self.engine)
    }

    /// The session's analyzer handle.
    pub closed spec fn spec_analyzer(self) -> Analyzer {
        self.analyzer
    }

    /// The session's engine handle.
    pub closed spec fn spec_engine(self) -> jbonsai::engine::Engine {
        self.engine
    }

    /// Builds a session: loads the acoustic engine with the voice model,
    /// captures the default snapshot from the freshly loaded engine, then
    /// constructs the analyzer with the dictionary. Either load failure
    /// yields a configuration error and no session.
    pub fn from_config(config: AltJTalkConfig) -> (r: Result<AltJTalk, AltJTalkError>)
        ensures
            r matches Ok(session) ==> session.wf() && session.spec_default_options()
                == spec_snapshot(session.spec_engine_params()),
            r matches Err(e) ==> e is ConfigurationError,
    {
        let engine = match engine_load(&config.model) {
            Ok(engine) => engine,
            Err(err) => {
                return Err(AltJTalkError::ConfigurationError(engine_error_message(&err)));
            },
        };
        if engine_get_stream_count(&engine) < 3 {
            return Err(
                AltJTalkError::ConfigurationError(
                    "the voice model declares fewer parameter streams than synthesis reads".to_string(),
                ),
            );
        }
        let default_options = SynthesisOption::from_engine(&engine);
        let analyzer = match analyzer_load(&config.dictionary) {
            Ok(analyzer) => analyzer,
            Err(err) => {
                return Err(AltJTalkError::ConfigurationError(analyzer_error_message(&err)));
            },
        };
        Ok(AltJTalk { analyzer, engine, default_options })
    }

    /// Synthesizes the input text into signed 16-bit PCM samples at the
    /// resolved sampling frequency.
    ///
    /// The resolved parameters are pushed into the engine before analysis
    /// begins; analysis completes before acoustic synthesis starts. A label
    /// sequence of at most two labels has no speakable content and yields an
    /// empty buffer without invoking acoustic synthesis. Otherwise every
    /// produced sample is the saturating conversion of one real-valued
    /// engine sample, in order. An analysis failure yields an analysis
    /// error, an engine failure a synthesis error; either is propagated
    /// once, and the session stays valid.
    pub fn synthesize(&mut self, input_text: String, option: SynthesisOption) -> (r: Result<
        Vec<i16>,
        AltJTalkError,
    >)
        requires
            old(self).wf(),
        ensures
            final(self).wf(),
            final(self).spec_analyzer() == old(self).spec_analyzer(),
            final(self).spec_default_options() == old(self).spec_default_options(),
            final(self).spec_engine_params() == spec_apply(
                spec_resolve(option, old(self).spec_default_options()),
                old(self).spec_engine_params(),
            ),
            match analysis_of(old(self).spec_analyzer(), input_text@) {
                Some(labels) => if labels.len() <= 2 {
                    r matches Ok(samples) && samples@.len() == 0
                } else {
                    match synth_of(final(self).spec_engine(), labels) {
                        Some(raw) => r matches Ok(samples) && spec_converted(samples@, raw),
                        None => r matches Err(e) && e is SynthesisError,
                    }
                },
                None => r matches Err(e) && e is AnalysisError,
            },
    {
        option.apply_to_engine(&mut self.engine, &self.default_options);
        let labels = match analyzer_extract_fullcontext(&self.analyzer, &input_text) {
            Ok(labels) => labels,
            Err(err) => {
                return Err(AltJTalkError::AnalysisError(analyzer_error_message(&err)));
            },
        };
        if !has_speakable_content(&labels) {
            let empty: Vec<i16> = Vec::new();
            return Ok(empty);
        }
        let raw = match engine_synthesize_bits(&self.engine, labels) {
            Ok(raw) => raw,
            Err(err) => {
                return Err(AltJTalkError::SynthesisError(engine_error_message(&err)));
            },
        };
        let samples = convert_samples(&raw);
        Ok(samples)
    }
}

/// Whether an analyzed label sequence has speakable content: a sequence of
/// at most two labels holds silence and boundaries only and produces no
/// audio.
pub fn has_speakable_content(labels: &Vec<String>) -> (b: bool)
    ensures
        b == (labels@.len() > 2),
{
    labels.len() > 2
}

} // verus!
