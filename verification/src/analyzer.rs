//! The trusted boundary around the linguistic analyzer.
//!
//! The analyzer is an external collaborator: it loads a system dictionary
//! and turns input text into an ordered sequence of full-context labels, or
//! fails. Its values are opaque here; the library consumes it through one
//! load operation and one text-to-labels operation.
use vstd::prelude::*;

verus! {

/// The linguistic analyzer, held opaquely: the generic tokenizer bound of
/// the underlying type cannot be declared to the verifier, so the whole
/// handle is hidden behind this struct.
#[verifier::external_body]
pub struct Analyzer {
    inner: jpreprocess::JPreprocess<jpreprocess::DefaultTokenizer>,
}

#[verifier::external_type_specification]
#[verifier::external_body]
pub struct ExJPreprocessError(jpreprocess::error::JPreprocessError);

/// What linguistic analysis returns for a given analyzer and text: the
/// ordered full-context label sequence, or nothing where analysis fails.
/// Analysis is a pure function of the loaded dictionary and the text, so
/// its result carries a name.
pub uninterp spec fn analysis_of(a: Analyzer, text: Seq<char>) -> Option<Seq<Seq<char>>>;

/// Relies on jpreprocess's JPreprocess::from_config: loads the system
/// dictionary at the given path; fails if the path is invalid or the
/// dictionary unreadable.
#[verifier::external_body]
#[allow(deprecated)]
pub(crate) fn analyzer_load(dictionary: &String) -> (r: Result<
    Analyzer,
    jpreprocess::error::JPreprocessError,
>) {
    match jpreprocess::JPreprocess::from_config(jpreprocess::JPreprocessConfig {
        dictionary: jpreprocess::SystemDictionaryConfig::File(std::path::PathBuf::from(
            dictionary.as_str(),
        )),
        user_dictionary: None,
    }) {
        Ok(inner) => Ok(Analyzer { inner }),
        Err(err) => Err(err),
    }
}

/// Relies on jpreprocess's JPreprocess::extract_fullcontext: analyzes the
/// text into an ordered sequence of full-context labels, rendered to
/// strings, or fails if the text cannot be segmented and annotated.
#[verifier::external_body]
pub(crate) fn analyzer_extract_fullcontext(
    analyzer: &Analyzer,
    text: &String,
) -> (r: Result<Vec<String>, jpreprocess::error::JPreprocessError>)
    ensures
        r matches Ok(labels) ==> analysis_of(*analyzer, text@) == Some(
            labels@.map_values(|label: String| label@),
        ),
        r is Err <==> analysis_of(*analyzer, text@) is None,
{
    match analyzer.inner.extract_fullcontext(text.as_str()) {
        Ok(labels) => Ok(labels.into_iter().map(|label| label.to_string()).collect()),
        Err(err) => Err(err),
    }
}

/// Relies on the Display impl of jpreprocess's JPreprocessError: renders the
/// error.
#[verifier::external_body]
pub(crate) fn analyzer_error_message(err: &jpreprocess::error::JPreprocessError) -> (r: String) {
    format!("{}", err)
}

} // verus!
