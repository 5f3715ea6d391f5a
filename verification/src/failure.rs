use vstd::prelude::*;
use vstd::string::StringExecFns;

use crate::component::ComponentExternalKind;
use crate::text::concat2;

verus! {

/// Something the analysis skipped without failing.
#[derive(Debug, Clone)]
pub enum AnalysisWarning {
    UnsupportedExport { kind: ComponentExternalKind, name: String },
}

/// Why an analysis failed.
#[derive(Debug, Clone)]
pub enum AnalysisFailure {
    Failed(String),
}

pub type AnalysisResult<A> = Result<A, AnalysisFailure>;

impl AnalysisFailure {
    /// The message of the failure.
    pub open spec fn message(self) -> Seq<char> {
        match self {
            AnalysisFailure::Failed(m) => m@,
        }
    }

    pub fn failed(message: &str) -> (r: AnalysisFailure)
        ensures
            r.message() == message@,
    {
        AnalysisFailure::Failed(String::from_str(message))
    }

    /// The value, or a failure that says which item was missing.
    pub fn fail_on_missing<T>(value: Option<T>, description: &str) -> (r: AnalysisResult<T>)
        ensures
            match value {
                Some(v) => r == Ok::<T, AnalysisFailure>(v),
                None => r matches Err(e) && e.message() == missing_message(description@),
            },
    {
        match value {
            Some(value) => Ok(value),
            None => Err(AnalysisFailure::Failed(concat2("Missing ", description))),
        }
    }
}

/// The message of a failure on a missing item.
pub open spec fn missing_message(description: Seq<char>) -> Seq<char> {
    "Missing "@ + description
}

/// A copy of a warning.
pub fn clone_warning(w: &AnalysisWarning) -> (r: AnalysisWarning)
    ensures
        r == *w,
{
    match w {
        AnalysisWarning::UnsupportedExport { kind, name } => AnalysisWarning::UnsupportedExport {
            kind: *kind,
            name: name.clone(),
        },
    }
}

} // verus!
