//! Errors of the extension.
use crate::exporter::ExportError;
use crate::runtime::RuntimeError;
use vstd::prelude::*;
use vstd::string::*;

verus! {

/// Errors that can occur in the extension.
#[non_exhaustive]
#[derive(Debug)]
pub enum ExtensionError {
    /// Configuration error, for the given reason.
    Config(String),
    /// Export error.
    Export(ExportError),
    /// Runtime error.
    Runtime(RuntimeError),
    /// Tracing subscriber initialisation failed, for the given reason.
    Tracing(String),
}

impl ExtensionError {
    /// The error in words, as the contracts see it. Export and runtime errors speak
    /// for themselves.
    pub open spec fn words(&self) -> Seq<char> {
        match self {
            ExtensionError::Config(_) => "configuration error"@,
            ExtensionError::Export(e) => e.words(),
            ExtensionError::Runtime(e) => e.words(),
            ExtensionError::Tracing(_) => "failed to initialise tracing"@,
        }
    }

    /// The error in words.
    pub fn message(&self) -> (s: String)
        ensures
            s@ == self.words(),
    {
        match self {
            ExtensionError::Config(_) => "configuration error".to_owned(),
            ExtensionError::Export(e) => e.message(),
            ExtensionError::Runtime(e) => e.message().to_owned(),
            ExtensionError::Tracing(_) => "failed to initialise tracing".to_owned(),
        }
    }
}

/// An export or runtime error speaks for itself, and the others have their words.
pub proof fn law_errors_have_their_words(e: ExtensionError)
    ensures
        e is Config ==> e.words() == "configuration error"@,
        e is Export ==> e.words() == e->Export_0.words(),
        e is Runtime ==> e.words() == e->Runtime_0.words(),
        e is Tracing ==> e.words() == "failed to initialise tracing"@,
{
}

} // verus!
