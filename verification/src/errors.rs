//! The error taxonomy of the pipeline.
//!
//! Every stage reports its failure through one of these types; the pipeline
//! boundary turns each into a human-readable string with `message`, and that
//! string is what the batch caller sees.

use vstd::prelude::*;

verus! {

/// Failure to read or parse a source document. Carries the description of the
/// underlying cause; no partial extraction accompanies it.
#[derive(Debug, PartialEq)]
pub struct ExtractError {
    pub cause: String,
}

impl ExtractError {
    /// The string surfaced at the pipeline boundary: the cause, verbatim.
    pub open spec fn spec_message(&self) -> Seq<char> {
        self.cause@
    }

    pub fn message(&self) -> (m: String)
        ensures
            m@ == self.spec_message(),
    {
        self.cause.clone()
    }
}

/// Failure of the translation stage: a configuration lookup that did not
/// yield a usable value, or a failed exchange with the translation endpoint.
#[derive(Debug, PartialEq)]
pub enum TranslateError {
    /// The configuration provider has no value under `key`.
    ConfigKeyMissing { key: String },
    /// The configuration provider holds a value under `key` that is not a string.
    ConfigValueInvalid { key: String },
    /// The transport or HTTP exchange with the endpoint failed.
    Network { cause: String },
    /// The endpoint's reply could not be read as a translation response.
    ParseFailure { cause: String },
}

impl TranslateError {
    /// The string surfaced at the pipeline boundary.
    pub open spec fn spec_message(&self) -> Seq<char> {
        match *self {
            TranslateError::ConfigKeyMissing { key } => key@ + " not found in store"@,
            TranslateError::ConfigValueInvalid { key } => key@ + " is not a valid string"@,
            TranslateError::Network { cause } => cause@,
            TranslateError::ParseFailure { cause } => cause@,
        }
    }

    pub fn message(&self) -> (m: String)
        ensures
            m@ == self.spec_message(),
    {
        match self {
            TranslateError::ConfigKeyMissing { key } => {
                let mut m = key.clone();
                m.append(" not found in store");
                m
            },
            TranslateError::ConfigValueInvalid { key } => {
                let mut m = key.clone();
                m.append(" is not a valid string");
                m
            },
            TranslateError::Network { cause } => cause.clone(),
            TranslateError::ParseFailure { cause } => cause.clone(),
        }
    }
}

/// Failure of the render stage: the fixed font resource could not be loaded,
/// or the output document could not be written.
#[derive(Debug, PartialEq)]
pub enum RenderError {
    /// The font resource could not be loaded; fatal to the render call.
    FontLoad { cause: String },
    /// The output file could not be written.
    Write { cause: String },
}

impl RenderError {
    /// The string surfaced at the pipeline boundary.
    pub open spec fn spec_message(&self) -> Seq<char> {
        match *self {
            RenderError::FontLoad { cause } => "Error loading font: "@ + cause@,
            RenderError::Write { cause } => cause@,
        }
    }

    pub fn message(&self) -> (m: String)
        ensures
            m@ == self.spec_message(),
    {
        match self {
            RenderError::FontLoad { cause } => {
                let mut m = String::from_str("Error loading font: ");
                m.append(cause.as_str());
                m
            },
            RenderError::Write { cause } => cause.clone(),
        }
    }
}

} // verus!
