use vstd::prelude::*;
use vstd::string::StringExecFns;

use crate::strutil::{spec_dec, u64_to_string};

verus! {

/// Everything that can go wrong inside the engine.  Every variant renders
/// to a descriptive message; none of the verified functions panic.
#[derive(Debug, Clone, PartialEq, Eq)]
pub enum EngineError {
    /// The model file does not exist at the given path.
    NotFound { path: String },
    /// The native execution backend could not be initialized.
    BackendInitError { detail: String },
    /// The model file could not be loaded by the runtime.
    ModelLoadError { detail: String },
    /// A generation request arrived while no model is resident.
    ModelNotLoaded,
    /// The prompt tokenizes to more tokens than the context allows.
    PromptTooLong { token_count: usize, limit: u32 },
    /// The prompt could not be tokenized.
    TokenizeError { detail: String },
    /// A token could not be appended to a decode batch.
    BatchError { detail: String },
    /// A decode call failed mid-generation; fatal to the request.
    DecodeError { detail: String },
    /// A supplied image payload is not valid base64.
    ImageDecodeError { index: usize, detail: String },
    /// The state lock was poisoned by a panicking holder; recovered, never
    /// surfaced as fatal.
    LockPoisoned,
}

/// The descriptive message that each error renders to.
pub open spec fn spec_message(e: EngineError) -> Seq<char> {
    match e {
        EngineError::NotFound { path } => "Model file not found: "@ + path@,
        EngineError::BackendInitError { detail } => "Backend init failed: "@ + detail@,
        EngineError::ModelLoadError { detail } => "Model load failed: "@ + detail@,
        EngineError::ModelNotLoaded => "Model not loaded! Please load a model first."@,
        EngineError::PromptTooLong { token_count, limit } => "Prompt too long: "@ + spec_dec(
            token_count as int,
        ) + " tokens (max: "@ + spec_dec(limit as int) + ")"@,
        EngineError::TokenizeError { detail } => "Tokenization failed: "@ + detail@,
        EngineError::BatchError { detail } => "Batch add failed: "@ + detail@,
        EngineError::DecodeError { detail } => "Decode failed: "@ + detail@,
        EngineError::ImageDecodeError { index, detail } => "Failed to decode image "@ + spec_dec(
            index as int,
        ) + ": "@ + detail@,
        EngineError::LockPoisoned => "State lock was poisoned; state recovered"@,
    }
}

impl EngineError {
    /// Renders the error as a human-readable message.
    pub fn message(&self) -> (r: String)
        ensures
            r@ == spec_message(*self),
    {
        match self {
            EngineError::NotFound { path } => {
                let mut s = String::from_str("Model file not found: ");
                s.append(path.as_str());
                s
            },
            EngineError::BackendInitError { detail } => {
                let mut s = String::from_str("Backend init failed: ");
                s.append(detail.as_str());
                s
            },
            EngineError::ModelLoadError { detail } => {
                let mut s = String::from_str("Model load failed: ");
                s.append(detail.as_str());
                s
            },
            EngineError::ModelNotLoaded => String::from_str(
                "Model not loaded! Please load a model first.",
            ),
            EngineError::PromptTooLong { token_count, limit } => {
                let mut s = String::from_str("Prompt too long: ");
                s.append(u64_to_string(*token_count as u64).as_str());
                s.append(" tokens (max: ");
                s.append(u64_to_string(*limit as u64).as_str());
                s.append(")");
                s
            },
            EngineError::TokenizeError { detail } => {
                let mut s = String::from_str("Tokenization failed: ");
                s.append(detail.as_str());
                s
            },
            EngineError::BatchError { detail } => {
                let mut s = String::from_str("Batch add failed: ");
                s.append(detail.as_str());
                s
            },
            EngineError::DecodeError { detail } => {
                let mut s = String::from_str("Decode failed: ");
                s.append(detail.as_str());
                s
            },
            EngineError::ImageDecodeError { index, detail } => {
                let mut s = String::from_str("Failed to decode image ");
                s.append(u64_to_string(*index as u64).as_str());
                s.append(": ");
                s.append(detail.as_str());
                s
            },
            EngineError::LockPoisoned => String::from_str(
                "State lock was poisoned; state recovered",
            ),
        }
    }
}

} // verus!
