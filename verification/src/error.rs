//! The closed failure taxonomy for one inference request, and the stable
//! diagnostic message each kind carries.

use vstd::prelude::*;
use vstd::string::StringExecFns;

verus! {

/// Everything that can go wrong while serving one inference request.
/// The payload of the four runtime kinds is the underlying runtime's
/// own description of the failure.
#[derive(Debug)]
pub enum ServiceError {
    /// The runtime could not allocate a decoding context.
    LlamaContext(String),
    /// The prompt string could not be converted to tokens.
    LlamaTokenize(String),
    /// A batched decode call (prefill or incremental) failed.
    LlamaDecode(String),
    /// A generated token could not be converted to output bytes.
    LlamaTokenProcess(String),
    /// Catch-all for failures in request plumbing.
    InternalError,
}

/// The loggable message attached to each error kind.
pub open spec fn error_message_of(e: ServiceError) -> Seq<char> {
    match e {
        ServiceError::LlamaContext(m) => "Failed to create LLaMA context: "@ + m@,
        ServiceError::LlamaTokenize(m) => "Failed to tokenize prompt: "@ + m@,
        ServiceError::LlamaDecode(m) => "Failed to decode prompt: "@ + m@,
        ServiceError::LlamaTokenProcess(m) => "Failed to process token: "@ + m@,
        ServiceError::InternalError => "Internal Server Error"@,
    }
}

impl ServiceError {
    /// The stable, loggable message for this error kind.
    pub fn message(&self) -> (r: String)
        ensures
            r@ == error_message_of(*self),
    {
        match self {
            ServiceError::LlamaContext(m) => {
                let mut s = "Failed to create LLaMA context: ".to_owned();
                s.append(m.as_str());
                s
            },
            ServiceError::LlamaTokenize(m) => {
                let mut s = "Failed to tokenize prompt: ".to_owned();
                s.append(m.as_str());
                s
            },
            ServiceError::LlamaDecode(m) => {
                let mut s = "Failed to decode prompt: ".to_owned();
                s.append(m.as_str());
                s
            },
            ServiceError::LlamaTokenProcess(m) => {
                let mut s = "Failed to process token: ".to_owned();
                s.append(m.as_str());
                s
            },
            ServiceError::InternalError => "Internal Server Error".to_owned(),
        }
    }
}

} // verus!
