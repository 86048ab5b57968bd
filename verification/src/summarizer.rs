//! The data shapes of the summarization backend: the request sent to the
//! hosted model and the response it returns. The HTTP exchange itself
//! lives outside the library.

use vstd::prelude::*;

verus! {

/// A summarization request: the text to shorten and the upper bound on
/// the summary's length.
#[derive(Clone, Debug)]
pub struct SummarizationRequest {
    pub input_text: String,
    pub max_length: usize,
}

/// What the hosted model answers: the result when it succeeded, the
/// errors when it did not.
#[derive(Clone, Debug)]
pub struct SummarizationResponse {
    pub result: SummarizationResult,
    pub errors: Vec<String>,
    pub success: bool,
}

/// A successful summarization: the summary text.
#[derive(Clone, Debug)]
pub struct SummarizationResult {
    pub summary: String,
}

} // verus!
