//! The shape of the inference endpoint's answer.

use vstd::prelude::*;

verus! {

/// The answer of the inference endpoint: an object that holds the result.
#[derive(Debug)]
pub struct ApiResponse {
    pub result: Result,
}

/// The result inside an answer: the text that the model gave.
#[derive(Debug)]
pub struct Result {
    pub response: String,
}

} // verus!
