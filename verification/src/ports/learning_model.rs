//! Structured learning-model values.

use vstd::prelude::*;

verus! {

/// Failure returned by a structured learning model.
#[derive(Debug, Clone, Copy, PartialEq, Eq, Structural)]
pub enum LearningModelError {
    /// The model cannot currently serve the request.
    Unavailable,
    /// The model returned invalid structured output.
    InvalidOutput,
}

impl LearningModelError {
    /// Human-readable description of the failure.
    pub fn message(&self) -> (r: &'static str)
        ensures
            r@ == match *self {
                LearningModelError::Unavailable => "learning model unavailable"@,
                LearningModelError::InvalidOutput => "learning model returned invalid structured output"@,
            },
    {
        match self {
            LearningModelError::Unavailable => "learning model unavailable",
            LearningModelError::InvalidOutput => "learning model returned invalid structured output",
        }
    }
}

} // verus!
