//! The outcome of a validation: every violation found, never only the first.

use crate::text::texts;
use vstd::prelude::*;

verus! {

/// The outcome of validating a record.
///
/// `errors` holds one message for each violated rule, in the order of the
/// rules; `valid` says that there is none; `validation_ms` is the time the
/// validation took.
#[derive(Debug, Clone)]
pub struct ValidationResult {
    pub valid: bool,
    pub errors: Vec<String>,
    pub validation_ms: u64,
}

impl ValidationResult {
    /// `valid` holds exactly when there is no error.
    pub open spec fn wf(&self) -> bool {
        self.valid == (self.errors@.len() == 0)
    }

    /// The messages of the result.
    pub open spec fn messages(&self) -> Seq<Seq<char>> {
        texts(self.errors@)
    }

    /// The result that reports the given errors and duration.
    pub fn from_errors(errors: Vec<String>, validation_ms: u64) -> (result: ValidationResult)
        ensures
            result.errors == errors,
            result.validation_ms == validation_ms,
            result.valid == (errors@.len() == 0),
            result.wf(),
    {
        ValidationResult { valid: errors.is_empty(), errors, validation_ms }
    }
}

} // verus!
