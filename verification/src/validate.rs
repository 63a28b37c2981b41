//! Validation of user-supplied command input: the decision part of the
//! command layer, kept apart from the host runtime that dispatches it.

use vstd::prelude::*;
use vstd::string::*;

use crate::error::AppError;
use crate::error::ErrorCategory;
use crate::error::ErrorSeverity;

verus! {

/// The length of `s` in bytes, as the machine measures it.
pub open spec fn byte_len(s: &str) -> usize {
    s.spec_bytes().len() as usize
}

/// Accepts input that is neither empty nor longer than 100 bytes and echoes
/// it back; rejects anything else with a validation warning.
pub fn validate_input(input: &str) -> (r: Result<String, AppError>)
    ensures
        input@.len() == 0 ==> (r matches Err(e) && e.spec_message() == "Input cannot be empty"@
            && e.spec_category() == ErrorCategory::Validation && e.spec_severity()
            == ErrorSeverity::Warning),
        input@.len() != 0 && byte_len(input) > 100 ==> (r matches Err(e) && e.spec_message()
            == "Input too long"@ && e.spec_category() == ErrorCategory::Validation
            && e.spec_severity() == ErrorSeverity::Warning),
        input@.len() != 0 && byte_len(input) <= 100 ==> (r matches Ok(v) && v@ == "Valid input: "@
            + input@),
{
    if input.is_empty() {
        Err(
            AppError::new(
                String::from_str("Input cannot be empty"),
                ErrorCategory::Validation,
                ErrorSeverity::Warning,
            ),
        )
    } else if input.len() > 100 {
        Err(
            AppError::new(
                String::from_str("Input too long"),
                ErrorCategory::Validation,
                ErrorSeverity::Warning,
            ),
        )
    } else {
        let mut out = String::from_str("Valid input: ");
        out.append(input);
        Ok(out)
    }
}

} // verus!
