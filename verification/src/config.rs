//! Validation of the configuration. Feeds need no credentials, and each
//! account's address is validated when the account is added, so there is
//! nothing to check at start-up.
use vstd::prelude::*;
use crate::error::AppError;

verus! {

/// Validates the configuration. It always passes.
pub fn validate_config() -> (r: Result<(), AppError>)
    ensures
        r is Ok,
{
    Ok(())
}

} // verus!
