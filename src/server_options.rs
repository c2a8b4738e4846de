//! How the metrics endpoint checks its callers.

use vstd::prelude::*;

verus! {

/// The credential check that the metrics endpoint applies to each request.
#[derive(Debug, Clone)]
pub enum Authorization {
    /// Every request is let through.
    Disabled,
    /// HTTP Basic authentication with an empty user name and this password.
    Basic(String),
}

} // verus!
