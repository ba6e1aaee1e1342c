//! User session metadata.

use vstd::prelude::*;

verus! {

/// Additional metadata of a user session.
#[derive(Debug, Clone, PartialEq, Eq)]
pub struct Meta {
    /// Consent for the demat account: empty, `consent` or `physical`.
    pub demat_consent: String,
}

} // verus!
