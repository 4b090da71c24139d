//! Trusted boundary to the hosting execution environment: the ambient
//! signer identity and the host log. Everything here is believed, not
//! proved; the contracts say no more than the `near_sdk` sources show.

use vstd::prelude::*;

verus! {

/// Relies on `near_sdk::env::signer_account_id`, which yields the account
/// the host reports as having signed the current transaction. Which account
/// that is depends wholly on the invocation, so nothing is claimed of it.
#[verifier::external_body]
pub(crate) fn signer_account_id() -> String {
    near_sdk::env::signer_account_id().to_string()
}

/// Relies on `near_sdk::env::log_str`: appends one diagnostic line to the
/// host-managed log. The line is informational only; nothing reads it back.
#[verifier::external_body]
pub(crate) fn log_saved(value: &String, account_id: &String) {
    near_sdk::env::log_str(format!("Saving name '{}' for account '{}'", value, account_id).as_str());
}

} // verus!
