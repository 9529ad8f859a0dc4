use vstd::prelude::*;

verus! {

#[verifier::external_type_specification]
#[verifier::external_body]
pub struct ExClient(reqwest::Client);

/// Relies on `reqwest::Client::new`: a fresh stateless HTTP client handle,
/// safe to share read-only across concurrent requests. Nothing about its
/// behaviour is promised here; the request itself happens outside the
/// library.
#[verifier::external_body]
pub fn get_client() -> reqwest::Client {
    reqwest::Client::new()
}

} // verus!
