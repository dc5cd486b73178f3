use vstd::prelude::*;

verus! {

/// Relies on the `StatusCode::OK` constant of pavex's `http` re-export and on
/// `StatusCode::as_u16`: `OK` is the code 200.
#[verifier::external_body]
fn ok_status_code() -> (r: u16)
    ensures
        r == 200,
{
    pavex::http::StatusCode::OK.as_u16()
}

/// Respond with a `200 OK` status code to indicate that the server is alive and
/// ready to accept new requests.
pub fn health_check() -> (r: u16)
    ensures
        r == 200,
{
    ok_status_code()
}

} // verus!
