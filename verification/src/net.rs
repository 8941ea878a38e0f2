//! Trusted boundary to the HTTP client.
//!
//! Every network exchange the library makes goes through the two wrappers in
//! this module. Nothing is promised about what the network returns: the
//! callers' logic is verified for every possible response.

use vstd::prelude::*;

verus! {

#[verifier::external_type_specification]
#[verifier::external_body]
pub struct ExClient(reqwest::blocking::Client);

/// Relies on `reqwest::blocking::ClientBuilder::build`: a client whose
/// requests time out after `timeout_ms` milliseconds, or `None` when the
/// backend cannot be started.
#[verifier::external_body]
pub(crate) fn build_client(timeout_ms: u64) -> (r: Option<reqwest::blocking::Client>)
{
    let timeout = core::time::Duration::from_millis(timeout_ms);
    match reqwest::blocking::Client::builder().timeout(timeout).build() {
        Ok(client) => Some(client),
        Err(_) => None,
    }
}

/// Relies on `reqwest::blocking::Client::get` and `Response::text`: one GET to
/// `http://{host}:{port}{path}`, with `Ok((status, body))` when a response was
/// received and fully read, and `Err(message)` on any transport failure.
#[verifier::external_body]
pub(crate) fn http_get(
    client: &reqwest::blocking::Client,
    host: &str,
    port: u16,
    path: &str,
) -> (r: Result<(u16, String), String>)
{
    let url = format!("http://{}:{}{}", host, port, path);
    match client.get(&url).send() {
        Ok(resp) => {
            let status = resp.status().as_u16();
            match resp.text() {
                Ok(body) => Ok((status, body)),
                Err(e) => Err(e.to_string()),
            }
        }
        Err(e) => Err(e.to_string()),
    }
}

/// Relies on `reqwest::blocking::Client::post` and `Response::text`: one POST
/// of `payload` with header `Content-Type: text/plain` to
/// `http://{host}:{port}{path}`, with `Ok((status, body))` when a response was
/// received and fully read, and `Err(message)` on any transport failure.
#[verifier::external_body]
pub(crate) fn http_post(
    client: &reqwest::blocking::Client,
    host: &str,
    port: u16,
    path: &str,
    payload: &str,
) -> (r: Result<(u16, String), String>)
{
    let url = format!("http://{}:{}{}", host, port, path);
    let request = client.post(&url).header("Content-Type", "text/plain").body(payload.to_string());
    match request.send() {
        Ok(resp) => {
            let status = resp.status().as_u16();
            match resp.text() {
                Ok(body) => Ok((status, body)),
                Err(e) => Err(e.to_string()),
            }
        }
        Err(e) => Err(e.to_string()),
    }
}

} // verus!
