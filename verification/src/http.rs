//! The transport collaborator: one GET per call, the body or a failure. The
//! default implementation is a reqwest blocking client; nothing in the
//! client's logic assumes anything about a transport beyond this signature.

use vstd::prelude::*;

verus! {

/// A transport failure: the request could not complete, or the response was
/// not a success.
#[derive(Debug)]
pub struct TransportError {}

/// What the beacon client asks of its transport: issue one GET and hand back
/// the raw body, or report failure. No retries, headers or caching are the
/// client's concern.
pub trait Transport {
    fn fetch(&self, url: &str) -> Result<String, TransportError>;
}

#[verifier::external_type_specification]
#[verifier::external_body]
pub struct ExClient(reqwest::blocking::Client);

/// The HTTP transport used by the ready-made client constructors.
pub struct HttpTransport {
    client: reqwest::blocking::Client,
}

impl HttpTransport {
    /// Relies on reqwest::blocking::Client::new: a client with default settings.
    #[verifier::external_body]
    pub fn new() -> (t: HttpTransport) {
        HttpTransport { client: reqwest::blocking::Client::new() }
    }
}

/// Relies on reqwest's blocking `get`, `send`, `error_for_status` and `text`:
/// the body of a success response, or a transport error. Nothing is assumed
/// of which outcome comes back.
#[verifier::external_body]
fn http_get(client: &reqwest::blocking::Client, url: &str) -> (r: Result<String, TransportError>) {
    let outcome = client.get(url).send().and_then(|resp| resp.error_for_status()).and_then(
        |resp| resp.text(),
    );
    match outcome {
        Ok(body) => Ok(body),
        Err(_) => Err(TransportError {}),
    }
}

impl Transport for HttpTransport {
    fn fetch(&self, url: &str) -> Result<String, TransportError> {
        http_get(&self.client, url)
    }
}

} // verus!
