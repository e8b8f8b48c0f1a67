use vstd::prelude::*;
use vstd::string::{StrSliceExecFns, StringSliceAdditionalSpecFns};

verus! {

/// An inbound HTTP request as the transport hands it over.
pub struct HttpRequest {
    pub method: String,
    pub url: String,
    pub headers: Vec<(String, String)>,
    pub body: Vec<u8>,
    pub upgrade: Option<bool>,
}

/// An HTTP response handed back to the transport.
pub struct HttpResponse {
    pub status_code: u16,
    pub headers: Vec<(String, String)>,
    pub body: Vec<u8>,
}

/// Answers every request with status 200 and a plain-text notice that the
/// service is running.
pub fn http_request(_req: &HttpRequest) -> (r: HttpResponse)
    ensures
        r.status_code == 200,
        r.headers@.len() == 1,
        r.headers@[0].0@ == "Content-Type"@,
        r.headers@[0].1@ == "text/plain"@,
        r.body@ == "Supply Chain Backend is running.".spec_bytes(),
{
    let mut headers: Vec<(String, String)> = Vec::new();
    headers.push((String::from_str("Content-Type"), String::from_str("text/plain")));
    let body = "Supply Chain Backend is running.".as_bytes_vec();
    HttpResponse { status_code: 200, headers, body }
}

} // verus!
