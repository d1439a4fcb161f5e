//! Plain descriptions of the HTTP calls the gateway makes to devices.

use vstd::prelude::*;

verus! {

/// The HTTP methods the gateway uses.
#[derive(Debug, Clone, Copy, PartialEq, Eq, Structural)]
pub enum HttpMethod {
    Get,
    Put,
}

/// One HTTP call to a device: its method, its URL and its JSON body (empty
/// for a `GET`).
#[derive(Debug, Clone, PartialEq, Eq)]
pub struct HttpRequest {
    pub method: HttpMethod,
    pub url: String,
    pub body: String,
}

} // verus!
