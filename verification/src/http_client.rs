//! The transport contract the delivery worker consumes. The crate does not
//! perform HTTP itself: the caller supplies a client whose request builder
//! and response follow these interfaces.

use vstd::prelude::*;

verus! {

/// Builds one outbound request: headers, body, then the built request.
pub trait PushRequestBuilder: Sized {
    type Error;

    type Request;

    type Response: PushResponse<Error = Self::Error>;

    /// Adds one header.
    fn header(self, key: &str, value: &str) -> Self;

    /// Sets the request body.
    fn body(self, payload: Vec<u8>) -> Self;

    /// Builds the request.
    fn build(self) -> Result<Self::Request, Self::Error>;

    /// Adds the headers every push request carries: the JSON content type
    /// and the application key.
    fn default_headers(self, key: &str) -> Self {
        self.header("content-type", "application/json").header("key", key)
    }
}

/// One exchange's reply: its status code and its body.
pub trait PushResponse {
    type Error;

    /// The reply's status code.
    fn status(&self) -> u16;

    /// The reply's body.
    fn bytes(self) -> Result<Vec<u8>, Self::Error>;
}

} // verus!
