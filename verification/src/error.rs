//! The kinds of failure a request can end in.

use vstd::prelude::*;

verus! {

/// Why no card was produced.
#[derive(Clone, Copy, Debug, PartialEq, Eq, Structural)]
pub enum CardError {
    /// The request text is not well-formed percent-encoded UTF-8.
    Decode,
    /// The canvas dimensions are degenerate, or the font cannot be loaded.
    Config,
    /// Shaping or painting the text failed.
    Raster,
    /// The finished canvas could not be serialised.
    Encode,
}

impl CardError {
    /// Only a decoding failure is traceable to what the client sent.
    pub open spec fn client_fault(self) -> bool {
        self == CardError::Decode
    }

    /// The HTTP status class that reports this failure: 400 for a fault of
    /// the client, 500 for every internal one.
    pub open spec fn status_code(self) -> u16 {
        if self.client_fault() {
            400
        } else {
            500
        }
    }

    #[verifier::when_used_as_spec(client_fault)]
    pub fn is_client_fault(self) -> (b: bool)
        ensures
            b == self.client_fault(),
    {
        match self {
            CardError::Decode => true,
            _ => false,
        }
    }

    #[verifier::when_used_as_spec(status_code)]
    pub fn status(self) -> (code: u16)
        ensures
            code == self.status_code(),
    {
        if self.is_client_fault() {
            400
        } else {
            500
        }
    }
}

} // verus!
