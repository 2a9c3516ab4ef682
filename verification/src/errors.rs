//! The failure taxonomy shared by the registry and the fetch service.

use vstd::prelude::*;
use vstd::string::StringExecFns;

verus! {

/// Failures surfaced by the registry and the fetch service.
///
/// Each failing operation reports independently; none is fatal to the
/// process, and the registry stays usable afterward.
#[derive(Debug, PartialEq, Eq, Clone)]
pub enum ProxyError {
    /// The presented proxy path was never registered.
    NotFound,
    /// The request could not be sent or the connection failed (network,
    /// DNS or TLS failure); carries the transport's description.
    FetchError(String),
    /// The response body could not be fully read (stream interruption);
    /// carries the transport's description.
    ReadError(String),
}

impl ProxyError {
    /// The descriptive message that each failure surfaces to its caller.
    pub open spec fn message_spec(&self) -> Seq<char> {
        match self {
            ProxyError::NotFound => "Proxy path not found"@,
            ProxyError::FetchError(m) => "Failed to fetch URL: "@ + m@,
            ProxyError::ReadError(m) => "Failed to read response body: "@ + m@,
        }
    }

    /// Renders the failure as its descriptive message.
    pub fn message(&self) -> (r: String)
        ensures
            r@ == self.message_spec(),
    {
        match self {
            ProxyError::NotFound => String::from_str("Proxy path not found"),
            ProxyError::FetchError(m) => {
                String::from_str("Failed to fetch URL: ").concat(m.as_str())
            },
            ProxyError::ReadError(m) => {
                String::from_str("Failed to read response body: ").concat(m.as_str())
            },
        }
    }
}

} // verus!
