use vstd::prelude::*;

verus! {

/// The raw result of one network call, as the transport hands it back:
/// either the call failed before completing, with the transport's own
/// diagnostic text, or the endpoint answered with an HTTP status code
/// and a body that has been read once as text.
///
/// Every decoder of this layer starts from one of these values; it is
/// the sole boundary between the transport and the decoding logic.
#[derive(Debug, Clone, PartialEq, Eq)]
pub enum TransportOutcome {
    /// The call itself failed (connection refused, timeout, and the like).
    Failed(String),
    /// The endpoint answered: status code, then the body text verbatim.
    Reply(u16, String),
}

/// A reply handed back to the caller uninterpreted, for operations whose
/// contract leaves inspecting the status and body to the caller.
#[derive(Debug, Clone, PartialEq, Eq)]
pub struct RawReply {
    pub status: u16,
    pub body: String,
}

/// What becomes of a success body once it is read as structured data:
/// either the expected shape, or one of the two distinct parse failures.
///
/// `Malformed` carries the parser's own error text (the body was not
/// structured data at all); `Mismatch` carries the textual form of the
/// structured value that was read but did not fit the expected shape, so
/// a caller can see what was actually received.
#[derive(Debug, Clone, PartialEq, Eq)]
pub enum BodyOutcome<T> {
    Typed(T),
    Mismatch(String),
    Malformed(String),
}

} // verus!
