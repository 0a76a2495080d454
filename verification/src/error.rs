use vstd::prelude::*;

verus! {

/// The classified failures that any operation of this layer can surface.
///
/// Every operation resolves to either a success value or exactly one of
/// these kinds; no raw transport exception ever reaches a caller.
#[derive(Debug, Clone, PartialEq, Eq)]
pub enum ElasticError {
    /// The transport could not be established or used at all.
    Connection(String),
    /// The transport accepted the call but the request could not be sent.
    Send(String),
    /// The body could not be parsed as structured data, or the structured
    /// data did not match the expected shape.
    JsonParse(String),
    /// The remote endpoint answered with an unexpected status; the body
    /// text is preserved verbatim for diagnostics.
    Status(u16, String),
    /// A document or index-scoped operation found its target absent.
    NotFound(String),
}

impl ElasticError {
    /// The diagnostic text carried by this error, whichever kind it is.
    pub open spec fn message_spec(&self) -> Seq<char> {
        match self {
            ElasticError::Connection(e) => e@,
            ElasticError::Send(e) => e@,
            ElasticError::JsonParse(e) => e@,
            ElasticError::Status(_, e) => e@,
            ElasticError::NotFound(e) => e@,
        }
    }

    /// Every kind carries a diagnostic text, so this always returns it.
    pub fn error(&self) -> (r: Option<String>)
        ensures
            r matches Some(m) && m@ == self.message_spec(),
    {
        match self {
            ElasticError::JsonParse(e) => Some(e.clone()),
            ElasticError::Connection(e) => Some(e.clone()),
            ElasticError::Status(_, e) => Some(e.clone()),
            ElasticError::Send(e) => Some(e.clone()),
            ElasticError::NotFound(e) => Some(e.clone()),
        }
    }
}

} // verus!
