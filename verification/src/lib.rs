//! A typed protocol layer over a document-search engine's HTTP API: the
//! decoding of heterogeneous, partially failing replies into one small
//! error taxonomy and typed results, the scroll pagination and size-one
//! search conveniences, the line-oriented bulk framing, and the decision
//! logic of the composite operations. Everything that touches the
//! network lives outside this crate and hands each raw outcome in as a
//! plain value.

pub mod bulk;
pub mod decode;
pub mod error;
pub mod ops;
pub mod outcome;
pub mod parse;
pub mod response;
