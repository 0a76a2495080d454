use vstd::prelude::*;

use crate::outcome::BodyOutcome;
use crate::response::{GetDoc, HitList, IndicesRefreshResponse, SearchHit, SearchPage, ShardStats};
use elastic_parser::{Doc, SearchResponse, Shards};
use serde_json::Value;

verus! {

// The engine's reply bodies are structured text. Reading them is done by
// the serde_json and elastic_parser crates behind the wrappers below; each
// wrapper's whole outcome is a function of the body text alone, so it is
// pinned by one uninterpreted name, and everything that happens after a
// parse is ordinary verified code over the returned plain values.

/// What reading a body as one generic structured value yields: its
/// canonical text on success, or the parser's error text.
pub uninterp spec fn value_body_decode(s: Seq<char>) -> BodyOutcome<String>;

/// What reading a body as a single-document envelope yields.
pub uninterp spec fn doc_body_decode(s: Seq<char>) -> BodyOutcome<GetDoc>;

/// What reading a body as a refresh acknowledgment yields.
pub uninterp spec fn refresh_body_decode(s: Seq<char>) -> BodyOutcome<IndicesRefreshResponse>;

/// What reading a body as an optional search result page yields, with
/// the two parse stages kept distinct.
pub uninterp spec fn search_page_body_decode(s: Seq<char>) -> BodyOutcome<Option<SearchPage>>;

/// What reading a body directly as a search result page yields: the
/// page, or the deserializer's error text.
pub uninterp spec fn search_body_parse(s: Seq<char>) -> Result<SearchPage, String>;

/// Relies on serde_json::from_str for the generic parse and on
/// serde_json's Display impl for Value for the canonical text; the
/// result depends on the body text alone.
#[verifier::external_body]
pub(crate) fn parse_value_body(s: &str) -> (r: BodyOutcome<String>)
    ensures
        r == value_body_decode(s@),
{
    match serde_json::from_str::<Value>(s) {
        Err(e) => BodyOutcome::Malformed(e.to_string()),
        Ok(v) => BodyOutcome::Typed(v.to_string()),
    }
}

/// Relies on serde_json::from_str for the generic parse, then on
/// serde_json::from_value into elastic_parser::Doc for the shape
/// coercion; a coercion failure keeps the generic value's textual form.
#[verifier::external_body]
pub(crate) fn parse_doc_body(s: &str) -> (r: BodyOutcome<GetDoc>)
    ensures
        r == doc_body_decode(s@),
{
    let v: Value = match serde_json::from_str(s) {
        Err(e) => return BodyOutcome::Malformed(e.to_string()),
        Ok(v) => v,
    };
    match serde_json::from_value::<Doc<Value>>(v.clone()) {
        Err(_) => BodyOutcome::Mismatch(v.to_string()),
        Ok(d) => BodyOutcome::Typed(GetDoc {
            _index: d._index,
            _type: d._type,
            _id: d._id,
            _source: d._source.map(|x| x.to_string()),
        }),
    }
}

/// Relies on serde_json::from_str for the generic parse, then on
/// serde_json::from_value into a Map and into elastic_parser::Shards to
/// coerce the shard acknowledgment out of the reply object.
#[verifier::external_body]
pub(crate) fn parse_refresh_body(s: &str) -> (r: BodyOutcome<IndicesRefreshResponse>)
    ensures
        r == refresh_body_decode(s@),
{
    let v: Value = match serde_json::from_str(s) {
        Err(e) => return BodyOutcome::Malformed(e.to_string()),
        Ok(v) => v,
    };
    let m = match serde_json::from_value::<serde_json::Map<String, Value>>(v.clone()) {
        Err(_) => return BodyOutcome::Mismatch(v.to_string()),
        Ok(m) => m,
    };
    match serde_json::from_value::<Option<Shards>>(m.get("_shards").cloned().unwrap_or(Value::Null)) {
        Err(_) => BodyOutcome::Mismatch(v.to_string()),
        Ok(sh) => BodyOutcome::Typed(IndicesRefreshResponse {
            _shards: sh.map(|x| ShardStats { total: x.total, successful: x.successful, failed: x.failed }),
        }),
    }
}

/// Relies on serde_json::from_str for the generic parse, then on
/// serde_json::from_value into an optional elastic_parser::SearchResponse
/// for the shape coercion, and on serde_json's Display impl for Value for
/// each hit's source text.
#[verifier::external_body]
pub(crate) fn parse_search_page_body(s: &str) -> (r: BodyOutcome<Option<SearchPage>>)
    ensures
        r == search_page_body_decode(s@),
{
    let v: Value = match serde_json::from_str(s) {
        Err(e) => return BodyOutcome::Malformed(e.to_string()),
        Ok(v) => v,
    };
    match serde_json::from_value::<Option<SearchResponse<Value>>>(v.clone()) {
        Err(_) => BodyOutcome::Mismatch(v.to_string()),
        Ok(p) => BodyOutcome::Typed(p.map(|p| SearchPage {
            _scroll_id: p._scroll_id,
            hits: p.hits.map(|h| HitList { total: h.total.and_then(|t| t.value), hits: h.hits.map(
                |hs| hs.into_iter().map(|x| SearchHit { _index: x._index, _id: x._id,
                    _source: x._source.map(|y| y.to_string()) }).collect()) }),
        })),
    }
}

/// Relies on serde_json::from_str into elastic_parser::SearchResponse
/// (one deserialization stage, as the scroll-style calls use) and on
/// serde_json's Display impl for Value for each hit's source text.
#[verifier::external_body]
pub(crate) fn parse_search_body(s: &str) -> (r: Result<SearchPage, String>)
    ensures
        r == search_body_parse(s@),
{
    match serde_json::from_str::<SearchResponse<Value>>(s) {
        Err(e) => Err(e.to_string()),
        Ok(p) => Ok(SearchPage {
            _scroll_id: p._scroll_id,
            hits: p.hits.map(|h| HitList { total: h.total.and_then(|t| t.value), hits: h.hits.map(
                |hs| hs.into_iter().map(|x| SearchHit { _index: x._index, _id: x._id,
                    _source: x._source.map(|y| y.to_string()) }).collect()) }),
        }),
    }
}

} // verus!
