use vstd::prelude::*;

use crate::error::ElasticError;
use crate::outcome::{BodyOutcome, RawReply, TransportOutcome};
use crate::parse::{
    doc_body_decode, parse_doc_body, parse_refresh_body, parse_search_body,
    parse_search_page_body, parse_value_body, refresh_body_decode, search_body_parse,
    search_page_body_decode, value_body_decode,
};
use crate::response::{
    first_hit, first_hit_spec, lemma_first_hit_none, page_has_no_hits, GetDoc,
    IndicesRefreshResponse, SearchHit, SearchPage,
};

verus! {

// The response decoder: the sole place where HTTP status codes and body
// shapes are interpreted. Every decoder starts from a TransportOutcome
// and follows the same strict order: a transport failure is classified
// first and never touches the body; then the status code is inspected;
// only then is the body read as structured data. Document-scoped
// decoders classify status 404 as NotFound before generic status
// handling, so that an absent target stays distinguishable from every
// other failure.

/// Decoding a fetched document envelope, as `get` uses it.
pub open spec fn get_doc_decode_spec(o: TransportOutcome, id: String) -> Result<
    GetDoc,
    ElasticError,
> {
    match o {
        TransportOutcome::Failed(m) => Result::Err(ElasticError::Send(m)),
        TransportOutcome::Reply(c, b) => if c == 404 {
            Result::Err(ElasticError::NotFound(id))
        } else if c != 200 {
            Result::Err(ElasticError::Status(c, b))
        } else {
            match doc_body_decode(b@) {
                BodyOutcome::Typed(d) => Result::Ok(d),
                BodyOutcome::Mismatch(t) => Result::Err(ElasticError::JsonParse(t)),
                BodyOutcome::Malformed(t) => Result::Err(ElasticError::JsonParse(t)),
            }
        },
    }
}

/// Decode the reply to a fetch of one document by identifier.
pub fn decode_get_doc(o: TransportOutcome, id: String) -> (r: Result<GetDoc, ElasticError>)
    ensures
        r == get_doc_decode_spec(o, id),
{
    match o {
        TransportOutcome::Failed(m) => Err(ElasticError::Send(m)),
        TransportOutcome::Reply(c, b) => {
            if c == 404 {
                Err(ElasticError::NotFound(id))
            } else if c != 200 {
                Err(ElasticError::Status(c, b))
            } else {
                match parse_doc_body(b.as_str()) {
                    BodyOutcome::Typed(d) => Ok(d),
                    BodyOutcome::Mismatch(t) => Err(ElasticError::JsonParse(t)),
                    BodyOutcome::Malformed(t) => Err(ElasticError::JsonParse(t)),
                }
            }
        },
    }
}

/// Decoding a fetched document source, as `get_source` uses it: like a
/// document fetch, but the success payload is the unwrapped source.
pub open spec fn get_source_decode_spec(o: TransportOutcome, id: String) -> Result<
    String,
    ElasticError,
> {
    match o {
        TransportOutcome::Failed(m) => Result::Err(ElasticError::Send(m)),
        TransportOutcome::Reply(c, b) => if c == 404 {
            Result::Err(ElasticError::NotFound(id))
        } else if c != 200 {
            Result::Err(ElasticError::Status(c, b))
        } else {
            match value_body_decode(b@) {
                BodyOutcome::Typed(t) => Result::Ok(t),
                BodyOutcome::Mismatch(t) => Result::Err(ElasticError::JsonParse(t)),
                BodyOutcome::Malformed(t) => Result::Err(ElasticError::JsonParse(t)),
            }
        },
    }
}

/// Decode the reply to a fetch of one document's bare source.
pub fn decode_get_source(o: TransportOutcome, id: String) -> (r: Result<String, ElasticError>)
    ensures
        r == get_source_decode_spec(o, id),
{
    match o {
        TransportOutcome::Failed(m) => Err(ElasticError::Send(m)),
        TransportOutcome::Reply(c, b) => {
            if c == 404 {
                Err(ElasticError::NotFound(id))
            } else if c != 200 {
                Err(ElasticError::Status(c, b))
            } else {
                match parse_value_body(b.as_str()) {
                    BodyOutcome::Typed(t) => Ok(t),
                    BodyOutcome::Mismatch(t) => Err(ElasticError::JsonParse(t)),
                    BodyOutcome::Malformed(t) => Err(ElasticError::JsonParse(t)),
                }
            }
        },
    }
}

/// Decoding a write that accepts status 200 only, as the partial-merge
/// `update` and the query-scoped update use it. The target names the
/// document or index that a 404 reports as absent.
pub open spec fn update_write_decode_spec(o: TransportOutcome, target: String) -> Result<
    (),
    ElasticError,
> {
    match o {
        TransportOutcome::Failed(m) => Result::Err(ElasticError::Send(m)),
        TransportOutcome::Reply(c, b) => if c == 404 {
            Result::Err(ElasticError::NotFound(target))
        } else if c != 200 {
            Result::Err(ElasticError::Status(c, b))
        } else {
            Result::Ok(())
        },
    }
}

/// Decode the reply to a partial-merge write: only status 200 counts as
/// success, so a write cannot silently create.
pub fn decode_update_write(o: TransportOutcome, target: String) -> (r: Result<(), ElasticError>)
    ensures
        r == update_write_decode_spec(o, target),
{
    match o {
        TransportOutcome::Failed(m) => Err(ElasticError::Send(m)),
        TransportOutcome::Reply(c, b) => {
            if c == 404 {
                Err(ElasticError::NotFound(target))
            } else if c != 200 {
                Err(ElasticError::Status(c, b))
            } else {
                Ok(())
            }
        },
    }
}

/// Decoding a write that accepts statuses 200 and 201, as the
/// create-or-replace `index` and the query-scoped delete use it.
pub open spec fn create_write_decode_spec(o: TransportOutcome, target: String) -> Result<
    (),
    ElasticError,
> {
    match o {
        TransportOutcome::Failed(m) => Result::Err(ElasticError::Send(m)),
        TransportOutcome::Reply(c, b) => if c == 404 {
            Result::Err(ElasticError::NotFound(target))
        } else if c != 200 && c != 201 {
            Result::Err(ElasticError::Status(c, b))
        } else {
            Result::Ok(())
        },
    }
}

/// Decode the reply to a create-or-replace write: 201 is as much a
/// success as 200, since the engine answers 201 when it created.
pub fn decode_create_write(o: TransportOutcome, target: String) -> (r: Result<(), ElasticError>)
    ensures
        r == create_write_decode_spec(o, target),
{
    match o {
        TransportOutcome::Failed(m) => Err(ElasticError::Send(m)),
        TransportOutcome::Reply(c, b) => {
            if c == 404 {
                Err(ElasticError::NotFound(target))
            } else if c != 200 && c != 201 {
                Err(ElasticError::Status(c, b))
            } else {
                Ok(())
            }
        },
    }
}

/// Decoding an operation whose reply the caller inspects itself, as the
/// document delete and the bulk inserts use it: only a transport
/// failure is classified, the reply passes through uninterpreted.
pub open spec fn raw_reply_decode_spec(o: TransportOutcome) -> Result<RawReply, ElasticError> {
    match o {
        TransportOutcome::Failed(m) => Result::Err(ElasticError::Send(m)),
        TransportOutcome::Reply(c, b) => Result::Ok(RawReply { status: c, body: b }),
    }
}

/// Hand a reply back uninterpreted, classifying only transport failure.
pub fn decode_raw_reply(o: TransportOutcome) -> (r: Result<RawReply, ElasticError>)
    ensures
        r == raw_reply_decode_spec(o),
{
    match o {
        TransportOutcome::Failed(m) => Err(ElasticError::Send(m)),
        TransportOutcome::Reply(c, b) => Ok(RawReply { status: c, body: b }),
    }
}

/// Decoding an index existence probe: any answered status other than
/// 200 is reported as the index being absent, so a caller cannot tell a
/// missing index from a failed check; only a transport failure is kept
/// distinct, as Connection.
pub open spec fn exists_decode_spec(o: TransportOutcome, index: String) -> Result<
    (),
    ElasticError,
> {
    match o {
        TransportOutcome::Failed(m) => Result::Err(ElasticError::Connection(m)),
        TransportOutcome::Reply(c, _b) => if c != 200 {
            Result::Err(ElasticError::NotFound(index))
        } else {
            Result::Ok(())
        },
    }
}

/// Decode the reply to an index existence probe.
pub fn decode_exists(o: TransportOutcome, index: String) -> (r: Result<(), ElasticError>)
    ensures
        r == exists_decode_spec(o, index),
{
    match o {
        TransportOutcome::Failed(m) => Err(ElasticError::Connection(m)),
        TransportOutcome::Reply(c, _b) => {
            if c != 200 {
                Err(ElasticError::NotFound(index))
            } else {
                Ok(())
            }
        },
    }
}

/// Decoding an index creation: the returned boolean says whether the
/// status was exactly 200; a 201 deliberately counts as false here.
pub open spec fn create_index_decode_spec(o: TransportOutcome) -> Result<bool, ElasticError> {
    match o {
        TransportOutcome::Failed(m) => Result::Err(ElasticError::Send(m)),
        TransportOutcome::Reply(c, _b) => Result::Ok(c == 200),
    }
}

/// Decode the reply to an index creation.
pub fn decode_create_index(o: TransportOutcome) -> (r: Result<bool, ElasticError>)
    ensures
        r == create_index_decode_spec(o),
{
    match o {
        TransportOutcome::Failed(m) => Err(ElasticError::Send(m)),
        TransportOutcome::Reply(c, _b) => Ok(c == 200),
    }
}

/// Decoding an index deletion: the returned boolean says whether the
/// status was exactly 200.
pub open spec fn delete_index_decode_spec(o: TransportOutcome) -> Result<bool, ElasticError> {
    match o {
        TransportOutcome::Failed(m) => Result::Err(ElasticError::Send(m)),
        TransportOutcome::Reply(c, _b) => Result::Ok(c == 200),
    }
}

/// Decode the reply to an index deletion.
pub fn decode_delete_index(o: TransportOutcome) -> (r: Result<bool, ElasticError>)
    ensures
        r == delete_index_decode_spec(o),
{
    match o {
        TransportOutcome::Failed(m) => Err(ElasticError::Send(m)),
        TransportOutcome::Reply(c, _b) => Ok(c == 200),
    }
}

/// Decoding a refresh acknowledgment: transport failure is Connection,
/// then the generic status gate, then the body as shard metadata.
pub open spec fn refresh_decode_spec(o: TransportOutcome) -> Result<
    IndicesRefreshResponse,
    ElasticError,
> {
    match o {
        TransportOutcome::Failed(m) => Result::Err(ElasticError::Connection(m)),
        TransportOutcome::Reply(c, b) => if c != 200 {
            Result::Err(ElasticError::Status(c, b))
        } else {
            match refresh_body_decode(b@) {
                BodyOutcome::Typed(v) => Result::Ok(v),
                BodyOutcome::Mismatch(t) => Result::Err(ElasticError::JsonParse(t)),
                BodyOutcome::Malformed(t) => Result::Err(ElasticError::JsonParse(t)),
            }
        },
    }
}

/// Decode the reply to an index refresh.
pub fn decode_refresh(o: TransportOutcome) -> (r: Result<IndicesRefreshResponse, ElasticError>)
    ensures
        r == refresh_decode_spec(o),
{
    match o {
        TransportOutcome::Failed(m) => Err(ElasticError::Connection(m)),
        TransportOutcome::Reply(c, b) => {
            if c != 200 {
                Err(ElasticError::Status(c, b))
            } else {
                match parse_refresh_body(b.as_str()) {
                    BodyOutcome::Typed(v) => Ok(v),
                    BodyOutcome::Mismatch(t) => Err(ElasticError::JsonParse(t)),
                    BodyOutcome::Malformed(t) => Err(ElasticError::JsonParse(t)),
                }
            }
        },
    }
}

/// Decoding a plain (offset and size) search. A transport failure
/// collapses to no result rather than an error; an answered status
/// other than 200 is still a Status error, and only then is the body
/// decoded, in two stages.
pub open spec fn search_plain_decode_spec(o: TransportOutcome) -> Result<
    Option<SearchPage>,
    ElasticError,
> {
    match o {
        TransportOutcome::Failed(_m) => Result::Ok(Option::None),
        TransportOutcome::Reply(c, b) => if c != 200 {
            Result::Err(ElasticError::Status(c, b))
        } else {
            match search_page_body_decode(b@) {
                BodyOutcome::Typed(p) => Result::Ok(p),
                BodyOutcome::Mismatch(t) => Result::Err(ElasticError::JsonParse(t)),
                BodyOutcome::Malformed(t) => Result::Err(ElasticError::JsonParse(t)),
            }
        },
    }
}

/// Decode the reply to a search without a scroll cursor. A transport
/// failure is deliberately indistinguishable from no result here; only
/// decode-level failures surface as errors.
pub fn decode_search_plain(o: TransportOutcome) -> (r: Result<Option<SearchPage>, ElasticError>)
    ensures
        r == search_plain_decode_spec(o),
{
    match o {
        TransportOutcome::Failed(_m) => Ok(None),
        TransportOutcome::Reply(c, b) => {
            if c != 200 {
                Err(ElasticError::Status(c, b))
            } else {
                match parse_search_page_body(b.as_str()) {
                    BodyOutcome::Typed(p) => Ok(p),
                    BodyOutcome::Mismatch(t) => Err(ElasticError::JsonParse(t)),
                    BodyOutcome::Malformed(t) => Err(ElasticError::JsonParse(t)),
                }
            }
        },
    }
}

/// Decoding a scroll-opening search and each scroll continuation after
/// it: a transport failure collapses to no result, and any answered
/// reply goes straight to the single-stage page parse — the engine's
/// own errors, an expired or unknown cursor included, surface at decode
/// time as JsonParse, never as a silent empty page.
pub open spec fn search_scrolled_decode_spec(o: TransportOutcome) -> Result<
    Option<SearchPage>,
    ElasticError,
> {
    match o {
        TransportOutcome::Failed(_m) => Result::Ok(Option::None),
        TransportOutcome::Reply(_c, b) => match search_body_parse(b@) {
            Result::Ok(p) => Result::Ok(Option::Some(p)),
            Result::Err(t) => Result::Err(ElasticError::JsonParse(t)),
        },
    }
}

/// Decode the reply to a search that opened a scroll cursor, or to a
/// scroll continuation fetching the next page for an existing cursor.
pub fn decode_search_scrolled(o: TransportOutcome) -> (r: Result<Option<SearchPage>, ElasticError>)
    ensures
        r == search_scrolled_decode_spec(o),
{
    match o {
        TransportOutcome::Failed(_m) => Ok(None),
        TransportOutcome::Reply(_c, b) => match parse_search_body(b.as_str()) {
            Ok(p) => Ok(Some(p)),
            Err(t) => Err(ElasticError::JsonParse(t)),
        },
    }
}

/// Decoding a size-one search: the page reduces to its single hit, and
/// every way the envelope can lack one — no hits container, no hit
/// array, an empty array — is no result, never an error.
pub open spec fn first_search_decode_spec(o: TransportOutcome) -> Result<
    Option<SearchHit>,
    ElasticError,
> {
    match o {
        TransportOutcome::Failed(_m) => Result::Ok(Option::None),
        TransportOutcome::Reply(_c, b) => match search_body_parse(b@) {
            Result::Ok(p) => Result::Ok(first_hit_spec(p)),
            Result::Err(t) => Result::Err(ElasticError::JsonParse(t)),
        },
    }
}

/// Decode the reply to a size-one search down to its single hit.
pub fn decode_first_search(o: TransportOutcome) -> (r: Result<Option<SearchHit>, ElasticError>)
    ensures
        r == first_search_decode_spec(o),
{
    match o {
        TransportOutcome::Failed(_m) => Ok(None),
        TransportOutcome::Reply(_c, b) => match parse_search_body(b.as_str()) {
            Ok(p) => Ok(first_hit(p)),
            Err(t) => Err(ElasticError::JsonParse(t)),
        },
    }
}

/// Decoding a bulk envelope: the overall status is gated, then the body
/// is kept as one generic structured value, in its canonical text. The
/// per-item outcome array inside is the caller's to interpret — this
/// layer never turns partial failure inside a batch into an overall
/// error.
pub open spec fn bulk_decode_spec(o: TransportOutcome) -> Result<String, ElasticError> {
    match o {
        TransportOutcome::Failed(m) => Result::Err(ElasticError::Send(m)),
        TransportOutcome::Reply(c, b) => if c != 200 {
            Result::Err(ElasticError::Status(c, b))
        } else {
            match value_body_decode(b@) {
                BodyOutcome::Typed(t) => Result::Ok(t),
                BodyOutcome::Mismatch(t) => Result::Err(ElasticError::JsonParse(t)),
                BodyOutcome::Malformed(t) => Result::Err(ElasticError::JsonParse(t)),
            }
        },
    }
}

/// Decode the reply to a bulk request down to its envelope.
pub fn decode_bulk(o: TransportOutcome) -> (r: Result<String, ElasticError>)
    ensures
        r == bulk_decode_spec(o),
{
    match o {
        TransportOutcome::Failed(m) => Err(ElasticError::Send(m)),
        TransportOutcome::Reply(c, b) => {
            if c != 200 {
                Err(ElasticError::Status(c, b))
            } else {
                match parse_value_body(b.as_str()) {
                    BodyOutcome::Typed(t) => Ok(t),
                    BodyOutcome::Mismatch(t) => Err(ElasticError::JsonParse(t)),
                    BodyOutcome::Malformed(t) => Err(ElasticError::JsonParse(t)),
                }
            }
        },
    }
}

/// Every well-formed reply whose status is neither a success code nor
/// 404 decodes to Status carrying that code and the body text verbatim,
/// in each operation that gates on the status.
pub proof fn lemma_status_error_verbatim(c: u16, body: String, target: String)
    requires
        !(200 <= c < 300),
        c != 404,
    ensures
        get_doc_decode_spec(TransportOutcome::Reply(c, body), target) == Result::<
            GetDoc,
            ElasticError,
        >::Err(ElasticError::Status(c, body)),
        get_source_decode_spec(TransportOutcome::Reply(c, body), target) == Result::<
            String,
            ElasticError,
        >::Err(ElasticError::Status(c, body)),
        update_write_decode_spec(TransportOutcome::Reply(c, body), target) == Result::<
            (),
            ElasticError,
        >::Err(ElasticError::Status(c, body)),
        create_write_decode_spec(TransportOutcome::Reply(c, body), target) == Result::<
            (),
            ElasticError,
        >::Err(ElasticError::Status(c, body)),
        refresh_decode_spec(TransportOutcome::Reply(c, body)) == Result::<
            IndicesRefreshResponse,
            ElasticError,
        >::Err(ElasticError::Status(c, body)),
        search_plain_decode_spec(TransportOutcome::Reply(c, body)) == Result::<
            Option<SearchPage>,
            ElasticError,
        >::Err(ElasticError::Status(c, body)),
        bulk_decode_spec(TransportOutcome::Reply(c, body)) == Result::<String, ElasticError>::Err(
            ElasticError::Status(c, body),
        ),
{
}

/// Fetching a document that does not exist decodes to NotFound carrying
/// the identifier that was asked for, and never to a Status error,
/// whatever body came with the 404 — for the document fetches and for
/// the status-gated writes alike.
pub proof fn lemma_not_found_on_missing_doc(body: String, id: String)
    ensures
        get_doc_decode_spec(TransportOutcome::Reply(404, body), id) == Result::<
            GetDoc,
            ElasticError,
        >::Err(ElasticError::NotFound(id)),
        !(get_doc_decode_spec(TransportOutcome::Reply(404, body), id) matches Result::Err(
            ElasticError::Status(..),
        )),
        get_source_decode_spec(TransportOutcome::Reply(404, body), id) == Result::<
            String,
            ElasticError,
        >::Err(ElasticError::NotFound(id)),
        update_write_decode_spec(TransportOutcome::Reply(404, body), id) == Result::<
            (),
            ElasticError,
        >::Err(ElasticError::NotFound(id)),
        create_write_decode_spec(TransportOutcome::Reply(404, body), id) == Result::<
            (),
            ElasticError,
        >::Err(ElasticError::NotFound(id)),
{
}

/// A size-one search that matched zero documents yields no result and
/// never an error: a transport failure collapses to None, and so does
/// every answered page that offers no hit, whichever level of the
/// envelope is missing or empty.
pub proof fn lemma_first_search_zero_hits(o: TransportOutcome)
    requires
        o matches TransportOutcome::Reply(c, b) ==> (search_body_parse(b@) matches Result::Ok(p)
            && page_has_no_hits(p)),
    ensures
        first_search_decode_spec(o) == Result::<Option<SearchHit>, ElasticError>::Ok(Option::None),
{
    match o {
        TransportOutcome::Failed(_m) => {},
        TransportOutcome::Reply(_c, b) => {
            lemma_first_hit_none(search_body_parse(b@)->Ok_0);
        },
    }
}

} // verus!
