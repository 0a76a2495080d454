use vstd::prelude::*;

use crate::decode::create_index_decode_spec;
use crate::error::ElasticError;
use crate::outcome::TransportOutcome;

verus! {

// The composite operations are the only cross-call control flow in this
// layer. Their decisions are pure functions of the earlier calls'
// outcomes, so the sequencing a driver must follow is fixed here, where
// it can be verified, and the driver merely performs the chosen calls.

/// What an update-or-create run does after its update call: stop
/// successfully, fall back to an insert, or abort with the update's own
/// error.
#[derive(Debug, Clone, PartialEq, Eq)]
pub enum UpsertStep {
    Done,
    Insert,
    Fail(ElasticError),
}

/// The fallback decision of update-or-create: only a NotFound failure
/// of the update triggers the insert; success stops; every other error
/// is surfaced verbatim.
pub open spec fn upsert_step_spec(r: Result<(), ElasticError>) -> UpsertStep {
    match r {
        Result::Ok(_) => UpsertStep::Done,
        Result::Err(e) => if e is NotFound {
            UpsertStep::Insert
        } else {
            UpsertStep::Fail(e)
        },
    }
}

/// Decide what follows the update call of an update-or-create.
pub fn update_or_create_step(r: Result<(), ElasticError>) -> (s: UpsertStep)
    ensures
        s == upsert_step_spec(r),
{
    match r {
        Ok(_) => UpsertStep::Done,
        Err(e) => match e {
            ElasticError::NotFound(_) => UpsertStep::Insert,
            other => UpsertStep::Fail(other),
        },
    }
}

/// On an absent document the update fails NotFound and exactly then is
/// the one insert call made; on a present document the update alone
/// decides and no insert happens; any other update failure aborts the
/// run and is surfaced unchanged.
pub proof fn lemma_update_or_create(r: Result<(), ElasticError>)
    ensures
        upsert_step_spec(r) is Insert <==> (r matches Result::Err(e) && e is NotFound),
        upsert_step_spec(r) is Done <==> r is Ok,
        r matches Result::Err(e) ==> (!(e is NotFound) ==> upsert_step_spec(r)
            == UpsertStep::Fail(e)),
{
}

/// Whether a recreate run deletes before creating: exactly when the
/// existence probe succeeded.
pub open spec fn recreate_deletes_first(exists: Result<(), ElasticError>) -> bool {
    exists is Ok
}

/// Decide whether a recreate run must delete the index first.
pub fn recreate_plan(exists: &Result<(), ElasticError>) -> (d: bool)
    ensures
        d == recreate_deletes_first(*exists),
{
    exists.is_ok()
}

/// What a recreate run does after its delete stage: go on to the one
/// create call, or abort with the delete's own error, the create never
/// reached.
#[derive(Debug, Clone, PartialEq, Eq)]
pub enum RecreateStep {
    Create,
    Abort(ElasticError),
}

/// The continuation decision of recreate: a failed delete aborts the
/// run and its error is surfaced verbatim; a skipped or successful
/// delete lets the create proceed.
pub open spec fn recreate_step_spec(delete: Option<Result<bool, ElasticError>>) -> RecreateStep {
    match delete {
        Option::Some(Result::Err(e)) => RecreateStep::Abort(e),
        _ => RecreateStep::Create,
    }
}

/// Decide what follows the delete stage of a recreate run. The delete
/// outcome is absent when deletion was skipped because the index did
/// not exist.
pub fn recreate_step(delete: Option<Result<bool, ElasticError>>) -> (s: RecreateStep)
    ensures
        s == recreate_step_spec(delete),
{
    match delete {
        Some(Err(e)) => RecreateStep::Abort(e),
        _ => RecreateStep::Create,
    }
}

/// Recreate on an index that exists deletes then creates; on an index
/// that does not exist it creates only. A delete failure aborts the run
/// with that error and the create is never performed; otherwise the
/// run's result is the create call's own, whose boolean for an answered
/// create is true exactly when the status was the accepted success
/// code 200.
pub proof fn lemma_recreate(
    exists: Result<(), ElasticError>,
    delete: Option<Result<bool, ElasticError>>,
    o: TransportOutcome,
)
    requires
        delete is Some <==> recreate_deletes_first(exists),
    ensures
        recreate_deletes_first(exists) <==> exists is Ok,
        delete matches Option::Some(Result::Err(e)) ==> recreate_step_spec(delete)
            == RecreateStep::Abort(e),
        (delete is None || delete matches Option::Some(Result::Ok(_))) ==> recreate_step_spec(
            delete,
        ) == RecreateStep::Create,
        o matches TransportOutcome::Reply(c, b) ==> create_index_decode_spec(o) == Result::<
            bool,
            ElasticError,
        >::Ok(c == 200),
{
}

/// Whether a query specification asks for a scroll cursor: exactly when
/// its scroll lifetime is non-empty.
pub fn wants_scroll(scroll: &str) -> (b: bool)
    ensures
        b == (scroll@.len() != 0),
{
    !scroll.is_empty()
}

/// The endpoint a client uses: the configured one when present, else
/// the well-known local default.
pub fn default_host(configured: Option<String>) -> (h: String)
    ensures
        configured matches Some(s) ==> h == s,
        configured is None ==> h@ == "http://localhost:9200"@,
{
    match configured {
        Some(s) => s,
        None => "http://localhost:9200".to_owned(),
    }
}

} // verus!
