use crate::context::{depot_has_ctx, get_outcome, table_get, FogSpaceCtx};
use std::sync::Arc;
use crate::errors::{
    context_unavailable_error, invalid_task_id_error, missing_task_id_error, outcome_view,
    ErrorView, FogSpaceError,
};
use crate::routers::uuid_text::{
    all_hex, hex_number, hyphenate, lemma_uuid_forms_agree, uuid_text_value,
};
use salvo::Depot;
use std::sync::atomic::Ordering;
use vstd::prelude::*;

verus! {

/// The 128-bit value of the UUID that `Uuid::parse_str` reads from a text,
/// or `None` where it reads none.
pub uninterp spec fn uuid_of_text(text: Seq<char>) -> Option<u128>;

/// Calls `uuid::Uuid::parse_str` (which `str::parse` uses for a `Uuid`) and
/// takes the UUID as its 128-bit value (`as_u128`, big-endian). Claimed, as
/// the parser's source shows: a text is read exactly when it is one of the
/// simple, hyphenated, braced or URN forms, and the value is the number its
/// 32 hexadecimal digits spell, most significant first (`uuid_text_value`).
#[verifier::external_body]
fn parse_uuid(text: &str) -> (id: Option<u128>)
    ensures
        id == uuid_of_text(text@),
        id == uuid_text_value(text@),
{
    match uuid::Uuid::parse_str(text) {
        Ok(uuid) => Some(uuid.as_u128()),
        Err(_) => None,
    }
}

/// What a `task_id` query parameter gives: the id, or the error answered.
pub open spec fn task_id_outcome(query: Option<Seq<char>>) -> Result<u128, ErrorView> {
    match query {
        None => Err(missing_task_id_error()),
        Some(text) => match uuid_of_text(text) {
            Some(id) => Ok(id),
            None => Err(invalid_task_id_error()),
        },
    }
}

/// What a `task_id` query parameter gives, with the id read as the
/// documented UUID forms say.
pub open spec fn task_id_text_outcome(query: Option<Seq<char>>) -> Result<u128, ErrorView> {
    match query {
        None => Err(missing_task_id_error()),
        Some(text) => match uuid_text_value(text) {
            Some(id) => Ok(id),
            None => Err(invalid_task_id_error()),
        },
    }
}

/// The text of an optional query parameter.
pub open spec fn query_text(query: Option<&str>) -> Option<Seq<char>> {
    match query {
        Some(t) => Some(t@),
        None => None,
    }
}

/// The task id once the text has been read as a UUID: the id, or the error
/// for a text that is no UUID.
pub fn task_id_from_parsed(parsed: Option<u128>) -> (r: Result<u128, FogSpaceError>)
    ensures
        outcome_view(r) == match parsed {
            Some(id) => Ok(id),
            None => Err(invalid_task_id_error()),
        },
{
    match parsed {
        Some(id) => Ok(id),
        None => Err(FogSpaceError::invalid_task_id()),
    }
}

/// Reads the `task_id` query parameter of a cancel request.
pub fn parse_task_id(query: Option<&str>) -> (r: Result<u128, FogSpaceError>)
    ensures
        outcome_view(r) == task_id_outcome(query_text(query)),
        outcome_view(r) == task_id_text_outcome(query_text(query)),
{
    match query {
        None => Err(FogSpaceError::missing_task_id()),
        Some(text) => task_id_from_parsed(parse_uuid(text)),
    }
}

/// What cancelling gives: the error for a missing or malformed id; for a
/// well-formed id, success exactly when the depot has the shared state, and
/// the error that says it is unavailable otherwise.
pub open spec fn cancel_outcome(query: Option<Seq<char>>, depot: Depot, r: Result<(), FogSpaceError>) -> bool {
    match task_id_text_outcome(query) {
        Err(e) => r matches Err(x) && x@ == e,
        Ok(_) => match depot_has_ctx(depot) {
            Some(_) => r is Ok,
            None => r matches Err(x) && x@ == context_unavailable_error(),
        },
    }
}

/// Asks the task whose id is in the `task_id` query parameter to stop, if it
/// is running. A missing or malformed id is refused before anything else is
/// looked at; otherwise the request succeeds exactly when the depot holds
/// the shared state, and fails with the error that says it is unavailable.
pub fn cancel_task(query: Option<&str>, depot: &mut Depot) -> (r: Result<(), FogSpaceError>)
    ensures
        match task_id_outcome(query_text(query)) {
            Err(e) => r matches Err(x) && x@ == e,
            Ok(_) => (r is Ok <==> depot_has_ctx(*old(depot)) is Some) && (r matches Err(x)
                ==> x@ == context_unavailable_error()),
        },
        *final(depot) == *old(depot),
        task_id_outcome(query_text(query)) == task_id_text_outcome(query_text(query)),
        cancel_outcome(query_text(query), *old(depot), r),
{
    let task_id = match parse_task_id(query) {
        Ok(id) => id,
        Err(e) => return Err(e),
    };
    let fog_ctx = match FogSpaceCtx::get(depot) {
        Ok(ctx) => ctx,
        Err(e) => return Err(e),
    };
    match table_get(&fog_ctx.tasks, &task_id) {
        Some(flag) => flag.store(true, Ordering::Relaxed),
        None => {},
    }
    Ok(())
}

/// Cancelling and obtaining the shared state agree on one depot: for a
/// well-formed id, a cancel succeeds exactly when `get` does; and the same
/// id written in its hyphenated and simple forms is cancelled alike.
pub proof fn lemma_cancel_agrees_with_get(
    query: Option<Seq<char>>,
    depot: Depot,
    cancelled: Result<(), FogSpaceError>,
    got: Result<Arc<FogSpaceCtx>, FogSpaceError>,
)
    requires
        task_id_text_outcome(query) is Ok,
        cancel_outcome(query, depot, cancelled),
        get_outcome(depot, got),
    ensures
        cancelled is Ok <==> got is Ok,
        cancelled matches Err(x) ==> got matches Err(y) && x@ == y@,
{
}

/// The hyphenated and simple forms of one id are cancelled alike on the same
/// depot.
pub proof fn lemma_cancel_forms_agree(
    digits: Seq<char>,
    depot: Depot,
    by_hyphenated: Result<(), FogSpaceError>,
    by_simple: Result<(), FogSpaceError>,
)
    requires
        digits.len() == 32,
        all_hex(digits),
        cancel_outcome(Some(hyphenate(digits)), depot, by_hyphenated),
        cancel_outcome(Some(digits), depot, by_simple),
    ensures
        by_hyphenated is Ok <==> by_simple is Ok,
        by_hyphenated matches Err(x) ==> by_simple matches Err(y) && x@ == y@,
{
    lemma_uuid_forms_agree(digits);
}

/// A task id is read as the number its 32 hexadecimal digits spell, most
/// significant first, whichever documented form it is written in (simple,
/// hyphenated, braced); and every such text is accepted.
pub proof fn lemma_task_id_is_spelled_number(digits: Seq<char>)
    requires
        digits.len() == 32,
        all_hex(digits),
    ensures
        task_id_text_outcome(Some(digits)) == Ok::<u128, ErrorView>(hex_number(digits) as u128),
        task_id_text_outcome(Some(hyphenate(digits))) == Ok::<u128, ErrorView>(
            hex_number(digits) as u128,
        ),
        task_id_text_outcome(Some(seq!['{'] + hyphenate(digits) + seq!['}'])) == Ok::<
            u128,
            ErrorView,
        >(hex_number(digits) as u128),
{
    lemma_uuid_forms_agree(digits);
}

} // verus!
