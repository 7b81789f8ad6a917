use crate::errors::{context_unavailable_error, FogSpaceError};
use dashmap::DashMap;
use salvo::Depot;
use std::sync::atomic::AtomicBool;
use std::sync::Arc;
use vstd::prelude::*;

verus! {

/// `dashmap::DashMap`, the concurrent map that holds the running tasks.
#[verifier::external_type_specification]
#[verifier::external_body]
#[verifier::reject_recursive_types(K)]
#[verifier::reject_recursive_types(V)]
#[verifier::reject_recursive_types(S)]
pub struct ExDashMap<K, V, S>(dashmap::DashMap<K, V, S>);

/// `salvo::Depot`, the per-request store of shared values.
#[verifier::external_type_specification]
#[verifier::external_body]
pub struct ExDepot(salvo::Depot);

/// The running tasks, by task id, each with the flag that asks it to stop.
pub type TaskTable = DashMap<u128, Arc<AtomicBool>>;

/// State shared by all requests of the service.
#[derive(Clone, Default)]
pub struct FogSpaceCtx {
    pub tasks: Arc<TaskTable>,
}

/// Calls `DashMap::insert`: records `flag` as the stop flag of task `id`.
/// The table is shared between threads, so nothing is stated of its contents
/// after the call, nor of the value that was replaced.
#[verifier::external_body]
pub(crate) fn table_insert(tasks: &TaskTable, id: u128, flag: Arc<AtomicBool>) -> (replaced: Option<Arc<AtomicBool>>) {
    tasks.insert(id, flag)
}

/// Calls `DashMap::remove`: drops the entry of task `id`. Claimed, as the
/// documentation says: an entry handed back is the one of `id`. Whether one
/// was there depends on other threads and is not stated.
#[verifier::external_body]
pub(crate) fn table_remove(tasks: &TaskTable, id: &u128) -> (removed: Option<(u128, Arc<AtomicBool>)>)
    ensures
        removed matches Some(entry) ==> entry.0 == *id,
{
    tasks.remove(id)
}

/// Calls `DashMap::get` and hands back the stop flag found for task `id`, if
/// any. Whether one is there depends on other threads and is not stated.
#[verifier::external_body]
pub(crate) fn table_get(tasks: &TaskTable, id: &u128) -> (flag: Option<Arc<AtomicBool>>) {
    match tasks.get(id) {
        Some(entry) => Some(entry.value().clone()),
        None => None,
    }
}

/// The shared state that a depot has (a value of type `Arc<FogSpaceCtx>`),
/// or `None` where it has none.
pub uninterp spec fn depot_has_ctx(depot: Depot) -> Option<Arc<FogSpaceCtx>>;

/// Calls `Depot::obtain` for the shared state, a lookup in the depot's own
/// map. Claimed: what is found is the shared state the depot has
/// (`depot_has_ctx`), handed back as a clone of its `Arc`, so it is the same
/// state with the same task table; nothing is found where the depot has none.
#[verifier::external_body]
fn depot_obtain_ctx(depot: &Depot) -> (found: Option<Arc<FogSpaceCtx>>)
    ensures
        found == depot_has_ctx(*depot),
{
    match depot.obtain::<Arc<FogSpaceCtx>>() {
        Ok(ctx) => Some(ctx.clone()),
        Err(_) => None,
    }
}

/// What `get` gives for a depot: the very state the depot has, or the error
/// that says it has none.
pub open spec fn get_outcome(depot: Depot, r: Result<Arc<FogSpaceCtx>, FogSpaceError>) -> bool {
    match depot_has_ctx(depot) {
        Some(ctx) => r matches Ok(c) && c == ctx,
        None => r matches Err(e) && e@ == context_unavailable_error(),
    }
}

/// `get` hands back the depot's own state: two requests served from one
/// depot get the same state (the same task table), and one succeeds exactly
/// when the other does.
pub proof fn lemma_get_gives_the_depots_state(
    depot: Depot,
    first: Result<Arc<FogSpaceCtx>, FogSpaceError>,
    second: Result<Arc<FogSpaceCtx>, FogSpaceError>,
)
    requires
        get_outcome(depot, first),
        get_outcome(depot, second),
    ensures
        first is Ok <==> second is Ok,
        first matches Ok(a) ==> second matches Ok(b) && a == b,
        first matches Ok(a) ==> depot_has_ctx(depot) == Some(a),
{
}

impl FogSpaceCtx {
    /// The shared state, or the error answered when it is not available.
    pub fn from_lookup(found: Option<Arc<FogSpaceCtx>>) -> (r: Result<Arc<FogSpaceCtx>, FogSpaceError>)
        ensures
            match found {
                Some(ctx) => r matches Ok(c) && c == ctx,
                None => r matches Err(e) && e@ == context_unavailable_error(),
            },
    {
        match found {
            Some(ctx) => Ok(ctx),
            None => Err(FogSpaceError::context_unavailable()),
        }
    }

    /// Obtains the shared state from a request's depot, which it only reads.
    /// Succeeds exactly when the depot holds the state, and otherwise fails
    /// with the error that says the state is unavailable.
    pub fn get(depot: &mut Depot) -> (r: Result<Arc<FogSpaceCtx>, FogSpaceError>)
        ensures
            *final(depot) == *old(depot),
            r is Ok <==> depot_has_ctx(*old(depot)) is Some,
            get_outcome(*old(depot), r),
            r matches Err(e) ==> e@ == context_unavailable_error(),
    {
        Self::from_lookup(depot_obtain_ctx(depot))
    }
}

} // verus!
