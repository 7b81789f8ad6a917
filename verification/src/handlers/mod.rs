use crate::context::{table_insert, table_remove, FogSpaceCtx};
use crossbeam_channel::Sender;
use std::sync::atomic::AtomicBool;
use std::sync::Arc;
use vstd::prelude::*;

pub mod similar_image;

verus! {

/// `crossbeam_channel::Sender`, the sending side of a progress channel.
#[verifier::external_type_specification]
#[verifier::external_body]
#[verifier::reject_recursive_types(T)]
pub struct ExSender<T>(crossbeam_channel::Sender<T>);

/// Calls `Sender::clone`. Claimed: the copy is a sender on the same channel,
/// so it is taken as the same value.
#[verifier::external_body]
fn sender_clone<T>(sender: &Sender<T>) -> (copy: Sender<T>)
    ensures
        copy == *sender,
{
    sender.clone()
}

/// Calls `Arc::clone` on a stop flag. Claimed: the copy is a handle on the
/// same flag.
#[verifier::external_body]
fn flag_clone(flag: &Arc<AtomicBool>) -> (copy: Arc<AtomicBool>)
    ensures
        copy == *flag,
{
    Arc::clone(flag)
}

/// What one task needs while it runs: its id, the shared state and where to
/// send its progress reports.
#[verifier::reject_recursive_types(P)]
pub struct HandlerCtx<P> {
    uuid: u128,
    space: FogSpaceCtx,
    process_sender: Sender<P>,
}

impl<P> HandlerCtx<P> {
    /// A context for task `uuid`.
    pub fn new(space: FogSpaceCtx, process_sender: Sender<P>, uuid: u128) -> (ctx: Self)
        ensures
            ctx.task_id() == uuid,
            ctx.shared() == space,
            ctx.sender() == process_sender,
    {
        HandlerCtx { space, process_sender, uuid }
    }

    /// The id of the task.
    pub closed spec fn task_id(&self) -> u128 {
        self.uuid
    }

    /// The state shared by all requests.
    pub closed spec fn shared(&self) -> FogSpaceCtx {
        self.space
    }

    /// Where the task sends its progress reports.
    pub closed spec fn sender(&self) -> Sender<P> {
        self.process_sender
    }

    /// Runs `f` as the task: registers a fresh stop flag under the task's id
    /// while `f` runs, hands `f` that flag and a copy of the context's
    /// progress sender, removes the registration afterwards and returns what
    /// `f` returned.
    pub fn task<F, R>(&self, f: F) -> (r: R) where
        F: FnOnce(Arc<AtomicBool>, Sender<P>) -> R,
        requires
            forall|flag: Arc<AtomicBool>| f.requires((flag, self.sender())),
        ensures
            exists|flag: Arc<AtomicBool>| f.ensures((flag, self.sender()), r),
    {
        let signal = Arc::new(AtomicBool::new(false));
        let _ = table_insert(&self.space.tasks, self.uuid, flag_clone(&signal));
        let flag = flag_clone(&signal);
        let sender = sender_clone(&self.process_sender);
        let ghost handed = flag;
        let result = f(flag, sender);
        assert(f.ensures((handed, self.sender()), result));
        let _ = table_remove(&self.space.tasks, &self.uuid);
        result
    }
}

} // verus!
