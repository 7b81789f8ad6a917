use vstd::prelude::*;

verus! {

/// A finished operation that can lend out its result.
pub trait HasRefResult<'a, RT> {
    fn result_ref(&'a self) -> &'a RT;
}

/// A finished operation that can hand over its result.
pub trait HasOwnedResult<RT> {
    fn result(self) -> RT;
}

/// The result of a task, borrowed from the operation or owned.
pub enum TaskResultEnum<'a, RT> {
    Ref(TaskResultRef<'a, RT>),
    Owned(TaskResult<RT>),
}

/// A task's message and result, borrowed.
pub struct TaskResultRef<'a, RT> {
    pub msg: Option<&'a str>,
    pub result: &'a RT,
}

/// A task's message and result, owned.
pub struct TaskResult<RT> {
    pub msg: Option<String>,
    pub result: RT,
}

/// What a task hands back: a message and the operation that ran.
pub struct TaskInnerResult<OT> {
    pub msg: Option<String>,
    pub op: OT,
}

/// The text of an optional owned message.
pub open spec fn message_text(msg: Option<String>) -> Option<Seq<char>> {
    match msg {
        Some(s) => Some(s@),
        None => None,
    }
}

/// The text of an optional borrowed message.
pub open spec fn borrowed_message_text(msg: Option<&str>) -> Option<Seq<char>> {
    match msg {
        Some(s) => Some(s@),
        None => None,
    }
}

/// The message that a task result carries, whichever form it has.
pub open spec fn result_message<'a, RT>(r: TaskResultEnum<'a, RT>) -> Option<Seq<char>> {
    match r {
        TaskResultEnum::Ref(b) => borrowed_message_text(b.msg),
        TaskResultEnum::Owned(o) => message_text(o.msg),
    }
}

impl<OT> TaskInnerResult<OT> {
    /// Borrows the outcome of the task.
    pub fn to_ref_result<'a, RT>(&'a self) -> (r: TaskResultEnum<'a, RT>) where
        OT: HasRefResult<'a, RT>,
        ensures
            r is Ref,
            result_message(r) == message_text(self.msg),
            call_ensures(
                <OT as HasRefResult<'a, RT>>::result_ref,
                (&self.op,),
                r->Ref_0.result,
            ),
    {
        let msg: Option<&'a str> = match &self.msg {
            Some(s) => Some(s.as_str()),
            None => None,
        };
        TaskResultEnum::Ref(TaskResultRef { msg, result: self.op.result_ref() })
    }

    /// Moves the outcome of the task out.
    pub fn to_result<RT>(self) -> (r: TaskResultEnum<'static, RT>) where
        OT: HasOwnedResult<RT>,
        ensures
            r is Owned,
            r->Owned_0.msg == self.msg,
            call_ensures(<OT as HasOwnedResult<RT>>::result, (self.op,), r->Owned_0.result),
            result_message(r) == message_text(self.msg),
    {
        let TaskInnerResult { msg, op } = self;
        TaskResultEnum::Owned(TaskResult { msg, result: op.result() })
    }
}

/// A task's result carries the same message whether it is borrowed
/// (`to_ref_result`) or taken (`to_result`).
pub proof fn lemma_result_forms_agree<'a, OT, RT>(
    inner: TaskInnerResult<OT>,
    by_ref: TaskResultEnum<'a, RT>,
    by_value: TaskResultEnum<'static, RT>,
)
    requires
        result_message(by_ref) == message_text(inner.msg),
        by_value is Owned,
        by_value->Owned_0.msg == inner.msg,
    ensures
        result_message(by_ref) == result_message(by_value),
{
}

} // verus!
