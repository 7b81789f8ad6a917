use crate::models::task_result::TaskResultEnum;
use vstd::prelude::*;

verus! {

/// One event of a task's stream: progress, the final result, or an error.
pub enum TaskStatus<'a, P, RT> {
    Processing { task_id: u128, progress_data: P },
    Processed { task_id: u128, result: TaskResultEnum<'a, RT> },
    Error { task_id: u128, msg: String },
}

} // verus!
