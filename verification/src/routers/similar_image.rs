use crate::errors::{error_text, FogSpaceError};
use crate::models::common_params::{CommonParams, DeleteMethodRef, SimilarityPresetDef};
use crate::models::task_result::{result_message, message_text, HasRefResult, TaskInnerResult};
use crate::models::task_session::TaskStatus;
use image::imageops::FilterType;
use image_hasher::HashAlg;
use vstd::prelude::*;

verus! {

/// `image_hasher::HashAlg`, carried through to the search unchanged.
#[verifier::external_type_specification]
#[verifier::external_body]
pub struct ExHashAlg(image_hasher::HashAlg);

/// `image::imageops::FilterType`, carried through to the search unchanged.
#[verifier::external_type_specification]
#[verifier::external_body]
pub struct ExFilterType(image::imageops::FilterType);

/// A request for a similar-image search.
pub struct SearchParams {
    pub common_items: CommonParams,
    /// Smallest file considered, in bytes (16384 when not given).
    pub minimal_file_size: u64,
    /// Largest file considered, in bytes (`u64::MAX` when not given).
    pub maximal_file_size: u64,
    pub similarity_preset: SimilarityPresetDef,
    pub delete_method: DeleteMethodRef,
    pub allow_hard_links: bool,
    /// Only report what would be deleted (true when not given).
    pub dry_run: bool,
    pub ignore_same_size: bool,
    pub hash_algorithm: HashAlg,
    pub image_filter: FilterType,
    /// Hash size in bits per side (16 when not given).
    pub hash_size: u32,
}

/// The text of a failure to receive a task's result; `detail` says why.
pub open spec fn lost_result_text(detail: Seq<char>) -> Seq<char> {
    "failed to receive result: "@ + detail
}

/// The last event of a search's stream, as a function of what the search
/// handed back: its result, the error it ended with, or (`Err(detail)`)
/// the reason its result never arrived.
pub fn final_status<'a, P, OT, RT>(
    task_id: u128,
    received: &'a Result<Result<TaskInnerResult<OT>, FogSpaceError>, String>,
) -> (status: TaskStatus<'a, P, RT>) where OT: HasRefResult<'a, RT>,
    ensures
        match received {
            Ok(Ok(inner)) => status matches TaskStatus::Processed { task_id: id, result }
                && id == task_id && result is Ref
                && result_message(result) == message_text(inner.msg),
            Ok(Err(e)) => status matches TaskStatus::Error { task_id: id, msg }
                && id == task_id && msg@ == error_text(e@),
            Err(detail) => status matches TaskStatus::Error { task_id: id, msg }
                && id == task_id && msg@ == lost_result_text(detail@),
        },
{
    match received {
        Ok(Ok(inner)) => TaskStatus::Processed { task_id, result: inner.to_ref_result() },
        Ok(Err(e)) => TaskStatus::Error { task_id, msg: e.display_text() },
        Err(detail) => {
            let mut msg = String::from_str("failed to receive result: ");
            msg.append(detail.as_str());
            TaskStatus::Error { task_id, msg }
        },
    }
}

/// The event that reports a search's progress.
pub fn progress_status<'a, P, RT>(task_id: u128, progress: P) -> (status: TaskStatus<'a, P, RT>)
    ensures
        status matches TaskStatus::Processing { task_id: id, progress_data } && id == task_id
            && progress_data == progress,
{
    TaskStatus::Processing { task_id, progress_data: progress }
}

} // verus!
