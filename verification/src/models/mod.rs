pub mod common_params;
pub mod task_result;
pub mod task_session;
