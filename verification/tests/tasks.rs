use fog_space::context::FogSpaceCtx;
use fog_space::errors::FogSpaceError;
use fog_space::handlers::HandlerCtx;
use fog_space::models::task_result::{
    HasOwnedResult, HasRefResult, TaskInnerResult, TaskResultEnum,
};
use fog_space::models::task_session::TaskStatus;
use fog_space::routers::cancel_task::cancel_task;
use fog_space::routers::similar_image::{final_status, progress_status};
use salvo::Depot;
use std::sync::atomic::Ordering;
use std::sync::Arc;

struct Groups(Vec<Vec<u32>>);

impl<'a> HasRefResult<'a, Vec<Vec<u32>>> for Groups {
    fn result_ref(&'a self) -> &'a Vec<Vec<u32>> {
        &self.0
    }
}

impl HasOwnedResult<Vec<Vec<u32>>> for Groups {
    fn result(self) -> Vec<Vec<u32>> {
        self.0
    }
}

const TASK: &str = "a1a2a3a4-b1b2-c1c2-d1d2-d3d4d5d6d7d8";
const TASK_ID: u128 = 0xa1a2a3a4b1b2c1c2d1d2d3d4d5d6d7d8;

fn err_of<T>(r: Result<T, FogSpaceError>) -> FogSpaceError {
    match r {
        Ok(_) => panic!("expected an error"),
        Err(e) => e,
    }
}

fn depot_with(ctx: &FogSpaceCtx) -> Depot {
    let mut depot = Depot::new();
    depot.inject(Arc::new(ctx.clone()));
    depot
}

#[test]
fn ctx_missing_from_depot() {
    let mut depot = Depot::new();
    let e = err_of(FogSpaceCtx::get(&mut depot));
    assert_eq!(e.code(), 500);
    assert_eq!(e.message(), "failed to obtain FogSpaceCtx");
}

#[test]
fn ctx_found_in_depot() {
    let ctx = FogSpaceCtx::default();
    ctx.tasks.insert(3, Arc::new(std::sync::atomic::AtomicBool::new(false)));
    let mut depot = depot_with(&ctx);
    let found = FogSpaceCtx::get(&mut depot).ok().expect("state in depot");
    assert!(Arc::ptr_eq(&found.tasks, &ctx.tasks));
}

#[test]
fn ctx_from_lookup_results() {
    let ctx = Arc::new(FogSpaceCtx::default());
    let found = FogSpaceCtx::from_lookup(Some(ctx.clone())).ok().expect("state found");
    assert!(Arc::ptr_eq(&found, &ctx));
    let e = err_of(FogSpaceCtx::from_lookup(None));
    assert_eq!(e.code(), 500);
}

#[test]
fn cancel_without_task_id() {
    let mut depot = Depot::new();
    let e = cancel_task(None, &mut depot).unwrap_err();
    assert_eq!(e.code(), 400);
    assert_eq!(e.message(), "Missing task_id");
}

#[test]
fn cancel_with_bad_task_id_is_refused_before_the_state() {
    let mut depot = Depot::new();
    let e = cancel_task(Some("12345"), &mut depot).unwrap_err();
    assert_eq!(e.code(), 400);
    assert_eq!(e.message(), "Invalid task_id");
}

#[test]
fn cancel_without_shared_state() {
    let mut depot = Depot::new();
    let e = cancel_task(Some(TASK), &mut depot).unwrap_err();
    assert_eq!(e.code(), 500);
    assert_eq!(e.message(), "failed to obtain FogSpaceCtx");
}

#[test]
fn cancel_unknown_task_is_ok() {
    let ctx = FogSpaceCtx::default();
    let flag = Arc::new(std::sync::atomic::AtomicBool::new(false));
    ctx.tasks.insert(1, flag.clone());
    let mut depot = depot_with(&ctx);
    assert!(cancel_task(Some(TASK), &mut depot).is_ok());
    assert!(!flag.load(Ordering::Relaxed));
}

#[test]
fn cancel_running_task_sets_its_flag() {
    let ctx = FogSpaceCtx::default();
    let (tx, _rx) = crossbeam_channel::unbounded::<u32>();
    let handler = HandlerCtx::new(ctx.clone(), tx, TASK_ID);
    let mut depot = depot_with(&ctx);
    let seen = handler.task(|stop, _sender| {
        assert!(!stop.load(Ordering::Relaxed));
        assert!(ctx.tasks.contains_key(&TASK_ID));
        cancel_task(Some(TASK), &mut depot).unwrap();
        stop.load(Ordering::Relaxed)
    });
    assert!(seen);
    assert!(!ctx.tasks.contains_key(&TASK_ID));
}

#[test]
fn task_registers_while_running_and_returns_result() {
    let ctx = FogSpaceCtx::default();
    let (tx, rx) = crossbeam_channel::unbounded::<u32>();
    let handler = HandlerCtx::new(ctx.clone(), tx, 77);
    assert!(!ctx.tasks.contains_key(&77));
    let r = handler.task(|_stop, sender| {
        sender.send(5).unwrap();
        ctx.tasks.len()
    });
    assert_eq!(r, 1);
    assert_eq!(rx.try_recv().unwrap(), 5);
    assert!(ctx.tasks.is_empty());
}

#[test]
fn ref_and_owned_results_keep_the_message() {
    let inner = TaskInnerResult { msg: Some("3 groups".to_string()), op: Groups(vec![vec![1, 2]]) };
    match inner.to_ref_result() {
        TaskResultEnum::Ref(r) => {
            assert_eq!(r.msg, Some("3 groups"));
            assert_eq!(r.result, &vec![vec![1, 2]]);
        }
        TaskResultEnum::Owned(_) => panic!("expected a borrowed result"),
    }
    match inner.to_result() {
        TaskResultEnum::Owned(o) => {
            assert_eq!(o.msg, Some("3 groups".to_string()));
            assert_eq!(o.result, vec![vec![1, 2]]);
        }
        TaskResultEnum::Ref(_) => panic!("expected an owned result"),
    }
}

#[test]
fn result_without_message() {
    let inner = TaskInnerResult { msg: None, op: Groups(vec![]) };
    match inner.to_ref_result() {
        TaskResultEnum::Ref(r) => assert_eq!(r.msg, None),
        TaskResultEnum::Owned(_) => panic!("expected a borrowed result"),
    }
}

#[test]
fn final_status_of_a_finished_task() {
    let received: Result<Result<TaskInnerResult<Groups>, FogSpaceError>, String> =
        Ok(Ok(TaskInnerResult { msg: Some("done".to_string()), op: Groups(vec![vec![4]]) }));
    let status: TaskStatus<'_, u8, Vec<Vec<u32>>> = final_status(9, &received);
    match status {
        TaskStatus::Processed { task_id, result: TaskResultEnum::Ref(r) } => {
            assert_eq!(task_id, 9);
            assert_eq!(r.msg, Some("done"));
            assert_eq!(r.result, &vec![vec![4]]);
        }
        _ => panic!("expected a processed status"),
    }
}

#[test]
fn final_status_of_a_failed_task() {
    let received: Result<Result<TaskInnerResult<Groups>, FogSpaceError>, String> =
        Ok(Err(FogSpaceError::calculate_thread_failed()));
    let status: TaskStatus<'_, u8, Vec<Vec<u32>>> = final_status(9, &received);
    match status {
        TaskStatus::Error { task_id, msg } => {
            assert_eq!(task_id, 9);
            assert_eq!(
                msg,
                "FogSpaceError! code:500 Internal Server Error, err:calculate_thread Join Error!"
            );
        }
        _ => panic!("expected an error status"),
    }
}

#[test]
fn final_status_of_a_lost_result() {
    let received: Result<Result<TaskInnerResult<Groups>, FogSpaceError>, String> =
        Err("channel closed".to_string());
    let status: TaskStatus<'_, u8, Vec<Vec<u32>>> = final_status(2, &received);
    match status {
        TaskStatus::Error { task_id, msg } => {
            assert_eq!(task_id, 2);
            assert_eq!(msg, "failed to receive result: channel closed");
        }
        _ => panic!("expected an error status"),
    }
}

#[test]
fn progress_status_carries_progress() {
    let status: TaskStatus<'_, (u8, u8), Vec<Vec<u32>>> = progress_status(4, (1, 3));
    match status {
        TaskStatus::Processing { task_id, progress_data } => {
            assert_eq!(task_id, 4);
            assert_eq!(progress_data, (1, 3));
        }
        _ => panic!("expected a progress status"),
    }
}

#[test]
fn cancel_twice_gives_the_same_result() {
    let ctx = FogSpaceCtx::default();
    let flag = Arc::new(std::sync::atomic::AtomicBool::new(false));
    ctx.tasks.insert(TASK_ID, flag.clone());
    let mut depot = depot_with(&ctx);
    assert!(cancel_task(Some(TASK), &mut depot).is_ok());
    assert!(cancel_task(Some("a1a2a3a4b1b2c1c2d1d2d3d4d5d6d7d8"), &mut depot).is_ok());
    assert!(flag.load(Ordering::Relaxed));
    assert_eq!(ctx.tasks.len(), 1);
}
