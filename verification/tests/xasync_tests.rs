use xgameruntime::hresult::{
    E_ILLEGAL_METHOD_CALL, E_ABORT, E_INVALIDARG, E_NOT_SUFFICIENT_BUFFER, E_PENDING, E_POINTER, S_OK,
};
use xgameruntime::task_queue::DispatchMode;
use xgameruntime::xasync::{
    after_work_pass, begin_refusal, clear_internal, completion_delivery, is_lhc_internal,
    live_state, queue_route, read_internal, result_size_answer, run_check, run_sync_step,
    plan_status, schedule_answer, write_internal, AsyncCall, cancel_completion, run_begin_answer,
    run_provider_step, RunProviderStep,
    CompletionDelivery, QueueRoute, ResultPlan, RunSyncCall, RunSyncStep, XAsyncOp, SIGNATURE,
};

#[test]
fn a_written_block_refers_to_its_state_and_a_cleared_one_to_none() {
    let mut internal = [0u8; 32];
    assert_eq!(live_state(&internal), None);
    write_internal(&mut internal, 0x1234_5678);
    assert_eq!(read_internal(&internal), (SIGNATURE, 0x1234_5678));
    assert_eq!(live_state(&internal), Some(0x1234_5678));
    clear_internal(&mut internal);
    assert_eq!(live_state(&internal), None);
}

#[test]
fn the_first_completion_wins() {
    let mut call = AsyncCall::new();
    assert!(call.is_pending());
    assert!(call.complete(S_OK, 8));
    assert!(!call.complete(E_ABORT, 0));
    assert_eq!(call.status, S_OK);
    assert_eq!(call.result_size, 8);
    assert!(matches!(call.result_plan(0, 5, 8), ResultPlan::Deliver(8)));
}

#[test]
fn asking_for_a_result_too_early_or_too_small_is_refused() {
    let mut call = AsyncCall::new();
    assert!(matches!(call.result_plan(0, 0, 100), ResultPlan::Pending));
    assert_eq!(call.result_size_report(), (E_PENDING, None));
    call.complete(S_OK, 16);
    assert!(matches!(call.result_plan(0, 0, 15), ResultPlan::BufferTooSmall));
    assert!(matches!(call.result_plan(3, 4, 16), ResultPlan::IdentityMismatch));
    assert_eq!(call.result_size_report(), (S_OK, Some(16)));
    let mut failed = AsyncCall::new();
    failed.complete(E_ABORT, 0);
    assert!(matches!(failed.result_plan(0, 0, 0), ResultPlan::Failed(hr) if hr == E_ABORT));
    assert_eq!(failed.status_report(), (E_ABORT, true));
    let _ = (E_INVALIDARG, E_NOT_SUFFICIENT_BUFFER);
}

#[test]
fn cancellation_and_cleanup_happen_once() {
    let mut call = AsyncCall::new();
    assert!(call.request_cancel());
    assert!(!call.request_cancel());
    assert!(call.claim_cleanup());
    assert!(!call.claim_cleanup());
    assert!(call.must_wait(true, false));
    assert!(!call.must_wait(true, true));
    assert!(!call.must_wait(false, false));
}

#[test]
fn begin_refuses_bad_blocks_and_routes_queues() {
    assert_eq!(begin_refusal(true, false, false, true), Some(E_POINTER));
    assert_eq!(begin_refusal(false, true, false, true), Some(E_POINTER));
    assert_eq!(begin_refusal(false, false, true, true), Some(E_INVALIDARG));
    assert_eq!(begin_refusal(false, false, false, false), Some(E_INVALIDARG));
    assert_eq!(begin_refusal(false, false, false, true), None);
    assert_eq!(queue_route(0, DispatchMode::Manual, false), QueueRoute::Backfill);
    assert_eq!(queue_route(5, DispatchMode::Manual, false), QueueRoute::Reroute);
    assert_eq!(queue_route(5, DispatchMode::Manual, true), QueueRoute::AsNamed);
    assert_eq!(queue_route(5, DispatchMode::ThreadPool, false), QueueRoute::AsNamed);
}

#[test]
fn work_passes_and_completions_are_decided() {
    assert_eq!(after_work_pass(true, S_OK), Some(E_ABORT));
    assert_eq!(after_work_pass(false, E_PENDING), None);
    assert_eq!(after_work_pass(false, S_OK), Some(S_OK));
    assert_eq!(completion_delivery(false, false), CompletionDelivery::Polled);
    assert_eq!(completion_delivery(true, true), CompletionDelivery::Queued);
    assert_eq!(completion_delivery(true, false), CompletionDelivery::Inline);
}

#[test]
fn a_run_sync_call_copies_only_a_successful_value() {
    assert_eq!(run_sync_step(XAsyncOp::Begin), RunSyncStep::StartWork);
    assert_eq!(run_sync_step(XAsyncOp::Cleanup), RunSyncStep::Free);
    let mut call = RunSyncCall::new();
    assert_eq!(call.result_to_copy(), None);
    call.record(Ok(42u32));
    assert_eq!(call.result_to_copy(), Some(&42));
    call.record(Err(E_ABORT));
    assert_eq!(call.result_to_copy(), None);
    call.mark_canceled();
    assert!(call.canceled);
}

#[test]
fn operations_round_trip_through_their_raw_values() {
    for raw in 0..5u32 {
        assert_eq!(XAsyncOp::from_raw(raw).unwrap().as_raw(), raw);
    }
    assert_eq!(XAsyncOp::from_raw(5), None);
}

#[test]
fn libhttpclient_sub_calls_are_recognised() {
    assert!(is_lhc_internal("HC_Perform"));
    assert!(is_lhc_internal("xbox::httpclient::call"));
    assert!(is_lhc_internal("run_async"));
    assert!(!is_lhc_internal("XStoreQueryGameLicense"));
    assert!(!is_lhc_internal("run_async2"));
}

#[test]
fn schedule_result_size_and_run_check_their_arguments() {
    assert_eq!(schedule_answer(false, true), (E_ILLEGAL_METHOD_CALL, None));
    assert_eq!(schedule_answer(true, true), (S_OK, None));
    assert_eq!(schedule_answer(true, false), (E_ABORT, Some(E_ABORT)));
    let mut call = AsyncCall::new();
    assert_eq!(result_size_answer(false, Some(&call)), (E_POINTER, None));
    assert_eq!(result_size_answer(true, None), (E_ILLEGAL_METHOD_CALL, None));
    assert_eq!(result_size_answer(true, Some(&call)), (E_PENDING, None));
    call.complete(S_OK, 4);
    assert_eq!(result_size_answer(true, Some(&call)), (S_OK, Some(4)));
    assert_eq!(run_check(false), Some(E_POINTER));
    assert_eq!(run_check(true), None);
}

#[test]
fn a_plan_decides_its_own_status_except_delivery() {

    assert_eq!(plan_status(&ResultPlan::Pending), Some(E_PENDING));
    assert_eq!(plan_status(&ResultPlan::Failed(E_ABORT)), Some(E_ABORT));
    assert_eq!(plan_status(&ResultPlan::IdentityMismatch), Some(E_INVALIDARG));
    assert_eq!(plan_status(&ResultPlan::BufferTooSmall), Some(E_NOT_SUFFICIENT_BUFFER));
    assert_eq!(plan_status(&ResultPlan::Deliver(4)), None);
}

/// One `run_sync` call as the library's decisions drive it: the block is checked, marked as
/// driving the call, the work runs and its outcome completes the call with the size of a `T`.
struct RunSyncSim<T> {
    call: AsyncCall,
    run: RunSyncCall<T>,
}

fn start_run_sync<T: Copy>(internal: &mut [u8; 32], state: u64, work: Result<T, i32>) -> (i32, Option<RunSyncSim<T>>) {
    let in_use = live_state(internal).is_some();
    if let Some(refusal) = begin_refusal(false, false, in_use, true) {
        return (refusal, None);
    }
    write_internal(internal, state);
    let mut sim = RunSyncSim { call: AsyncCall::new(), run: RunSyncCall::new() };
    assert_eq!(run_sync_step(XAsyncOp::Begin), RunSyncStep::StartWork);
    sim.run.record(work);
    sim.call.complete(sim.run.result, std::mem::size_of::<T>());
    (S_OK, Some(sim))
}

/// `XAsyncGetStatus(wait: true)` on a completed call.
fn status_of<T>(sim: &RunSyncSim<T>) -> i32 {
    assert!(!sim.call.must_wait(true, false));
    sim.call.status_report().0
}

/// `XAsyncGetResult` with a buffer of `buffer_size` bytes and no identity.
fn take_result<T: Copy>(internal: &mut [u8; 32], sim: &mut RunSyncSim<T>, buffer_size: u64) -> (i32, Option<T>) {
    if live_state(internal).is_none() {
        return (E_ILLEGAL_METHOD_CALL, None);
    }
    let plan = sim.call.result_plan(0, 0, buffer_size);
    match plan {
        ResultPlan::Deliver(_) => {
            assert_eq!(run_sync_step(XAsyncOp::GetResult), RunSyncStep::CopyResult);
            let value = sim.run.result_to_copy().copied();
            assert!(sim.call.claim_cleanup());
            clear_internal(internal);
            (S_OK, value)
        }
        ResultPlan::Failed(status) => {
            assert!(sim.call.claim_cleanup());
            clear_internal(internal);
            (status, None)
        }
        _ => (plan_status(&plan).unwrap(), None),
    }
}

#[test]
fn a_synchronous_provider_completes_and_yields_its_result() {
    let mut internal = [0u8; 32];
    let (hr, sim) = start_run_sync(&mut internal, 0x1000, Ok::<u32, i32>(0xC0FFEE));
    assert_eq!(hr, S_OK);
    let mut sim = sim.unwrap();
    assert_eq!(status_of(&sim), S_OK);
    assert_eq!(result_size_answer(true, Some(&sim.call)), (S_OK, Some(4)));
    assert_eq!(take_result(&mut internal, &mut sim, 4), (S_OK, Some(0xC0FFEE)));
}

#[test]
fn a_provider_that_fails_reports_its_error_not_success() {
    let mut internal = [0u8; 32];
    let (hr, sim) = start_run_sync(&mut internal, 0x1000, Err::<u32, i32>(E_ABORT));
    assert_eq!(hr, S_OK, "starting the call succeeds even though the work fails");
    assert_eq!(status_of(&sim.unwrap()), E_ABORT);
}

#[test]
fn a_block_is_reusable_once_its_result_has_been_taken() {
    let mut internal = [0u8; 32];
    for expected in [1u32, 2, 3] {
        let (hr, sim) = start_run_sync(&mut internal, 0x1000 + u64::from(expected), Ok::<u32, i32>(expected));
        assert_eq!(hr, S_OK, "the block must be free again after the previous result was taken");
        let mut sim = sim.unwrap();
        assert_eq!(status_of(&sim), S_OK);
        assert_eq!(take_result(&mut internal, &mut sim, 4), (S_OK, Some(expected)));
        assert_eq!(take_result(&mut internal, &mut sim, 4), (E_ILLEGAL_METHOD_CALL, None));
    }
}

#[test]
fn a_block_still_running_cannot_be_reused() {
    let mut internal = [0u8; 32];
    let (hr, first) = start_run_sync(&mut internal, 0x1000, Ok::<u32, i32>(1));
    assert_eq!(hr, S_OK);
    let (hr, second) = start_run_sync(&mut internal, 0x2000, Ok::<u32, i32>(2));
    assert_eq!(hr, E_INVALIDARG);
    assert!(second.is_none());
    let mut first = first.unwrap();
    assert_eq!(status_of(&first), S_OK);
    assert_eq!(
        take_result(&mut internal, &mut first, 4),
        (S_OK, Some(1)),
        "the original call is unaffected by the rejected reuse"
    );
}

#[test]
fn a_too_small_buffer_is_refused_rather_than_overflowed() {
    let mut internal = [0u8; 32];
    let (hr, sim) = start_run_sync(&mut internal, 0x1000, Ok::<u64, i32>(9));
    assert_eq!(hr, S_OK);
    let mut sim = sim.unwrap();
    assert_eq!(status_of(&sim), S_OK);
    assert_eq!(take_result(&mut internal, &mut sim, 2), (E_NOT_SUFFICIENT_BUFFER, None));
    assert_eq!(live_state(&internal), Some(0x1000));
    assert_eq!(take_result(&mut internal, &mut sim, 8), (S_OK, Some(9)));
}

#[test]
fn the_run_provider_queues_its_work_then_runs_it() {
    assert_eq!(run_provider_step(XAsyncOp::Begin), RunProviderStep::ScheduleWork);
    assert_eq!(run_provider_step(XAsyncOp::DoWork), RunProviderStep::RunWork);
    assert_eq!(run_provider_step(XAsyncOp::GetResult), RunProviderStep::Succeed);
    assert_eq!(run_provider_step(XAsyncOp::Cancel), RunProviderStep::Succeed);
    assert_eq!(run_provider_step(XAsyncOp::Cleanup), RunProviderStep::Succeed);
    assert_eq!(run_begin_answer(true, true), S_OK);
    assert_eq!(run_begin_answer(true, false), E_ABORT);
    assert_eq!(run_begin_answer(false, true), E_ILLEGAL_METHOD_CALL);
}

#[test]
fn a_cancelled_call_whose_pass_is_refused_completes_with_e_abort() {
    assert_eq!(cancel_completion(true), None);
    assert_eq!(cancel_completion(false), Some(E_ABORT));
    let mut call = AsyncCall::new();
    assert!(call.request_cancel());
    assert!(call.is_pending());
    assert!(call.complete(cancel_completion(false).unwrap(), 0));
    assert_eq!(call.status_report(), (E_ABORT, true));
}
