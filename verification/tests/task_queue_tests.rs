use std::sync::Arc;

use xgameruntime::hresult::{E_INVALIDARG, E_POINTER, S_OK};
use xgameruntime::task_queue::{
    due_at, has_process_queue, process_queue_handle, set_process_queue, DispatchMode, MonitorList, PortKind,
    PortState, ProcessQueueSlot, QueueHandle, SubmitAction, Task, WaitStep,
};
use xgameruntime::xasync::{queue_for, XAsyncObject};

type Runtime = XAsyncObject<Arc<(DispatchMode, DispatchMode)>, Arc<PortKind>>;

#[test]
fn an_invalid_dispatch_mode_is_rejected() {
    let mut runtime: Runtime = XAsyncObject::new();
    let queue = runtime.task_queue_create(99, 0, true, |w, c| Arc::new((w, c)));
    assert_eq!(queue, Err(E_INVALIDARG));
    assert!(runtime.queues.get(1).is_none());
}

#[test]
fn the_process_queue_is_only_reported_once_one_is_set() {
    let mut runtime: Runtime = XAsyncObject::new();
    let make = || Arc::new((DispatchMode::ThreadPool, DispatchMode::ThreadPool));
    assert_eq!(runtime.get_current_process_task_queue(true, make), (false, Some(0)));

    let queue = runtime
        .task_queue_create(0, 0, true, |w, c| Arc::new((w, c)))
        .unwrap();
    runtime.set_current_process_task_queue(queue);

    let (present, reported) = runtime.get_current_process_task_queue(true, make);
    assert!(present);
    let reported = reported.unwrap();
    assert_ne!(reported, 0);
    runtime.close_handle(reported);
    runtime.close_handle(queue);
}

#[test]
fn duplicated_handles_are_distinct_and_independently_owned() {
    let queue = Arc::new(7u32);
    let mut handles = QueueHandle::new();
    let first = handles.create(queue.clone());
    let second = handles.create(handles.get(first).unwrap());
    assert_ne!(first, second, "a duplicate is its own handle value");

    handles.close(first);
    let still_open = handles.get(second).expect("second handle still open");
    assert!(Arc::ptr_eq(&still_open, &queue));
    handles.close(second);
}

#[test]
fn dispatch_modes_and_ports_decode_from_their_raw_values() {
    assert_eq!(DispatchMode::from_raw(0), Some(DispatchMode::Manual));
    assert_eq!(DispatchMode::from_raw(1), Some(DispatchMode::ThreadPool));
    assert_eq!(
        DispatchMode::from_raw(2),
        Some(DispatchMode::SerializedThreadPool)
    );
    assert_eq!(DispatchMode::from_raw(3), Some(DispatchMode::Immediate));
    assert_eq!(DispatchMode::from_raw(4), None);
    assert_eq!(PortKind::from_raw(0), Some(PortKind::Work));
    assert_eq!(PortKind::from_raw(1), Some(PortKind::Completion));
    assert_eq!(PortKind::from_raw(2), None);
    assert_eq!(PortKind::Completion.as_raw(), 1);
}

#[test]
fn a_delay_becomes_a_deadline_and_no_delay_none() {
    assert_eq!(due_at(100, 0), None);
    assert_eq!(due_at(100, 50), Some(150));
}

fn task(id: u32, owner: u64, due: Option<u64>) -> Task<u32> {
    Task { payload: id, owner, due }
}

#[test]
fn delayed_tasks_are_taken_in_deadline_order_and_only_when_due() {
    let mut port = PortState::new();
    port.add_context();
    for (id, due) in [(1, Some(90)), (2, Some(30)), (3, None), (4, Some(30))] {
        let action = port.submit(DispatchMode::Manual, false, task(id, 1, due), None);
        assert!(matches!(action, SubmitAction::Queued(0)));
    }
    assert_eq!(port.depth(), 4);
    let order: Vec<u32> = port.drain_ready(40).into_iter().map(|t| t.payload).collect();
    assert_eq!(order, vec![3, 2, 4]);
    assert_eq!(port.in_flight(), 3);
    match port.next_step(50, Some(60)) {
        WaitStep::Sleep(ms) => assert_eq!(ms, 10),
        _ => panic!("expected to sleep until the caller's deadline"),
    }
    match port.next_step(95, None) {
        WaitStep::Took(t) => assert_eq!(t.payload, 1),
        _ => panic!("the last task is due"),
    }
    port.finish(4, 95);
    assert_eq!(port.dispatched(), 4);
    assert_eq!(port.last_dispatch_ms(), Some(95));
}

#[test]
fn a_terminated_port_refuses_and_stops_waiters() {
    let mut port = PortState::new();
    port.add_context();
    let action = port.submit(DispatchMode::Manual, false, task(1, 5, None), None);
    assert!(matches!(action, SubmitAction::Queued(_)));
    let (own, rest) = port.terminate_context(5);
    assert_eq!(own.len(), 1);
    assert!(rest.is_empty());
    assert!(port.is_terminated());
    let refused = port.submit(DispatchMode::Manual, false, task(2, 5, None), None);
    assert!(matches!(refused, SubmitAction::Refused(_)));
    assert!(matches!(port.next_step(0, None), WaitStep::Stopped));
}

#[test]
fn terminating_one_context_leaves_the_others_queued() {
    let mut port = PortState::new();
    port.add_context();
    port.add_context();
    port.submit(DispatchMode::Manual, false, task(1, 1, None), None);
    port.submit(DispatchMode::Manual, false, task(2, 2, None), None);
    port.submit(DispatchMode::Manual, false, task(3, 1, None), None);
    let (own, rest) = port.terminate_context(1);
    let own: Vec<u32> = own.into_iter().map(|t| t.payload).collect();
    assert_eq!(own, vec![1, 3]);
    assert!(rest.is_empty());
    assert!(!port.is_terminated());
    assert_eq!(port.depth(), 1);
}

#[test]
fn an_immediate_port_runs_undelayed_work_inline() {
    let mut port = PortState::new();
    port.add_context();
    let action = port.submit(DispatchMode::Immediate, false, task(1, 1, None), None);
    assert!(matches!(action, SubmitAction::RunInline(_)));
    let delayed = port.submit(DispatchMode::Immediate, false, task(2, 1, Some(10)), None);
    assert!(matches!(delayed, SubmitAction::RunDetached(_)));
}

#[test]
fn an_unregistered_monitor_is_gone_and_the_rest_stay() {
    let mut monitors = MonitorList::new();
    let a = monitors.register('a');
    let b = monitors.register('b');
    assert_ne!(a, b);
    monitors.unregister(a);
    let left: Vec<char> = monitors.monitors().iter().map(|(_, m)| *m).collect();
    assert_eq!(left, vec!['b']);
    monitors.unregister(b);
    assert!(monitors.is_empty());
}

#[test]
fn the_process_queue_handle_is_allocated_once() {
    let mut slot = ProcessQueueSlot::new();
    let mut handles = QueueHandle::new();
    assert!(!has_process_queue(&slot));
    let first = process_queue_handle(&mut slot, &mut handles, || Arc::new(1u8));
    let second = process_queue_handle(&mut slot, &mut handles, || Arc::new(2u8));
    assert_eq!(first, second);
    assert!(has_process_queue(&slot));
    assert_eq!(*handles.get(first).unwrap(), 1);
}

#[test]
fn queue_arguments_are_checked_before_anything_is_created() {
    let mut runtime: Runtime = XAsyncObject::new();
    assert_eq!(
        runtime.task_queue_create(0, 0, false, |w, c| Arc::new((w, c))),
        Err(E_POINTER)
    );
    let queue = runtime
        .task_queue_create(0, 1, true, |w, c| Arc::new((w, c)))
        .unwrap();
    assert_eq!(runtime.duplicate_handle(queue, false), Err(E_POINTER));
    assert_eq!(runtime.duplicate_handle(12345, true), Err(E_INVALIDARG));
    let duplicate = runtime.duplicate_handle(queue, true).unwrap();
    assert_ne!(duplicate, queue);
    assert_eq!(
        runtime.get_port(queue, 2, true, |_, k| Arc::new(k)),
        Err(E_INVALIDARG)
    );
    let work = runtime.get_port(queue, 0, true, |_, k| Arc::new(k)).unwrap();
    let completion = runtime.get_port(queue, 1, true, |_, k| Arc::new(k)).unwrap();
    let composite = runtime
        .create_composite(work, completion, true, |w, c| {
            Arc::new((
                if *w == PortKind::Work { DispatchMode::Manual } else { DispatchMode::Immediate },
                if *c == PortKind::Completion { DispatchMode::ThreadPool } else { DispatchMode::Immediate },
            ))
        })
        .unwrap();
    assert_eq!(
        *runtime.queues.get(composite).unwrap(),
        (DispatchMode::Manual, DispatchMode::ThreadPool)
    );
    runtime.close_handle(queue);
    assert!(runtime.submit_target(duplicate, 0, true).is_ok());
    assert!(matches!(runtime.submit_target(queue, 0, true), Err(e) if e == E_INVALIDARG));
    assert!(matches!(runtime.submit_target(duplicate, 0, false), Err(e) if e == E_POINTER));
    assert!(runtime.dispatch_target(duplicate, 5).is_none());
    assert!(matches!(runtime.terminate_target(queue), Err(e) if e == E_INVALIDARG));
    assert!(matches!(runtime.monitor_target(duplicate, false, true), Err(e) if e == E_POINTER));
    assert_eq!(S_OK, 0);
}

#[test]
fn a_null_queue_block_runs_on_the_process_queue_made_on_first_use() {
    let mut slot = ProcessQueueSlot::new();
    let mut handles: QueueHandle<Arc<u8>> = QueueHandle::new();
    let manual = handles.create(Arc::new(9u8));
    let first = queue_for(0, &mut slot, &handles, || Arc::new(5u8)).unwrap();
    assert_eq!(*first, 5);
    let again = queue_for(0, &mut slot, &handles, || Arc::new(6u8)).unwrap();
    assert!(Arc::ptr_eq(&first, &again));
    assert_eq!(*queue_for(manual, &mut slot, &handles, || Arc::new(7u8)).unwrap(), 9);
    assert!(queue_for(manual + 1, &mut slot, &handles, || Arc::new(7u8)).is_none());
}

#[test]
fn the_process_queue_handle_stays_the_same_across_null_queue_calls() {
    let mut slot = ProcessQueueSlot::new();
    let mut handles: QueueHandle<Arc<u8>> = QueueHandle::new();
    let first = process_queue_handle(&mut slot, &mut handles, || Arc::new(1u8));
    assert_ne!(first, 0);
    let _ = queue_for(0, &mut slot, &handles, || Arc::new(2u8));
    assert_eq!(slot.handle, Some(first));
    let second = process_queue_handle(&mut slot, &mut handles, || Arc::new(3u8));
    assert_eq!(first, second);
    assert!(handles.get(first).is_some());
    set_process_queue(&mut slot, None);
    let fresh = process_queue_handle(&mut slot, &mut handles, || Arc::new(4u8));
    assert_ne!(fresh, first);
}

#[test]
fn queue_handles_round_trip_on_a_fresh_runtime() {
    let mut runtime: Runtime = XAsyncObject::new();
    let queue = runtime.task_queue_create(0, 0, true, |w, c| Arc::new((w, c))).unwrap();
    let duplicate = runtime.duplicate_handle(queue, true).unwrap();
    let work = runtime.get_port(queue, 0, true, |_, k| Arc::new(k)).unwrap();
    let completion = runtime.get_port(queue, 1, true, |_, k| Arc::new(k)).unwrap();
    let composite = runtime
        .create_composite(work, completion, true, |_, _| Arc::new((DispatchMode::Manual, DispatchMode::Manual)))
        .unwrap();
    runtime.close_handle(queue);
    assert!(runtime.submit_target(composite, 0, true).is_ok());
    assert!(runtime.dispatch_target(queue, 0).is_none());
    let (reached, port) = runtime.dispatch_target(duplicate, 0).unwrap();
    assert_eq!(*reached, (DispatchMode::Manual, DispatchMode::Manual));
    assert_eq!(port, PortKind::Work);
}
