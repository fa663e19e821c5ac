use parakeet_ptt::config::{InjectionMode, PasteBackendFailurePolicy};
use parakeet_ptt::injector::UinputAttemptMetadata;
use parakeet_ptt::injector_runtime::{
    backend_failure_fallback, queue_room, take_context, unavailable_backend_fallback, worker_report,
    EnqueueFailure, EnqueueNext, FallbackInjector, InjectionErrorKind, InjectionJob,
    InjectionOrigin, InjectionRunError, InjectionRunOutput, InjectorQueueMetrics, PrepareStep,
    RoomWait, SenderPreparation, TrySend, UinputSenderManager, UinputSenderState, WorkerRun,
};
use parakeet_ptt::protocol::SessionId;

#[test]
fn a_queue_has_room_for_one_job_at_least() {
    assert_eq!(queue_room(0), 1);
    assert_eq!(queue_room(1), 1);
    assert_eq!(queue_room(32), 32);
}

/// Gets a sender ready as a job does; `create` makes one. The clock stands still.
fn prepare<S>(
    manager: &mut UinputSenderManager<S>,
    now_ms: u64,
    create: impl FnOnce() -> Result<S, String>,
) -> Result<UinputAttemptMetadata, String> {
    let mut preparation = SenderPreparation::default();
    let mut create = Some(create);
    loop {
        match manager.prepare_paste_key_sender(InjectionMode::Paste, &mut preparation, now_ms, 0) {
            PrepareStep::Ready { metadata } => return Ok(metadata),
            PrepareStep::Create => {
                let make = create.take().expect("one sender is created for a job");
                match make() {
                    Ok(sender) => manager.note_created(sender, &mut preparation, now_ms, now_ms),
                    Err(cause) => return Err(manager.note_create_failed(&cause, now_ms, 5)),
                }
            }
            PrepareStep::Failed { reason } => return Err(reason),
            other => panic!("unexpected step {other:?}"),
        }
    }
}

#[test]
fn in_process_runner_reuses_sender_across_jobs_when_healthy() {
    let mut manager: UinputSenderManager<u32> = UinputSenderManager::new();
    let mut created = 0;
    for _ in 0..2 {
        let metadata = prepare(&mut manager, 10, || {
            created += 1;
            Ok(7)
        })
        .expect("a sender");
        let done = manager.finish_job(InjectionMode::Paste, &Some(metadata), Ok(()));
        assert_eq!(done, Ok(InjectionRunOutput::default()));
    }
    assert_eq!(created, 1);
}

#[test]
fn in_process_runner_commits_sender_usage_only_after_success() {
    let mut manager: UinputSenderManager<u32> = UinputSenderManager::new();
    let metadata = prepare(&mut manager, 10, || Ok(7)).expect("preparing sender should succeed");
    assert!(metadata.fresh_device);
    assert_eq!(metadata.use_count_before_attempt, 0);
    match &manager.state {
        UinputSenderState::Healthy(healthy) => {
            assert!(healthy.fresh_pending);
            assert_eq!(healthy.use_count, 0);
        }
        other => panic!("prepared sender should leave manager healthy: {other:?}"),
    }

    let metadata = Some(metadata);
    manager.commit_successful_paste_key_sender(&metadata);
    manager.commit_successful_paste_key_sender(&metadata);
    match &manager.state {
        UinputSenderState::Healthy(healthy) => {
            assert!(!healthy.fresh_pending);
            assert_eq!(healthy.use_count, 1);
        }
        other => panic!("committed sender should keep manager healthy: {other:?}"),
    }

    let metadata = prepare(&mut manager, 11, || Err("not again".to_string()))
        .expect("preparing reused sender should succeed");
    assert!(!metadata.fresh_device);
    assert_eq!(metadata.use_count_before_attempt, 1);
}

#[test]
fn in_process_runner_retries_after_create_failure_without_restart() {
    let mut manager: UinputSenderManager<u32> = UinputSenderManager::new();
    let reason = prepare(&mut manager, 10, || {
        Err("synthetic /dev/uinput unavailable".to_string())
    })
    .expect_err("no sender at first");
    assert_eq!(
        reason,
        "paste_key_backend=uinput could not initialize /dev/uinput: synthetic /dev/uinput \
         unavailable"
    );
    assert_eq!(
        backend_failure_fallback(PasteBackendFailurePolicy::CopyOnly, reason.clone()),
        FallbackInjector::CopyOnly
    );
    // Within the backoff no sender is created.
    assert_eq!(prepare(&mut manager, 14, || Ok(7)), Err(reason));
    let metadata = prepare(&mut manager, 15, || Ok(7)).expect("a sender after the backoff");
    assert!(metadata.created_this_job);
    assert!(metadata.reused_after_failure);
    assert_eq!(metadata.generation, 1);
}

#[test]
fn in_process_runner_drops_sender_after_explicit_send_error() {
    let mut manager: UinputSenderManager<u32> = UinputSenderManager::new();
    let metadata = prepare(&mut manager, 10, || Ok(7)).expect("a sender");
    let first = manager.finish_job(
        InjectionMode::Paste,
        &Some(metadata),
        Err("stage=backend synthetic sender failure".to_string()),
    );
    assert!(matches!(first, Err(InjectionRunError::BackendFailure(_))));
    assert!(matches!(manager.state, UinputSenderState::Uninitialized));
    let metadata = prepare(&mut manager, 11, || Ok(8)).expect("another sender");
    assert_eq!(metadata.generation, 2);
    let second = manager.finish_job(InjectionMode::Paste, &Some(metadata), Ok(()));
    assert!(second.is_ok());
}

#[test]
fn enqueue_times_out_when_queue_remains_saturated() {
    let mut metrics = InjectorQueueMetrics::default();
    assert_eq!(metrics.after_try_send(0, TrySend::Sent), EnqueueNext::Queued);
    assert_eq!(
        metrics.after_try_send(1, TrySend::Full),
        EnqueueNext::WaitForRoom { timeout_ms: 20 }
    );
    assert_eq!(
        metrics.after_room_wait(RoomWait::TimedOut),
        Err(EnqueueFailure::Timeout)
    );
    assert_eq!(metrics.queued_total, 1);
    assert_eq!(metrics.enqueue_blocked_total, 1);
    assert_eq!(metrics.enqueue_timeout_total, 1);
}

#[test]
fn a_queue_whose_worker_is_gone_takes_nothing() {
    let mut metrics = InjectorQueueMetrics::default();
    assert_eq!(
        metrics.after_try_send(0, TrySend::Closed),
        EnqueueNext::Failed(EnqueueFailure::WorkerGone)
    );
    assert_eq!(
        metrics.after_room_wait(RoomWait::Closed),
        Err(EnqueueFailure::WorkerGone)
    );
    assert_eq!(metrics.after_room_wait(RoomWait::Sent { depth: 4 }), Ok(()));
    assert_eq!(metrics.enqueue_worker_gone_total, 2);
    assert_eq!(metrics.queue_depth_high_water, 4);
}

#[test]
fn a_fresh_keyboard_is_given_time() {
    let mut manager: UinputSenderManager<u32> = UinputSenderManager::new();
    let mut preparation = SenderPreparation::default();
    assert_eq!(
        manager.prepare_paste_key_sender(InjectionMode::CopyOnly, &mut preparation, 0, 200),
        PrepareStep::Disabled
    );
    assert_eq!(
        manager.prepare_paste_key_sender(InjectionMode::Paste, &mut preparation, 0, 200),
        PrepareStep::Create
    );
    manager.note_created(7, &mut preparation, 0, 9);
    assert_eq!(preparation.create_elapsed_ms, Some(9));
    assert_eq!(
        manager.prepare_paste_key_sender(InjectionMode::Paste, &mut preparation, 29, 200),
        PrepareStep::Sleep { ms: 180 }
    );
    assert!(matches!(
        manager.prepare_paste_key_sender(InjectionMode::Paste, &mut preparation, 209, 200),
        PrepareStep::Ready { .. }
    ));
}

fn job() -> InjectionJob {
    InjectionJob::new(SessionId { bits: 1 }, "text".to_string(), 44, 1200, 100)
        .with_origin(InjectionOrigin::RawFinalResult)
        .with_enqueue_timing(Some(40), Some(30))
}

#[test]
fn reports_add_the_times_up() {
    let report = worker_report(
        &job(),
        110,
        150,
        WorkerRun::Ran(Ok(InjectionRunOutput::default())),
    );
    assert_eq!(report.queue_wait_ms, 10);
    assert_eq!(report.run_ms, 40);
    assert_eq!(report.total_worker_ms, 50);
    assert_eq!(report.enqueue_to_injection_complete_ms, 50);
    assert_eq!(report.hotkey_up_elapsed_ms_at_worker_start, Some(50));
    assert_eq!(report.hotkey_up_elapsed_ms_at_completion, Some(90));
    assert_eq!(report.stop_message_elapsed_ms_at_completion, Some(80));
    assert_eq!(report.error_kind, None);
}

#[test]
fn failures_are_reported_by_their_kinds() {
    let mut metrics = InjectorQueueMetrics::default();
    for (run, kind, name) in [
        (
            WorkerRun::Ran(Err(InjectionRunError::BackendFailure("a".to_string()))),
            InjectionErrorKind::BackendFailure,
            "backend_failure",
        ),
        (
            WorkerRun::Ran(Err(InjectionRunError::ExecutionTimeout("b".to_string()))),
            InjectionErrorKind::ExecutionTimeout,
            "execution_timeout",
        ),
        (
            WorkerRun::Ran(Err(InjectionRunError::WorkerTaskFailed("c".to_string()))),
            InjectionErrorKind::WorkerTaskFailed,
            "worker_task_failed",
        ),
        (
            WorkerRun::TaskFailed("d".to_string()),
            InjectionErrorKind::WorkerTaskFailed,
            "worker_task_failed",
        ),
    ] {
        let report = worker_report(&job(), 110, 150, run);
        assert_eq!(report.error_kind, Some(kind));
        assert_eq!(kind.as_str(), name);
        assert!(report.error.is_some());
        metrics.note_report(&report);
    }
    assert_eq!(metrics.worker_failure_total, 4);
    assert_eq!(metrics.worker_backend_failure_total, 1);
    assert_eq!(metrics.worker_execution_timeout_total, 1);
    assert_eq!(metrics.worker_task_failed_total, 2);
    assert_eq!(metrics.worker_queue_wait_ms_total, 40);
    assert_eq!(metrics.worker_run_ms_total, 160);
}

#[test]
fn a_job_hands_its_context_on() {
    let mut job = job();
    let context = take_context(&mut job);
    assert_eq!(context.session_id, SessionId { bits: 1 });
    assert_eq!(context.origin, job.origin.as_str());
    assert_eq!(context.hotkey_up_elapsed_ms_at_enqueue, Some(40));
    assert_eq!(context.stop_message_elapsed_ms_at_enqueue, Some(30));
}

#[test]
fn the_policy_decides_without_a_keyboard() {
    assert_eq!(
        unavailable_backend_fallback(PasteBackendFailurePolicy::Error, "denied"),
        FallbackInjector::Fail {
            message: "paste_key_backend=uinput could not initialize /dev/uinput: denied"
                .to_string()
        }
    );
    assert_eq!(
        unavailable_backend_fallback(PasteBackendFailurePolicy::CopyOnly, "denied"),
        FallbackInjector::CopyOnly
    );
}
