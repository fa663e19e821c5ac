//! Running injection jobs: the queue, the virtual keyboard and what is reported.
use vstd::prelude::*;

use crate::config::{InjectionMode, PasteBackendFailurePolicy};
use crate::injector::{count, counted, InjectorContext, UinputAttemptMetadata};
use crate::protocol::SessionId;
use crate::surface_focus::ParentFocusCapture;
use crate::text::{cat2, contains, holds_text, opt_string};

verus! {

/// How many jobs may wait.
pub const INJECTION_QUEUE_CAPACITY: usize = 32;

/// The room of a queue that was asked for: at least one job may wait.
pub fn queue_room(capacity: usize) -> (r: usize)
    ensures
        r == (if capacity < 1 {
            1
        } else {
            capacity as int
        }),
{
    if capacity < 1 {
        1
    } else {
        capacity
    }
}

/// How long a job may wait for room in the queue.
pub const INJECTION_ENQUEUE_TIMEOUT_MS: u64 = 20;

/// How many lines of a helper's standard error are logged.
pub const INJECTOR_SUBPROCESS_STDERR_LOG_LINE_LIMIT: usize = 120;

/// How old a fresh virtual keyboard must be before it is used.
pub const IN_PROCESS_UINPUT_WARMUP_MS: u64 = 200;

/// How long creating a virtual keyboard is not tried again after it failed.
pub const IN_PROCESS_UINPUT_RETRY_BACKOFF_MS: u64 = 500;

/// Where the text of a job comes from.
#[derive(Debug, Clone, Copy, PartialEq, Eq, Structural)]
pub enum InjectionOrigin {
    RawFinalResult,
    LlmAnswer,
    Demo,
    Unspecified,
}

/// The name of an origin.
pub open spec fn origin_text(origin: InjectionOrigin) -> Seq<char> {
    match origin {
        InjectionOrigin::RawFinalResult => "raw_final_result"@,
        InjectionOrigin::LlmAnswer => "llm_answer"@,
        InjectionOrigin::Demo => "demo"@,
        InjectionOrigin::Unspecified => "unspecified"@,
    }
}

impl InjectionOrigin {
    /// The name of the origin.
    pub fn as_str(self) -> (r: &'static str)
        ensures
            r@ == origin_text(self),
    {
        match self {
            InjectionOrigin::RawFinalResult => "raw_final_result",
            InjectionOrigin::LlmAnswer => "llm_answer",
            InjectionOrigin::Demo => "demo",
            InjectionOrigin::Unspecified => "unspecified",
        }
    }
}

/// Why a job failed.
#[derive(Debug, Clone, Copy, PartialEq, Eq, Structural)]
pub enum InjectionErrorKind {
    BackendFailure,
    ExecutionTimeout,
    WorkerTaskFailed,
}

impl InjectionErrorKind {
    /// The name of the kind.
    pub fn as_str(self) -> (r: &'static str)
        ensures
            r@ == match self {
                InjectionErrorKind::BackendFailure => "backend_failure"@,
                InjectionErrorKind::ExecutionTimeout => "execution_timeout"@,
                InjectionErrorKind::WorkerTaskFailed => "worker_task_failed"@,
            },
    {
        match self {
            InjectionErrorKind::BackendFailure => "backend_failure",
            InjectionErrorKind::ExecutionTimeout => "execution_timeout",
            InjectionErrorKind::WorkerTaskFailed => "worker_task_failed",
        }
    }
}

/// A text to inject.
#[derive(Debug, PartialEq, Eq)]
pub struct InjectionJob {
    pub session_id: SessionId,
    pub text: String,
    pub daemon_latency_ms: u64,
    pub daemon_audio_ms: u64,
    pub origin: InjectionOrigin,
    pub hotkey_up_elapsed_ms_at_enqueue: Option<u64>,
    pub stop_message_elapsed_ms_at_enqueue: Option<u64>,
    pub parent_focus: Option<ParentFocusCapture>,
    pub enqueued_at_ms: u64,
}

impl InjectionJob {
    /// A job of unspecified origin.
    pub fn new(
        session_id: SessionId,
        text: String,
        daemon_latency_ms: u64,
        daemon_audio_ms: u64,
        enqueued_at_ms: u64,
    ) -> (r: InjectionJob)
        ensures
            r == (InjectionJob {
                session_id,
                text,
                daemon_latency_ms,
                daemon_audio_ms,
                origin: InjectionOrigin::Unspecified,
                hotkey_up_elapsed_ms_at_enqueue: None,
                stop_message_elapsed_ms_at_enqueue: None,
                parent_focus: None,
                enqueued_at_ms,
            }),
    {
        InjectionJob {
            session_id,
            text,
            daemon_latency_ms,
            daemon_audio_ms,
            origin: InjectionOrigin::Unspecified,
            hotkey_up_elapsed_ms_at_enqueue: None,
            stop_message_elapsed_ms_at_enqueue: None,
            parent_focus: None,
            enqueued_at_ms,
        }
    }

    /// The job with another origin.
    pub fn with_origin(self, origin: InjectionOrigin) -> (r: InjectionJob)
        ensures
            r == (InjectionJob { origin, ..self }),
    {
        let mut job = self;
        job.origin = origin;
        job
    }

    /// The job with the times that had passed when it was enqueued.
    pub fn with_enqueue_timing(
        self,
        hotkey_up_elapsed_ms_at_enqueue: Option<u64>,
        stop_message_elapsed_ms_at_enqueue: Option<u64>,
    ) -> (r: InjectionJob)
        ensures
            r == (InjectionJob {
                hotkey_up_elapsed_ms_at_enqueue,
                stop_message_elapsed_ms_at_enqueue,
                ..self
            }),
    {
        let mut job = self;
        job.hotkey_up_elapsed_ms_at_enqueue = hotkey_up_elapsed_ms_at_enqueue;
        job.stop_message_elapsed_ms_at_enqueue = stop_message_elapsed_ms_at_enqueue;
        job
    }

    /// The job with the focus that was captured for it.
    pub fn with_parent_focus(self, parent_focus: Option<ParentFocusCapture>) -> (r: InjectionJob)
        ensures
            r == (InjectionJob { parent_focus, ..self }),
    {
        let mut job = self;
        job.parent_focus = parent_focus;
        job
    }
}

/// What became of a job.
#[derive(Debug, PartialEq, Eq)]
pub struct InjectionReport {
    pub session_id: SessionId,
    pub daemon_latency_ms: u64,
    pub daemon_audio_ms: u64,
    pub origin: InjectionOrigin,
    pub queue_wait_ms: u64,
    pub run_ms: u64,
    pub total_worker_ms: u64,
    pub enqueue_to_injection_complete_ms: u64,
    pub hotkey_up_elapsed_ms_at_enqueue: Option<u64>,
    pub stop_message_elapsed_ms_at_enqueue: Option<u64>,
    pub hotkey_up_elapsed_ms_at_worker_start: Option<u64>,
    pub stop_message_elapsed_ms_at_worker_start: Option<u64>,
    pub hotkey_up_elapsed_ms_at_completion: Option<u64>,
    pub stop_message_elapsed_ms_at_completion: Option<u64>,
    pub error_kind: Option<InjectionErrorKind>,
    pub error: Option<String>,
}

/// Why running a job failed.
#[derive(Debug, PartialEq, Eq)]
pub enum InjectionRunError {
    BackendFailure(String),
    ExecutionTimeout(String),
    WorkerTaskFailed(String),
}

impl InjectionRunError {
    /// The kind of the failure.
    pub open spec fn kind_of(self) -> InjectionErrorKind {
        match self {
            InjectionRunError::BackendFailure(_) => InjectionErrorKind::BackendFailure,
            InjectionRunError::ExecutionTimeout(_) => InjectionErrorKind::ExecutionTimeout,
            InjectionRunError::WorkerTaskFailed(_) => InjectionErrorKind::WorkerTaskFailed,
        }
    }

    /// The message of the failure.
    pub open spec fn text(self) -> Seq<char> {
        match self {
            InjectionRunError::BackendFailure(m) => m@,
            InjectionRunError::ExecutionTimeout(m) => m@,
            InjectionRunError::WorkerTaskFailed(m) => m@,
        }
    }
}

/// What running a job left behind.
#[derive(Debug, PartialEq, Eq)]
pub struct InjectionRunOutput {
    pub stderr: Vec<u8>,
}

impl Default for InjectionRunOutput {
    /// Nothing on standard error.
    fn default() -> (r: InjectionRunOutput)
        ensures
            r.stderr@.len() == 0,
    {
        InjectionRunOutput { stderr: Vec::new() }
    }
}

/// How the worker's task for a job ended.
#[derive(Debug)]
pub enum WorkerRun {
    Ran(Result<InjectionRunOutput, InjectionRunError>),
    /// The task itself failed, with this message.
    TaskFailed(String),
}

/// The sum of two times, not past the largest.
pub open spec fn later(a: u64, b: u64) -> u64 {
    if a + b <= u64::MAX {
        (a + b) as u64
    } else {
        u64::MAX
    }
}

/// The time between two moments; nothing where the second is earlier.
pub open spec fn between(from: u64, to: u64) -> u64 {
    if to >= from {
        (to - from) as u64
    } else {
        0
    }
}

/// A time that may be missing, some time later.
pub open spec fn later_opt(a: Option<u64>, b: u64) -> Option<u64> {
    match a {
        Some(t) => Some(later(t, b)),
        None => None,
    }
}

/// A time that may be missing, some time later.
fn add_opt(a: Option<u64>, b: u64) -> (r: Option<u64>)
    ensures
        r == later_opt(a, b),
{
    match a {
        Some(t) => Some(t.saturating_add(b)),
        None => None,
    }
}

/// The kind and the message with which a run failed, if it did.
pub open spec fn run_failure(run: WorkerRun) -> Option<(InjectionErrorKind, Seq<char>)> {
    match run {
        WorkerRun::Ran(Ok(_)) => None,
        WorkerRun::Ran(Err(e)) => Some((e.kind_of(), e.text())),
        WorkerRun::TaskFailed(m) => Some(
            (InjectionErrorKind::WorkerTaskFailed, "injector worker task failed: "@ + m@),
        ),
    }
}

/// The report of a job that started and ended at the given moments.
pub fn worker_report(job: &InjectionJob, started_ms: u64, finished_ms: u64, run: WorkerRun) -> (r:
    InjectionReport)
    ensures
        r.session_id == job.session_id,
        r.daemon_latency_ms == job.daemon_latency_ms,
        r.daemon_audio_ms == job.daemon_audio_ms,
        r.origin == job.origin,
        r.queue_wait_ms == between(job.enqueued_at_ms, started_ms),
        r.run_ms == between(started_ms, finished_ms),
        r.total_worker_ms == later(r.queue_wait_ms, r.run_ms),
        r.enqueue_to_injection_complete_ms == r.total_worker_ms,
        r.hotkey_up_elapsed_ms_at_enqueue == job.hotkey_up_elapsed_ms_at_enqueue,
        r.stop_message_elapsed_ms_at_enqueue == job.stop_message_elapsed_ms_at_enqueue,
        r.hotkey_up_elapsed_ms_at_worker_start == later_opt(
            job.hotkey_up_elapsed_ms_at_enqueue,
            r.queue_wait_ms,
        ),
        r.stop_message_elapsed_ms_at_worker_start == later_opt(
            job.stop_message_elapsed_ms_at_enqueue,
            r.queue_wait_ms,
        ),
        r.hotkey_up_elapsed_ms_at_completion == later_opt(
            job.hotkey_up_elapsed_ms_at_enqueue,
            r.total_worker_ms,
        ),
        r.stop_message_elapsed_ms_at_completion == later_opt(
            job.stop_message_elapsed_ms_at_enqueue,
            r.total_worker_ms,
        ),
        match run_failure(run) {
            None => r.error_kind is None && r.error is None,
            Some((kind, text)) => r.error_kind == Some(kind) && opt_string(r.error) == Some(text),
        },
{
    let queue_wait_ms: u64 = started_ms.saturating_sub(job.enqueued_at_ms);
    let run_ms: u64 = finished_ms.saturating_sub(started_ms);
    let total_worker_ms: u64 = queue_wait_ms.saturating_add(run_ms);
    let mut error_kind: Option<InjectionErrorKind> = None;
    let mut error: Option<String> = None;
    match run {
        WorkerRun::Ran(Ok(_)) => {},
        WorkerRun::Ran(Err(InjectionRunError::BackendFailure(message))) => {
            error_kind = Some(InjectionErrorKind::BackendFailure);
            error = Some(message);
        },
        WorkerRun::Ran(Err(InjectionRunError::ExecutionTimeout(message))) => {
            error_kind = Some(InjectionErrorKind::ExecutionTimeout);
            error = Some(message);
        },
        WorkerRun::Ran(Err(InjectionRunError::WorkerTaskFailed(message))) => {
            error_kind = Some(InjectionErrorKind::WorkerTaskFailed);
            error = Some(message);
        },
        WorkerRun::TaskFailed(message) => {
            error_kind = Some(InjectionErrorKind::WorkerTaskFailed);
            error = Some(cat2("injector worker task failed: ", message.as_str()));
        },
    }
    InjectionReport {
        session_id: job.session_id,
        daemon_latency_ms: job.daemon_latency_ms,
        daemon_audio_ms: job.daemon_audio_ms,
        origin: job.origin,
        queue_wait_ms,
        run_ms,
        total_worker_ms,
        enqueue_to_injection_complete_ms: total_worker_ms,
        hotkey_up_elapsed_ms_at_enqueue: job.hotkey_up_elapsed_ms_at_enqueue,
        stop_message_elapsed_ms_at_enqueue: job.stop_message_elapsed_ms_at_enqueue,
        hotkey_up_elapsed_ms_at_worker_start: add_opt(
            job.hotkey_up_elapsed_ms_at_enqueue,
            queue_wait_ms,
        ),
        stop_message_elapsed_ms_at_worker_start: add_opt(
            job.stop_message_elapsed_ms_at_enqueue,
            queue_wait_ms,
        ),
        hotkey_up_elapsed_ms_at_completion: add_opt(
            job.hotkey_up_elapsed_ms_at_enqueue,
            total_worker_ms,
        ),
        stop_message_elapsed_ms_at_completion: add_opt(
            job.stop_message_elapsed_ms_at_enqueue,
            total_worker_ms,
        ),
        error_kind,
        error,
    }
}

/// The time at completion is never before the time at which the worker started.
pub proof fn law_completion_is_not_before_worker_start(
    at_enqueue: u64,
    queue_wait_ms: u64,
    run_ms: u64,
)
    ensures
        later(at_enqueue, later(queue_wait_ms, run_ms)) >= later(at_enqueue, queue_wait_ms),
{
}

/// The context that an injection gets from its job; the job's focus goes with it.
pub fn take_context(job: &mut InjectionJob) -> (r: InjectorContext)
    ensures
        *final(job) == (InjectionJob { parent_focus: None, ..*old(job) }),
        r.session_id == old(job).session_id,
        r.origin@ == origin_text(old(job).origin),
        r.hotkey_up_elapsed_ms_at_enqueue == old(job).hotkey_up_elapsed_ms_at_enqueue,
        r.stop_message_elapsed_ms_at_enqueue == old(job).stop_message_elapsed_ms_at_enqueue,
        r.parent_focus == old(job).parent_focus,
{
    let parent_focus = job.parent_focus.take();
    InjectorContext {
        session_id: job.session_id,
        origin: job.origin.as_str().to_owned(),
        hotkey_up_elapsed_ms_at_enqueue: job.hotkey_up_elapsed_ms_at_enqueue,
        stop_message_elapsed_ms_at_enqueue: job.stop_message_elapsed_ms_at_enqueue,
        parent_focus,
    }
}

// ---- the queue

/// Counters of the queue and its worker; they wrap around.
#[derive(Debug, Clone, Copy, PartialEq, Eq, Structural)]
pub struct InjectorQueueMetrics {
    pub queued_total: u64,
    pub enqueue_blocked_total: u64,
    pub enqueue_timeout_total: u64,
    pub enqueue_worker_gone_total: u64,
    pub worker_success_total: u64,
    pub worker_failure_total: u64,
    pub worker_backend_failure_total: u64,
    pub worker_execution_timeout_total: u64,
    pub worker_task_failed_total: u64,
    pub worker_queue_wait_ms_total: u64,
    pub worker_run_ms_total: u64,
    pub queue_depth_high_water: u64,
}

impl Default for InjectorQueueMetrics {
    /// All counters at zero.
    fn default() -> (r: InjectorQueueMetrics)
        ensures
            r == (InjectorQueueMetrics {
                queued_total: 0,
                enqueue_blocked_total: 0,
                enqueue_timeout_total: 0,
                enqueue_worker_gone_total: 0,
                worker_success_total: 0,
                worker_failure_total: 0,
                worker_backend_failure_total: 0,
                worker_execution_timeout_total: 0,
                worker_task_failed_total: 0,
                worker_queue_wait_ms_total: 0,
                worker_run_ms_total: 0,
                queue_depth_high_water: 0,
            }),
    {
        InjectorQueueMetrics {
            queued_total: 0,
            enqueue_blocked_total: 0,
            enqueue_timeout_total: 0,
            enqueue_worker_gone_total: 0,
            worker_success_total: 0,
            worker_failure_total: 0,
            worker_backend_failure_total: 0,
            worker_execution_timeout_total: 0,
            worker_task_failed_total: 0,
            worker_queue_wait_ms_total: 0,
            worker_run_ms_total: 0,
            queue_depth_high_water: 0,
        }
    }
}

/// The counters after a job was queued at the given depth.
pub open spec fn queued_counted(m: InjectorQueueMetrics, depth: u64) -> InjectorQueueMetrics {
    InjectorQueueMetrics {
        queued_total: counted(m.queued_total, 1),
        queue_depth_high_water: if depth > m.queue_depth_high_water {
            depth
        } else {
            m.queue_depth_high_water
        },
        ..m
    }
}

/// The counters after a report.
pub open spec fn report_counted(
    m: InjectorQueueMetrics,
    queue_wait_ms: u64,
    run_ms: u64,
    kind: Option<InjectionErrorKind>,
) -> InjectorQueueMetrics {
    let n = InjectorQueueMetrics {
        worker_queue_wait_ms_total: counted(m.worker_queue_wait_ms_total, queue_wait_ms),
        worker_run_ms_total: counted(m.worker_run_ms_total, run_ms),
        ..m
    };
    match kind {
        None => InjectorQueueMetrics {
            worker_success_total: counted(n.worker_success_total, 1),
            ..n
        },
        Some(k) => {
            let f = InjectorQueueMetrics {
                worker_failure_total: counted(n.worker_failure_total, 1),
                ..n
            };
            match k {
                InjectionErrorKind::BackendFailure => InjectorQueueMetrics {
                    worker_backend_failure_total: counted(f.worker_backend_failure_total, 1),
                    ..f
                },
                InjectionErrorKind::ExecutionTimeout => InjectorQueueMetrics {
                    worker_execution_timeout_total: counted(f.worker_execution_timeout_total, 1),
                    ..f
                },
                InjectionErrorKind::WorkerTaskFailed => InjectorQueueMetrics {
                    worker_task_failed_total: counted(f.worker_task_failed_total, 1),
                    ..f
                },
            }
        },
    }
}

/// Why a job was not queued.
#[derive(Debug, Clone, Copy, PartialEq, Eq, Structural)]
pub enum EnqueueFailure {
    Timeout,
    WorkerGone,
}

/// How the first try to queue a job ended.
#[derive(Debug, Clone, Copy, PartialEq, Eq, Structural)]
pub enum TrySend {
    Sent,
    Full,
    Closed,
}

/// What to do after the first try.
#[derive(Debug, Clone, Copy, PartialEq, Eq, Structural)]
pub enum EnqueueNext {
    Queued,
    Failed(EnqueueFailure),
    /// Wait for room, but no longer than this.
    WaitForRoom { timeout_ms: u64 },
}

/// How waiting for room ended.
#[derive(Debug, Clone, Copy, PartialEq, Eq, Structural)]
pub enum RoomWait {
    /// The job was queued, and the queue was this deep afterwards.
    Sent { depth: u64 },
    Closed,
    TimedOut,
}

impl InjectorQueueMetrics {
    /// Counts a queued job.
    pub fn note_queued(&mut self, queue_depth: u64)
        ensures
            *final(self) == queued_counted(*old(self), queue_depth),
    {
        self.queued_total = count(self.queued_total, 1);
        if queue_depth > self.queue_depth_high_water {
            self.queue_depth_high_water = queue_depth;
        }
    }

    /// Counts a job that found the queue full.
    pub fn note_blocked(&mut self)
        ensures
            *final(self) == (InjectorQueueMetrics {
                enqueue_blocked_total: counted(old(self).enqueue_blocked_total, 1),
                ..*old(self)
            }),
    {
        self.enqueue_blocked_total = count(self.enqueue_blocked_total, 1);
    }

    /// Counts a job for which no room came in time.
    pub fn note_timeout(&mut self)
        ensures
            *final(self) == (InjectorQueueMetrics {
                enqueue_timeout_total: counted(old(self).enqueue_timeout_total, 1),
                ..*old(self)
            }),
    {
        self.enqueue_timeout_total = count(self.enqueue_timeout_total, 1);
    }

    /// Counts a job for which there was no worker.
    pub fn note_worker_gone(&mut self)
        ensures
            *final(self) == (InjectorQueueMetrics {
                enqueue_worker_gone_total: counted(old(self).enqueue_worker_gone_total, 1),
                ..*old(self)
            }),
    {
        self.enqueue_worker_gone_total = count(self.enqueue_worker_gone_total, 1);
    }

    /// Counts a report.
    pub fn note_report(&mut self, report: &InjectionReport)
        ensures
            *final(self) == report_counted(
                *old(self),
                report.queue_wait_ms,
                report.run_ms,
                report.error_kind,
            ),
    {
        self.worker_queue_wait_ms_total =
        count(self.worker_queue_wait_ms_total, report.queue_wait_ms);
        self.worker_run_ms_total = count(self.worker_run_ms_total, report.run_ms);
        match report.error_kind {
            Some(InjectionErrorKind::BackendFailure) => {
                self.worker_failure_total = count(self.worker_failure_total, 1);
                self.worker_backend_failure_total = count(self.worker_backend_failure_total, 1);
            },
            Some(InjectionErrorKind::ExecutionTimeout) => {
                self.worker_failure_total = count(self.worker_failure_total, 1);
                self.worker_execution_timeout_total = count(self.worker_execution_timeout_total, 1);
            },
            Some(InjectionErrorKind::WorkerTaskFailed) => {
                self.worker_failure_total = count(self.worker_failure_total, 1);
                self.worker_task_failed_total = count(self.worker_task_failed_total, 1);
            },
            None => {
                self.worker_success_total = count(self.worker_success_total, 1);
            },
        }
    }

    /// Notes how the first try to queue a job ended; `depth` is how deep the queue was before.
    pub fn after_try_send(&mut self, depth: u64, sent: TrySend) -> (r: EnqueueNext)
        ensures
            match sent {
                TrySend::Sent => r == EnqueueNext::Queued && *final(self) == queued_counted(
                    *old(self),
                    later(depth, 1),
                ),
                TrySend::Closed => r == EnqueueNext::Failed(EnqueueFailure::WorkerGone)
                    && *final(self) == (InjectorQueueMetrics {
                    enqueue_worker_gone_total: counted(old(self).enqueue_worker_gone_total, 1),
                    ..*old(self)
                }),
                TrySend::Full => r == (EnqueueNext::WaitForRoom {
                    timeout_ms: INJECTION_ENQUEUE_TIMEOUT_MS,
                }) && *final(self) == (InjectorQueueMetrics {
                    enqueue_blocked_total: counted(old(self).enqueue_blocked_total, 1),
                    ..*old(self)
                }),
            },
    {
        match sent {
            TrySend::Sent => {
                self.note_queued(depth.saturating_add(1));
                EnqueueNext::Queued
            },
            TrySend::Closed => {
                self.note_worker_gone();
                EnqueueNext::Failed(EnqueueFailure::WorkerGone)
            },
            TrySend::Full => {
                self.note_blocked();
                EnqueueNext::WaitForRoom { timeout_ms: INJECTION_ENQUEUE_TIMEOUT_MS }
            },
        }
    }

    /// Notes how waiting for room ended.
    pub fn after_room_wait(&mut self, wait: RoomWait) -> (r: Result<(), EnqueueFailure>)
        ensures
            match wait {
                RoomWait::Sent { depth } => r is Ok && *final(self) == queued_counted(
                    *old(self),
                    depth,
                ),
                RoomWait::Closed => r == Result::<(), EnqueueFailure>::Err(
                    EnqueueFailure::WorkerGone,
                ) && *final(self) == (InjectorQueueMetrics {
                    enqueue_worker_gone_total: counted(old(self).enqueue_worker_gone_total, 1),
                    ..*old(self)
                }),
                RoomWait::TimedOut => r == Result::<(), EnqueueFailure>::Err(
                    EnqueueFailure::Timeout,
                ) && *final(self) == (InjectorQueueMetrics {
                    enqueue_timeout_total: counted(old(self).enqueue_timeout_total, 1),
                    ..*old(self)
                }),
            },
    {
        match wait {
            RoomWait::Sent { depth } => {
                self.note_queued(depth);
                Ok(())
            },
            RoomWait::Closed => {
                self.note_worker_gone();
                Err(EnqueueFailure::WorkerGone)
            },
            RoomWait::TimedOut => {
                self.note_timeout();
                Err(EnqueueFailure::Timeout)
            },
        }
    }
}

/// The high-water mark of the queue never falls, and every report counts once, as a success
/// or as a failure of its kind.
pub proof fn law_queue_counters(
    m: InjectorQueueMetrics,
    depth: u64,
    queue_wait_ms: u64,
    run_ms: u64,
    kind: Option<InjectionErrorKind>,
)
    requires
        m.worker_success_total < u64::MAX,
        m.worker_failure_total < u64::MAX,
    ensures
        queued_counted(m, depth).queue_depth_high_water >= m.queue_depth_high_water,
        queued_counted(m, depth).queue_depth_high_water >= depth,
        ({
            let n = report_counted(m, queue_wait_ms, run_ms, kind);
            n.worker_success_total + n.worker_failure_total == m.worker_success_total
                + m.worker_failure_total + 1
        }),
{
}

// ---- the virtual keyboard

/// A virtual keyboard that can be used.
#[derive(Debug)]
pub struct HealthyUinputSender<S> {
    pub sender: S,
    pub generation: u64,
    pub created_at_ms: u64,
    pub use_count: u64,
    pub fresh_pending: bool,
    pub recovered_after_failure: bool,
}

/// A virtual keyboard that could not be created.
#[derive(Debug)]
pub struct FailedUinputSender {
    pub last_error: String,
    pub retry_after_ms: u64,
}

/// The virtual keyboard.
#[derive(Debug)]
pub enum UinputSenderState<S> {
    Uninitialized,
    Healthy(HealthyUinputSender<S>),
    CreateFailed(FailedUinputSender),
}

/// Keeps the virtual keyboard from job to job.
#[derive(Debug)]
pub struct UinputSenderManager<S> {
    pub state: UinputSenderState<S>,
    pub next_generation: u64,
}

/// What has happened while a job got its sender ready.
#[derive(Debug, Clone, Copy, PartialEq, Eq, Structural)]
pub struct SenderPreparation {
    pub created_this_job: bool,
    pub create_elapsed_ms: Option<u64>,
    pub recovered_after_failure: bool,
}

impl Default for SenderPreparation {
    /// Nothing has happened.
    fn default() -> (r: SenderPreparation)
        ensures
            r == (SenderPreparation {
                created_this_job: false,
                create_elapsed_ms: None,
                recovered_after_failure: false,
            }),
    {
        SenderPreparation {
            created_this_job: false,
            create_elapsed_ms: None,
            recovered_after_failure: false,
        }
    }
}

/// What to do next to get a sender ready.
#[derive(Debug, PartialEq, Eq)]
pub enum PrepareStep {
    /// Copying needs no sender.
    Disabled,
    /// The sender is still too fresh.
    Sleep { ms: u64 },
    /// Create a virtual keyboard.
    Create,
    /// The sender can be used.
    Ready { metadata: UinputAttemptMetadata },
    /// There is no sender.
    Failed { reason: String },
}

/// The next step for a healthy sender.
pub open spec fn healthy_step<S>(
    h: HealthyUinputSender<S>,
    p: SenderPreparation,
    now_ms: u64,
    warmup_ms: u64,
    r: PrepareStep,
) -> bool {
    let age = between(h.created_at_ms, now_ms);
    if h.fresh_pending && age < warmup_ms {
        r == (PrepareStep::Sleep { ms: (warmup_ms - age) as u64 })
    } else {
        r matches PrepareStep::Ready { metadata } && {
            &&& metadata.generation == h.generation
            &&& metadata.fresh_device == h.fresh_pending
            &&& metadata.device_age_ms_at_attempt == age
            &&& metadata.use_count_before_attempt == h.use_count
            &&& metadata.created_this_job == p.created_this_job
            &&& metadata.create_elapsed_ms == p.create_elapsed_ms
            &&& metadata.last_create_error is None
            &&& metadata.reused_after_failure == h.recovered_after_failure
        }
    }
}

/// The message where no virtual keyboard could be created.
pub open spec fn create_failure(cause: Seq<char>) -> Seq<char> {
    "paste_key_backend=uinput could not initialize /dev/uinput: "@ + cause
}

/// The state after a paste through the sender with this metadata succeeded: one use more, and
/// fresh no longer, if it is still the sender and the use that the metadata speaks of.
pub open spec fn committed<S>(state: UinputSenderState<S>, generation: u64, use_count: u64) ->
    UinputSenderState<S> {
    match state {
        UinputSenderState::Healthy(h) => if h.generation == generation && h.use_count == use_count {
            UinputSenderState::Healthy(
                HealthyUinputSender {
                    fresh_pending: false,
                    use_count: later(h.use_count, 1),
                    ..h
                },
            )
        } else {
            state
        },
        _ => state,
    }
}

/// The state after an injection failed: a healthy sender is dropped where the backend of a
/// paste failed.
pub open spec fn after_failure<S>(
    state: UinputSenderState<S>,
    mode: InjectionMode,
    error: Seq<char>,
) -> UinputSenderState<S> {
    if state is Healthy && mode == InjectionMode::Paste && holds_text(error, "stage=backend"@) {
        UinputSenderState::Uninitialized
    } else {
        state
    }
}

impl<S> UinputSenderManager<S> {
    /// A manager that has no virtual keyboard yet.
    pub fn new() -> (r: UinputSenderManager<S>)
        ensures
            r.state is Uninitialized,
            r.next_generation == 1,
    {
        UinputSenderManager { state: UinputSenderState::Uninitialized, next_generation: 1 }
    }

    /// Says what to do next to get a sender ready for a job.
    pub fn prepare_paste_key_sender(
        &self,
        mode: InjectionMode,
        preparation: &mut SenderPreparation,
        now_ms: u64,
        warmup_ms: u64,
    ) -> (r: PrepareStep)
        ensures
            mode == InjectionMode::CopyOnly ==> r is Disabled && *final(preparation) == *old(
                preparation,
            ),
            mode == InjectionMode::Paste ==> match self.state {
                UinputSenderState::Healthy(h) => *final(preparation) == *old(preparation)
                    && healthy_step(h, *old(preparation), now_ms, warmup_ms, r),
                UinputSenderState::Uninitialized => r is Create && *final(preparation) == *old(
                    preparation,
                ),
                UinputSenderState::CreateFailed(f) => if now_ms < f.retry_after_ms {
                    (r matches PrepareStep::Failed { reason } && reason@ == f.last_error@)
                        && *final(preparation) == *old(preparation)
                } else {
                    r is Create && *final(preparation) == (SenderPreparation {
                        recovered_after_failure: true,
                        ..*old(preparation)
                    })
                },
            },
    {
        if mode == InjectionMode::CopyOnly {
            return PrepareStep::Disabled;
        }
        match &self.state {
            UinputSenderState::Healthy(healthy) => {
                let age: u64 = now_ms.saturating_sub(healthy.created_at_ms);
                if healthy.fresh_pending && age < warmup_ms {
                    PrepareStep::Sleep { ms: warmup_ms - age }
                } else {
                    PrepareStep::Ready {
                        metadata: UinputAttemptMetadata {
                            generation: healthy.generation,
                            fresh_device: healthy.fresh_pending,
                            device_age_ms_at_attempt: age,
                            use_count_before_attempt: healthy.use_count,
                            created_this_job: preparation.created_this_job,
                            create_elapsed_ms: preparation.create_elapsed_ms,
                            last_create_error: None,
                            reused_after_failure: healthy.recovered_after_failure,
                        },
                    }
                }
            },
            UinputSenderState::Uninitialized => PrepareStep::Create,
            UinputSenderState::CreateFailed(failed) => {
                if now_ms < failed.retry_after_ms {
                    PrepareStep::Failed { reason: failed.last_error.as_str().to_owned() }
                } else {
                    preparation.recovered_after_failure = true;
                    PrepareStep::Create
                }
            },
        }
    }

    /// Takes a virtual keyboard that was created for a job.
    pub fn note_created(
        &mut self,
        sender: S,
        preparation: &mut SenderPreparation,
        started_ms: u64,
        now_ms: u64,
    )
        ensures
            final(self).state == UinputSenderState::Healthy(
                HealthyUinputSender {
                    sender,
                    generation: old(self).next_generation,
                    created_at_ms: now_ms,
                    use_count: 0,
                    fresh_pending: true,
                    recovered_after_failure: old(preparation).recovered_after_failure,
                },
            ),
            final(self).next_generation == later(old(self).next_generation, 1),
            *final(preparation) == (SenderPreparation {
                created_this_job: true,
                create_elapsed_ms: Some(between(started_ms, now_ms)),
                ..*old(preparation)
            }),
    {
        let generation: u64 = self.next_generation;
        self.next_generation = self.next_generation.saturating_add(1);
        self.state =
        UinputSenderState::Healthy(
            HealthyUinputSender {
                sender,
                generation,
                created_at_ms: now_ms,
                use_count: 0,
                fresh_pending: true,
                recovered_after_failure: preparation.recovered_after_failure,
            },
        );
        preparation.created_this_job = true;
        preparation.create_elapsed_ms = Some(now_ms.saturating_sub(started_ms));
    }

    /// Notes that no virtual keyboard could be created; gives the reason back.
    pub fn note_create_failed(&mut self, cause: &str, now_ms: u64, backoff_ms: u64) -> (r: String)
        ensures
            r@ == create_failure(cause@),
            final(self).state matches UinputSenderState::CreateFailed(f) && f.last_error@ == r@
                && f.retry_after_ms == later(now_ms, backoff_ms),
            final(self).next_generation == old(self).next_generation,
    {
        let message = cat2(
            "paste_key_backend=uinput could not initialize /dev/uinput: ",
            cause,
        );
        self.state =
        UinputSenderState::CreateFailed(
            FailedUinputSender {
                last_error: message.as_str().to_owned(),
                retry_after_ms: now_ms.saturating_add(backoff_ms),
            },
        );
        message
    }

    /// Notes that a paste through the sender with this metadata succeeded.
    pub fn commit_successful_paste_key_sender(&mut self, metadata: &Option<UinputAttemptMetadata>)
        ensures
            final(self).next_generation == old(self).next_generation,
            final(self).state == match *metadata {
                Some(m) => committed(
                    old(self).state,
                    m.generation,
                    m.use_count_before_attempt,
                ),
                None => old(self).state,
            },
    {
        if let Some(m) = metadata {
            match &mut self.state {
                UinputSenderState::Healthy(healthy) => {
                    if healthy.generation == m.generation && healthy.use_count
                        == m.use_count_before_attempt {
                        healthy.fresh_pending = false;
                        healthy.use_count = healthy.use_count.saturating_add(1);
                    }
                },
                _ => {},
            }
        }
    }

    /// Notes that an injection failed with the given message.
    pub fn note_injection_failed(&mut self, mode: InjectionMode, error: &str)
        ensures
            final(self).next_generation == old(self).next_generation,
            final(self).state == after_failure(old(self).state, mode, error@),
    {
        if mode == InjectionMode::Paste && contains(error, "stage=backend") {
            let healthy: bool = match &self.state {
                UinputSenderState::Healthy(_) => true,
                _ => false,
            };
            if healthy {
                self.state = UinputSenderState::Uninitialized;
            }
        }
    }

    /// Ends a job: a success is committed, a failure may drop the sender.
    pub fn finish_job(
        &mut self,
        mode: InjectionMode,
        prepared: &Option<UinputAttemptMetadata>,
        injected: Result<(), String>,
    ) -> (r: Result<InjectionRunOutput, InjectionRunError>)
        ensures
            final(self).next_generation == old(self).next_generation,
            match injected {
                Ok(_) => (r matches Ok(out) && out.stderr@.len() == 0) && final(self).state
                    == match *prepared {
                    Some(m) => committed(
                        old(self).state,
                        m.generation,
                        m.use_count_before_attempt,
                    ),
                    None => old(self).state,
                },
                Err(m) => r == Result::<InjectionRunOutput, InjectionRunError>::Err(
                    InjectionRunError::BackendFailure(m),
                ) && final(self).state == after_failure(old(self).state, mode, m@),
            },
    {
        match injected {
            Ok(_) => {
                self.commit_successful_paste_key_sender(prepared);
                Ok(InjectionRunOutput { stderr: Vec::new() })
            },
            Err(message) => {
                self.note_injection_failed(mode, message.as_str());
                Err(InjectionRunError::BackendFailure(message))
            },
        }
    }
}

/// Committing the same use twice counts it once.
pub proof fn law_commit_counts_once<S>(state: UinputSenderState<S>, generation: u64, use_count: u64)
    requires
        use_count < u64::MAX,
    ensures
        committed(committed(state, generation, use_count), generation, use_count) == committed(
            state,
            generation,
            use_count,
        ),
{
}

/// A fresh sender is not used before it has warmed up.
pub proof fn law_fresh_sender_waits<S>(
    h: HealthyUinputSender<S>,
    p: SenderPreparation,
    now_ms: u64,
    warmup_ms: u64,
    r: PrepareStep,
)
    requires
        healthy_step(h, p, now_ms, warmup_ms, r),
        r is Ready,
    ensures
        h.fresh_pending ==> between(h.created_at_ms, now_ms) >= warmup_ms,
{
}

/// Sleeping as long as a step says is enough: the step after it does not sleep again.
pub proof fn law_one_warmup_sleep_is_enough<S>(
    h: HealthyUinputSender<S>,
    p: SenderPreparation,
    now_ms: u64,
    warmup_ms: u64,
    ms: u64,
    r: PrepareStep,
)
    requires
        healthy_step(h, p, now_ms, warmup_ms, PrepareStep::Sleep { ms }),
        h.created_at_ms <= now_ms,
        now_ms + ms <= u64::MAX,
        healthy_step(h, p, (now_ms + ms) as u64, warmup_ms, r),
    ensures
        r is Ready,
{
}

/// What to inject with where the paste backend is not available.
#[derive(Debug, PartialEq, Eq)]
pub enum FallbackInjector {
    CopyOnly,
    Fail { message: String },
}

/// Chooses what to inject with where the paste backend is not available.
pub fn backend_failure_fallback(policy: PasteBackendFailurePolicy, reason: String) -> (r:
    FallbackInjector)
    ensures
        r == match policy {
            PasteBackendFailurePolicy::CopyOnly => FallbackInjector::CopyOnly,
            PasteBackendFailurePolicy::Error => FallbackInjector::Fail { message: reason },
        },
{
    match policy {
        PasteBackendFailurePolicy::CopyOnly => FallbackInjector::CopyOnly,
        PasteBackendFailurePolicy::Error => FallbackInjector::Fail { message: reason },
    }
}

/// Where no virtual keyboard can be created, the policy decides, with the reason in words.
pub fn unavailable_backend_fallback(policy: PasteBackendFailurePolicy, cause: &str) -> (r:
    FallbackInjector)
    ensures
        match policy {
            PasteBackendFailurePolicy::CopyOnly => r is CopyOnly,
            PasteBackendFailurePolicy::Error => r matches FallbackInjector::Fail { message }
                && message@ == create_failure(cause@),
        },
{
    let reason = cat2("paste_key_backend=uinput could not initialize /dev/uinput: ", cause);
    backend_failure_fallback(policy, reason)
}

// ---- what jobs are for

/// Times add up and differ as numbers do, as far as they go.
pub proof fn law_times_add_up(a: u64, b: u64)
    ensures
        a + b <= u64::MAX ==> later(a, b) == a + b,
        later(a, b) >= a && later(a, b) >= b,
        a <= b ==> between(a, b) == b - a,
        a >= b ==> between(a, b) == 0,
        a + b <= u64::MAX ==> between(a, later(a, b)) == b,
        later_opt(None, b) is None,
        a + b <= u64::MAX ==> later_opt(Some(a), b) == Some((a + b) as u64),
{
}

/// A run that worked has no failure; any other keeps its kind and its message, and a task that
/// failed says so.
pub proof fn law_failures_keep_kind_and_message(run: WorkerRun)
    ensures
        match run {
            WorkerRun::Ran(Ok(_)) => run_failure(run) is None,
            WorkerRun::Ran(Err(InjectionRunError::BackendFailure(m))) => run_failure(run) == Some(
                (InjectionErrorKind::BackendFailure, m@),
            ),
            WorkerRun::Ran(Err(InjectionRunError::ExecutionTimeout(m))) => run_failure(run) == Some(
                (InjectionErrorKind::ExecutionTimeout, m@),
            ),
            WorkerRun::Ran(Err(InjectionRunError::WorkerTaskFailed(m))) => run_failure(run) == Some(
                (InjectionErrorKind::WorkerTaskFailed, m@),
            ),
            WorkerRun::TaskFailed(m) => run_failure(run) == Some(
                (InjectionErrorKind::WorkerTaskFailed, "injector worker task failed: "@ + m@),
            ),
        },
{
}

/// Every origin has a name of its own.
pub proof fn law_origins_have_their_names(origin: InjectionOrigin)
    ensures
        origin_text(origin) == "raw_final_result"@ <==> origin is RawFinalResult,
        origin_text(origin) == "llm_answer"@ <==> origin is LlmAnswer,
        origin_text(origin) == "demo"@ <==> origin is Demo,
        origin_text(origin) == "unspecified"@ <==> origin is Unspecified,
{
    reveal_strlit("raw_final_result");
    reveal_strlit("llm_answer");
    reveal_strlit("demo");
    reveal_strlit("unspecified");
    assert("raw_final_result"@.len() == 16 && "llm_answer"@.len() == 10 && "demo"@.len() == 4
        && "unspecified"@.len() == 11);
}

/// A report is counted as what it is: a success, or a failure of its kind; its times are added,
/// and nothing of the queue changes.
pub proof fn law_reports_are_counted_by_kind(
    m: InjectorQueueMetrics,
    wait_ms: u64,
    run_ms: u64,
    kind: Option<InjectionErrorKind>,
)
    requires
        m.worker_success_total < u64::MAX,
        m.worker_failure_total < u64::MAX,
        m.worker_backend_failure_total < u64::MAX,
        m.worker_execution_timeout_total < u64::MAX,
        m.worker_task_failed_total < u64::MAX,
        m.worker_queue_wait_ms_total + wait_ms <= u64::MAX,
        m.worker_run_ms_total + run_ms <= u64::MAX,
    ensures
        ({
            let n = report_counted(m, wait_ms, run_ms, kind);
            &&& n.worker_queue_wait_ms_total == m.worker_queue_wait_ms_total + wait_ms
            &&& n.worker_run_ms_total == m.worker_run_ms_total + run_ms
            &&& kind is None <==> n.worker_success_total == m.worker_success_total + 1
            &&& kind is Some <==> n.worker_failure_total == m.worker_failure_total + 1
            &&& kind == Some(InjectionErrorKind::BackendFailure) <==> n.worker_backend_failure_total
                == m.worker_backend_failure_total + 1
            &&& kind == Some(InjectionErrorKind::ExecutionTimeout)
                <==> n.worker_execution_timeout_total == m.worker_execution_timeout_total + 1
            &&& kind == Some(InjectionErrorKind::WorkerTaskFailed) <==> n.worker_task_failed_total
                == m.worker_task_failed_total + 1
            &&& n.queued_total == m.queued_total
            &&& n.queue_depth_high_water == m.queue_depth_high_water
            &&& n.enqueue_blocked_total == m.enqueue_blocked_total
            &&& n.enqueue_timeout_total == m.enqueue_timeout_total
            &&& n.enqueue_worker_gone_total == m.enqueue_worker_gone_total
        }),
{
}

/// A queued job is counted once, and the mark of the deepest queue is the greatest depth seen.
pub proof fn law_queued_jobs_are_counted(m: InjectorQueueMetrics, depth: u64)
    requires
        m.queued_total < u64::MAX,
    ensures
        queued_counted(m, depth).queued_total == m.queued_total + 1,
        queued_counted(m, depth).queue_depth_high_water == m.queue_depth_high_water
            || queued_counted(m, depth).queue_depth_high_water == depth,
        queued_counted(m, depth).queue_depth_high_water >= depth,
        queued_counted(m, depth).queue_depth_high_water >= m.queue_depth_high_water,
        queued_counted(m, depth).worker_success_total == m.worker_success_total,
        queued_counted(m, depth).worker_failure_total == m.worker_failure_total,
{
}

/// A keyboard is used with what is known of it, once it is warm; a fresh one sleeps for just the
/// time that is missing.
pub proof fn law_warm_keyboard_is_used<S>(
    h: HealthyUinputSender<S>,
    p: SenderPreparation,
    now_ms: u64,
    warmup_ms: u64,
    r: PrepareStep,
)
    requires
        healthy_step(h, p, now_ms, warmup_ms, r),
        h.created_at_ms <= now_ms,
    ensures
        !h.fresh_pending || now_ms - h.created_at_ms >= warmup_ms ==> (r matches PrepareStep::Ready {
            metadata,
        } && metadata.generation == h.generation && metadata.fresh_device == h.fresh_pending
            && metadata.use_count_before_attempt == h.use_count
            && metadata.device_age_ms_at_attempt == now_ms - h.created_at_ms
            && metadata.created_this_job == p.created_this_job && metadata.reused_after_failure
            == h.recovered_after_failure),
        h.fresh_pending && now_ms - h.created_at_ms < warmup_ms ==> (r matches PrepareStep::Sleep {
            ms,
        } && now_ms + ms == h.created_at_ms + warmup_ms),
{
}

/// A use that is committed makes the keyboard warm and used once more, and it stays the same
/// keyboard; a use of another keyboard, or an older use, changes nothing.
pub proof fn law_committed_use_warms_the_keyboard<S>(
    h: HealthyUinputSender<S>,
    generation: u64,
    use_count: u64,
)
    requires
        h.use_count < u64::MAX,
    ensures
        h.generation == generation && h.use_count == use_count ==> (committed(
            UinputSenderState::Healthy(h),
            generation,
            use_count,
        ) matches UinputSenderState::Healthy(n) && !n.fresh_pending && n.use_count == h.use_count
            + 1 && n.generation == h.generation && n.sender == h.sender && n.created_at_ms
            == h.created_at_ms),
        h.generation != generation || h.use_count != use_count ==> committed(
            UinputSenderState::Healthy(h),
            generation,
            use_count,
        ) == UinputSenderState::Healthy(h),
{
}

/// A keyboard is dropped exactly where a paste failed in the backend; a copy, or another failure,
/// keeps it.
pub proof fn law_broken_keyboard_is_dropped<S>(
    h: HealthyUinputSender<S>,
    mode: InjectionMode,
    error: Seq<char>,
)
    ensures
        mode == InjectionMode::Paste && holds_text(error, "stage=backend"@) ==> after_failure(
            UinputSenderState::Healthy(h),
            mode,
            error,
        ) is Uninitialized,
        mode == InjectionMode::CopyOnly || !holds_text(error, "stage=backend"@) ==> after_failure(
            UinputSenderState::Healthy(h),
            mode,
            error,
        ) == UinputSenderState::Healthy(h),
        create_failure(error) == "paste_key_backend=uinput could not initialize /dev/uinput: "@
            + error,
{
}

// ---- what calls do to jobs and the queue

/// The report of a job is about that job, and its times add up: what was waited and what was run
/// is what it took, counted on top of what had passed when it was queued.
pub proof fn law_report_is_about_its_job(
    job: &InjectionJob,
    started_ms: u64,
    finished_ms: u64,
    run: WorkerRun,
    r: InjectionReport,
)
    requires
        call_ensures(worker_report, (job, started_ms, finished_ms, run), r),
        job.enqueued_at_ms <= started_ms <= finished_ms,
    ensures
        r.session_id == job.session_id && r.origin == job.origin,
        r.daemon_latency_ms == job.daemon_latency_ms && r.daemon_audio_ms == job.daemon_audio_ms,
        r.queue_wait_ms == started_ms - job.enqueued_at_ms,
        r.run_ms == finished_ms - started_ms,
        r.total_worker_ms == finished_ms - job.enqueued_at_ms,
        r.enqueue_to_injection_complete_ms == r.total_worker_ms,
        job.hotkey_up_elapsed_ms_at_enqueue is Some <==> r.hotkey_up_elapsed_ms_at_worker_start
            is Some,
        job.hotkey_up_elapsed_ms_at_enqueue matches Some(t) ==> t + r.total_worker_ms <= u64::MAX
            ==> r.hotkey_up_elapsed_ms_at_worker_start == Some((t + r.queue_wait_ms) as u64)
            && r.hotkey_up_elapsed_ms_at_completion == Some((t + r.total_worker_ms) as u64),
        job.stop_message_elapsed_ms_at_enqueue matches Some(t) ==> t + r.total_worker_ms
            <= u64::MAX ==> r.stop_message_elapsed_ms_at_worker_start == Some(
            (t + r.queue_wait_ms) as u64,
        ),
{
}

/// What is told to the injector is what the job holds; the focus leaves the job with it, and
/// nothing else does.
pub proof fn law_context_is_that_of_the_job()
    ensures
        forall|job: &mut InjectionJob, r: InjectorContext| #[trigger]
            call_ensures(take_context, (job,), r) ==> {
                &&& r.session_id == job.session_id
                &&& r.parent_focus == job.parent_focus
                &&& r.hotkey_up_elapsed_ms_at_enqueue == job.hotkey_up_elapsed_ms_at_enqueue
                &&& r.stop_message_elapsed_ms_at_enqueue == job.stop_message_elapsed_ms_at_enqueue
                &&& final(job).parent_focus is None
                &&& final(job).text == job.text && final(job).session_id == job.session_id
                    && final(job).origin == job.origin
            },
{
}

/// A job counts as queued just where it was handed over, at once or after a wait for room; a
/// worker that is gone and a wait that was too long are counted as what they are.
pub proof fn law_handing_over_is_counted(depth: u64, sent: TrySend, wait: RoomWait)
    ensures
        forall|m: &mut InjectorQueueMetrics, r: EnqueueNext| #[trigger]
            call_ensures(InjectorQueueMetrics::after_try_send, (m, depth, sent), r) ==> {
                &&& r is Queued <==> sent is Sent
                &&& r is WaitForRoom <==> sent is Full
                &&& r is Failed <==> sent is Closed
                &&& final(m).queued_total == m.queued_total <==> !(sent is Sent)
                &&& final(m).enqueue_blocked_total == m.enqueue_blocked_total <==> !(sent is Full)
                &&& final(m).enqueue_worker_gone_total == m.enqueue_worker_gone_total <==> !(sent
                    is Closed)
                &&& final(m).enqueue_timeout_total == m.enqueue_timeout_total
            },
        forall|m: &mut InjectorQueueMetrics, r: Result<(), EnqueueFailure>| #[trigger]
            call_ensures(InjectorQueueMetrics::after_room_wait, (m, wait), r) ==> {
                &&& r is Ok <==> wait is Sent
                &&& r == Err::<(), EnqueueFailure>(EnqueueFailure::WorkerGone) <==> wait is Closed
                &&& r == Err::<(), EnqueueFailure>(EnqueueFailure::Timeout) <==> wait is TimedOut
                &&& final(m).queued_total == m.queued_total <==> !(wait is Sent)
                &&& final(m).enqueue_timeout_total == m.enqueue_timeout_total <==> !(wait
                    is TimedOut)
                &&& final(m).enqueue_worker_gone_total == m.enqueue_worker_gone_total <==> !(wait
                    is Closed)
                &&& final(m).enqueue_blocked_total == m.enqueue_blocked_total
            },
{
}

/// Where the keyboard is not to be had, the policy decides whether the text is copied or the job
/// fails, and it fails with the reason.
pub proof fn law_policy_decides(
    policy: PasteBackendFailurePolicy,
    reason: String,
    r: FallbackInjector,
)
    requires
        call_ensures(backend_failure_fallback, (policy, reason), r),
    ensures
        r is CopyOnly <==> policy == PasteBackendFailurePolicy::CopyOnly,
        r matches FallbackInjector::Fail { message } ==> message@ == reason@,
{
}

/// What is added to a job is in it afterwards, and nothing else is changed.
pub proof fn law_job_is_built_step_by_step(
    job: InjectionJob,
    origin: InjectionOrigin,
    hotkey_up: Option<u64>,
    stop: Option<u64>,
    focus: Option<ParentFocusCapture>,
    a: InjectionJob,
    b: InjectionJob,
    c: InjectionJob,
)
    requires
        call_ensures(InjectionJob::with_origin, (job, origin), a),
        call_ensures(InjectionJob::with_enqueue_timing, (a, hotkey_up, stop), b),
        call_ensures(InjectionJob::with_parent_focus, (b, focus), c),
    ensures
        c.origin == origin,
        c.hotkey_up_elapsed_ms_at_enqueue == hotkey_up,
        c.stop_message_elapsed_ms_at_enqueue == stop,
        c.parent_focus == focus,
        c.text == job.text && c.session_id == job.session_id,
        c.daemon_latency_ms == job.daemon_latency_ms && c.daemon_audio_ms == job.daemon_audio_ms,
        c.enqueued_at_ms == job.enqueued_at_ms,
{
}

/// A keyboard that could not be created is not asked for again before its time, and the reason is
/// given meanwhile; afterwards it is.
pub proof fn law_failed_keyboard_is_asked_for_later<S>(
    mode: InjectionMode,
    now_ms: u64,
    warmup_ms: u64,
)
    requires
        mode == InjectionMode::Paste,
    ensures
        forall|
            m: &UinputSenderManager<S>,
            preparation: &mut SenderPreparation,
            r: PrepareStep,
        | #[trigger]
            call_ensures(
                UinputSenderManager::<S>::prepare_paste_key_sender,
                (m, mode, preparation, now_ms, warmup_ms),
                r,
            ) ==> (m.state matches UinputSenderState::CreateFailed(f) ==> {
                &&& r is Create <==> f.retry_after_ms <= now_ms
                &&& r is Failed <==> now_ms < f.retry_after_ms
                &&& r matches PrepareStep::Failed { reason } ==> reason@ == f.last_error@
            }) && (m.state is Uninitialized ==> r is Create),
{
}

/// A job that went well is reported so, and one that failed with its message.
pub proof fn law_end_of_job_is_reported<S>(
    mode: InjectionMode,
    prepared: &Option<UinputAttemptMetadata>,
    injected: Result<(), String>,
)
    ensures
        forall|
            m: &mut UinputSenderManager<S>,
            r: Result<InjectionRunOutput, InjectionRunError>,
        | #[trigger]
            call_ensures(
                UinputSenderManager::<S>::finish_job,
                (m, mode, prepared, injected),
                r,
            ) ==> {
                &&& r is Ok <==> injected is Ok
                &&& injected matches Err(why) ==> r == Err::<InjectionRunOutput, InjectionRunError>(
                    InjectionRunError::BackendFailure(why),
                )
                &&& final(m).next_generation == m.next_generation
            },
{
}

} // verus!
