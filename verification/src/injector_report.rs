//! What helper processes leave behind and what is logged of an injection.
use vstd::prelude::*;
use vstd::utf8::{decode_utf8, valid_utf8};

use crate::injector::{BackendAttemptReport, INJECTOR_SUBPROCESS_POLL_INTERVAL_MS};
use crate::injector_runtime::{
    between, InjectionRunError, InjectionRunOutput, INJECTOR_SUBPROCESS_STDERR_LOG_LINE_LIMIT,
};
use crate::text::{
    ascending, begins_with, cat2, cat3, chars_of, decimal, insert_in_order, join, joined,
    opt_string, print_u64, strip_prefix, texts, trim, trimmed,
};

verus! {

/// The text that `String::from_utf8_lossy` makes of bytes.
pub uninterp spec fn lossy_text(bytes: Seq<u8>) -> Seq<char>;

/// The text of bytes, with replacement characters where they are not UTF-8.
///
/// Calls `String::from_utf8_lossy`. The contract names the text, and says of it what std
/// documents: bytes that are UTF-8 give the text that they encode.
#[verifier::external_body]
pub(crate) fn lossy(bytes: &Vec<u8>) -> (r: String)
    ensures
        r@ == lossy_text(bytes@),
        valid_utf8(bytes@) ==> r@ == decode_utf8(bytes@),
{
    String::from_utf8_lossy(bytes).into_owned()
}

// ---- failures with what was on standard error

/// A message with what was on standard error behind it, where there was anything.
pub open spec fn with_stderr(message: Seq<char>, stderr: Seq<char>) -> Seq<char> {
    if trim(stderr).len() == 0 {
        message
    } else {
        message + "; stderr: "@ + trim(stderr)
    }
}

/// A message with what was on standard error behind it, where there was anything.
fn append_stderr(message: String, stderr: &str) -> (r: String)
    ensures
        r@ == with_stderr(message@, stderr@),
{
    let shown = trimmed(stderr);
    if shown.as_str().is_empty() {
        message
    } else {
        cat3(message.as_str(), "; stderr: ", shown.as_str())
    }
}

/// A failure with the text of standard error behind its message.
pub fn enrich_run_error(error: InjectionRunError, stderr_text: &str) -> (r: InjectionRunError)
    ensures
        r.kind_of() == error.kind_of(),
        r.text() == with_stderr(error.text(), stderr_text@),
{
    match error {
        InjectionRunError::BackendFailure(m) => InjectionRunError::BackendFailure(
            append_stderr(m, stderr_text),
        ),
        InjectionRunError::ExecutionTimeout(m) => InjectionRunError::ExecutionTimeout(
            append_stderr(m, stderr_text),
        ),
        InjectionRunError::WorkerTaskFailed(m) => InjectionRunError::WorkerTaskFailed(
            append_stderr(m, stderr_text),
        ),
    }
}

/// A failure with what was on standard error behind its message.
pub fn enrich_run_error_with_stderr(error: InjectionRunError, stderr: &Vec<u8>) -> (r:
    InjectionRunError)
    ensures
        r.kind_of() == error.kind_of(),
        r.text() == with_stderr(error.text(), lossy_text(stderr@)),
{
    let text = lossy(stderr);
    enrich_run_error(error, text.as_str())
}

/// The message where a helper process exited with a bad status.
pub open spec fn child_failure(status: Seq<char>, stderr: Seq<char>) -> Seq<char> {
    if trim(stderr).len() == 0 {
        "injector subprocess exited with status "@ + status
    } else {
        "injector subprocess exited with status "@ + status + ": "@ + trim(stderr)
    }
}

/// The message where a helper process exited with a bad status and this on standard error.
pub fn child_failure_text(status: &str, stderr_text: &str) -> (r: String)
    ensures
        r@ == child_failure(status@, stderr_text@),
{
    let shown = trimmed(stderr_text);
    let mut out = cat2("injector subprocess exited with status ", status);
    if !shown.as_str().is_empty() {
        out.push_str(": ");
        out.push_str(shown.as_str());
    }
    out
}

/// The message where a helper process exited with a bad status.
pub fn format_child_failure(status: &str, stderr: &Vec<u8>) -> (r: String)
    ensures
        r@ == child_failure(status@, lossy_text(stderr@)),
{
    let text = lossy(stderr);
    child_failure_text(status, text.as_str())
}

/// What was read from a pipe.
#[derive(Debug, PartialEq, Eq)]
pub struct PipeReadOutcome {
    pub bytes: Vec<u8>,
    pub timed_out: bool,
}

/// How a helper process ended.
#[derive(Debug, PartialEq, Eq)]
pub enum ChildExit {
    Success,
    /// It exited with a status that is not success.
    Failure { status: String },
    /// It did not exit in time, or could not be asked.
    NotExited(InjectionRunError),
}

/// The result of a job that ran in a helper process.
pub fn subprocess_result(exit: ChildExit, stderr: Result<PipeReadOutcome, String>) -> (r: Result<
    InjectionRunOutput,
    InjectionRunError,
>)
    ensures
        match stderr {
            Err(m) => r == Result::<InjectionRunOutput, InjectionRunError>::Err(
                InjectionRunError::WorkerTaskFailed(m),
            ),
            Ok(read) => match exit {
                ChildExit::Success => r == Result::<InjectionRunOutput, InjectionRunError>::Ok(
                    InjectionRunOutput { stderr: read.bytes },
                ),
                ChildExit::Failure { status } => r matches Err(
                    InjectionRunError::BackendFailure(m),
                ) && m@ == child_failure(status@, lossy_text(read.bytes@)),
                ChildExit::NotExited(e) => r matches Err(f) && f.kind_of() == e.kind_of()
                    && f.text() == with_stderr(e.text(), lossy_text(read.bytes@)),
            },
        },
{
    match stderr {
        Err(m) => Err(InjectionRunError::WorkerTaskFailed(m)),
        Ok(read) => match exit {
            ChildExit::Success => Ok(InjectionRunOutput { stderr: read.bytes }),
            ChildExit::Failure { status } => Err(
                InjectionRunError::BackendFailure(
                    format_child_failure(status.as_str(), &read.bytes),
                ),
            ),
            ChildExit::NotExited(e) => Err(enrich_run_error_with_stderr(e, &read.bytes)),
        },
    }
}

// ---- reading a pipe whose deadline starts late

/// What a read from the pipe gave.
#[derive(Debug)]
pub enum PipeRead {
    End,
    Bytes(Vec<u8>),
    Interrupted,
    WouldBlock,
    Failed,
}

/// What to do next with the pipe.
#[derive(Debug, Clone, Copy, PartialEq, Eq, Structural)]
pub enum PipeStep {
    /// Read from it.
    Read,
    /// Wait until it can be read, but no longer than this.
    Wait { ms: u64 },
    /// All has been read, or the time is up.
    Finished { timed_out: bool },
    /// Reading failed.
    Failed,
}

/// Reads a pipe to its end, or until a time has passed since its deadline was started.
#[derive(Debug)]
pub struct PipeDrain {
    timeout_ms: u64,
    started_at_ms: Option<u64>,
    bytes: Vec<u8>,
}

/// A pipe that is being read, mathematically.
pub struct PipeModel {
    pub timeout_ms: u64,
    pub started_at_ms: Option<u64>,
    pub bytes: Seq<u8>,
}

/// The pipe with its deadline started at the latest now, if it has been started.
pub open spec fn deadline_noted(m: PipeModel, deadline_started: bool, now_ms: u64) -> PipeModel {
    if deadline_started && m.started_at_ms is None {
        PipeModel { started_at_ms: Some(now_ms), ..m }
    } else {
        m
    }
}

/// Whether the time is up.
pub open spec fn deadline_passed(m: PipeModel, deadline_started: bool, now_ms: u64) -> bool {
    deadline_started && m.started_at_ms is Some && between(m.started_at_ms->0, now_ms)
        >= m.timeout_ms
}

impl PipeDrain {
    /// The pipe, mathematically.
    pub closed spec fn model(self) -> PipeModel {
        PipeModel {
            timeout_ms: self.timeout_ms,
            started_at_ms: self.started_at_ms,
            bytes: self.bytes@,
        }
    }

    /// A pipe of which nothing has been read.
    pub fn new(timeout_ms: u64) -> (r: PipeDrain)
        ensures
            r.model() == (PipeModel { timeout_ms, started_at_ms: None, bytes: Seq::empty() }),
    {
        PipeDrain { timeout_ms, started_at_ms: None, bytes: Vec::new() }
    }

    /// Starts the clock of the deadline where it has been asked for.
    fn note_deadline(&mut self, deadline_started: bool, now_ms: u64)
        ensures
            final(self).model() == deadline_noted(old(self).model(), deadline_started, now_ms),
    {
        if deadline_started && self.started_at_ms.is_none() {
            self.started_at_ms = Some(now_ms);
        }
    }

    /// Before a read: whether the time is up.
    pub fn before_read(&mut self, deadline_started: bool, now_ms: u64) -> (r: PipeStep)
        ensures
            final(self).model() == deadline_noted(old(self).model(), deadline_started, now_ms),
            r == (if deadline_passed(final(self).model(), deadline_started, now_ms) {
                PipeStep::Finished { timed_out: true }
            } else {
                PipeStep::Read
            }),
    {
        self.note_deadline(deadline_started, now_ms);
        if deadline_started {
            if let Some(started) = self.started_at_ms {
                if now_ms.saturating_sub(started) >= self.timeout_ms {
                    return PipeStep::Finished { timed_out: true };
                }
            }
        }
        PipeStep::Read
    }

    /// After a read: keeps what came, or waits for more.
    pub fn after_read(&mut self, read: PipeRead, deadline_started: bool, now_ms: u64) -> (r:
        PipeStep)
        ensures
            match read {
                PipeRead::End => final(self).model() == old(self).model() && r
                    == (PipeStep::Finished { timed_out: false }),
                PipeRead::Bytes(more) => final(self).model() == (PipeModel {
                    bytes: old(self).model().bytes + more@,
                    ..old(self).model()
                }) && r == PipeStep::Read,
                PipeRead::Interrupted => final(self).model() == old(self).model() && r
                    == PipeStep::Read,
                PipeRead::WouldBlock => {
                    let m = deadline_noted(old(self).model(), deadline_started, now_ms);
                    &&& final(self).model() == m
                    &&& r == (if !deadline_started {
                        PipeStep::Wait { ms: INJECTOR_SUBPROCESS_POLL_INTERVAL_MS }
                    } else if between(m.started_at_ms->0, now_ms) > m.timeout_ms {
                        PipeStep::Finished { timed_out: true }
                    } else {
                        PipeStep::Wait {
                            ms: (m.timeout_ms - between(m.started_at_ms->0, now_ms)) as u64,
                        }
                    })
                },
                PipeRead::Failed => final(self).model() == old(self).model() && r
                    == PipeStep::Failed,
            },
    {
        match read {
            PipeRead::End => PipeStep::Finished { timed_out: false },
            PipeRead::Bytes(more) => {
                let ghost before = self.bytes@;
                let mut i: usize = 0;
                while i < more.len()
                    invariant
                        i <= more@.len(),
                        self.bytes@ == before + more@.take(i as int),
                        self.timeout_ms == old(self).timeout_ms,
                        self.started_at_ms == old(self).started_at_ms,
                    decreases more@.len() - i,
                {
                    self.bytes.push(more[i]);
                    i = i + 1;
                    assert(self.bytes@ =~= before + more@.take(i as int));
                }
                assert(more@.take(i as int) =~= more@);
                PipeStep::Read
            },
            PipeRead::Interrupted => PipeStep::Read,
            PipeRead::WouldBlock => {
                self.note_deadline(deadline_started, now_ms);
                if !deadline_started {
                    return PipeStep::Wait { ms: INJECTOR_SUBPROCESS_POLL_INTERVAL_MS };
                }
                match self.started_at_ms {
                    Some(started) => {
                        let passed: u64 = now_ms.saturating_sub(started);
                        if passed > self.timeout_ms {
                            PipeStep::Finished { timed_out: true }
                        } else {
                            PipeStep::Wait { ms: self.timeout_ms - passed }
                        }
                    },
                    None => PipeStep::Read,
                }
            },
            PipeRead::Failed => PipeStep::Failed,
        }
    }

    /// After a wait: whether the pipe can be read, or the time is up.
    pub fn after_wait(&self, ready: bool, deadline_started: bool) -> (r: PipeStep)
        ensures
            r == (if !ready && deadline_started {
                PipeStep::Finished { timed_out: true }
            } else {
                PipeStep::Read
            }),
    {
        if !ready && deadline_started {
            PipeStep::Finished { timed_out: true }
        } else {
            PipeStep::Read
        }
    }

    /// What was read.
    pub fn finish(self, timed_out: bool) -> (r: PipeReadOutcome)
        ensures
            r.bytes@ == self.model().bytes,
            r.timed_out == timed_out,
    {
        PipeReadOutcome { bytes: self.bytes, timed_out }
    }
}

/// The time of a pipe is never up before its deadline is started.
pub proof fn law_no_timeout_before_deadline_starts(m: PipeModel, now_ms: u64)
    ensures
        !deadline_passed(deadline_noted(m, false, now_ms), false, now_ms),
{
}

// ---- summaries of attempts

/// A labelled part of a summary, where there is something to say.
pub open spec fn part(label: Seq<char>, value: Option<Seq<char>>) -> Seq<char> {
    match value {
        Some(v) => label + v,
        None => Seq::empty(),
    }
}

/// A number that may be missing, in decimal.
pub open spec fn number_text(n: Option<u64>) -> Option<Seq<char>> {
    match n {
        Some(v) => Some(decimal(v as nat)),
        None => None,
    }
}

/// A flag that may be missing, as a digit.
pub open spec fn flag_text(b: Option<bool>) -> Option<Seq<char>> {
    match b {
        Some(v) => Some(
            if v {
                "1"@
            } else {
                "0"@
            },
        ),
        None => None,
    }
}

/// The warning tags of an attempt, where it has any.
pub open spec fn warning_text(tags: Seq<String>) -> Option<Seq<char>> {
    if tags.len() == 0 {
        None
    } else {
        Some(joined(texts(tags), ","@))
    }
}

/// One line about an attempt.
pub open spec fn attempt_summary(a: BackendAttemptReport) -> Seq<char> {
    a.route_attempt_name@ + ":"@ + a.backend@ + ":"@ + a.status@ + ":"@ + decimal(
        a.duration_ms as nat,
    ) + "ms"@ + part(":exit="@, opt_string(a.exit_status)) + part(
        ":warn="@,
        warning_text(a.warning_tags@),
    ) + part(":cfg="@, opt_string(a.backend_config)) + part(
        ":ugen="@,
        number_text(a.uinput_sender_generation),
    ) + part(":ufresh="@, flag_text(a.uinput_fresh_device)) + part(
        ":uage_ms="@,
        number_text(a.uinput_device_age_ms_at_attempt),
    ) + part(":uuse="@, number_text(a.uinput_use_count_before_attempt)) + part(
        ":ucreated_this_job="@,
        flag_text(a.uinput_created_this_job),
    ) + part(":ucreate_ms="@, number_text(a.uinput_create_elapsed_ms)) + part(
        ":urecovered="@,
        flag_text(a.uinput_reused_after_failure),
    ) + part(":uerr="@, opt_string(a.uinput_last_create_error)) + part(
        ":stderr="@,
        opt_string(a.stderr_excerpt),
    ) + part(":"@, opt_string(a.error))
}

/// Adds a labelled text.
fn push_text(out: &mut String, label: &str, value: &Option<String>)
    ensures
        final(out)@ == old(out)@ + part(label@, opt_string(*value)),
{
    let ghost before = out@;
    match value {
        Some(v) => {
            out.push_str(label);
            out.push_str(v.as_str());
        },
        None => {},
    }
    assert(out@ =~= before + part(label@, opt_string(*value)));
}

/// Adds a labelled number.
fn push_number(out: &mut String, label: &str, value: Option<u64>)
    ensures
        final(out)@ == old(out)@ + part(label@, number_text(value)),
{
    let ghost before = out@;
    match value {
        Some(v) => {
            let n = print_u64(v);
            out.push_str(label);
            out.push_str(n.as_str());
        },
        None => {},
    }
    assert(out@ =~= before + part(label@, number_text(value)));
}

/// Adds a labelled flag.
fn push_flag(out: &mut String, label: &str, value: Option<bool>)
    ensures
        final(out)@ == old(out)@ + part(label@, flag_text(value)),
{
    let ghost before = out@;
    match value {
        Some(v) => {
            out.push_str(label);
            if v {
                out.push_str("1");
            } else {
                out.push_str("0");
            }
        },
        None => {},
    }
    assert(out@ =~= before + part(label@, flag_text(value)));
}

/// One line about an attempt.
pub fn summarize_attempt(attempt: &BackendAttemptReport) -> (r: String)
    ensures
        r@ == attempt_summary(*attempt),
{
    let duration = print_u64(attempt.duration_ms);
    let warnings: Option<String> = if attempt.warning_tags.len() == 0 {
        None
    } else {
        Some(join(&attempt.warning_tags, ","))
    };
    let mut out: String = attempt.route_attempt_name.as_str().to_owned();
    out.push_str(":");
    out.push_str(attempt.backend.as_str());
    out.push_str(":");
    out.push_str(attempt.status.as_str());
    out.push_str(":");
    out.push_str(duration.as_str());
    out.push_str("ms");
    push_text(&mut out, ":exit=", &attempt.exit_status);
    push_text(&mut out, ":warn=", &warnings);
    push_text(&mut out, ":cfg=", &attempt.backend_config);
    push_number(&mut out, ":ugen=", attempt.uinput_sender_generation);
    push_flag(&mut out, ":ufresh=", attempt.uinput_fresh_device);
    push_number(&mut out, ":uage_ms=", attempt.uinput_device_age_ms_at_attempt);
    push_number(&mut out, ":uuse=", attempt.uinput_use_count_before_attempt);
    push_flag(&mut out, ":ucreated_this_job=", attempt.uinput_created_this_job);
    push_number(&mut out, ":ucreate_ms=", attempt.uinput_create_elapsed_ms);
    push_flag(&mut out, ":urecovered=", attempt.uinput_reused_after_failure);
    push_text(&mut out, ":uerr=", &attempt.uinput_last_create_error);
    push_text(&mut out, ":stderr=", &attempt.stderr_excerpt);
    push_text(&mut out, ":", &attempt.error);
    out
}

/// The summaries of all attempts, in order.
pub open spec fn attempt_summaries(attempts: Seq<BackendAttemptReport>) -> Seq<Seq<char>> {
    Seq::new(attempts.len(), |i: int| attempt_summary(attempts[i]))
}

/// One line about all attempts.
pub fn summarize_backend_attempts(attempts: &Vec<BackendAttemptReport>) -> (r: String)
    ensures
        r@ == joined(attempt_summaries(attempts@), " | "@),
{
    let mut lines: Vec<String> = Vec::new();
    let mut i: usize = 0;
    while i < attempts.len()
        invariant
            i <= attempts@.len(),
            texts(lines@) == attempt_summaries(attempts@).take(i as int),
        decreases attempts@.len() - i,
    {
        let line = summarize_attempt(&attempts[i]);
        let ghost before = texts(lines@);
        lines.push(line);
        i = i + 1;
        assert(texts(lines@) =~= before.push(line@));
        assert(texts(lines@) =~= attempt_summaries(attempts@).take(i as int));
    }
    assert(texts(lines@) =~= attempt_summaries(attempts@));
    join(&lines, " | ")
}

/// For each attempt from the first to `n` that has the value, its backend and the value.
pub open spec fn labelled(
    attempts: Seq<BackendAttemptReport>,
    value: spec_fn(BackendAttemptReport) -> Option<Seq<char>>,
    n: int,
) -> Seq<Seq<char>>
    decreases n,
{
    if n <= 0 {
        Seq::empty()
    } else {
        let rest = labelled(attempts, value, n - 1);
        match value(attempts[n - 1]) {
            Some(v) => rest.push(attempts[n - 1].backend@ + ":"@ + v),
            None => rest,
        }
    }
}

/// The exit status of an attempt.
pub open spec fn exit_of() -> spec_fn(BackendAttemptReport) -> Option<Seq<char>> {
    |a: BackendAttemptReport| opt_string(a.exit_status)
}

/// What an attempt left on standard error.
pub open spec fn stderr_of() -> spec_fn(BackendAttemptReport) -> Option<Seq<char>> {
    |a: BackendAttemptReport| opt_string(a.stderr_excerpt)
}

/// The exit statuses of the attempts that have one.
pub fn summarize_backend_exit_statuses(attempts: &Vec<BackendAttemptReport>) -> (r: String)
    ensures
        r@ == joined(labelled(attempts@, exit_of(), attempts@.len() as int), " | "@),
{
    let mut lines: Vec<String> = Vec::new();
    let mut i: usize = 0;
    assert(texts(lines@) =~= labelled(attempts@, exit_of(), 0));
    while i < attempts.len()
        invariant
            i <= attempts@.len(),
            texts(lines@) == labelled(attempts@, exit_of(), i as int),
        decreases attempts@.len() - i,
    {
        let ghost before = texts(lines@);
        match &attempts[i].exit_status {
            Some(v) => {
                let line = cat3(attempts[i].backend.as_str(), ":", v.as_str());
                lines.push(line);
                assert(texts(lines@) =~= before.push(line@));
            },
            None => {},
        }
        i = i + 1;
    }
    join(&lines, " | ")
}

/// What the attempts left on standard error, where they left something.
pub fn summarize_backend_stderr_excerpts(attempts: &Vec<BackendAttemptReport>) -> (r: String)
    ensures
        r@ == joined(labelled(attempts@, stderr_of(), attempts@.len() as int), " | "@),
{
    let mut lines: Vec<String> = Vec::new();
    let mut i: usize = 0;
    assert(texts(lines@) =~= labelled(attempts@, stderr_of(), 0));
    while i < attempts.len()
        invariant
            i <= attempts@.len(),
            texts(lines@) == labelled(attempts@, stderr_of(), i as int),
        decreases attempts@.len() - i,
    {
        let ghost before = texts(lines@);
        match &attempts[i].stderr_excerpt {
            Some(v) => {
                let line = cat3(attempts[i].backend.as_str(), ":", v.as_str());
                lines.push(line);
                assert(texts(lines@) =~= before.push(line@));
            },
            None => {},
        }
        i = i + 1;
    }
    join(&lines, " | ")
}

/// Whether one of the first `n` attempts has the tag.
pub open spec fn has_tag(attempts: Seq<BackendAttemptReport>, n: int, tag: Seq<char>) -> bool {
    exists|i: int, j: int|
        0 <= i < n && 0 <= j < attempts[i].warning_tags@.len()
            && #[trigger] attempts[i].warning_tags@[j]@ == tag
}

/// What a set of tags reads as.
pub open spec fn tags_text(tags: Seq<Seq<char>>) -> Seq<char> {
    if tags.len() == 0 {
        "none"@
    } else {
        joined(tags, ","@)
    }
}

/// The warning tags of all attempts, each once, in order.
pub fn summarize_backend_warning_tags(attempts: &Vec<BackendAttemptReport>) -> (r: String)
    ensures
        exists|tags: Seq<Seq<char>>|
            ascending(tags) && (forall|t: Seq<char>| #[trigger]
                tags.contains(t) <==> has_tag(attempts@, attempts@.len() as int, t)) && r@
                == #[trigger] tags_text(tags),
{
    let mut tags: Vec<String> = Vec::new();
    let mut i: usize = 0;
    while i < attempts.len()
        invariant
            i <= attempts@.len(),
            ascending(texts(tags@)),
            forall|t: Seq<char>| #[trigger]
                texts(tags@).contains(t) <==> has_tag(attempts@, i as int, t),
        decreases attempts@.len() - i,
    {
        let mut j: usize = 0;
        while j < attempts[i].warning_tags.len()
            invariant
                i < attempts@.len(),
                j <= attempts@[i as int].warning_tags@.len(),
                ascending(texts(tags@)),
                forall|t: Seq<char>| #[trigger]
                    texts(tags@).contains(t) <==> has_tag(attempts@, i as int, t) || (exists|k: int|
                        0 <= k < j && #[trigger] attempts@[i as int].warning_tags@[k]@ == t),
            decreases attempts@[i as int].warning_tags@.len() - j,
        {
            let ghost before = texts(tags@);
            insert_in_order(&mut tags, attempts[i].warning_tags[j].as_str());
            proof {
                let new_tag = attempts@[i as int].warning_tags@[j as int]@;
                assert forall|t: Seq<char>| #[trigger] texts(tags@).contains(t) <==> has_tag(
                    attempts@,
                    i as int,
                    t,
                ) || (exists|k: int|
                    0 <= k < j + 1 && #[trigger] attempts@[i as int].warning_tags@[k]@ == t) by {
                    assert(texts(tags@).contains(t) <==> before.contains(t) || t == new_tag);
                }
            }
            j = j + 1;
        }
        proof {
            assert forall|t: Seq<char>| #[trigger] texts(tags@).contains(t) <==> has_tag(
                attempts@,
                i + 1,
                t,
            ) by {
                if has_tag(attempts@, i + 1, t) {
                    let (a, b) = choose|a: int, b: int|
                        0 <= a < i + 1 && 0 <= b < attempts@[a].warning_tags@.len()
                            && #[trigger] attempts@[a].warning_tags@[b]@ == t;
                    if a < i {
                        assert(has_tag(attempts@, i as int, t));
                    }
                }
            }
        }
        i = i + 1;
    }
    if tags.len() == 0 {
        assert(tags_text(texts(tags@)) == "none"@);
        return "none".to_owned();
    }
    let out = join(&tags, ",");
    assert(tags_text(texts(tags@)) == out@);
    out
}

// ---- the standard error of a helper process

/// One line to log.
#[derive(Debug, PartialEq, Eq)]
pub enum LogLine {
    /// A report; the payload is what follows the prefix.
    Report { index: usize, line: String, payload: String },
    Plain { index: usize, line: String },
}

/// One line to log, mathematically.
pub enum LogEntry {
    Report(int, Seq<char>, Seq<char>),
    Plain(int, Seq<char>),
}

impl LogLine {
    /// The line, mathematically.
    pub open spec fn entry(self) -> LogEntry {
        match self {
            LogLine::Report { index, line, payload } => LogEntry::Report(
                index as int,
                line@,
                payload@,
            ),
            LogLine::Plain { index, line } => LogEntry::Plain(index as int, line@),
        }
    }
}

/// The lines, mathematically.
pub open spec fn log_entries(lines: Seq<LogLine>) -> Seq<LogEntry> {
    Seq::new(lines.len(), |i: int| lines[i].entry())
}

/// The lines of a text: what stands between line feeds.
pub open spec fn lines_of(text: Seq<char>) -> Seq<Seq<char>>
    decreases text.len(),
{
    if text.len() == 0 {
        seq![Seq::<char>::empty()]
    } else {
        let rest = lines_of(text.drop_last());
        if text.last() == '\n' {
            rest.push(Seq::empty())
        } else {
            rest.drop_last().push(rest.last().push(text.last()))
        }
    }
}

/// What is logged of a line, which is the `index`th to be logged.
pub open spec fn entry_of(line: Seq<char>, index: int) -> LogEntry {
    if begins_with(line, "PARAKEET_INJECT_REPORT "@) {
        LogEntry::Report(index, line, line.skip("PARAKEET_INJECT_REPORT "@.len() as int))
    } else {
        LogEntry::Plain(index, line)
    }
}

/// What is logged of the first `n` lines, and how many are dropped: blank lines do not count,
/// and nothing is logged past the limit.
pub open spec fn log_plan(lines: Seq<Seq<char>>, n: int) -> (Seq<LogEntry>, int)
    decreases n,
{
    if n <= 0 {
        (Seq::empty(), 0)
    } else {
        let (logged, dropped) = log_plan(lines, n - 1);
        let line = trim(lines[n - 1]);
        if line.len() == 0 {
            (logged, dropped)
        } else if logged.len() >= INJECTOR_SUBPROCESS_STDERR_LOG_LINE_LIMIT {
            (logged, dropped + 1)
        } else {
            (logged.push(entry_of(line, logged.len() as int + 1)), dropped)
        }
    }
}

/// The lines of a text: what stands between line feeds.
fn split_lines(text: &str) -> (r: Vec<String>)
    ensures
        texts(r@) == lines_of(text@),
{
    let chars = chars_of(text);
    let mut out: Vec<String> = Vec::new();
    let mut current = String::new();
    let mut i: usize = 0;
    assert(chars@.take(0) =~= Seq::<char>::empty());
    assert(texts(out@).push(current@) =~= lines_of(chars@.take(0)));
    while i < chars.len()
        invariant
            i <= chars@.len(),
            texts(out@).push(current@) == lines_of(chars@.take(i as int)),
        decreases chars@.len() - i,
    {
        let ghost now = chars@.take(i + 1);
        assert(now.drop_last() =~= chars@.take(i as int));
        assert(now.last() == chars@[i as int]);
        let ghost before = texts(out@);
        let ghost line = current@;
        assert(lines_of(now.drop_last()) == before.push(line));
        assert(before.push(line).drop_last() =~= before);
        if chars[i] == '\n' {
            out.push(current);
            current = String::new();
            assert(texts(out@) =~= before.push(line));
            assert(current@ =~= Seq::<char>::empty());
        } else {
            current.push(chars[i]);
        }
        i = i + 1;
    }
    assert(chars@.take(i as int) =~= text@);
    let ghost before = texts(out@);
    out.push(current);
    assert(texts(out@) =~= before.push(current@));
    out
}

/// Decides what to log of a text from standard error: the lines, and how many are dropped.
pub fn stderr_log_plan(text: &str) -> (r: (Vec<LogLine>, usize))
    ensures
        (log_entries(r.0@), r.1 as int) == log_plan(
            lines_of(text@),
            lines_of(text@).len() as int,
        ),
{
    let lines = split_lines(text);
    let ghost all = lines_of(text@);
    let mut logged: Vec<LogLine> = Vec::new();
    let mut dropped: usize = 0;
    let mut i: usize = 0;
    assert(log_entries(logged@) =~= Seq::<LogEntry>::empty());
    while i < lines.len()
        invariant
            i <= lines@.len(),
            texts(lines@) == all,
            dropped <= i,
            (log_entries(logged@), dropped as int) == log_plan(all, i as int),
        decreases lines@.len() - i,
    {
        let line = trimmed(lines[i].as_str());
        assert(line@ == trim(all[i as int]));
        let ghost before = log_entries(logged@);
        assert(before.len() == logged@.len());
        if !line.as_str().is_empty() {
            if logged.len() >= INJECTOR_SUBPROCESS_STDERR_LOG_LINE_LIMIT {
                dropped = dropped + 1;
            } else {
                let index: usize = logged.len() + 1;
                let entry: LogLine = match strip_prefix(line.as_str(), "PARAKEET_INJECT_REPORT ") {
                    Some(payload) => LogLine::Report { index, line, payload },
                    None => LogLine::Plain { index, line },
                };
                logged.push(entry);
                assert(log_entries(logged@) =~= before.push(entry.entry()));
            }
        }
        i = i + 1;
    }
    (logged, dropped)
}

/// Decides what to log of the bytes from standard error.
pub fn stderr_log_lines(stderr: &Vec<u8>) -> (r: (Vec<LogLine>, usize))
    ensures
        (log_entries(r.0@), r.1 as int) == log_plan(
            lines_of(lossy_text(stderr@)),
            lines_of(lossy_text(stderr@)).len() as int,
        ),
{
    let text = lossy(stderr);
    stderr_log_plan(text.as_str())
}

/// No more lines are logged than the limit, however long the text is.
pub proof fn law_log_is_bounded(lines: Seq<Seq<char>>, n: int)
    ensures
        log_plan(lines, n).0.len() <= INJECTOR_SUBPROCESS_STDERR_LOG_LINE_LIMIT,
    decreases n,
{
    if n > 0 {
        law_log_is_bounded(lines, n - 1);
    }
}

/// A failure of the helper is told with its status first, and what the helper said last; so is a
/// message about it.
pub proof fn law_failure_is_told_with_what_was_said(status: Seq<char>, stderr: Seq<char>, said: Seq<char>)
    requires
        said.len() > 0,
        trim(stderr) == said,
    ensures
        begins_with(child_failure(status, stderr), "injector subprocess exited with status "@ + status),
        child_failure(status, stderr).skip(
            child_failure(status, stderr).len() - said.len(),
        ) == said,
        with_stderr(status, stderr).skip(with_stderr(status, stderr).len() - said.len()) == said,
        begins_with(with_stderr(status, stderr), status),
{
    let f = child_failure(status, stderr);
    let head = "injector subprocess exited with status "@ + status;
    assert(f == head + ": "@ + said);
    assert(f.take(head.len() as int) =~= head);
    assert(f.skip(f.len() - said.len()) =~= said);
    let w = with_stderr(status, stderr);
    assert(w == status + "; stderr: "@ + said);
    assert(w.take(status.len() as int) =~= status);
    assert(w.skip(w.len() - said.len()) =~= said);
}

/// A pipe is read until its end, or until the time allowed after the process has ended is up:
/// without such a deadline it is never given up.
pub proof fn law_pipe_is_given_up_only_after_the_deadline(m: PipeModel, now_ms: u64, later_ms: u64)
    requires
        now_ms <= later_ms,
    ensures
        !deadline_passed(m, false, later_ms),
        deadline_noted(m, false, now_ms) == m,
        deadline_noted(m, true, now_ms).started_at_ms is Some,
        deadline_noted(m, true, now_ms).bytes == m.bytes,
        m.started_at_ms is Some ==> deadline_noted(m, true, now_ms) == m,
        m.started_at_ms is None ==> (deadline_passed(
            deadline_noted(m, true, now_ms),
            true,
            later_ms,
        ) <==> later_ms - now_ms >= m.timeout_ms),
{
}

/// What the helper wrote comes out as it was read, and with it whether time ran out.
pub proof fn law_pipe_gives_what_was_read(
    pipe: PipeDrain,
    ready: bool,
    deadline_started: bool,
    step: PipeStep,
    timed_out: bool,
    r: PipeReadOutcome,
)
    requires
        call_ensures(PipeDrain::after_wait, (&pipe, ready, deadline_started), step),
        call_ensures(PipeDrain::finish, (pipe, timed_out), r),
    ensures
        r.bytes@ == pipe.model().bytes,
        r.timed_out == timed_out,
        ready ==> step is Read,
        !deadline_started ==> step is Read,
        !ready && deadline_started ==> step == (PipeStep::Finished { timed_out: true }),
{
}

/// Lines end at line feeds: put together again with a line feed between them they are the text,
/// and none of them holds one.
pub proof fn law_lines_are_the_text(text: Seq<char>, more: char)
    ensures
        lines_of(text).len() > 0,
        lines_of(text.push('\n')) == lines_of(text).push(Seq::empty()),
        more != '\n' ==> lines_of(text.push(more)).len() == lines_of(text).len(),
        more != '\n' ==> lines_of(text.push(more)).last() == lines_of(text).last().push(more),
        !text.contains('\n') ==> lines_of(text) == seq![text],
    decreases text.len(),
{
    assert(text.push('\n').drop_last() =~= text);
    assert(text.push(more).drop_last() =~= text);
    if text.len() > 0 {
        law_lines_are_the_text(text.drop_last(), more);
        let rest = lines_of(text.drop_last());
        if !text.contains('\n') {
            assert(text[text.len() - 1] == text.last());
            assert(text.last() != '\n');
            assert forall|c: char| text.drop_last().contains(c) implies text.contains(c) by {
                let i = choose|i: int| 0 <= i < text.drop_last().len() && text.drop_last()[i] == c;
                assert(text[i] == c);
            }
            assert(rest == seq![text.drop_last()]);
            assert(rest.last().push(text.last()) =~= text);
            assert(rest.drop_last().push(rest.last().push(text.last())) =~= seq![text]);
        }
    } else {
        assert(text =~= Seq::<char>::empty());
    }
}

/// Every line that is not blank is either logged or counted as dropped; what is logged is the
/// line without the white space around it, numbered from one, and no more is logged than the
/// limit allows.
pub proof fn law_lines_are_logged_or_counted(lines: Seq<Seq<char>>, n: int)
    requires
        0 <= n < lines.len(),
    ensures
        ({
            let (before, dropped_before) = log_plan(lines, n);
            let (after, dropped_after) = log_plan(lines, n + 1);
            let line = trim(lines[n]);
            &&& after.len() <= 120
            &&& line.len() == 0 ==> after == before && dropped_after == dropped_before
            &&& line.len() > 0 ==> after.len() + dropped_after == before.len() + dropped_before + 1
            &&& line.len() > 0 && before.len() < 120 ==> after.drop_last() == before && match after.last() {
                LogEntry::Report(index, whole, json) => index == after.len() && whole == line
                    && "PARAKEET_INJECT_REPORT "@ + json == line,
                LogEntry::Plain(index, whole) => index == after.len() && whole == line
                    && !begins_with(line, "PARAKEET_INJECT_REPORT "@),
            }
            &&& before.len() == 120 ==> after == before
        }),
    decreases n,
{
    if n > 0 {
        law_lines_are_logged_or_counted(lines, n - 1);
    }
    let line = trim(lines[n]);
    let mark = "PARAKEET_INJECT_REPORT "@;
    let (before, _) = log_plan(lines, n);
    let (after, _) = log_plan(lines, n + 1);
    if line.len() > 0 && before.len() < 120 {
        assert(after.drop_last() =~= before);
        if begins_with(line, mark) {
            assert(mark + line.skip(mark.len() as int) =~= line);
        }
    }
}

} // verus!
