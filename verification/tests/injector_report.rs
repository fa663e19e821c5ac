use parakeet_ptt::injector::BackendAttemptReport;
use parakeet_ptt::injector_report::{
    child_failure_text, enrich_run_error, enrich_run_error_with_stderr, format_child_failure,
    stderr_log_lines, stderr_log_plan, subprocess_result, summarize_backend_attempts,
    summarize_backend_exit_statuses, summarize_backend_stderr_excerpts,
    summarize_backend_warning_tags, ChildExit, LogLine, PipeDrain, PipeRead, PipeReadOutcome,
    PipeStep,
};
use parakeet_ptt::injector_runtime::{InjectionRunError, InjectionRunOutput};

fn attempt(backend: &str) -> BackendAttemptReport {
    BackendAttemptReport {
        route_attempt_name: "primary".to_string(),
        route_attempt_index: 1,
        route_attempt_total: 1,
        backend: backend.to_string(),
        backend_attempt_index: 1,
        backend_attempt_total: 1,
        shortcut: "CtrlV".to_string(),
        status: "ok".to_string(),
        duration_ms: 12,
        exit_status: None,
        stderr_excerpt: None,
        warning_tags: Vec::new(),
        backend_config: None,
        error: None,
        uinput_sender_generation: None,
        uinput_fresh_device: None,
        uinput_device_age_ms_at_attempt: None,
        uinput_use_count_before_attempt: None,
        uinput_created_this_job: None,
        uinput_create_elapsed_ms: None,
        uinput_last_create_error: None,
        uinput_reused_after_failure: None,
    }
}

#[test]
fn attempts_are_summed_up_in_one_line() {
    let mut first = attempt("uinput");
    first.backend_config = Some("dwell_ms=18".to_string());
    first.uinput_sender_generation = Some(4);
    first.uinput_fresh_device = Some(true);
    first.uinput_reused_after_failure = Some(false);
    let mut second = attempt("ydotool");
    second.status = "failed".to_string();
    second.exit_status = Some("1".to_string());
    second.warning_tags = vec!["slow".to_string(), "late".to_string()];
    second.stderr_excerpt = Some("denied".to_string());
    second.error = Some("no".to_string());
    let attempts = vec![first, second];
    assert_eq!(
        summarize_backend_attempts(&attempts),
        "primary:uinput:ok:12ms:cfg=dwell_ms=18:ugen=4:ufresh=1:urecovered=0 | \
         primary:ydotool:failed:12ms:exit=1:warn=slow,late:stderr=denied:no"
    );
    assert_eq!(summarize_backend_exit_statuses(&attempts), "ydotool:1");
    assert_eq!(summarize_backend_stderr_excerpts(&attempts), "ydotool:denied");
    assert_eq!(summarize_backend_warning_tags(&attempts), "late,slow");
    assert_eq!(summarize_backend_warning_tags(&vec![attempt("x")]), "none");
}

#[test]
fn tags_are_named_once_and_in_order() {
    let mut first = attempt("a");
    first.warning_tags = vec!["b".to_string(), "a".to_string()];
    let mut second = attempt("b");
    second.warning_tags = vec!["c".to_string(), "a".to_string()];
    assert_eq!(summarize_backend_warning_tags(&vec![first, second]), "a,b,c");
}

#[test]
fn standard_error_goes_behind_the_message() {
    let error = InjectionRunError::ExecutionTimeout("too long".to_string());
    assert_eq!(
        enrich_run_error(error, "  stuck \n"),
        InjectionRunError::ExecutionTimeout("too long; stderr: stuck".to_string())
    );
    let error = InjectionRunError::BackendFailure("bad".to_string());
    assert_eq!(
        enrich_run_error(error, " \n"),
        InjectionRunError::BackendFailure("bad".to_string())
    );
}

#[test]
fn bytes_that_are_no_text_are_replaced() {
    let error = InjectionRunError::WorkerTaskFailed("bad".to_string());
    assert_eq!(
        enrich_run_error_with_stderr(error, &vec![b'a', 0xff, b'b']),
        InjectionRunError::WorkerTaskFailed("bad; stderr: a\u{fffd}b".to_string())
    );
    assert_eq!(
        format_child_failure("exit status: 2", &vec![0xff]),
        "injector subprocess exited with status exit status: 2: \u{fffd}"
    );
    assert_eq!(
        child_failure_text("exit status: 2", ""),
        "injector subprocess exited with status exit status: 2"
    );
}

#[test]
fn a_helper_process_ends_in_one_of_these_ways() {
    let read = |bytes: &[u8]| {
        Ok(PipeReadOutcome {
            bytes: bytes.to_vec(),
            timed_out: false,
        })
    };
    assert_eq!(
        subprocess_result(ChildExit::Success, read(b"log")),
        Ok(InjectionRunOutput {
            stderr: b"log".to_vec()
        })
    );
    assert_eq!(
        subprocess_result(
            ChildExit::Failure {
                status: "exit status: 1".to_string()
            },
            read(b"denied\n")
        ),
        Err(InjectionRunError::BackendFailure(
            "injector subprocess exited with status exit status: 1: denied".to_string()
        ))
    );
    assert_eq!(
        subprocess_result(
            ChildExit::NotExited(InjectionRunError::ExecutionTimeout("late".to_string())),
            read(b"")
        ),
        Err(InjectionRunError::ExecutionTimeout("late".to_string()))
    );
    assert_eq!(
        subprocess_result(ChildExit::Success, Err("no pipe".to_string())),
        Err(InjectionRunError::WorkerTaskFailed("no pipe".to_string()))
    );
}

#[test]
fn pipe_reader_applies_deadline_only_after_it_is_started() {
    let mut drain = PipeDrain::new(25);
    // Long before the deadline is started, reading goes on.
    assert_eq!(drain.before_read(false, 0), PipeStep::Read);
    assert!(matches!(
        drain.after_read(PipeRead::WouldBlock, false, 10_000),
        PipeStep::Wait { .. }
    ));
    assert_eq!(drain.before_read(false, 60_000), PipeStep::Read);
    assert_eq!(
        drain.after_read(PipeRead::Bytes(b"late".to_vec()), false, 60_000),
        PipeStep::Read
    );
    // Once it is started, the time runs out.
    assert_eq!(drain.before_read(true, 60_010), PipeStep::Read);
    assert_eq!(
        drain.before_read(true, 60_035),
        PipeStep::Finished { timed_out: true }
    );
    assert_eq!(
        drain.finish(true),
        PipeReadOutcome {
            bytes: b"late".to_vec(),
            timed_out: true
        }
    );
}

#[test]
fn a_pipe_at_its_end_is_finished() {
    let mut drain = PipeDrain::new(25);
    assert_eq!(
        drain.after_read(PipeRead::End, false, 0),
        PipeStep::Finished { timed_out: false }
    );
    assert_eq!(drain.after_read(PipeRead::Failed, false, 0), PipeStep::Failed);
    assert_eq!(drain.after_read(PipeRead::Interrupted, false, 0), PipeStep::Read);
    assert_eq!(drain.after_wait(false, false), PipeStep::Read);
    assert_eq!(
        drain.after_wait(false, true),
        PipeStep::Finished { timed_out: true }
    );
}

#[test]
fn report_lines_are_told_from_others() {
    let (lines, dropped) =
        stderr_log_plan("hello\n\n  PARAKEET_INJECT_REPORT {\"a\":1}  \nlast");
    assert_eq!(dropped, 0);
    assert_eq!(
        lines,
        vec![
            LogLine::Plain {
                index: 1,
                line: "hello".to_string()
            },
            LogLine::Report {
                index: 2,
                line: "PARAKEET_INJECT_REPORT {\"a\":1}".to_string(),
                payload: "{\"a\":1}".to_string()
            },
            LogLine::Plain {
                index: 3,
                line: "last".to_string()
            },
        ]
    );
}

#[test]
fn a_long_log_is_cut() {
    let text = "line\n".repeat(130);
    let (lines, dropped) = stderr_log_lines(&text.into_bytes());
    assert_eq!(lines.len(), 120);
    assert_eq!(dropped, 10);
}
