use m2c_job::config::BuildConfig;
use m2c_job::config::RunM2CConfig;
use m2c_job::job::Action;
use m2c_job::job::Event;
use m2c_job::job::JobError;
use m2c_job::job::M2CJob;
use m2c_job::job::StreamKind;

fn job_with_dir(dir: &str, function_name: &str) -> M2CJob {
    M2CJob::new(RunM2CConfig {
        build_config: BuildConfig { project_dir: Some(dir.to_string()) },
        function_name: function_name.to_string(),
    })
}

fn expect_push(action: Action, message: &str, current: u32, total: u32) {
    match action {
        Action::PushStatus { message: m, current: c, total: t } => {
            assert_eq!(m, message);
            assert_eq!(c, current);
            assert_eq!(t, total);
        }
        other => panic!("expected a status update, got {other:?}"),
    }
}

#[test]
fn s1_happy_path() {
    let mut job = job_with_dir("/tmp/proj", "func_80001234");
    let a0 = job.step(Event::Start);
    assert!(matches!(a0, Action::PollCancel));
    let a1 = job.step(Event::CancelPolled(false));
    expect_push(a1, "Running M2C", 1, 2);
    let a2 = job.step(Event::Pushed);
    match a2 {
        Action::Spawn(c) => {
            assert_eq!(c.program, "python");
            assert_eq!(c.cwd, "/tmp/proj");
            assert_eq!(
                c.args,
                vec![
                    "tools/decomp.py".to_string(),
                    "func_80001234".to_string(),
                    "--valid-syntax".to_string(),
                    "--no-casts".to_string(),
                ]
            );
            assert!(c.suppress_console);
        }
        other => panic!("expected a spawn, got {other:?}"),
    }
    let a3 = job.step(Event::ChildExited { stdout: b"OK".to_vec(), stderr: Vec::new() });
    match a3 {
        Action::LogOutput { stdout, stderr } => {
            assert_eq!(stdout, "OK");
            assert_eq!(stderr, "");
        }
        other => panic!("expected a log request, got {other:?}"),
    }
    let a4 = job.step(Event::Logged);
    assert!(matches!(a4, Action::PollCancel));
    let a5 = job.step(Event::CancelPolled(false));
    expect_push(a5, "Complete", 2, 2);
    let a6 = job.step(Event::Pushed);
    assert!(matches!(a6, Action::Finish(Ok(_))));
}

#[test]
fn s2_missing_project_dir() {
    let mut job = M2CJob::new(RunM2CConfig {
        build_config: BuildConfig { project_dir: None },
        function_name: "func_80001234".to_string(),
    });
    let a0 = job.step(Event::Start);
    assert!(matches!(a0, Action::Finish(Err(JobError::Precondition))));
}

#[test]
fn s3_child_not_found() {
    let mut job = job_with_dir("/tmp/empty", "func_80001234");
    let a0 = job.step(Event::Start);
    assert!(matches!(a0, Action::PollCancel));
    let a1 = job.step(Event::CancelPolled(false));
    expect_push(a1, "Running M2C", 1, 2);
    let a2 = job.step(Event::Pushed);
    assert!(matches!(a2, Action::Spawn(_)));
    let a3 = job.step(Event::SpawnFailed);
    assert!(matches!(a3, Action::Finish(Err(JobError::Spawn))));
}

#[test]
fn s4_non_utf8_stdout() {
    let mut job = job_with_dir("/tmp/proj", "func_80001234");
    job.step(Event::Start);
    job.step(Event::CancelPolled(false));
    job.step(Event::Pushed);
    let a = job.step(Event::ChildExited { stdout: vec![0xFF, 0xFE], stderr: Vec::new() });
    assert!(matches!(a, Action::Finish(Err(JobError::Decode(StreamKind::Stdout)))));
}

#[test]
fn non_utf8_stderr() {
    let mut job = job_with_dir("/tmp/proj", "func_80001234");
    job.step(Event::Start);
    job.step(Event::CancelPolled(false));
    job.step(Event::Pushed);
    let a = job.step(Event::ChildExited { stdout: b"fine".to_vec(), stderr: vec![0x80] });
    assert!(matches!(a, Action::Finish(Err(JobError::Decode(StreamKind::Stderr)))));
}

#[test]
fn s5_cancel_before_start() {
    let mut job = job_with_dir("/tmp/proj", "func_80001234");
    let a0 = job.step(Event::Start);
    assert!(matches!(a0, Action::PollCancel));
    let a1 = job.step(Event::CancelPolled(true));
    assert!(matches!(a1, Action::Finish(Err(JobError::Cancelled))));
}

#[test]
fn s6_large_output() {
    let payload: Vec<u8> = vec![b'a'; 16 * 1024 * 1024];
    let mut job = job_with_dir("/tmp/proj", "func_80001234");
    job.step(Event::Start);
    job.step(Event::CancelPolled(false));
    job.step(Event::Pushed);
    let a = job.step(Event::ChildExited { stdout: payload.clone(), stderr: Vec::new() });
    match a {
        Action::LogOutput { stdout, stderr } => {
            assert_eq!(stdout.len(), 16 * 1024 * 1024);
            assert!(stdout.bytes().all(|b| b == b'a'));
            assert_eq!(stderr, "");
        }
        other => panic!("expected a log request, got {other:?}"),
    }
    job.step(Event::Logged);
    let a5 = job.step(Event::CancelPolled(false));
    expect_push(a5, "Complete", 2, 2);
    let a6 = job.step(Event::Pushed);
    assert!(matches!(a6, Action::Finish(Ok(_))));
}

#[test]
fn cancel_at_checkpoint_b_is_honored_after_child_exit() {
    let mut job = job_with_dir("/tmp/proj", "func_80001234");
    job.step(Event::Start);
    job.step(Event::CancelPolled(false));
    job.step(Event::Pushed);
    let a = job.step(Event::ChildExited { stdout: b"text".to_vec(), stderr: b"diag".to_vec() });
    assert!(matches!(a, Action::LogOutput { .. }));
    let a4 = job.step(Event::Logged);
    assert!(matches!(a4, Action::PollCancel));
    let a5 = job.step(Event::CancelPolled(true));
    assert!(matches!(a5, Action::Finish(Err(JobError::Cancelled))));
}

#[test]
fn cancel_arriving_after_checkpoint_b_lets_the_run_complete() {
    let mut job = job_with_dir("/tmp/proj", "func_80001234");
    job.step(Event::Start);
    job.step(Event::CancelPolled(false));
    job.step(Event::Pushed);
    job.step(Event::ChildExited { stdout: b"text".to_vec(), stderr: Vec::new() });
    job.step(Event::Logged);
    let a5 = job.step(Event::CancelPolled(false));
    expect_push(a5, "Complete", 2, 2);
    let a6 = job.step(Event::Pushed);
    assert!(matches!(a6, Action::Finish(Ok(_))));
}

#[test]
fn stream_read_failure_is_an_io_error() {
    let mut job = job_with_dir("/tmp/proj", "func_80001234");
    job.step(Event::Start);
    job.step(Event::CancelPolled(false));
    job.step(Event::Pushed);
    let a = job.step(Event::ReadFailed);
    assert!(matches!(a, Action::Finish(Err(JobError::Io))));
}

#[test]
fn multibyte_output_is_decoded_exactly() {
    let text = "héllo wörld \u{2713}";
    let mut job = job_with_dir("/tmp/proj", "func_80001234");
    job.step(Event::Start);
    job.step(Event::CancelPolled(false));
    job.step(Event::Pushed);
    let a = job.step(Event::ChildExited {
        stdout: text.as_bytes().to_vec(),
        stderr: "käse".as_bytes().to_vec(),
    });
    match a {
        Action::LogOutput { stdout, stderr } => {
            assert_eq!(stdout, text);
            assert_eq!(stderr, "käse");
        }
        other => panic!("expected a log request, got {other:?}"),
    }
}

#[test]
fn error_messages_describe_each_failure() {
    assert_eq!(JobError::Precondition.message(), "Missing project dir");
    assert_eq!(JobError::Spawn.message(), "Failed to execute m2c");
    assert_eq!(JobError::Io.message(), "Failed to read m2c output");
    assert_eq!(JobError::Decode(StreamKind::Stdout).message(), "Failed to process stdout");
    assert_eq!(JobError::Decode(StreamKind::Stderr).message(), "Failed to process stderr");
    assert_eq!(JobError::Cancelled.message(), "Cancelled");
}
