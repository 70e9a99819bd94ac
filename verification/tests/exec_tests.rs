use colmena::error::ExecError;
use colmena::exec::{CommandExecution, SpawnOutcome, StreamKind};

fn argv(parts: &[&str]) -> Vec<String> {
    parts.iter().map(|s| String::from(*s)).collect()
}

#[test]
fn harness_zero_exit_is_success() {
    let mut e = CommandExecution::new(String::from("local"), argv(&["true"]));
    e.record_line(StreamKind::Stdout, String::from("hello"));
    let r = e.finish(SpawnOutcome::Exited(0));
    assert!(r.is_ok());
    let (out, err) = e.get_logs();
    assert_eq!(out, "hello\n");
    assert_eq!(err, "");
}

#[test]
fn harness_nonzero_exit_carries_code_and_stderr() {
    let mut e = CommandExecution::new(String::from("local"), argv(&["false"]));
    e.record_line(StreamKind::Stdout, String::from("partial"));
    e.record_line(StreamKind::Stderr, String::from("boom"));
    let r = e.finish(SpawnOutcome::Exited(7));
    match r {
        Err(ExecError::NonZeroExit(code, stderr)) => {
            assert_eq!(code, 7);
            assert_eq!(stderr, "boom\n");
        }
        _ => panic!("a non-zero exit must fail with its code"),
    }
}

#[test]
fn harness_spawn_failure_captures_nothing() {
    let mut e = CommandExecution::new(String::from("local"), argv(&["missing-binary"]));
    let r = e.finish(SpawnOutcome::SpawnFailed(String::from("no such file")));
    match r {
        Err(ExecError::SpawnFailed(cause)) => assert_eq!(cause, "no such file"),
        _ => panic!("a spawn failure must surface its cause"),
    }
    let (out, err) = e.get_logs();
    assert_eq!(out, "");
    assert_eq!(err, "");
}

#[test]
fn harness_logs_are_cached_after_exit() {
    let mut e = CommandExecution::new(String::from("local"), argv(&["cmd"]));
    e.record_line(StreamKind::Stderr, String::from("warning"));
    e.finish(SpawnOutcome::Exited(0)).unwrap();
    let first = e.get_logs();
    let second = e.get_logs();
    assert_eq!(first, second);
    assert_eq!(first.1, "warning\n");
}

#[test]
fn harness_progress_receives_every_line() {
    let mut e = CommandExecution::new(String::from("local"), argv(&["cmd"]));
    assert_eq!(e.record_line(StreamKind::Stdout, String::from("quiet")), None);
    e.attach_progress();
    let msg = e.record_line(StreamKind::Stdout, String::from("building foo"));
    assert_eq!(msg, Some(String::from("building foo")));
}

#[test]
fn harness_merged_log_keeps_arrival_order() {
    let mut e = CommandExecution::new(String::from("local"), argv(&["cmd"]));
    e.record_line(StreamKind::Stdout, String::from("one"));
    e.record_line(StreamKind::Stderr, String::from("two"));
    e.record_line(StreamKind::Stdout, String::from("three"));
    e.finish(SpawnOutcome::Exited(0)).unwrap();
    assert_eq!(e.merged_log(), "one\ntwo\nthree\n");
    let (out, err) = e.get_logs();
    assert_eq!(out, "one\nthree\n");
    assert_eq!(err, "two\n");
}

#[test]
fn harness_label_and_argv_are_kept() {
    let e = CommandExecution::new(String::from("web1"), argv(&["nix-store", "--realise"]));
    assert_eq!(e.label(), "web1");
    assert_eq!(e.argv(), &argv(&["nix-store", "--realise"]));
}
