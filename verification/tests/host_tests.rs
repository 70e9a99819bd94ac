use colmena::error::{ExecError, HostError};
use colmena::exec::{CommandExecution, SpawnOutcome, StreamKind};
use colmena::goal::Goal;
use colmena::host::{
    interpret_passthrough, realize_command, CopyDirection, CopyOptions, Local,
};
use colmena::profile::{system_profile_str, Profile};
use colmena::store_path::StorePath;

fn store_path(s: &str) -> StorePath {
    StorePath::parse(String::from(s)).unwrap()
}

fn profile() -> Profile {
    Profile::new(store_path("/nix/store/abc-system"))
}

#[test]
fn copy_closure_is_a_successful_noop() {
    let mut local = Local::new();
    let drv = store_path("/nix/store/abc-drv");
    let r = local.copy_closure(&drv, CopyDirection::ToRemote, CopyOptions::default());
    assert!(r.is_ok());
    let r = local.copy_closure(&drv, CopyDirection::FromRemote, CopyOptions::default());
    assert!(r.is_ok());
    assert!(local.dump_logs().is_none(), "a no-op leaves no trace");
}

#[test]
fn realize_command_suppresses_gc_warnings() {
    let v = realize_command(&store_path("/nix/store/abc-drv"));
    assert_eq!(
        v,
        vec![
            String::from("nix-store"),
            String::from("--no-gc-warning"),
            String::from("--realise"),
            String::from("/nix/store/abc-drv"),
        ]
    );
}

#[test]
fn realize_with_no_output_lines_yields_an_empty_list() {
    let mut local = Local::new();
    let mut e = CommandExecution::new(String::from("local"), Vec::new());
    e.finish(SpawnOutcome::Exited(0)).unwrap();
    let paths = local.realize_finish(&e).unwrap();
    assert!(paths.is_empty());
}

#[test]
fn realize_collects_one_path_per_nonempty_line() {
    let mut local = Local::new();
    let mut e = CommandExecution::new(String::from("local"), Vec::new());
    e.record_line(StreamKind::Stdout, String::from("/nix/store/a"));
    e.record_line(StreamKind::Stdout, String::new());
    e.record_line(StreamKind::Stdout, String::from("/nix/store/b"));
    e.record_line(StreamKind::Stderr, String::from("building..."));
    e.finish(SpawnOutcome::Exited(0)).unwrap();
    let paths = local.realize_finish(&e).unwrap();
    let texts: Vec<&str> = paths.iter().map(|p| p.as_path()).collect();
    assert_eq!(texts, vec!["/nix/store/a", "/nix/store/b"]);
    assert_eq!(local.dump_logs().unwrap(), "building...\n");
}

#[test]
fn realize_fails_entirely_on_one_malformed_line() {
    let mut local = Local::new();
    let mut e = CommandExecution::new(String::from("local"), Vec::new());
    e.record_line(StreamKind::Stdout, String::from("/nix/store/a"));
    e.record_line(StreamKind::Stdout, String::from("garbage"));
    e.finish(SpawnOutcome::Exited(0)).unwrap();
    let r = local.realize_finish(&e);
    assert!(matches!(r, Err(HostError::InvalidStorePath(_))));
}

#[test]
fn realize_failure_still_appends_stderr_to_the_log() {
    let mut local = Local::new();
    let mut e = CommandExecution::new(String::from("local"), Vec::new());
    e.record_line(StreamKind::Stderr, String::from("cannot build"));
    let _ = e.finish(SpawnOutcome::Exited(1));
    let r = local.realize_finish(&e);
    match r {
        Err(HostError::Exec(ExecError::NonZeroExit(code, stderr))) => {
            assert_eq!(code, 1);
            assert_eq!(stderr, "cannot build\n");
        }
        _ => panic!("a non-zero realize must fail with its code"),
    }
    assert_eq!(local.dump_logs().unwrap(), "cannot build\n");
}

#[test]
fn activation_plan_switches_profile_only_when_the_goal_asks() {
    let local = Local::new();
    let plan = local.activation_plan(&profile(), Goal::Switch);
    assert_eq!(
        plan.switch_profile.unwrap(),
        vec![
            String::from("nix-env"),
            String::from("--profile"),
            String::from(system_profile_str()),
            String::from("--set"),
            String::from("/nix/store/abc-system"),
        ]
    );
    assert_eq!(
        plan.activation,
        vec![
            String::from("/nix/store/abc-system/bin/switch-to-configuration"),
            String::from("switch"),
        ]
    );

    let plan = local.activation_plan(&profile(), Goal::DryActivate);
    assert!(plan.switch_profile.is_none());
    assert_eq!(
        plan.activation,
        vec![
            String::from("/nix/store/abc-system/bin/switch-to-configuration"),
            String::from("dry-activate"),
        ]
    );
}

#[test]
fn activate_appends_both_streams_in_arrival_order() {
    let mut local = Local::new();
    let mut e = CommandExecution::new(String::from("local"), Vec::new());
    e.record_line(StreamKind::Stdout, String::from("activating"));
    e.record_line(StreamKind::Stderr, String::from("reloading unit"));
    e.record_line(StreamKind::Stdout, String::from("done"));
    e.finish(SpawnOutcome::Exited(0)).unwrap();
    assert!(local.activate_finish(&e).is_ok());
    assert_eq!(local.dump_logs().unwrap(), "activating\nreloading unit\ndone\n");
}

#[test]
fn passthrough_switch_outcome_is_interpreted_by_exit_code() {
    assert!(interpret_passthrough(SpawnOutcome::Exited(0)).is_ok());
    match interpret_passthrough(SpawnOutcome::Exited(4)) {
        Err(HostError::Exec(ExecError::NonZeroExit(code, stderr))) => {
            assert_eq!(code, 4);
            assert_eq!(stderr, "");
        }
        _ => panic!("a non-zero switch must abort the activation"),
    }
    assert!(matches!(
        interpret_passthrough(SpawnOutcome::SpawnFailed(String::from("not found"))),
        Err(HostError::Exec(ExecError::SpawnFailed(_)))
    ));
}

#[test]
fn progress_attachment_is_kept_across_steps() {
    let mut local = Local::new();
    local.set_progress_bar();
    let drv = store_path("/nix/store/abc-drv");
    let r = local.copy_closure(&drv, CopyDirection::ToRemote, CopyOptions::default());
    assert!(r.is_ok());
}
