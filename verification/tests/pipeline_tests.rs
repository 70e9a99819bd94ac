use colmena::exec::{CommandExecution, SpawnOutcome};
use colmena::goal::Goal;
use colmena::host::{CopyDirection, CopyOptions, Local};
use colmena::keys::{Key, KeyUploader};
use colmena::pipeline::{Pipeline, PipelineStep};
use colmena::profile::Profile;
use colmena::store_path::StorePath;

fn store_path(s: &str) -> StorePath {
    StorePath::parse(String::from(s)).unwrap()
}

#[test]
fn push_pipeline_runs_every_step_without_switching_the_profile() {
    let goal = Goal::from_name("push").unwrap();
    let mut pipeline = Pipeline::new(goal);
    let mut local = Local::new();
    let mut visited = Vec::new();

    while let Some(step) = pipeline.next_step() {
        visited.push(step);
        let succeeded = match step {
            PipelineStep::CopyClosure => {
                let drv = store_path("/nix/store/abc-drv");
                local
                    .copy_closure(&drv, CopyDirection::ToRemote, CopyOptions::default())
                    .is_ok()
            }
            PipelineStep::Realize => {
                let mut e = CommandExecution::new(String::from("local"), Vec::new());
                e.finish(SpawnOutcome::Exited(0)).unwrap();
                local.realize_finish(&e).is_ok()
            }
            PipelineStep::UploadKeys => {
                let entries = vec![(
                    String::from("db-password"),
                    Key {
                        text: b"hunter2".to_vec(),
                        dest_dir: String::from("/run/keys"),
                        permissions: String::from("0600"),
                        user: String::from("root"),
                        group: String::from("root"),
                    },
                )];
                let mut up = KeyUploader::new(entries);
                while up.current().is_some() {
                    up.step(Ok(()));
                }
                up.finish().is_ok()
            }
            PipelineStep::Activate => {
                let profile = Profile::new(store_path("/nix/store/abc-system"));
                let plan = local.activation_plan(&profile, pipeline.goal());
                assert!(
                    plan.switch_profile.is_none(),
                    "push must leave the profile pointer untouched"
                );
                assert_eq!(
                    plan.activation,
                    vec![
                        String::from("/nix/store/abc-system/bin/switch-to-configuration"),
                        String::from("push"),
                    ]
                );
                let mut e = CommandExecution::new(String::from("local"), plan.activation);
                e.finish(SpawnOutcome::Exited(0)).unwrap();
                local.activate_finish(&e).is_ok()
            }
        };
        pipeline.advance(succeeded);
    }

    assert_eq!(
        visited,
        vec![
            PipelineStep::CopyClosure,
            PipelineStep::Realize,
            PipelineStep::UploadKeys,
            PipelineStep::Activate,
        ]
    );
}

#[test]
fn a_failed_step_ends_the_pipeline() {
    let mut pipeline = Pipeline::new(Goal::Switch);
    assert_eq!(pipeline.next_step(), Some(PipelineStep::CopyClosure));
    pipeline.advance(true);
    assert_eq!(pipeline.next_step(), Some(PipelineStep::Realize));
    pipeline.advance(false);
    assert_eq!(pipeline.next_step(), None);
}
