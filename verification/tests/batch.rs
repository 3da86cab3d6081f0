use reback::structures::backup_params::{BackupParams, BackupPlan};
use reback::structures::elements::Elements;
use reback::structures::settings::{BucketConfig, S3PathStyle, Settings};
use reback::utils::arguments::{parse_arguments, Operation};
use reback::utils::clock::Timestamp;
use reback::utils::failure::{report, Failure, FailureKind};
use reback::utils::fs_utils::outdated_local_backups;
use reback::utils::process_backup::{
    backup_step, continue_backup_process, start_backup_process, BackupAction, BackupStage,
    BackupState, ElementReport,
};
use reback::utils::process_restore::{
    restore_all_process, restore_elements, restore_selected_process, RestoreAction, RestoreEvent,
    RestoreStage,
};
use reback::utils::s3_utils::RemoteObject;
use reback::utils::shell::{execute_command, CommandOutcome, ProcessExit, StepEvent};

const STAMP: &str = "2024-05-06_07-08-09";

fn text(value: &str) -> String {
    value.to_string()
}

fn element(title: &str, folder: &str, params: Option<BackupParams>) -> Elements {
    Elements {
        element_title: text(title),
        s3_folder: text(folder),
        backup_retention_days: 3,
        s3_backup_retention_days: 30,
        params,
    }
}

fn settings(elements: Vec<Elements>) -> Settings {
    Settings {
        s3_endpoint: text("https://s3.example"),
        s3_region: text("eu-1"),
        s3_bucket: text("backups"),
        s3_access: text("access-key"),
        s3_secret: text("secret-key"),
        s3_path_style: S3PathStyle::Path,
        backup_dir: text("/var/backups"),
        elements,
    }
}

fn folder(path: &str) -> Option<BackupParams> {
    Some(BackupParams::Folder { target_path: text(path) })
}

fn object(key: &str, last_modified: &str) -> RemoteObject {
    RemoteObject { key: text(key), last_modified: text(last_modified) }
}

fn failed(cause: &str) -> StepEvent {
    StepEvent::Failed(text(cause))
}

#[test]
fn backup_of_a_folder_runs_every_step_once() {
    let settings = settings(vec![element("nightly-db", "remote", folder("/srv/empty"))]);
    let artifact = "/var/backups/nightly-db/nightly-db-2024-05-06_07-08-09.tar.gz";
    let (state, action) = start_backup_process(&settings);
    assert_eq!(action, BackupAction::CreateDirectory { path: text("/var/backups/nightly-db") });
    assert_eq!(state.stage, BackupStage::Preparing);
    let (state, action) = backup_step(&settings, state, StepEvent::Succeeded, STAMP);
    assert_eq!(
        action,
        BackupAction::RunCommand { command: format!("tar -czvf {} -C /srv/empty .", artifact) }
    );
    let (state, action) = backup_step(&settings, state, StepEvent::Succeeded, "later");
    assert_eq!(
        action,
        BackupAction::Upload {
            artifact: text(artifact),
            key: text("remote/nightly-db-2024-05-06_07-08-09.tar.gz"),
        }
    );
    assert_eq!(state.stage, BackupStage::Uploading);
    let (state, action) = backup_step(&settings, state, StepEvent::Succeeded, "later");
    assert_eq!(
        action,
        BackupAction::SweepLocal {
            directory: text("/var/backups/nightly-db"),
            title: text("nightly-db"),
            retention: 3,
        }
    );
    assert_eq!(state.stage, BackupStage::SweepingLocal);
    let (state, action) = backup_step(&settings, state, StepEvent::Succeeded, "later");
    assert_eq!(action, BackupAction::SweepRemote { folder: text("remote"), retention: 30 });
    assert_eq!(state.stage, BackupStage::SweepingRemote);
    let (state, action) = backup_step(&settings, state, StepEvent::Succeeded, "later");
    assert_eq!(action, BackupAction::Finish);
    assert_eq!(
        state,
        BackupState {
            position: 1,
            stage: BackupStage::Finished,
            reports: vec![ElementReport { position: 0, failure: None }],
        }
    );
    let (state, action) = backup_step(&settings, state, failed("late"), "later");
    assert_eq!(action, BackupAction::Finish);
    assert_eq!(state.reports.len(), 1);
}

#[test]
fn fresh_artifact_is_left_in_place_by_the_local_sweep() {
    let names = vec![text("nightly-db-2024-05-06_07-08-09.sql")];
    let now = Timestamp { secs: 1_714_979_289, nanos: 500 };
    assert_eq!(outdated_local_backups(&names, "nightly-db", 3, now), Vec::<String>::new());
    assert_eq!(outdated_local_backups(&names, "nightly-db", 0, now), names);
}

#[test]
fn element_without_target_fails_and_the_next_is_backed_up() {
    let settings = settings(vec![
        element("orphan", "nowhere", None),
        element("files", "remote", folder("/srv/data")),
    ]);
    let (state, action) = start_backup_process(&settings);
    assert_eq!(action, BackupAction::CreateDirectory { path: text("/var/backups/orphan") });
    let (state, action) = backup_step(&settings, state, StepEvent::Succeeded, STAMP);
    assert_eq!(action, BackupAction::CreateDirectory { path: text("/var/backups/files") });
    assert_eq!(state.position, 1);
    assert_eq!(
        state.reports,
        vec![ElementReport {
            position: 0,
            failure: Some(Failure {
                kind: FailureKind::Configuration,
                message: text(
                    "Backup process encountered an error for orphan: No backup parameters provided for element 'orphan'"
                ),
            }),
        }]
    );
    let (state, action) = backup_step(&settings, state, StepEvent::Succeeded, STAMP);
    assert!(matches!(action, BackupAction::RunCommand { .. }));
    let (state, action) = backup_step(&settings, state, StepEvent::Succeeded, STAMP);
    assert!(matches!(action, BackupAction::Upload { .. }));
    let (state, action) = backup_step(&settings, state, StepEvent::Succeeded, STAMP);
    assert!(matches!(action, BackupAction::SweepLocal { .. }));
    let (state, action) = backup_step(&settings, state, StepEvent::Succeeded, STAMP);
    assert!(matches!(action, BackupAction::SweepRemote { .. }));
    let (state, action) = backup_step(&settings, state, StepEvent::Succeeded, STAMP);
    assert_eq!(action, BackupAction::Finish);
    assert_eq!(state.reports.len(), 2);
    assert_eq!(state.reports[1], ElementReport { position: 1, failure: None });
}

#[test]
fn failed_upload_skips_the_sweeps_of_the_element() {
    let settings = settings(vec![
        element("first", "remote-a", folder("/srv/a")),
        element("second", "remote-b", folder("/srv/b")),
    ]);
    let (state, _) = start_backup_process(&settings);
    let (state, _) = backup_step(&settings, state, StepEvent::Succeeded, STAMP);
    let (state, action) = backup_step(&settings, state, StepEvent::Succeeded, STAMP);
    assert!(matches!(action, BackupAction::Upload { .. }));
    let (state, action) = backup_step(&settings, state, failed("connection reset"), STAMP);
    assert_eq!(action, BackupAction::CreateDirectory { path: text("/var/backups/second") });
    assert_eq!(
        state.reports,
        vec![ElementReport {
            position: 0,
            failure: Some(Failure {
                kind: FailureKind::RemoteStore,
                message: text("Failed to upload file to S3 for first: connection reset"),
            }),
        }]
    );
}

#[test]
fn each_stage_reports_its_own_failure() {
    let settings = settings(vec![element("files", "remote", folder("/srv/data"))]);
    let (state, _) = start_backup_process(&settings);
    let (after, action) = backup_step(&settings, state.clone(), failed("denied"), STAMP);
    assert_eq!(action, BackupAction::Finish);
    assert_eq!(
        after.reports[0].failure,
        Some(Failure {
            kind: FailureKind::Io,
            message: text("Failed to create backup dir /var/backups/files: denied"),
        })
    );
    let (state, _) = backup_step(&settings, state, StepEvent::Succeeded, STAMP);
    let (after, _) = backup_step(&settings, state.clone(), failed("tar: no such file"), STAMP);
    assert_eq!(
        after.reports[0].failure,
        Some(Failure {
            kind: FailureKind::Command,
            message: text("Backup process encountered an error for files: tar: no such file"),
        })
    );
    let (state, _) = backup_step(&settings, state, StepEvent::Succeeded, STAMP);
    let (state, _) = backup_step(&settings, state, StepEvent::Succeeded, STAMP);
    let (after, _) = backup_step(&settings, state.clone(), failed("read only"), STAMP);
    assert_eq!(
        after.reports[0].failure,
        Some(Failure {
            kind: FailureKind::Io,
            message: text("Failed to delete outdated local backups for files: read only"),
        })
    );
    let (state, _) = backup_step(&settings, state, StepEvent::Succeeded, STAMP);
    let (after, action) = backup_step(&settings, state, failed("forbidden"), STAMP);
    assert_eq!(action, BackupAction::Finish);
    assert_eq!(
        after.reports[0].failure,
        Some(Failure {
            kind: FailureKind::RemoteStore,
            message: text("Failed to delete outdated backups from S3 for files: forbidden"),
        })
    );
}

#[test]
fn failed_copy_out_of_the_container_fails_the_element() {
    let target = BackupParams::MongodbDocker {
        docker_container: text("m1"),
        db_user: None,
        db_password: None,
    };
    let settings = settings(vec![element("docs", "remote", Some(target))]);
    let artifact = "/var/backups/docs/docs-2024-05-06_07-08-09.gz";
    let (state, _) = start_backup_process(&settings);
    let (state, action) = backup_step(&settings, state, StepEvent::Succeeded, STAMP);
    assert_eq!(
        action,
        BackupAction::RunCommand {
            command: text("docker exec m1 mongodump --archive=/backup/backup.gz --gzip"),
        }
    );
    let (state, action) = backup_step(&settings, state, StepEvent::Succeeded, "later");
    assert_eq!(
        action,
        BackupAction::RunCommand { command: format!("docker cp m1:/backup/backup.gz {}", artifact) }
    );
    assert_eq!(
        state.stage,
        BackupStage::BackingUp {
            plan: BackupPlan {
                commands: vec![
                    text("docker exec m1 mongodump --archive=/backup/backup.gz --gzip"),
                    format!("docker cp m1:/backup/backup.gz {}", artifact),
                ],
                artifact: text(artifact),
            },
            next: 1,
        }
    );
    let outcome = execute_command(Ok(ProcessExit {
        success: false,
        code: Some(1),
        stderr: text("no such container"),
    }));
    let (state, action) = backup_step(&settings, state, outcome.into_event(), "later");
    assert_eq!(action, BackupAction::Finish);
    assert_eq!(
        state.reports,
        vec![ElementReport {
            position: 0,
            failure: Some(Failure {
                kind: FailureKind::Command,
                message: text("Backup process encountered an error for docs: no such container"),
            }),
        }]
    );
}

#[test]
fn batch_without_elements_is_over_at_once() {
    let settings = settings(Vec::new());
    let (state, action) = start_backup_process(&settings);
    assert_eq!(action, BackupAction::Finish);
    assert_eq!(state.stage, BackupStage::Finished);
    assert_eq!(state.reports, Vec::new());
}

#[test]
fn batch_by_the_clock_names_the_artifact_by_the_time() {
    let settings = settings(vec![element("files", "remote", folder("/srv/data"))]);
    let (state, _) = start_backup_process(&settings);
    let (state, action) = continue_backup_process(&settings, state, StepEvent::Succeeded);
    let plan = match state.stage {
        BackupStage::BackingUp { plan, next: 0 } => plan,
        other => panic!("unexpected stage {:?}", other),
    };
    assert_eq!(plan.artifact.len(), "/var/backups/files/files-".len() + 19 + ".tar.gz".len());
    assert!(plan.artifact.starts_with("/var/backups/files/files-"));
    assert!(plan.artifact.ends_with(".tar.gz"));
    assert_eq!(action, BackupAction::RunCommand { command: plan.commands[0].clone() });
}

#[test]
fn command_outcomes_are_told_apart() {
    let ok = execute_command(Ok(ProcessExit { success: true, code: Some(0), stderr: text("warn") }));
    assert_eq!(ok, CommandOutcome::Success);
    assert_eq!(ok.into_event(), StepEvent::Succeeded);
    let bad = execute_command(Ok(ProcessExit { success: false, code: None, stderr: text("killed") }));
    assert_eq!(bad, CommandOutcome::Failed { code: None, stderr: text("killed") });
    assert_eq!(bad.into_event(), failed("killed"));
    let none = execute_command(Err(text("sh: not found")));
    assert_eq!(none, CommandOutcome::SpawnError { cause: text("sh: not found") });
    assert_eq!(none.into_event(), failed("sh: not found"));
}

#[test]
fn report_joins_heading_subject_and_cause() {
    assert_eq!(
        report(FailureKind::Io, "Cannot read ", "file", "denied"),
        Failure { kind: FailureKind::Io, message: text("Cannot read file: denied") }
    );
}

#[test]
fn restore_by_names_without_a_match_fails_and_fetches_nothing() {
    let settings = settings(vec![
        element("alpha", "remote-a", folder("/srv/a")),
        element("beta", "remote-b", folder("/srv/b")),
    ]);
    let args = vec![text("reback"), text("restore"), text("gamma"), text("alph")];
    let failure = restore_selected_process(&settings, &args).unwrap_err();
    assert_eq!(failure.kind, FailureKind::Configuration);
    assert_eq!(failure.message, "No matching elements found for the provided arguments");
    let short = vec![text("reback"), text("restore")];
    assert!(restore_selected_process(&settings, &short).is_err());
    let program_only = vec![text("alpha")];
    assert!(restore_selected_process(&settings, &program_only).is_err());
    let operation_is_no_name = vec![text("alpha"), text("beta")];
    assert!(restore_selected_process(&settings, &operation_is_no_name).is_err());
}

#[test]
fn restore_by_names_selects_in_the_order_of_the_configuration() {
    let settings = settings(vec![
        element("alpha", "remote-a", folder("/srv/a")),
        element("beta", "remote-b", folder("/srv/b")),
        element("gamma", "remote-c", folder("/srv/c")),
    ]);
    let args = vec![text("reback"), text("restore"), text("gamma"), text("alpha"), text("delta")];
    let (state, action) = restore_selected_process(&settings, &args).unwrap();
    assert_eq!(state.selected, vec![0, 2]);
    assert_eq!(state.cursor, 0);
    assert_eq!(state.stage, RestoreStage::Locating);
    assert_eq!(action, RestoreAction::List { prefix: text("remote-a/") });
}

#[test]
fn restore_fetches_the_latest_backup_and_goes_on_after_a_failure() {
    let settings = settings(vec![
        element("alpha", "remote-a", folder("/srv/a")),
        element("beta", "remote-b", folder("/srv/b")),
        element("gamma", "remote-c", folder("/srv/c")),
    ]);
    let (state, action) = restore_all_process(&settings);
    assert_eq!(state.selected, vec![0, 1, 2]);
    assert_eq!(action, RestoreAction::List { prefix: text("remote-a/") });
    let (state, action) = restore_elements(&settings, state, RestoreEvent::Listed(Vec::new()));
    assert_eq!(action, RestoreAction::List { prefix: text("remote-b/") });
    assert_eq!(
        state.reports,
        vec![ElementReport {
            position: 0,
            failure: Some(Failure {
                kind: FailureKind::NotFound,
                message: text("Failed to fetch the latest backup for alpha: No backups found"),
            }),
        }]
    );
    let pages = vec![
        vec![object("remote-b/beta-1.tar.gz", "2020-01-01T00:00:00Z")],
        vec![object("remote-b/beta-2.tar.gz", "2020-01-02T00:00:00Z")],
    ];
    let (state, action) = restore_elements(&settings, state, RestoreEvent::Listed(pages));
    assert_eq!(
        action,
        RestoreAction::Download {
            key: text("remote-b/beta-2.tar.gz"),
            directory: text("/var/backups/to_restore/remote-b"),
            destination: text("/var/backups/to_restore/remote-b/beta-2.tar.gz"),
        }
    );
    let (state, action) = restore_elements(&settings, state, RestoreEvent::Succeeded);
    let command = "tar -xzvf /var/backups/to_restore/remote-b/beta-2.tar.gz -C /srv/b";
    assert_eq!(action, RestoreAction::RunCommand { command: text(command) });
    assert_eq!(state.stage, RestoreStage::Restoring { commands: vec![text(command)], next: 0 });
    let done = RestoreEvent::of_command(execute_command(Ok(ProcessExit {
        success: true,
        code: Some(0),
        stderr: text(""),
    })));
    assert_eq!(done, RestoreEvent::Succeeded);
    let (state, action) = restore_elements(&settings, state, done);
    assert_eq!(action, RestoreAction::List { prefix: text("remote-c/") });
    assert_eq!(state.reports[1], ElementReport { position: 1, failure: None });
    let (state, action) =
        restore_elements(&settings, state, RestoreEvent::Failed(text("timeout")));
    assert_eq!(action, RestoreAction::Finish);
    assert_eq!(state.stage, RestoreStage::Finished);
    assert_eq!(
        state.reports[2],
        ElementReport {
            position: 2,
            failure: Some(Failure {
                kind: FailureKind::RemoteStore,
                message: text("Failed to fetch the latest backup for gamma: timeout"),
            }),
        }
    );
    let (state, action) = restore_elements(&settings, state, RestoreEvent::Succeeded);
    assert_eq!(action, RestoreAction::Finish);
    assert_eq!(state.reports.len(), 3);
}

#[test]
fn failed_restore_procedure_is_a_command_failure() {
    let settings = settings(vec![element("alpha", "remote-a", folder("/srv/a"))]);
    let (state, _) = restore_all_process(&settings);
    let pages = vec![vec![object("remote-a/alpha-1.tar.gz", "2020-01-01T00:00:00Z")]];
    let (state, _) = restore_elements(&settings, state, RestoreEvent::Listed(pages));
    let (state, action) = restore_elements(&settings, state, RestoreEvent::Succeeded);
    assert_eq!(
        action,
        RestoreAction::RunCommand {
            command: text("tar -xzvf /var/backups/to_restore/remote-a/alpha-1.tar.gz -C /srv/a"),
        }
    );
    let broken = RestoreEvent::of_command(execute_command(Ok(ProcessExit {
        success: false,
        code: Some(2),
        stderr: text("tar: broken archive"),
    })));
    let (state, action) = restore_elements(&settings, state, broken);
    assert_eq!(action, RestoreAction::Finish);
    assert_eq!(
        state.reports,
        vec![ElementReport {
            position: 0,
            failure: Some(Failure {
                kind: FailureKind::Command,
                message: text(
                    "Restore process encountered an error for alpha: tar: broken archive"
                ),
            }),
        }]
    );
}

#[test]
fn restore_of_all_without_elements_is_over_at_once() {
    let settings = settings(Vec::new());
    let (state, action) = restore_all_process(&settings);
    assert_eq!(action, RestoreAction::Finish);
    assert_eq!(state.stage, RestoreStage::Finished);
}

#[test]
fn arguments_name_the_operation() {
    let args = |values: &[&str]| values.iter().map(|value| text(value)).collect::<Vec<String>>();
    assert_eq!(parse_arguments(&args(&["reback", "backup"])), Ok(Operation::Backup));
    assert_eq!(parse_arguments(&args(&["reback", "backup", "extra"])), Ok(Operation::Backup));
    assert_eq!(parse_arguments(&args(&["reback", "restore"])), Ok(Operation::RestoreAll));
    assert_eq!(
        parse_arguments(&args(&["reback", "restore", "alpha"])),
        Ok(Operation::RestoreSelected)
    );
    assert_eq!(
        parse_arguments(&args(&["reback"])),
        Err(Failure {
            kind: FailureKind::Usage,
            message: text("No command argument provided. Exiting."),
        })
    );
    assert_eq!(parse_arguments(&args(&[])).unwrap_err().kind, FailureKind::Usage);
    assert_eq!(
        parse_arguments(&args(&["reback", "Backup"])),
        Err(Failure {
            kind: FailureKind::Usage,
            message: text("Unknown argument provided. Exiting."),
        })
    );
}

#[test]
fn bucket_is_described_by_the_settings() {
    let mut settings = settings(Vec::new());
    let expected = BucketConfig {
        name: text("backups"),
        region: text("eu-1"),
        endpoint: text("https://s3.example"),
        access_key: text("access-key"),
        secret_key: text("secret-key"),
        path_style: true,
    };
    assert_eq!(settings.get_bucket(), expected);
    settings.s3_path_style = S3PathStyle::VirtualHost;
    assert_eq!(settings.get_bucket(), BucketConfig { path_style: false, ..expected });
    assert_eq!(settings.restore_dir(), "/var/backups/to_restore");
}

#[test]
fn restore_of_an_element_without_target_fails_after_the_download() {
    let settings = settings(vec![
        element("orphan", "remote-a", None),
        element("files", "remote-b", folder("/srv/b")),
    ]);
    let (state, _) = restore_all_process(&settings);
    let pages = vec![vec![object("remote-a/orphan-1.sql", "2020-01-01T00:00:00Z")]];
    let (state, action) = restore_elements(&settings, state, RestoreEvent::Listed(pages));
    assert!(matches!(action, RestoreAction::Download { .. }));
    let (state, action) = restore_elements(&settings, state, RestoreEvent::Succeeded);
    assert_eq!(action, RestoreAction::List { prefix: text("remote-b/") });
    assert_eq!(
        state.reports,
        vec![ElementReport {
            position: 0,
            failure: Some(Failure {
                kind: FailureKind::Configuration,
                message: text(
                    "Restore process encountered an error for orphan: No backup parameters provided for element 'orphan'"
                ),
            }),
        }]
    );
}

#[test]
fn restore_of_a_document_database_in_a_container_takes_two_commands() {
    let target = BackupParams::MongodbDocker {
        docker_container: text("m1"),
        db_user: None,
        db_password: None,
    };
    let settings = settings(vec![element("docs", "remote", Some(target))]);
    let (state, _) = restore_all_process(&settings);
    let pages = vec![vec![object("remote/docs-1.gz", "2020-01-01T00:00:00Z")]];
    let (state, _) = restore_elements(&settings, state, RestoreEvent::Listed(pages));
    let (state, action) = restore_elements(&settings, state, RestoreEvent::Succeeded);
    assert_eq!(
        action,
        RestoreAction::RunCommand {
            command: text(
                "docker cp /var/backups/to_restore/remote/docs-1.gz m1:/backup/backup.gz"
            ),
        }
    );
    let (state, action) = restore_elements(&settings, state, RestoreEvent::Succeeded);
    assert_eq!(
        action,
        RestoreAction::RunCommand {
            command: text("docker exec m1 mongorestore --archive=/backup/backup.gz --gzip"),
        }
    );
    let (state, action) = restore_elements(&settings, state, RestoreEvent::Succeeded);
    assert_eq!(action, RestoreAction::Finish);
    assert_eq!(state.reports, vec![ElementReport { position: 0, failure: None }]);
}

#[test]
fn repeated_titles_are_found() {
    let distinct = settings(vec![
        element("alpha", "a", None),
        element("beta", "b", None),
        element("alpha2", "c", None),
    ]);
    assert!(distinct.has_distinct_titles());
    let repeated = settings(vec![
        element("alpha", "a", None),
        element("beta", "b", None),
        element("alpha", "c", folder("/srv/c")),
    ]);
    assert!(!repeated.has_distinct_titles());
    assert!(settings(Vec::new()).has_distinct_titles());
    assert!(settings(vec![element("alpha", "a", None)]).has_distinct_titles());
    assert_eq!(distinct.staging_dir(2), "/var/backups/alpha2");
}

#[test]
fn failed_download_names_the_element() {
    let settings = settings(vec![element("alpha", "remote-a", folder("/srv/a"))]);
    let (state, _) = restore_all_process(&settings);
    let pages = vec![vec![object("remote-a/alpha-1.tar.gz", "2020-01-01T00:00:00Z")]];
    let (state, action) = restore_elements(&settings, state, RestoreEvent::Listed(pages));
    assert!(matches!(action, RestoreAction::Download { .. }));
    let (state, action) =
        restore_elements(&settings, state, RestoreEvent::Failed(text("disk full")));
    assert_eq!(action, RestoreAction::Finish);
    assert_eq!(
        state.reports,
        vec![ElementReport {
            position: 0,
            failure: Some(Failure {
                kind: FailureKind::RemoteStore,
                message: text("Failed to fetch the latest backup for alpha: disk full"),
            }),
        }]
    );
}
