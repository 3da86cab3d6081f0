use reback::structures::backup_params::{BackupParams, BackupPlan};
use reback::structures::elements::Elements;
use reback::utils::failure::FailureKind;
use reback::utils::text::{decimal, shell_quoted};

const STAMP: &str = "2024-05-06_07-08-09";
const DIR: &str = "/var/backups/nightly-db";

fn text(value: &str) -> String {
    value.to_string()
}

fn artifact(extension: &str) -> String {
    format!("/var/backups/nightly-db/nightly-db-2024-05-06_07-08-09{}", extension)
}

fn plan_of(target: &BackupParams) -> BackupPlan {
    target.command_for("nightly-db", STAMP, DIR)
}

fn occurrences(haystack: &str, needle: &str) -> usize {
    haystack.matches(needle).count()
}

#[test]
fn postgresql_command_is_exact() {
    let target = BackupParams::Postgresql {
        db_host: Some(text("db.example")),
        db_port: 5432,
        db_name: text("shop"),
        db_user: text("admin"),
        db_password: text("s3cret"),
    };
    let plan = plan_of(&target);
    assert_eq!(plan.artifact, artifact(".sql"));
    assert_eq!(
        plan.commands,
        vec![format!(
            "PGPASSWORD=\"s3cret\" pg_dump -U admin -h db.example -p 5432 shop > {}",
            artifact(".sql")
        )]
    );
}

#[test]
fn postgresql_without_host_goes_to_localhost() {
    let target = BackupParams::Postgresql {
        db_host: None,
        db_port: 1,
        db_name: text("shop"),
        db_user: text("admin"),
        db_password: text("pw"),
    };
    let plan = plan_of(&target);
    assert_eq!(
        plan.commands,
        vec![format!(
            "PGPASSWORD=\"pw\" pg_dump -U admin -h localhost -p 1 shop > {}",
            artifact(".sql")
        )]
    );
}

#[test]
fn postgresql_docker_command_is_exact() {
    let target = BackupParams::PostgresqlDocker {
        docker_container: text("pg1"),
        db_name: text("shop"),
        db_user: text("admin"),
        db_password: text("s3cret"),
    };
    let plan = plan_of(&target);
    assert_eq!(plan.artifact, artifact(".sql"));
    assert_eq!(
        plan.commands,
        vec![format!(
            "docker exec pg1 bash -c \"PGPASSWORD='s3cret' pg_dump -U admin shop\" > {}",
            artifact(".sql")
        )]
    );
}

#[test]
fn mongodb_with_credentials_quotes_the_password_for_the_shell() {
    let target = BackupParams::Mongodb {
        db_host: None,
        db_port: 27017,
        db_user: Some(text("root")),
        db_password: Some(text("pw")),
    };
    let plan = plan_of(&target);
    assert_eq!(plan.artifact, artifact(".gz"));
    assert_eq!(
        plan.commands,
        vec![format!(
            "mongodump --host localhost --port 27017 --username root --password 'pw' --authenticationDatabase admin --archive={} --gzip",
            artifact(".gz")
        )]
    );
}

#[test]
fn mongodb_password_with_quotes_reaches_the_shell_as_one_word() {
    let target = BackupParams::Mongodb {
        db_host: Some(text("mongo.example")),
        db_port: 27018,
        db_user: Some(text("root")),
        db_password: Some(text("a\"b\\c it's $HOME")),
    };
    let plan = plan_of(&target);
    assert_eq!(
        plan.commands,
        vec![format!(
            "mongodump --host mongo.example --port 27018 --username root --password 'a\"b\\c it'\\''s $HOME' --authenticationDatabase admin --archive={} --gzip",
            artifact(".gz")
        )]
    );
}

#[test]
fn mongodb_user_without_password_has_no_password_option() {
    let target = BackupParams::Mongodb {
        db_host: None,
        db_port: 27017,
        db_user: Some(text("root")),
        db_password: None,
    };
    let plan = plan_of(&target);
    assert_eq!(
        plan.commands,
        vec![format!(
            "mongodump --host localhost --port 27017 --username root --authenticationDatabase admin --archive={} --gzip",
            artifact(".gz")
        )]
    );
}

#[test]
fn mongodb_without_user_leaves_the_credentials_out() {
    let target = BackupParams::Mongodb {
        db_host: Some(text("h")),
        db_port: 27017,
        db_user: None,
        db_password: Some(text("ignored")),
    };
    let plan = plan_of(&target);
    assert_eq!(
        plan.commands,
        vec![format!("mongodump --host h --port 27017 --archive={} --gzip", artifact(".gz"))]
    );
}

#[test]
fn mongodb_docker_takes_two_commands() {
    let target = BackupParams::MongodbDocker {
        docker_container: text("m1"),
        db_user: Some(text("root")),
        db_password: Some(text("pw")),
    };
    let plan = plan_of(&target);
    assert_eq!(plan.artifact, artifact(".gz"));
    assert_eq!(
        plan.commands,
        vec![
            text(
                "docker exec m1 mongodump --username root --password 'pw' --authenticationDatabase admin --archive=/backup/backup.gz --gzip"
            ),
            format!("docker cp m1:/backup/backup.gz {}", artifact(".gz")),
        ]
    );
}

#[test]
fn mongodb_docker_without_user_takes_two_commands() {
    let target = BackupParams::MongodbDocker {
        docker_container: text("m1"),
        db_user: None,
        db_password: None,
    };
    let plan = plan_of(&target);
    assert_eq!(
        plan.commands,
        vec![
            text("docker exec m1 mongodump --archive=/backup/backup.gz --gzip"),
            format!("docker cp m1:/backup/backup.gz {}", artifact(".gz")),
        ]
    );
}

#[test]
fn folder_command_is_exact() {
    let target = BackupParams::Folder { target_path: text("/srv/data") };
    let plan = plan_of(&target);
    assert_eq!(plan.artifact, artifact(".tar.gz"));
    assert_eq!(
        plan.commands,
        vec![format!("tar -czvf {} -C /srv/data .", artifact(".tar.gz"))]
    );
}

#[test]
fn mysql_command_is_exact() {
    let target = BackupParams::MySQL {
        db_host: None,
        db_port: 3306,
        db_name: text("shop"),
        db_user: text("admin"),
        db_password: text("s3cret"),
    };
    let plan = plan_of(&target);
    assert_eq!(plan.artifact, artifact(".sql"));
    assert_eq!(
        plan.commands,
        vec![format!(
            "MYSQL_PWD=s3cret mysqldump -u admin -h localhost -P 3306 shop > {}",
            artifact(".sql")
        )]
    );
}

#[test]
fn mysql_docker_command_is_exact() {
    let target = BackupParams::MySQLDocker {
        docker_container: text("my1"),
        db_name: text("shop"),
        db_user: text("admin"),
        db_password: text("s3cret"),
    };
    let plan = plan_of(&target);
    assert_eq!(
        plan.commands,
        vec![format!(
            "docker exec my1 bash -c \"MYSQL_PWD='s3cret' mysqldump -u admin shop\" > {}",
            artifact(".sql")
        )]
    );
}

#[test]
fn every_field_of_a_target_stands_once_in_its_command() {
    let targets = vec![
        BackupParams::Postgresql {
            db_host: Some(text("HOSTX")),
            db_port: 54321,
            db_name: text("NAMEX"),
            db_user: text("USERX"),
            db_password: text("PASSX"),
        },
        BackupParams::MySQL {
            db_host: Some(text("HOSTX")),
            db_port: 54321,
            db_name: text("NAMEX"),
            db_user: text("USERX"),
            db_password: text("PASSX"),
        },
    ];
    for target in targets.iter() {
        let plan = target.command_for("TITLEX", "STAMPX", "DIRX");
        assert_eq!(plan.commands.len(), 1);
        for field in ["HOSTX", "54321", "NAMEX", "USERX", "PASSX", plan.artifact.as_str()] {
            assert_eq!(occurrences(&plan.commands[0], field), 1);
        }
    }
    let docker = vec![
        BackupParams::PostgresqlDocker {
            docker_container: text("BOXX"),
            db_name: text("NAMEX"),
            db_user: text("USERX"),
            db_password: text("PASSX"),
        },
        BackupParams::MySQLDocker {
            docker_container: text("BOXX"),
            db_name: text("NAMEX"),
            db_user: text("USERX"),
            db_password: text("PASSX"),
        },
    ];
    for target in docker.iter() {
        let plan = target.command_for("TITLEX", "STAMPX", "DIRX");
        assert_eq!(plan.commands.len(), 1);
        for field in ["BOXX", "NAMEX", "USERX", "PASSX", plan.artifact.as_str()] {
            assert_eq!(occurrences(&plan.commands[0], field), 1);
        }
    }
    let folder = BackupParams::Folder { target_path: text("SRCX") };
    let plan = folder.command_for("TITLEX", "STAMPX", "DIRX");
    assert_eq!(plan.commands.len(), 1);
    assert_eq!(occurrences(&plan.commands[0], "SRCX"), 1);
    assert_eq!(occurrences(&plan.commands[0], plan.artifact.as_str()), 1);
    let mongo = BackupParams::MongodbDocker {
        docker_container: text("BOXX"),
        db_user: Some(text("USERX")),
        db_password: Some(text("PASSX")),
    };
    let plan = mongo.command_for("TITLEX", "STAMPX", "DIRX");
    assert_eq!(plan.commands.len(), 2);
    for field in ["BOXX", "USERX", "PASSX"] {
        assert_eq!(occurrences(&plan.commands[0], field), 1);
    }
    assert_eq!(occurrences(&plan.commands[0], plan.artifact.as_str()), 0);
    assert_eq!(occurrences(&plan.commands[1], "BOXX"), 1);
    assert_eq!(occurrences(&plan.commands[1], plan.artifact.as_str()), 1);
    assert_eq!(occurrences(&plan.commands[1], "USERX"), 0);
    assert_eq!(occurrences(&plan.commands[1], "PASSX"), 0);
}

#[test]
fn command_for_gives_the_same_plan_for_the_same_arguments() {
    let target = BackupParams::Folder { target_path: text("/srv/data") };
    assert_eq!(plan_of(&target), plan_of(&target));
}

#[test]
fn decimal_writes_numbers_in_base_ten() {
    assert_eq!(decimal(0), "0");
    assert_eq!(decimal(7), "7");
    assert_eq!(decimal(10), "10");
    assert_eq!(decimal(65535), "65535");
    assert_eq!(decimal(1234567890), "1234567890");
    assert_eq!(decimal(u64::MAX), "18446744073709551615");
}

#[test]
fn perform_backup_resolves_the_plan_of_the_target() {
    let element = Elements {
        element_title: text("nightly-db"),
        s3_folder: text("remote"),
        backup_retention_days: 3,
        s3_backup_retention_days: 30,
        params: Some(BackupParams::Folder { target_path: text("/srv/data") }),
    };
    let plan = element.perform_backup(DIR, STAMP).unwrap();
    assert_eq!(plan.artifact, artifact(".tar.gz"));
    assert_eq!(
        plan.commands,
        vec![format!("tar -czvf {} -C /srv/data .", artifact(".tar.gz"))]
    );
}

#[test]
fn perform_backup_without_a_target_is_a_configuration_failure() {
    let element = Elements {
        element_title: text("orphan"),
        s3_folder: text("remote"),
        backup_retention_days: 3,
        s3_backup_retention_days: 30,
        params: None,
    };
    let failure = element.perform_backup(DIR, STAMP).unwrap_err();
    assert_eq!(failure.kind, FailureKind::Configuration);
    assert_eq!(failure.message, "No backup parameters provided for element 'orphan'");
    assert_eq!(failure.to_string(), "No backup parameters provided for element 'orphan'");
}

#[test]
fn restore_commands_are_exact() {
    let file = "/var/backups/to_restore/remote/db.dump";
    let cases: Vec<(BackupParams, Vec<String>)> = vec![
        (
            BackupParams::Postgresql {
                db_host: Some(text("db.example")),
                db_port: 5432,
                db_name: text("shop"),
                db_user: text("admin"),
                db_password: text("s3cret"),
            },
            vec![format!(
                "PGPASSWORD=\"s3cret\" psql -U admin -h db.example -p 5432 shop < {}",
                file
            )],
        ),
        (
            BackupParams::PostgresqlDocker {
                docker_container: text("pg1"),
                db_name: text("shop"),
                db_user: text("admin"),
                db_password: text("s3cret"),
            },
            vec![format!(
                "docker exec -i pg1 bash -c \"PGPASSWORD='s3cret' psql -U admin shop\" < {}",
                file
            )],
        ),
        (
            BackupParams::Mongodb {
                db_host: None,
                db_port: 27017,
                db_user: Some(text("root")),
                db_password: Some(text("pw")),
            },
            vec![format!(
                "mongorestore --host localhost --port 27017 --username root --password 'pw' --authenticationDatabase admin --archive={} --gzip",
                file
            )],
        ),
        (
            BackupParams::Mongodb {
                db_host: Some(text("h")),
                db_port: 1,
                db_user: None,
                db_password: None,
            },
            vec![format!("mongorestore --host h --port 1 --archive={} --gzip", file)],
        ),
        (
            BackupParams::MongodbDocker {
                docker_container: text("m1"),
                db_user: Some(text("root")),
                db_password: None,
            },
            vec![
                format!("docker cp {} m1:/backup/backup.gz", file),
                text(
                    "docker exec m1 mongorestore --username root --authenticationDatabase admin --archive=/backup/backup.gz --gzip",
                ),
            ],
        ),
        (
            BackupParams::Folder { target_path: text("/srv/data") },
            vec![format!("tar -xzvf {} -C /srv/data", file)],
        ),
        (
            BackupParams::MySQL {
                db_host: None,
                db_port: 3306,
                db_name: text("shop"),
                db_user: text("admin"),
                db_password: text("s3cret"),
            },
            vec![format!("MYSQL_PWD=s3cret mysql -u admin -h localhost -P 3306 shop < {}", file)],
        ),
        (
            BackupParams::MySQLDocker {
                docker_container: text("my1"),
                db_name: text("shop"),
                db_user: text("admin"),
                db_password: text("s3cret"),
            },
            vec![format!(
                "docker exec -i my1 bash -c \"MYSQL_PWD='s3cret' mysql -u admin shop\" < {}",
                file
            )],
        ),
    ];
    for (target, expected) in cases.iter() {
        assert_eq!(&target.restore_command_for(file), expected);
    }
}

#[test]
fn perform_restore_without_a_target_is_a_configuration_failure() {
    let element = Elements {
        element_title: text("orphan"),
        s3_folder: text("remote"),
        backup_retention_days: 3,
        s3_backup_retention_days: 30,
        params: None,
    };
    let failure = element.perform_restore("/tmp/file").unwrap_err();
    assert_eq!(failure.kind, FailureKind::Configuration);
    assert_eq!(failure.message, "No backup parameters provided for element 'orphan'");
}

#[test]
fn mongodb_docker_user_without_password_has_no_password_option() {
    let target = BackupParams::MongodbDocker {
        docker_container: text("m1"),
        db_user: Some(text("root")),
        db_password: None,
    };
    let plan = plan_of(&target);
    assert_eq!(
        plan.commands,
        vec![
            text(
                "docker exec m1 mongodump --username root --authenticationDatabase admin --archive=/backup/backup.gz --gzip"
            ),
            format!("docker cp m1:/backup/backup.gz {}", artifact(".gz")),
        ]
    );
}

#[test]
fn mongodb_restore_with_credentials_quotes_the_password() {
    let target = BackupParams::MongodbDocker {
        docker_container: text("m1"),
        db_user: Some(text("root")),
        db_password: Some(text("p w")),
    };
    assert_eq!(
        target.restore_command_for("/r/docs.gz"),
        vec![
            text("docker cp /r/docs.gz m1:/backup/backup.gz"),
            text(
                "docker exec m1 mongorestore --username root --password 'p w' --authenticationDatabase admin --archive=/backup/backup.gz --gzip"
            ),
        ]
    );
}

#[test]
fn shell_quoting_is_exact() {
    assert_eq!(shell_quoted(""), "''");
    assert_eq!(shell_quoted("pw1"), "'pw1'");
    assert_eq!(shell_quoted("a b"), "'a b'");
    assert_eq!(shell_quoted("'"), "''\\'''");
    assert_eq!(shell_quoted("it's"), "'it'\\''s'");
    assert_eq!(shell_quoted("$(rm -rf /) `x` \"y\" \\"), "'$(rm -rf /) `x` \"y\" \\'");
    assert_eq!(shell_quoted("пароль"), "'пароль'");
}

#[test]
fn only_targets_in_containers_call_docker() {
    let direct = vec![
        BackupParams::Postgresql {
            db_host: None,
            db_port: 5432,
            db_name: text("shop"),
            db_user: text("admin"),
            db_password: text("pw"),
        },
        BackupParams::Mongodb {
            db_host: None,
            db_port: 27017,
            db_user: Some(text("root")),
            db_password: Some(text("pw")),
        },
        BackupParams::MySQL {
            db_host: None,
            db_port: 3306,
            db_name: text("shop"),
            db_user: text("admin"),
            db_password: text("pw"),
        },
        BackupParams::Folder { target_path: text("/srv/data") },
    ];
    for target in direct.iter() {
        for command in plan_of(target).commands.iter() {
            assert!(!command.contains("docker"));
        }
        for command in target.restore_command_for("/r/file").iter() {
            assert!(!command.contains("docker"));
        }
    }
    let contained = vec![
        BackupParams::PostgresqlDocker {
            docker_container: text("pg1"),
            db_name: text("shop"),
            db_user: text("admin"),
            db_password: text("pw"),
        },
        BackupParams::MongodbDocker {
            docker_container: text("m1"),
            db_user: None,
            db_password: None,
        },
        BackupParams::MySQLDocker {
            docker_container: text("my1"),
            db_name: text("shop"),
            db_user: text("admin"),
            db_password: text("pw"),
        },
    ];
    for target in contained.iter() {
        for command in plan_of(target).commands.iter() {
            assert!(command.starts_with("docker "));
        }
        for command in target.restore_command_for("/r/file").iter() {
            assert!(command.starts_with("docker "));
        }
    }
    let folder = plan_of(&BackupParams::Folder { target_path: text("/srv/data") });
    for word in ["pg_dump", "mongodump", "mysqldump", "docker"] {
        assert!(!folder.commands[0].contains(word));
    }
}

#[test]
fn elements_with_one_title_and_target_have_one_plan() {
    let first = Elements {
        element_title: text("nightly-db"),
        s3_folder: text("remote-a"),
        backup_retention_days: 1,
        s3_backup_retention_days: 2,
        params: Some(BackupParams::Folder { target_path: text("/srv/data") }),
    };
    let second = Elements {
        element_title: text("nightly-db"),
        s3_folder: text("remote-b"),
        backup_retention_days: 30,
        s3_backup_retention_days: 60,
        params: Some(BackupParams::Folder { target_path: text("/srv/data") }),
    };
    assert_eq!(first.perform_backup(DIR, STAMP), second.perform_backup(DIR, STAMP));
    assert_eq!(first.perform_restore("/r/file"), second.perform_restore("/r/file"));
}
