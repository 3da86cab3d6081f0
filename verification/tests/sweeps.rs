use reback::utils::clock::{
    is_older_than, read_file_stamp, read_remote_stamp, stamp_format, Clock, Timestamp,
};
use reback::utils::fs_utils::{
    check_outdated_local_backups, outdated_local_backups, read_local_stamp,
};
use reback::utils::s3_utils::{
    check_outdated_s3_backups, outdated_s3_backups, RemoteObject,
};

const NEW_YEAR_2020: i64 = 1_577_836_800;
const DAY: i64 = 86_400;

fn text(value: &str) -> String {
    value.to_string()
}

fn at(secs: i64) -> Timestamp {
    Timestamp { secs, nanos: 0 }
}

fn object(key: &str, last_modified: &str) -> RemoteObject {
    RemoteObject { key: text(key), last_modified: text(last_modified) }
}

#[test]
fn file_stamp_is_read_as_chrono_reads_it() {
    assert_eq!(read_file_stamp("2020-01-01_00-00-00"), Some(at(NEW_YEAR_2020)));
    assert_eq!(read_file_stamp("1970-01-01_00-00-01"), Some(at(1)));
    assert_eq!(read_file_stamp("2020-01-01_00-00-00.tar"), None);
    assert_eq!(read_file_stamp("2020-13-01_00-00-00"), None);
    assert_eq!(read_file_stamp(""), None);
}

#[test]
fn remote_stamp_is_read_as_chrono_reads_it() {
    assert_eq!(read_remote_stamp("2020-01-01T00:00:00Z"), Some(at(NEW_YEAR_2020)));
    assert_eq!(read_remote_stamp("2020-01-01T02:00:00+02:00"), Some(at(NEW_YEAR_2020)));
    assert_eq!(
        read_remote_stamp("2020-01-01T00:00:00.250Z"),
        Some(Timestamp { secs: NEW_YEAR_2020, nanos: 250_000_000 })
    );
    assert_eq!(read_remote_stamp("2020-01-01 00:00:00"), None);
    assert_eq!(read_remote_stamp("yesterday"), None);
}

#[test]
fn local_stamp_stands_between_the_title_and_the_extension() {
    assert_eq!(read_local_stamp("title-2020-01-01_00-00-00.sql", "title"), Some(at(NEW_YEAR_2020)));
    assert_eq!(read_local_stamp("my.db-2020-01-01_00-00-00.gz", "my.db"), Some(at(NEW_YEAR_2020)));
    assert_eq!(read_local_stamp("title-2020-01-01_00-00-00", "title"), None);
    assert_eq!(
        read_local_stamp("title-2020-01-01_00-00-00.tar.gz", "title"),
        Some(at(NEW_YEAR_2020))
    );
    assert_eq!(
        read_local_stamp("title-2020-01-01_00-00-00.sql.bak", "title"),
        Some(at(NEW_YEAR_2020))
    );
    assert_eq!(read_local_stamp("title-2020-01-01_00-00-00x.sql", "title"), None);
    assert_eq!(read_local_stamp("title-.sql", "title"), None);
    assert_eq!(read_local_stamp("other-2020-01-01_00-00-00.sql", "title"), None);
    assert_eq!(read_local_stamp("title2020-01-01_00-00-00.sql", "title"), None);
    assert_eq!(read_local_stamp("title-", "title"), None);
    assert_eq!(read_local_stamp("", "title"), None);
}

#[test]
fn age_of_exactly_the_retention_is_not_older() {
    assert!(!is_older_than(at(NEW_YEAR_2020 + 7 * DAY), at(NEW_YEAR_2020), 7));
    assert!(is_older_than(
        Timestamp { secs: NEW_YEAR_2020 + 7 * DAY, nanos: 1 },
        at(NEW_YEAR_2020),
        7
    ));
    assert!(is_older_than(at(NEW_YEAR_2020 + 8 * DAY), at(NEW_YEAR_2020), 7));
    assert!(!is_older_than(at(NEW_YEAR_2020), at(NEW_YEAR_2020 + DAY), 0));
    assert!(is_older_than(at(NEW_YEAR_2020 + 1), at(NEW_YEAR_2020), 0));
    assert!(!is_older_than(at(i64::MAX), at(i64::MIN), u64::MAX));
}

#[test]
fn local_sweep_deletes_past_the_retention_and_keeps_at_it() {
    let names = vec![text("title-2020-01-01_00-00-00.sql")];
    let retention: u64 = 5;
    let kept = outdated_local_backups(&names, "title", retention, at(NEW_YEAR_2020 + 5 * DAY));
    assert_eq!(kept, Vec::<String>::new());
    let gone = outdated_local_backups(&names, "title", retention, at(NEW_YEAR_2020 + 6 * DAY));
    assert_eq!(gone, names);
    let early = outdated_local_backups(&names, "title", retention, at(NEW_YEAR_2020 - DAY));
    assert_eq!(early, Vec::<String>::new());
}

#[test]
fn local_sweep_spares_names_of_another_shape() {
    let names = vec![
        text("other-2020-01-01_00-00-00.sql"),
        text("title-not-a-date.sql"),
        text("title-2020-01-01_00-00-00"),
        text("title-2020-01-01_00-00-00.tar.gz"),
        text("title-2020-01-01_00-00-00.sql"),
        text("notes.txt"),
        text("title-2020-01-02_00-00-00.gz"),
    ];
    let picked = outdated_local_backups(&names, "title", 1, at(NEW_YEAR_2020 + 400 * DAY));
    assert_eq!(
        picked,
        vec![
            text("title-2020-01-01_00-00-00.tar.gz"),
            text("title-2020-01-01_00-00-00.sql"),
            text("title-2020-01-02_00-00-00.gz"),
        ]
    );
}

#[test]
fn local_sweep_by_the_clock_deletes_old_and_keeps_new() {
    let names =
        vec![text("title-2000-01-01_00-00-00.sql"), text("title-9000-01-01_00-00-00.sql")];
    let picked = check_outdated_local_backups(&names, "title", 1);
    assert_eq!(picked, vec![text("title-2000-01-01_00-00-00.sql")]);
}

#[test]
fn remote_sweep_deletes_past_the_retention_and_keeps_at_it() {
    let objects = vec![object("folder/a.sql", "2020-01-01T00:00:00Z")];
    let retention: u64 = 5;
    let kept = outdated_s3_backups(&objects, retention, at(NEW_YEAR_2020 + 5 * DAY));
    assert_eq!(kept, Vec::<String>::new());
    let gone = outdated_s3_backups(&objects, retention, at(NEW_YEAR_2020 + 6 * DAY));
    assert_eq!(gone, vec![text("folder/a.sql")]);
}

#[test]
fn remote_sweep_passes_over_times_it_cannot_read() {
    let objects = vec![
        object("folder/a.sql", "2020-01-01T00:00:00Z"),
        object("folder/b.sql", "long ago"),
        object("folder/c.sql", "2020-06-01T00:00:00.000Z"),
        object("folder/d.sql", "2019-12-31T23:00:00-01:00"),
    ];
    let picked = outdated_s3_backups(&objects, 30, at(NEW_YEAR_2020 + 31 * DAY));
    assert_eq!(picked, vec![text("folder/a.sql"), text("folder/d.sql")]);
}

#[test]
fn remote_sweep_by_the_clock_deletes_old_and_keeps_new() {
    let objects = vec![
        object("folder/old.sql", "2000-01-01T00:00:00Z"),
        object("folder/new.sql", "9000-01-01T00:00:00Z"),
    ];
    assert_eq!(check_outdated_s3_backups(&objects, 1), vec![text("folder/old.sql")]);
}

#[test]
fn clock_stamp_has_the_shape_of_the_artifact_names() {
    let clock = Clock::read();
    assert_eq!(clock.stamp.len(), 19);
    let read = read_file_stamp(&clock.stamp);
    assert_eq!(read, Some(Timestamp { secs: clock.wall.secs, nanos: 0 }));
    assert!(clock.instant.secs > NEW_YEAR_2020);
}

#[test]
fn clock_hands_out_one_reading_in_three_forms() {
    let clock = Clock::read();
    assert_eq!(clock.wall.nanos, clock.instant.nanos);
    let offset = clock.wall.secs - clock.instant.secs;
    assert!(-DAY < offset && offset < DAY);
    let written = chrono::DateTime::from_timestamp(clock.wall.secs, clock.wall.nanos)
        .unwrap()
        .naive_utc()
        .format(stamp_format())
        .to_string();
    assert_eq!(clock.stamp, written);
}

#[test]
fn file_stamps_written_by_chrono_are_read_back() {
    let times: [i64; 7] =
        [0, 1, 59, 86_399, NEW_YEAR_2020, NEW_YEAR_2020 + 31 * DAY + 3_661, 4_102_444_799];
    for secs in times {
        let written = chrono::DateTime::from_timestamp(secs, 0)
            .unwrap()
            .naive_utc()
            .format("%Y-%m-%d_%H-%M-%S")
            .to_string();
        assert_eq!(read_file_stamp(&written), Some(at(secs)));
        let name = format!("db-{}.sql", written);
        assert_eq!(read_local_stamp(&name, "db"), Some(at(secs)));
    }
}

#[test]
fn remote_stamps_written_by_chrono_are_read_back() {
    let times: [(i64, u32); 5] = [
        (0, 0),
        (1, 999_999_999),
        (NEW_YEAR_2020, 0),
        (NEW_YEAR_2020 + 12 * 3_600, 123_000_000),
        (4_102_444_799, 1),
    ];
    for (secs, nanos) in times {
        let written = chrono::DateTime::from_timestamp(secs, nanos).unwrap().to_rfc3339();
        assert_eq!(read_remote_stamp(&written), Some(Timestamp { secs, nanos }));
    }
}

#[test]
fn stamp_format_is_the_one_of_the_artifact_names() {
    assert_eq!(stamp_format(), "%Y-%m-%d_%H-%M-%S");
}

#[test]
fn later_instant_is_after_the_earlier() {
    let early = Timestamp { secs: 10, nanos: 999_999_999 };
    let late = Timestamp { secs: 11, nanos: 0 };
    assert!(late.is_after(&early));
    assert!(!early.is_after(&late));
    assert!(!early.is_after(&early));
    assert!(Timestamp { secs: i64::MAX, nanos: 0 }.is_after(&Timestamp { secs: i64::MIN, nanos: 0 }));
}

#[test]
fn titles_outside_ascii_are_counted_by_characters() {
    let name = "данные-2020-01-01_00-00-00.sql";
    assert_eq!(read_local_stamp(name, "данные"), Some(at(NEW_YEAR_2020)));
    assert_eq!(read_local_stamp(name, "данны"), None);
    let names = vec![text(name), text("данные-2020-01-01_00-00-00.журнал")];
    assert_eq!(outdated_local_backups(&names, "данные", 1, at(NEW_YEAR_2020 + 2 * DAY)), names);
}

#[test]
fn folder_archive_is_swept_past_the_retention_and_kept_at_it() {
    let names = vec![text("nightly-db-2020-01-01_00-00-00.tar.gz")];
    let kept = outdated_local_backups(&names, "nightly-db", 7, at(NEW_YEAR_2020 + 7 * DAY));
    assert_eq!(kept, Vec::<String>::new());
    let gone = outdated_local_backups(&names, "nightly-db", 7, at(NEW_YEAR_2020 + 8 * DAY));
    assert_eq!(gone, names);
}

fn chrono_time(time: Timestamp) -> chrono::DateTime<chrono::Utc> {
    chrono::DateTime::from_timestamp(time.secs, time.nanos).unwrap()
}

#[test]
fn age_is_counted_as_chrono_counts_it_round_leap_seconds() {
    let minute_end: i64 = NEW_YEAR_2020 + 59;
    let times = vec![
        at(NEW_YEAR_2020),
        at(minute_end),
        Timestamp { secs: minute_end, nanos: 999_999_999 },
        Timestamp { secs: minute_end, nanos: 1_000_000_000 },
        Timestamp { secs: minute_end, nanos: 1_500_000_000 },
        at(minute_end + 1),
        Timestamp { secs: minute_end + 1, nanos: 200_000_000 },
        at(minute_end + DAY),
        Timestamp { secs: minute_end + DAY, nanos: 1_250_000_000 },
        at(NEW_YEAR_2020 + DAY),
        at(NEW_YEAR_2020 + DAY + 60),
        Timestamp { secs: NEW_YEAR_2020 + 2 * DAY - 1, nanos: 1_999_999_999 },
        at(NEW_YEAR_2020 + 2 * DAY),
        at(-1),
        Timestamp { secs: -1, nanos: 1_000_000_000 },
        at(-DAY),
    ];
    for now in times.iter() {
        for then in times.iter() {
            let elapsed = chrono_time(*now) - chrono_time(*then);
            for days in [0u64, 1, 2] {
                assert_eq!(
                    is_older_than(*now, *then, days),
                    elapsed > chrono::TimeDelta::days(days as i64),
                    "{:?} since {:?}, {} days",
                    now,
                    then,
                    days
                );
            }
            assert_eq!(now.is_after(then), chrono_time(*now) > chrono_time(*then));
        }
    }
}
