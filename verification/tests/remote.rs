use reback::utils::failure::FailureKind;
use reback::utils::s3_utils::{
    find_latest_s3_backup, get_file_from_s3, get_s3_objects_list, list_prefix, upload_file_to_s3,
    Download, RemoteObject,
};

fn text(value: &str) -> String {
    value.to_string()
}

fn object(key: &str, last_modified: &str) -> RemoteObject {
    RemoteObject { key: text(key), last_modified: text(last_modified) }
}

#[test]
fn latest_of_an_empty_folder_is_not_found() {
    let failure = find_latest_s3_backup(&Vec::new()).unwrap_err();
    assert_eq!(failure.kind, FailureKind::NotFound);
    assert_eq!(failure.message, "No backups found");
}

#[test]
fn latest_is_the_object_changed_last() {
    let objects = vec![
        object("folder/a.sql", "2020-01-01T00:00:00Z"),
        object("folder/c.sql", "2020-03-01T00:00:00Z"),
        object("folder/b.sql", "2020-02-01T00:00:00Z"),
    ];
    assert_eq!(find_latest_s3_backup(&objects).unwrap(), "folder/c.sql");
}

#[test]
fn latest_goes_by_the_instant_not_by_the_text() {
    let objects = vec![
        object("folder/a.sql", "2020-01-01T10:00:00+00:00"),
        object("folder/b.sql", "2020-01-01T11:00:00+05:00"),
        object("folder/c.sql", "2020-01-01T09:59:59.999-00:30"),
    ];
    assert_eq!(find_latest_s3_backup(&objects).unwrap(), "folder/c.sql");
}

#[test]
fn latest_of_objects_changed_at_the_same_instant_is_the_first_listed() {
    let objects = vec![
        object("folder/early.sql", "2019-01-01T00:00:00Z"),
        object("folder/first.sql", "2020-01-01T00:00:00Z"),
        object("folder/second.sql", "2020-01-01T01:00:00+01:00"),
    ];
    assert_eq!(find_latest_s3_backup(&objects).unwrap(), "folder/first.sql");
}

#[test]
fn latest_passes_over_times_it_cannot_read() {
    let objects = vec![
        object("folder/a.sql", "2020-01-01T00:00:00Z"),
        object("folder/b.sql", "9999"),
    ];
    assert_eq!(find_latest_s3_backup(&objects).unwrap(), "folder/a.sql");
    let unreadable = vec![object("folder/b.sql", "9999"), object("folder/c.sql", "")];
    assert_eq!(find_latest_s3_backup(&unreadable).unwrap_err().kind, FailureKind::NotFound);
}

#[test]
fn latest_of_a_single_object_is_that_object() {
    let objects = vec![object("folder/only.gz", "1999-12-31T23:59:59Z")];
    assert_eq!(find_latest_s3_backup(&objects).unwrap(), "folder/only.gz");
}

#[test]
fn pages_of_a_listing_are_merged_in_order() {
    let pages = vec![
        vec![object("f/1", "a"), object("f/2", "b")],
        Vec::new(),
        vec![object("f/3", "c")],
    ];
    assert_eq!(
        get_s3_objects_list(&pages),
        vec![object("f/1", "a"), object("f/2", "b"), object("f/3", "c")]
    );
    assert_eq!(get_s3_objects_list(&Vec::new()), Vec::<RemoteObject>::new());
}

#[test]
fn objects_of_a_folder_are_listed_under_its_name_and_a_slash() {
    assert_eq!(list_prefix("remote/db"), "remote/db/");
    assert_eq!(list_prefix(""), "/");
}

#[test]
fn upload_goes_to_the_folder_under_the_name_of_the_file() {
    assert_eq!(
        upload_file_to_s3("/var/backups/db/db-2024-05-06_07-08-09.tar.gz", "remote").unwrap(),
        "remote/db-2024-05-06_07-08-09.tar.gz"
    );
    assert_eq!(upload_file_to_s3("plain.sql", "a/b").unwrap(), "a/b/plain.sql");
}

#[test]
fn upload_of_a_path_without_a_file_name_fails() {
    let failure = upload_file_to_s3("/var/backups/", "remote").unwrap_err();
    assert_eq!(failure.kind, FailureKind::Io);
    assert_eq!(failure.message, "Failed to extract file name from /var/backups/");
    let failure = upload_file_to_s3("", "remote").unwrap_err();
    assert_eq!(failure.message, "Failed to extract file name from ");
}

#[test]
fn download_goes_to_the_key_under_the_directory() {
    let objects = vec![
        object("remote/db-2020.sql", "2020-01-01T00:00:00Z"),
        object("remote/db-2021.sql", "2021-01-01T00:00:00Z"),
    ];
    assert_eq!(
        get_file_from_s3("/var/backups/to_restore", &objects).unwrap(),
        Download {
            key: text("remote/db-2021.sql"),
            directory: text("/var/backups/to_restore/remote"),
            destination: text("/var/backups/to_restore/remote/db-2021.sql"),
        }
    );
}

#[test]
fn download_from_an_empty_folder_is_not_found() {
    let failure = get_file_from_s3("/var/backups/to_restore", &Vec::new()).unwrap_err();
    assert_eq!(failure.kind, FailureKind::NotFound);
    assert_eq!(failure.message, "No backups found");
}

#[test]
fn paths_outside_ascii_are_cut_by_characters() {
    assert_eq!(
        upload_file_to_s3("/срв/данные/архив-1.sql", "папка").unwrap(),
        "папка/архив-1.sql"
    );
    let objects = vec![object("папка/архив-1.sql", "2020-01-01T00:00:00Z")];
    assert_eq!(
        get_file_from_s3("/срв/восстановление", &objects).unwrap(),
        Download {
            key: text("папка/архив-1.sql"),
            directory: text("/срв/восстановление/папка"),
            destination: text("/срв/восстановление/папка/архив-1.sql"),
        }
    );
}
