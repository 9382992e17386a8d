use vrs_sqlite::location::strip_scheme;
use vrs_sqlite::location::LocationError;
use vrs_sqlite::tempfiles::{cleanup_tempfiles, Tempfiles};

#[test]
fn cleanup_names_both_side_files() {
    let files = cleanup_tempfiles("sqlite:///tmp/x/test.sqlite").expect("cleanup_tempfiles failed");
    assert_eq!(files.shm, "/tmp/x/test.db-shm");
    assert_eq!(files.wal, "/tmp/x/test.db-wal");
}

#[test]
fn cleanup_names_the_same_files_again() {
    let first = cleanup_tempfiles("sqlite:///tmp/x/test.sqlite");
    let second = cleanup_tempfiles("sqlite:///tmp/x/test.sqlite");
    assert_eq!(first, second);
    assert_eq!(
        first,
        Ok(Tempfiles {
            shm: String::from("/tmp/x/test.db-shm"),
            wal: String::from("/tmp/x/test.db-wal"),
        })
    );
}

#[test]
fn cleanup_never_names_the_database_itself() {
    let files = cleanup_tempfiles("sqlite:///tmp/x/test.sqlite").unwrap();
    assert_ne!(files.shm, "/tmp/x/test.sqlite");
    assert_ne!(files.wal, "/tmp/x/test.sqlite");
    assert_ne!(files.shm, files.wal);
}

#[test]
fn cleanup_refuses_a_location_without_the_scheme() {
    assert_eq!(cleanup_tempfiles("/tmp/x/test.sqlite"), Err(LocationError::MissingScheme));
    assert_eq!(cleanup_tempfiles(""), Err(LocationError::MissingScheme));
    assert_eq!(cleanup_tempfiles("sqlite:/tmp/x/test.sqlite"), Err(LocationError::MissingScheme));
    assert_eq!(cleanup_tempfiles("sqlite:test.sqlite"), Err(LocationError::MissingScheme));
    assert_eq!(cleanup_tempfiles("sqlite:/"), Err(LocationError::MissingScheme));
    assert_eq!(cleanup_tempfiles("SQLITE:///tmp/test.sqlite"), Err(LocationError::MissingScheme));
    assert_eq!(cleanup_tempfiles(" sqlite:///tmp/test.sqlite"), Err(LocationError::MissingScheme));
    assert_eq!(
        cleanup_tempfiles("postgres://localhost/test"),
        Err(LocationError::MissingScheme)
    );
}

#[test]
fn cleanup_of_a_relative_path() {
    let files = cleanup_tempfiles("sqlite://index.sqlite").unwrap();
    assert_eq!(files.shm, "index.db-shm");
    assert_eq!(files.wal, "index.db-wal");
}

#[test]
fn cleanup_of_a_database_without_extension() {
    let files = cleanup_tempfiles("sqlite:///var/lib/index").unwrap();
    assert_eq!(files.shm, "/var/lib/index.db-shm");
    assert_eq!(files.wal, "/var/lib/index.db-wal");
}

#[test]
fn cleanup_of_a_location_without_file_name() {
    let files = cleanup_tempfiles("sqlite://").unwrap();
    assert_eq!(files.shm, "");
    assert_eq!(files.wal, "");
    let files = cleanup_tempfiles("sqlite:///").unwrap();
    assert_eq!(files.shm, "/");
    assert_eq!(files.wal, "/");
    let files = cleanup_tempfiles("sqlite:///tmp/..").unwrap();
    assert_eq!(files.shm, "/tmp/..");
    assert_eq!(files.wal, "/tmp/..");
}

#[test]
fn cleanup_of_a_side_file_location() {
    let files = cleanup_tempfiles("sqlite:///tmp/x/test.db-shm").unwrap();
    assert_eq!(files.shm, "/tmp/x/test.db-shm");
    assert_eq!(files.wal, "/tmp/x/test.db-wal");
}

#[test]
fn strips_the_scheme() {
    assert_eq!(strip_scheme("sqlite:///tmp/x/test.sqlite"), Some("/tmp/x/test.sqlite"));
    assert_eq!(strip_scheme("sqlite://test.sqlite"), Some("test.sqlite"));
    assert_eq!(strip_scheme("sqlite://"), Some(""));
    assert_eq!(strip_scheme("sqlite://sqlite://a"), Some("sqlite://a"));
    assert_eq!(strip_scheme("sqlite://données.sqlite"), Some("données.sqlite"));
    assert_eq!(strip_scheme("sqlite:/"), None);
    assert_eq!(strip_scheme("sqlite"), None);
    assert_eq!(strip_scheme("/sqlite://a"), None);
    assert_eq!(strip_scheme(""), None);
}

#[test]
fn a_location_gives_its_path_back() {
    for path in ["", "/", "test.sqlite", "/tmp/x/test.sqlite", "sqlite://", "a b/c.d"] {
        let url = format!("sqlite://{}", path);
        assert_eq!(strip_scheme(&url), Some(path));
    }
}

#[test]
fn the_log_is_named_after_the_database() {
    for path in ["/tmp/x/test.sqlite", "/tmp/x/test", "test.v1.sqlite", "/a/.hidden", "/a/b/"] {
        let files = cleanup_tempfiles(&format!("sqlite://{}", path)).unwrap();
        assert_eq!(files.wal, vrs_sqlite::path::replace_extension(path, "db-wal"));
        assert_eq!(files.shm, vrs_sqlite::path::replace_extension(path, "db-shm"));
    }
}
