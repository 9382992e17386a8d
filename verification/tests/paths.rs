use std::path::PathBuf;
use vrs_sqlite::path::replace_extension;

fn std_set_extension(path: &str, extension: &str) -> String {
    let mut buf = PathBuf::from(path);
    buf.set_extension(extension);
    buf.to_str().unwrap().to_string()
}

#[test]
fn replaces_an_extension() {
    assert_eq!(replace_extension("/tmp/x/test.sqlite", "db-shm"), "/tmp/x/test.db-shm");
    assert_eq!(replace_extension("/tmp/x/test.sqlite", "db-wal"), "/tmp/x/test.db-wal");
    assert_eq!(replace_extension("test.sqlite", "db-shm"), "test.db-shm");
}

#[test]
fn adds_an_extension_where_there_is_none() {
    assert_eq!(replace_extension("/data/index", "db-shm"), "/data/index.db-shm");
    assert_eq!(replace_extension("index", "db-wal"), "index.db-wal");
}

#[test]
fn replaces_only_the_last_extension() {
    assert_eq!(replace_extension("/data/index.v1.sqlite", "db-shm"), "/data/index.v1.db-shm");
    assert_eq!(replace_extension("archive.tar.gz", "xz"), "archive.tar.xz");
}

#[test]
fn keeps_a_leading_dot_in_the_stem() {
    assert_eq!(replace_extension("/home/u/.index", "db-shm"), "/home/u/.index.db-shm");
    assert_eq!(replace_extension(".index.sqlite", "db-shm"), ".index.db-shm");
}

#[test]
fn a_dot_in_a_directory_name_is_no_extension() {
    assert_eq!(replace_extension("/data.d/index", "db-shm"), "/data.d/index.db-shm");
}

#[test]
fn drops_what_follows_the_file_name() {
    assert_eq!(replace_extension("/data/index.sqlite/", "db-shm"), "/data/index.db-shm");
    assert_eq!(replace_extension("/data/index.sqlite/.", "db-shm"), "/data/index.db-shm");
    assert_eq!(replace_extension("/data/index.sqlite//./", "db-shm"), "/data/index.db-shm");
}

#[test]
fn leaves_a_path_without_file_name_alone() {
    assert_eq!(replace_extension("", "db-shm"), "");
    assert_eq!(replace_extension("/", "db-shm"), "/");
    assert_eq!(replace_extension(".", "db-shm"), ".");
    assert_eq!(replace_extension("..", "db-shm"), "..");
    assert_eq!(replace_extension("/data/..", "db-shm"), "/data/..");
    assert_eq!(replace_extension("/data/../", "db-shm"), "/data/../");
    assert_eq!(replace_extension("./", "db-shm"), "./");
}

#[test]
fn an_empty_extension_only_removes() {
    assert_eq!(replace_extension("/data/index.sqlite", ""), "/data/index");
    assert_eq!(replace_extension("/data/index", ""), "/data/index");
    assert_eq!(replace_extension("/data/index.", ""), "/data/index");
}

#[test]
fn a_trailing_dot_is_an_empty_extension() {
    assert_eq!(replace_extension("index.", "db-shm"), "index.db-shm");
    assert_eq!(replace_extension("...", "x"), "...x");
}

#[test]
fn counts_characters_not_bytes() {
    assert_eq!(replace_extension("/données/índice.sqlite", "db-shm"), "/données/índice.db-shm");
    assert_eq!(replace_extension("/譜/表.ext", "db-wal"), "/譜/表.db-wal");
}

const PATHS: [&str; 51] = [
    "",
    "/",
    "//",
    ".",
    "..",
    "...",
    "./",
    "../",
    "/.",
    "/..",
    "a",
    "a.",
    ".a",
    "a.b",
    ".a.b",
    "a.b.c",
    "a..b",
    "..a",
    "a/",
    "a//",
    "a/.",
    "a/./",
    "a/..",
    "a/../",
    "a/b",
    "a/b.c",
    "a.b/c",
    "a.b/c.d",
    "a.b/.",
    "a.b/..",
    "./a",
    "./a.b",
    "./.a",
    "../a.b",
    ".././a.b/.",
    "/a",
    "/a.b",
    "/a.b/",
    "/a.b//",
    "/a.b/./.",
    "/a/b/c.sqlite",
    "/a/b/c.db-shm",
    "/a/b/c.db-wal",
    "/tmp/x/test.sqlite",
    "/tmp/x y/test file.sqlite",
    "relative/dir/test.sqlite3",
    "/a/b/.hidden",
    "/a/b/.hidden.sqlite",
    "/a/b/c.sqlite?mode=rwc",
    "/données/índice.sqlite",
    ":memory:",
];

#[test]
fn agrees_with_the_standard_library() {
    let extensions = ["db-shm", "db-wal", "", "x", "tar.gz", "é"];
    for path in PATHS {
        for extension in extensions {
            assert_eq!(
                replace_extension(path, extension),
                std_set_extension(path, extension),
                "path {:?}, extension {:?}",
                path,
                extension
            );
        }
    }
}

#[test]
fn a_second_replacement_undoes_the_first() {
    for path in PATHS {
        let shm = replace_extension(path, "db-shm");
        assert_eq!(replace_extension(&shm, "db-wal"), replace_extension(path, "db-wal"));
        assert_eq!(replace_extension(&shm, "db-shm"), shm);
    }
}

#[test]
fn a_replaced_extension_ends_the_path() {
    assert!(replace_extension("/a/b/c.sqlite/", "db-shm").ends_with(".db-shm"));
    assert!(replace_extension("/a/b/c", "db-wal").ends_with(".db-wal"));
    assert!(!replace_extension("/a/b/..", "db-wal").ends_with(".db-wal"));
}

fn all_paths(alphabet: &[char], length: usize) -> Vec<String> {
    let mut paths = vec![String::new()];
    for _ in 0..length {
        let mut longer = Vec::new();
        for path in &paths {
            for c in alphabet {
                let mut next = path.clone();
                next.push(*c);
                longer.push(next);
            }
        }
        paths = longer;
    }
    paths
}

#[test]
fn agrees_with_the_standard_library_on_every_short_path() {
    let mut compared = 0;
    for length in 0..=8 {
        for path in all_paths(&['a', '.', '/'], length) {
            for extension in ["db-shm", ""] {
                assert_eq!(
                    replace_extension(&path, extension),
                    std_set_extension(&path, extension),
                    "path {:?}, extension {:?}",
                    path,
                    extension
                );
                compared += 1;
            }
        }
    }
    assert_eq!(compared, 2 * 9841);
}
