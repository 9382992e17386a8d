//! The side files that the engine leaves beside a database in write-ahead-log
//! mode: a shared-memory file and the log itself. They are named after the
//! database file, with its extension replaced.

use crate::location::{database_path, has_scheme, strip_scheme, LocationError};
use crate::path::{file_name, replace_extension, with_extension};
use crate::path_laws::{
    is_plain_extension, lemma_with_extension_injective, lemma_with_extension_suffix,
    lemma_with_extension_twice,
};
use vstd::prelude::*;

verus! {

/// The extension of the shared-memory file.
pub const SHM_EXTENSION: &'static str = "db-shm";

/// The extension of the write-ahead log.
pub const WAL_EXTENSION: &'static str = "db-wal";

/// The two side files of one database, by path.
#[derive(Debug, Clone, PartialEq, Eq)]
pub struct Tempfiles {
    /// The shared-memory file.
    pub shm: String,
    /// The write-ahead log.
    pub wal: String,
}

/// The two paths of a [`Tempfiles`].
pub struct TempfilesView {
    pub shm: Seq<char>,
    pub wal: Seq<char>,
}

impl View for Tempfiles {
    type V = TempfilesView;

    open spec fn view(&self) -> TempfilesView {
        TempfilesView { shm: self.shm@, wal: self.wal@ }
    }
}

/// The path of the shared-memory file of the database at `path`.
pub open spec fn shm_path(path: Seq<char>) -> Seq<char> {
    with_extension(path, SHM_EXTENSION@)
}

/// The path of the write-ahead log of the database at `path`: the path of the
/// shared-memory file, with the extension replaced once more.
pub open spec fn wal_path(path: Seq<char>) -> Seq<char> {
    with_extension(shm_path(path), WAL_EXTENSION@)
}

/// The side files of the database at the location `url`, or why it has none.
pub open spec fn tempfiles_of(url: Seq<char>) -> Result<TempfilesView, LocationError> {
    if has_scheme(url) {
        Ok(TempfilesView { shm: shm_path(database_path(url)), wal: wal_path(database_path(url)) })
    } else {
        Err(LocationError::MissingScheme)
    }
}

/// Names the side files to delete for the database at `db_url`. A location
/// without the scheme `sqlite://` is refused; every other one is answered.
pub fn cleanup_tempfiles(db_url: &str) -> (files: Result<Tempfiles, LocationError>)
    ensures
        match files {
            Ok(named) => tempfiles_of(db_url@) == Ok::<TempfilesView, LocationError>(named@),
            Err(refused) => tempfiles_of(db_url@) == Err::<TempfilesView, LocationError>(refused),
        },
{
    match strip_scheme(db_url) {
        None => Err(LocationError::MissingScheme),
        Some(path) => {
            let shm = replace_extension(path, SHM_EXTENSION);
            let wal = replace_extension(shm.as_str(), WAL_EXTENSION);
            Ok(Tempfiles { shm, wal })
        },
    }
}

/// Both extensions are plain, and they differ.
pub proof fn lemma_extensions_plain()
    ensures
        is_plain_extension(SHM_EXTENSION@),
        is_plain_extension(WAL_EXTENSION@),
        SHM_EXTENSION@ != WAL_EXTENSION@,
{
    reveal_strlit("db-shm");
    reveal_strlit("db-wal");
    assert(SHM_EXTENSION@[3] != WAL_EXTENSION@[3]);
}

/// The write-ahead log is named after the database itself: replacing the
/// extension of the shared-memory file's path gives what replacing the
/// extension of the database's path gives.
pub proof fn lemma_wal_path_of_database(path: Seq<char>)
    ensures
        wal_path(path) == with_extension(path, WAL_EXTENSION@),
{
    lemma_extensions_plain();
    lemma_with_extension_twice(path, SHM_EXTENSION@, WAL_EXTENSION@);
}

/// A database path with a file name has two different side files.
pub proof fn lemma_side_files_differ(path: Seq<char>)
    requires
        file_name(path) is Some,
    ensures
        shm_path(path) != wal_path(path),
{
    lemma_extensions_plain();
    lemma_wal_path_of_database(path);
    if shm_path(path) == wal_path(path) {
        lemma_with_extension_injective(path, SHM_EXTENSION@, WAL_EXTENSION@);
    }
}

/// The database file itself is not among its side files, unless its own path
/// ends in one of the two extensions.
pub proof fn lemma_database_not_a_side_file(path: Seq<char>)
    requires
        file_name(path) is Some,
    ensures
        shm_path(path) == path ==> (seq!['.'] + SHM_EXTENSION@).is_suffix_of(path),
        wal_path(path) == path ==> (seq!['.'] + WAL_EXTENSION@).is_suffix_of(path),
{
    lemma_extensions_plain();
    lemma_wal_path_of_database(path);
    lemma_with_extension_suffix(path, SHM_EXTENSION@);
    lemma_with_extension_suffix(path, WAL_EXTENSION@);
}

/// A path without a file name has no side files of its own: both names fall
/// back on the path itself.
pub proof fn lemma_side_files_without_file_name(path: Seq<char>)
    requires
        file_name(path) is None,
    ensures
        shm_path(path) == path,
        wal_path(path) == path,
{
}

} // verus!
