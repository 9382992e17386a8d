//! The persisted schema: the tables `file_uris` and `vrs_locations`.

use vstd::prelude::*;

verus! {

/// The statement that creates both tables where they do not exist yet. It can
/// be run on a database that already holds them.
///
/// `file_uris` gives each source file an id and keeps its URI unique.
/// `vrs_locations` ties a variant id to a chromosome, a position and the id of
/// a row of `file_uris`; no such combination is stored twice.
pub const CREATE_TABLES: &'static str = "
        CREATE TABLE IF NOT EXISTS file_uris (
            id INTEGER PRIMARY KEY,
            uri TEXT UNIQUE
        );
        CREATE TABLE IF NOT EXISTS vrs_locations (
            id INTEGER PRIMARY KEY AUTOINCREMENT,
            vrs_id TEXT NOT NULL,
            chr TEXT NOT NULL,
            pos INTEGER NOT NULL,
            uri_id INTEGER NOT NULL,
            FOREIGN KEY (uri_id) REFERENCES file_uris(id),
            UNIQUE(vrs_id, chr, pos, uri_id)
        );
        ";

/// Whether connections to the index enforce the foreign key of
/// `vrs_locations`. The engine checks foreign keys only on connections that
/// ask for it, so whoever opens one applies this setting: with it, a location
/// whose file is not in `file_uris` is refused.
pub const ENFORCE_FOREIGN_KEYS: bool = true;

} // verus!
