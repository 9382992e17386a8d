//! Bootstrap and housekeeping for the SQLite index of variant locations.
//!
//! The index is one database file with two tables: `file_uris` names source
//! files, `vrs_locations` ties variant ids to positions in them. This crate
//! holds what is decided about that file, and proves it:
//!
//! - [`setup`] decides in which order a database is checked for, created,
//!   connected to and given its tables, and with which result a setup ends;
//! - [`schema`] holds the statement that creates the tables;
//! - [`tempfiles`] names the side files that the engine leaves beside a
//!   database, from the database's location;
//! - [`location`] and [`path`] read locations and file paths, and
//!   [`path_laws`] says what holds of replaced extensions;
//! - [`row`] is the record of one variant location.
//!
//! Nothing here touches the database or the file system: the caller does
//! that, as these modules tell it.

pub mod location;
pub mod path;
pub mod path_laws;
pub mod row;
pub mod schema;
pub mod setup;
pub mod tempfiles;
