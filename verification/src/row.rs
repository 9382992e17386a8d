//! The record that callers exchange with the `vrs_locations` table.

use vstd::prelude::*;

verus! {

/// One variant location: which variant, where on which chromosome, and the
/// `file_uris` row of the file it was read from.
#[derive(Debug)]
pub struct DbRow {
    pub vrs_id: String,
    pub chr: String,
    pub pos: i64,
    pub uri_id: i64,
}

/// What a [`DbRow`] holds, as plain values. Two rows with the same view are
/// the same location: `vrs_locations` stores such a row once.
pub struct DbRowView {
    pub vrs_id: Seq<char>,
    pub chr: Seq<char>,
    pub pos: int,
    pub uri_id: int,
}

impl View for DbRow {
    type V = DbRowView;

    open spec fn view(&self) -> DbRowView {
        DbRowView {
            vrs_id: self.vrs_id@,
            chr: self.chr@,
            pos: self.pos as int,
            uri_id: self.uri_id as int,
        }
    }
}

} // verus!
