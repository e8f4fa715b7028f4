//! Export metadata as the API sends it.

use vstd::prelude::*;

use crate::text::same_text;
use crate::timestamp::{
    date_time_to_rfc3339, is_later, rfc3339_timestamp, rfc3339_to_date_time, timestamp_text, Timestamp,
    RFC3339_MILLIS_FORMAT,
};

verus! {

/// Where an export archive can be downloaded.
#[derive(Debug, Clone)]
pub struct ExportDownload {
    /// Filename of the export
    pub filename: String,
    /// URL of the export to download
    pub url: String,
}

/// What an export holds.
#[derive(Debug, Clone, Copy, PartialEq, Eq, Structural)]
pub enum ExportType {
    NOTICES,
}

/// The name the API uses for an export type.
pub open spec fn export_type_name(t: ExportType) -> Seq<char> {
    match t {
        ExportType::NOTICES => "notices"@,
    }
}

impl ExportType {
    /// The export type the API calls `s`; the error holds `s` when no type
    /// has that name.
    pub fn from_str(s: &str) -> (r: Result<ExportType, String>)
        ensures
            match r {
                Ok(t) => export_type_name(t) == s@,
                Err(e) => e@ == s@ && s@ != "notices"@,
            },
    {
        if same_text(s, "notices") {
            Ok(ExportType::NOTICES)
        } else {
            Err(s.to_owned())
        }
    }

    /// The name the API uses for this export type.
    pub fn to_string(&self) -> (r: String)
        ensures
            r@ == export_type_name(*self),
    {
        match self {
            ExportType::NOTICES => "notices".to_owned(),
        }
    }
}

/// An export record as received from the API, all fields as text.
#[derive(Debug, Clone)]
pub struct ExportJson {
    pub export_type: String,
    pub file_extension: String,
    pub created_at: String,
    pub download: ExportDownload,
}

/// Export metadata with its fields read into structured types.
#[derive(Debug, Clone)]
pub struct Export {
    pub export_type: ExportType,
    pub file_extension: String,
    pub created_at: Timestamp,
    pub download: ExportDownload,
}

/// A field of a received record that could not be read; holds its text.
#[derive(Debug, Clone, PartialEq, Eq)]
pub enum ConversionError {
    /// Not the name of an export type.
    ExportType(String),
    /// Not an RFC 3339 timestamp.
    Timestamp(String),
}

/// Whether an export record can be read: a known export type and an
/// RFC 3339 creation time.
pub open spec fn is_readable(j: ExportJson) -> bool {
    j.export_type@ == "notices"@ && rfc3339_timestamp(j.created_at@) is Some
}

/// `e` is what the record `j` reads as.
pub open spec fn reads_as(j: ExportJson, e: Export) -> bool {
    &&& export_type_name(e.export_type) == j.export_type@
    &&& rfc3339_timestamp(j.created_at@) == Some(e.created_at)
    &&& e.file_extension@ == j.file_extension@
    &&& e.download.filename@ == j.download.filename@
    &&& e.download.url@ == j.download.url@
}

/// `e` reports the first field of `j` that cannot be read.
pub open spec fn reports(j: ExportJson, e: ConversionError) -> bool {
    match e {
        ConversionError::ExportType(t) => t@ == j.export_type@ && j.export_type@ != "notices"@,
        ConversionError::Timestamp(t) => t@ == j.created_at@ && j.export_type@ == "notices"@
            && rfc3339_timestamp(j.created_at@) is None,
    }
}

impl Export {
    /// Reads an export record as received from the API.
    pub fn try_from(value: &ExportJson) -> (r: Result<Export, ConversionError>)
        ensures
            r is Ok <==> is_readable(*value),
            r matches Ok(e) ==> reads_as(*value, e),
            r matches Err(e) ==> reports(*value, e),
    {
        let export_type = match ExportType::from_str(value.export_type.as_str()) {
            Ok(t) => t,
            Err(_) => return Err(ConversionError::ExportType(value.export_type.clone())),
        };
        let created_at = match rfc3339_to_date_time(value.created_at.as_str()) {
            Ok(t) => t,
            Err(_) => return Err(ConversionError::Timestamp(value.created_at.clone())),
        };
        Ok(Export {
            export_type,
            file_extension: value.file_extension.clone(),
            created_at,
            download: ExportDownload {
                filename: value.download.filename.clone(),
                url: value.download.url.clone(),
            },
        })
    }
}

impl ExportJson {
    /// The record the API would send for `value`; `None` when its timestamp
    /// cannot be written.
    pub fn from(value: &Export) -> (r: Option<ExportJson>)
        ensures
            r is Some <==> timestamp_text(value.created_at, RFC3339_MILLIS_FORMAT@) is Some,
            r matches Some(j) ==> {
                &&& j.export_type@ == export_type_name(value.export_type)
                &&& Some(j.created_at@) == timestamp_text(value.created_at, RFC3339_MILLIS_FORMAT@)
                &&& j.file_extension@ == value.file_extension@
                &&& j.download.filename@ == value.download.filename@
                &&& j.download.url@ == value.download.url@
            },
    {
        let created_at = match date_time_to_rfc3339(&value.created_at) {
            Some(t) => t,
            None => return None,
        };
        Some(ExportJson {
            export_type: value.export_type.to_string(),
            file_extension: value.file_extension.clone(),
            created_at,
            download: ExportDownload {
                filename: value.download.filename.clone(),
                url: value.download.url.clone(),
            },
        })
    }
}

/// Reads export records in order; fails with the error of the first record
/// that cannot be read.
pub fn exports_from_records(records: &Vec<ExportJson>) -> (r: Result<Vec<Export>, ConversionError>)
    ensures
        r is Ok <==> forall|i: int| 0 <= i < records@.len() ==> is_readable(#[trigger] records@[i]),
        r matches Ok(v) ==> v@.len() == records@.len() && forall|i: int|
            0 <= i < records@.len() ==> reads_as(#[trigger] records@[i], v@[i]),
        r matches Err(e) ==> exists|i: int|
            0 <= i < records@.len() && !is_readable(#[trigger] records@[i]) && reports(records@[i], e)
                && forall|j: int| 0 <= j < i ==> is_readable(#[trigger] records@[j]),
{
    let mut exports: Vec<Export> = Vec::new();
    let mut i: usize = 0;
    while i < records.len()
        invariant
            i <= records@.len(),
            exports@.len() == i,
            forall|j: int| 0 <= j < i ==> is_readable(#[trigger] records@[j]),
            forall|j: int| 0 <= j < i ==> reads_as(#[trigger] records@[j], exports@[j]),
        decreases records@.len() - i,
    {
        match Export::try_from(&records[i]) {
            Ok(e) => exports.push(e),
            Err(e) => {
                assert(!is_readable(records@[i as int]));
                return Err(e);
            },
        }
        i = i + 1;
    }
    Ok(exports)
}

/// The position of the latest export: the first of those created last.
pub fn latest_export(exports: &Vec<Export>) -> (r: Option<usize>)
    ensures
        r is None <==> exports@.len() == 0,
        r matches Some(i) ==> {
            &&& i < exports@.len()
            &&& forall|j: int|
                0 <= j < exports@.len() ==> !is_later(exports@[j].created_at, exports@[i as int].created_at)
            &&& forall|j: int|
                0 <= j < i ==> is_later(exports@[i as int].created_at, #[trigger] exports@[j].created_at)
        },
{
    if exports.len() == 0 {
        return None;
    }
    let mut best: usize = 0;
    let mut i: usize = 1;
    while i < exports.len()
        invariant
            1 <= i <= exports@.len(),
            best < i,
            forall|j: int| 0 <= j < i ==> !is_later(exports@[j].created_at, exports@[best as int].created_at),
            forall|j: int|
                0 <= j < best ==> is_later(exports@[best as int].created_at, #[trigger] exports@[j].created_at),
        decreases exports@.len() - i,
    {
        if exports[i].created_at.is_later_than(&exports[best].created_at) {
            best = i;
        }
        i = i + 1;
    }
    Some(best)
}

} // verus!
