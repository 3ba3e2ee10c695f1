use vstd::prelude::*;
use crate::error::UpdateError;
use crate::json::{make_object, object_of, parse, parsed, render, rendered, string_field, string_member};

verus! {

/// The marker file's path, relative to the working directory.
pub const MARKER_FILE: &'static str = "config.json";

/// The installed version, as the marker file records it.
#[derive(Debug, PartialEq, Eq)]
pub struct VersionRecord {
    pub version: String,
}

/// The version that a marker document records: its string member `version`.
/// A document without that member, or with another kind of value there,
/// records none.
pub open spec fn document_version(doc: serde_json::Value) -> Option<Seq<char>> {
    string_member(doc, "version"@)
}

/// The version that the marker file's text records, if it is a JSON document
/// that records one.
pub open spec fn recorded_version(contents: Seq<char>) -> Option<Seq<char>> {
    match parsed(contents) {
        Some(doc) => document_version(doc),
        None => None,
    }
}

/// Reads the record out of a marker document. A document that records no
/// version is a parse error, never a default.
pub fn record_from_document(doc: &serde_json::Value) -> (r: Result<VersionRecord, UpdateError>)
    ensures
        match document_version(*doc) {
            Some(version) => r matches Ok(record) && record.version@ == version,
            None => r matches Err(e) && e == UpdateError::Parse,
        },
{
    match string_field(doc, "version") {
        Some(version) => Ok(VersionRecord { version }),
        None => Err(UpdateError::Parse),
    }
}

/// Reads the installed version from the marker file's contents.
pub fn read_version(contents: &str) -> (r: Result<String, UpdateError>)
    ensures
        match recorded_version(contents@) {
            Some(version) => r matches Ok(found) && found@ == version,
            None => r matches Err(e) && e == UpdateError::Parse,
        },
{
    match parse(contents) {
        Ok(doc) => match record_from_document(&doc) {
            Ok(record) => Ok(record.version),
            Err(e) => Err(e),
        },
        Err(_) => Err(UpdateError::Parse),
    }
}

/// The marker document for a record: an object whose one member, `version`,
/// is the record's version. Reading it gives that version back.
pub fn document_of_record(record: &VersionRecord) -> (doc: serde_json::Value)
    ensures
        doc == object_of("version"@, record.version@),
        document_version(doc) == Some(record.version@),
{
    make_object("version", record.version.as_str())
}

/// The contents to write to the marker file so that it records `version`.
pub fn write_version(version: &str) -> (r: Result<String, UpdateError>)
    ensures
        match rendered(object_of("version"@, version@)) {
            Some(text) => r matches Ok(contents) && contents@ == text,
            None => r matches Err(e) && e == UpdateError::Io,
        },
{
    let record = VersionRecord { version: version.to_owned() };
    let doc = document_of_record(&record);
    match render(&doc) {
        Ok(contents) => Ok(contents),
        Err(_) => Err(UpdateError::Io),
    }
}

} // verus!
