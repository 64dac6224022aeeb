//! The decision core of the forecast cache.
//!
//! A caller supplies a document identity and a requested representation (raw
//! file or parsed forecast). The functions here decide, from the persisted
//! record and the remote store's current listing, whether the cached artifacts
//! can be trusted or which remote call and reparse must happen, and they build
//! every updated record through a single constructor path so that the parsed
//! representation and its schema version stay paired. The surrounding runtime
//! performs the remote fetches, the parsing and the persistent reads and
//! writes, and feeds their results back in.

use vstd::prelude::*;

use crate::google_drive::ListFileMetadata;
use crate::str_eq;

verus! {

/// Which representation of a document the caller asks for.
#[derive(Clone, Copy, Debug, PartialEq, Eq, Structural)]
pub enum RequestedForecastData {
    /// Request the forecast as parsed forecast data. File must be a spreadsheet.
    Forecast,
    /// Request the forecast as a file to download.
    File,
}

/// The representation handed back to the caller: the parsed forecast (an
/// opaque serialized blob from this core's point of view) or the raw file.
#[derive(Clone, Debug, PartialEq, Eq)]
pub enum ForecastData {
    Forecast(Vec<u8>),
    File(Vec<u8>),
}

/// Which remote call must refresh a stale or missing record: an export in the
/// parseable format, or the file's native bytes.
#[derive(Clone, Copy, Debug, PartialEq, Eq, Structural)]
pub enum FetchKind {
    Export,
    Raw,
}

/// A failure of one cache operation, with the document identity attached.
/// The decision functions here produce only `UnsupportedContentKind`; the
/// runtime maps failures of its remote fetches, parses and persistent reads
/// and writes to the other variants. None is retried internally.
#[derive(Clone, Debug, PartialEq, Eq)]
pub enum CacheError {
    /// The remote listing or fetch failed.
    FetchError { remote_id: String },
    /// The document's content kind cannot serve the requested representation.
    UnsupportedContentKind { remote_id: String, content_kind: String },
    /// Parsing the document failed.
    ParseError { remote_id: String },
    /// The persistent store failed to read or write.
    StorageError { remote_id: String },
}

/// The persisted cache record, keyed by the remote document id. `file_blob`
/// and `last_modified` are only ever overwritten together; the parsed fields
/// are updated independently whenever a reparse occurs.
#[derive(Clone, Debug, PartialEq, Eq)]
pub struct ForecastFile {
    pub google_drive_id: String,
    /// Modification time copied from the remote descriptor at the last
    /// successful fetch, in Unix seconds.
    pub last_modified: i64,
    /// The fetched document bytes; present once any fetch has succeeded.
    pub file_blob: Vec<u8>,
    /// The parsed forecast, as an opaque serialized blob; present only if a
    /// parse has ever succeeded for this record.
    pub parsed_forecast: Option<Vec<u8>>,
    /// The schema version that produced `parsed_forecast`.
    pub schema_version: Option<String>,
}

impl ForecastFile {
    /// The record's pairing invariant: the parsed representation and its
    /// schema version are both present or both absent.
    pub open spec fn wf(self) -> bool {
        self.parsed_forecast is Some <==> self.schema_version is Some
    }
}

/// A cached record is fresh exactly when it exists and its modification time
/// equals the remote's current one (exact equality, not an ordering test).
pub open spec fn spec_is_fresh(cached: Option<ForecastFile>, remote_modified_time: i64) -> bool {
    cached matches Some(c) && c.last_modified == remote_modified_time
}

/// What a cache consultation decides: trust the existing record, or make the
/// named remote call.
#[derive(Clone, Debug, PartialEq, Eq)]
pub enum CacheLookup {
    Fresh(ForecastFile),
    NeedsFetch(FetchKind),
}

/// The decision taken on a cache consultation, before any remote content
/// call: reject a request for parsed data when the content kind cannot be
/// exported for parsing; otherwise keep a fresh record, or name the remote
/// call that must refresh it.
pub open spec fn spec_evaluate_cache(
    cached: Option<ForecastFile>,
    remote: ListFileMetadata,
    requested: RequestedForecastData,
) -> Result<CacheLookup, CacheError> {
    if requested is Forecast && !remote.spec_is_google_sheet() {
        Err(
            CacheError::UnsupportedContentKind {
                remote_id: remote.id,
                content_kind: remote.mime_type,
            },
        )
    } else if spec_is_fresh(cached, remote.modified_time) {
        Ok(CacheLookup::Fresh(cached->0))
    } else if requested is Forecast {
        Ok(CacheLookup::NeedsFetch(FetchKind::Export))
    } else {
        Ok(CacheLookup::NeedsFetch(FetchKind::Raw))
    }
}

pub fn evaluate_cache(
    cached: Option<ForecastFile>,
    remote: &ListFileMetadata,
    requested: RequestedForecastData,
) -> (r: Result<CacheLookup, CacheError>)
    ensures
        r == spec_evaluate_cache(cached, *remote, requested),
{
    let wants_forecast = matches!(requested, RequestedForecastData::Forecast);
    if wants_forecast && !remote.is_google_sheet() {
        return Err(
            CacheError::UnsupportedContentKind {
                remote_id: remote.id.clone(),
                content_kind: remote.mime_type.clone(),
            },
        );
    }
    match cached {
        Some(c) => {
            if c.last_modified == remote.modified_time {
                Ok(CacheLookup::Fresh(c))
            } else if wants_forecast {
                Ok(CacheLookup::NeedsFetch(FetchKind::Export))
            } else {
                Ok(CacheLookup::NeedsFetch(FetchKind::Raw))
            }
        },
        None => {
            if wants_forecast {
                Ok(CacheLookup::NeedsFetch(FetchKind::Export))
            } else {
                Ok(CacheLookup::NeedsFetch(FetchKind::Raw))
            }
        },
    }
}

/// The record written after a fetch that serves a raw-file request: fresh
/// bytes and modification time, no parsed representation.
pub open spec fn spec_record_for_file(remote: ListFileMetadata, file_blob: Vec<u8>) -> ForecastFile {
    ForecastFile {
        google_drive_id: remote.id,
        last_modified: remote.modified_time,
        file_blob,
        parsed_forecast: None,
        schema_version: None,
    }
}

pub fn record_for_file(remote: &ListFileMetadata, file_blob: Vec<u8>) -> (r: ForecastFile)
    ensures
        r == spec_record_for_file(*remote, file_blob),
        r.wf(),
{
    ForecastFile {
        google_drive_id: remote.id.clone(),
        last_modified: remote.modified_time,
        file_blob,
        parsed_forecast: None,
        schema_version: None,
    }
}

/// The record written after a fetch that serves a parsed-forecast request:
/// fresh bytes and modification time together with the parse they produced
/// and the schema version that produced it.
pub open spec fn spec_record_for_forecast(
    remote: ListFileMetadata,
    file_blob: Vec<u8>,
    parsed_forecast: Vec<u8>,
    schema_version: String,
) -> ForecastFile {
    ForecastFile {
        google_drive_id: remote.id,
        last_modified: remote.modified_time,
        file_blob,
        parsed_forecast: Some(parsed_forecast),
        schema_version: Some(schema_version),
    }
}

pub fn record_for_forecast(
    remote: &ListFileMetadata,
    file_blob: Vec<u8>,
    parsed_forecast: Vec<u8>,
    schema_version: String,
) -> (r: ForecastFile)
    ensures
        r == spec_record_for_forecast(*remote, file_blob, parsed_forecast, schema_version),
        r.wf(),
{
    ForecastFile {
        google_drive_id: remote.id.clone(),
        last_modified: remote.modified_time,
        file_blob,
        parsed_forecast: Some(parsed_forecast),
        schema_version: Some(schema_version),
    }
}

/// Updating only the parsed fields of a fresh record after a reparse: the raw
/// bytes and modification time are left untouched.
pub open spec fn spec_with_new_parse(
    record: ForecastFile,
    parsed_forecast: Vec<u8>,
    schema_version: String,
) -> ForecastFile {
    ForecastFile {
        parsed_forecast: Some(parsed_forecast),
        schema_version: Some(schema_version),
        ..record
    }
}

pub fn with_new_parse(record: ForecastFile, parsed_forecast: Vec<u8>, schema_version: String) -> (r:
    ForecastFile)
    ensures
        r == spec_with_new_parse(record, parsed_forecast, schema_version),
        r.wf(),
{
    ForecastFile {
        parsed_forecast: Some(parsed_forecast),
        schema_version: Some(schema_version),
        ..record
    }
}

/// How a fresh record serves a parsed-forecast request: reuse the stored
/// parse when it exists and was produced under the current schema version,
/// otherwise reparse the stored raw bytes.
#[derive(Clone, Debug, PartialEq, Eq)]
pub enum ParsedPlan {
    /// The stored parse, returned without any reparse.
    Reuse(Vec<u8>),
    /// The stored raw bytes, which must be reparsed under the current schema.
    Reparse(Vec<u8>),
}

pub open spec fn spec_plan_parsed(record: ForecastFile, current_schema_version: Seq<char>) -> ParsedPlan {
    if record.parsed_forecast is Some && record.schema_version is Some
        && record.schema_version->0@ == current_schema_version {
        ParsedPlan::Reuse(record.parsed_forecast->0)
    } else {
        ParsedPlan::Reparse(record.file_blob)
    }
}

pub fn plan_parsed_output(record: ForecastFile, current_schema_version: &str) -> (r: ParsedPlan)
    ensures
        r == spec_plan_parsed(record, current_schema_version@),
{
    let ForecastFile { file_blob, parsed_forecast, schema_version, .. } = record;
    match (parsed_forecast, schema_version) {
        (Some(parsed), Some(version)) => {
            if str_eq(version.as_str(), current_schema_version) {
                ParsedPlan::Reuse(parsed)
            } else {
                ParsedPlan::Reparse(file_blob)
            }
        },
        _ => ParsedPlan::Reparse(file_blob),
    }
}

/// Law: if the remote's modification time is unchanged between the request
/// that wrote a record and a later request, the later consultation judges the
/// record fresh — no remote content fetch is planned — and the record it
/// serves carries the very bytes the first request fetched. This holds for a
/// record written on a raw-file request and for one written on a
/// parsed-forecast request alike.
pub proof fn lemma_freshness_idempotence(
    remote_first: ListFileMetadata,
    remote_second: ListFileMetadata,
    file_blob: Vec<u8>,
    parsed_forecast: Vec<u8>,
    schema_version: String,
    requested: RequestedForecastData,
)
    requires
        remote_second.modified_time == remote_first.modified_time,
        requested is Forecast ==> remote_second.spec_is_google_sheet(),
    ensures
        spec_evaluate_cache(
            Some(spec_record_for_file(remote_first, file_blob)),
            remote_second,
            requested,
        ) == Ok::<CacheLookup, CacheError>(
            CacheLookup::Fresh(spec_record_for_file(remote_first, file_blob)),
        ),
        spec_evaluate_cache(
            Some(spec_record_for_forecast(remote_first, file_blob, parsed_forecast, schema_version)),
            remote_second,
            requested,
        ) == Ok::<CacheLookup, CacheError>(
            CacheLookup::Fresh(
                spec_record_for_forecast(remote_first, file_blob, parsed_forecast, schema_version),
            ),
        ),
        spec_record_for_file(remote_first, file_blob).file_blob == file_blob,
        spec_record_for_forecast(
            remote_first,
            file_blob,
            parsed_forecast,
            schema_version,
        ).file_blob == file_blob,
{
}

/// Law: a fresh record whose stored parse was produced under one schema
/// version, consulted for parsed data under a different current version, is
/// kept (no remote fetch) but reparsed from its stored raw bytes; after the
/// parsed-fields update the record carries the current version and the new
/// parse while its raw bytes, modification time and identity are unchanged,
/// and the pairing invariant still holds.
pub proof fn lemma_schema_upgrade_reparse(
    record: ForecastFile,
    remote: ListFileMetadata,
    current_schema_version: String,
    new_parse: Vec<u8>,
)
    requires
        record.last_modified == remote.modified_time,
        remote.spec_is_google_sheet(),
        record.schema_version is Some,
        record.schema_version->0@ != current_schema_version@,
    ensures
        spec_evaluate_cache(Some(record), remote, RequestedForecastData::Forecast)
            == Ok::<CacheLookup, CacheError>(CacheLookup::Fresh(record)),
        spec_plan_parsed(record, current_schema_version@) == ParsedPlan::Reparse(record.file_blob),
        spec_with_new_parse(record, new_parse, current_schema_version).schema_version == Some(
            current_schema_version,
        ),
        spec_with_new_parse(record, new_parse, current_schema_version).parsed_forecast == Some(
            new_parse,
        ),
        spec_with_new_parse(record, new_parse, current_schema_version).file_blob
            == record.file_blob,
        spec_with_new_parse(record, new_parse, current_schema_version).last_modified
            == record.last_modified,
        spec_with_new_parse(record, new_parse, current_schema_version).google_drive_id
            == record.google_drive_id,
        spec_with_new_parse(record, new_parse, current_schema_version).wf(),
{
}

} // verus!
