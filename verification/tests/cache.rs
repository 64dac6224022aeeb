use avalanche_report::cache::{
    evaluate_cache, plan_parsed_output, record_for_file, record_for_forecast, with_new_parse,
    CacheError, CacheLookup, FetchKind, ParsedPlan, RequestedForecastData,
};
use avalanche_report::google_drive::{get_file_in_list, ListFileMetadata};

const SHEET_MIME: &str = "application/vnd.google-apps.spreadsheet";

fn sheet_metadata(modified_time: i64) -> ListFileMetadata {
    ListFileMetadata {
        mime_type: SHEET_MIME.to_string(),
        id: "doc-1".to_string(),
        name: "Gudauri_2023-01-24T17:00_LF.en.pdf".to_string(),
        modified_time,
    }
}

fn pdf_metadata(modified_time: i64) -> ListFileMetadata {
    ListFileMetadata {
        mime_type: "application/pdf".to_string(),
        id: "doc-2".to_string(),
        name: "report.pdf".to_string(),
        modified_time,
    }
}

#[test]
fn miss_plans_raw_fetch_for_file_request() {
    let remote = pdf_metadata(100);
    let lookup = evaluate_cache(None, &remote, RequestedForecastData::File).unwrap();
    assert_eq!(lookup, CacheLookup::NeedsFetch(FetchKind::Raw));
}

#[test]
fn miss_plans_export_fetch_for_forecast_request() {
    let remote = sheet_metadata(100);
    let lookup = evaluate_cache(None, &remote, RequestedForecastData::Forecast).unwrap();
    assert_eq!(lookup, CacheLookup::NeedsFetch(FetchKind::Export));
}

#[test]
fn forecast_request_on_non_sheet_is_unsupported() {
    let remote = pdf_metadata(100);
    let err = evaluate_cache(None, &remote, RequestedForecastData::Forecast).unwrap_err();
    assert_eq!(
        err,
        CacheError::UnsupportedContentKind {
            remote_id: "doc-2".to_string(),
            content_kind: "application/pdf".to_string(),
        }
    );
}

#[test]
fn freshness_is_exact_equality() {
    let remote = pdf_metadata(100);
    let record = record_for_file(&remote, vec![1, 2, 3]);
    // An older remote timestamp is as stale as a newer one.
    let older = pdf_metadata(99);
    let newer = pdf_metadata(101);
    assert_eq!(
        evaluate_cache(Some(record.clone()), &older, RequestedForecastData::File).unwrap(),
        CacheLookup::NeedsFetch(FetchKind::Raw)
    );
    assert_eq!(
        evaluate_cache(Some(record), &newer, RequestedForecastData::File).unwrap(),
        CacheLookup::NeedsFetch(FetchKind::Raw)
    );
}

#[test]
fn fresh_record_serves_identical_bytes() {
    let remote = pdf_metadata(100);
    let record = record_for_file(&remote, vec![1, 2, 3]);
    let again = pdf_metadata(100);
    let lookup = evaluate_cache(Some(record), &again, RequestedForecastData::File).unwrap();
    match lookup {
        CacheLookup::Fresh(served) => {
            assert_eq!(served.file_blob, vec![1, 2, 3]);
            assert_eq!(served.last_modified, 100);
        }
        other => panic!("expected a fresh record, got {other:?}"),
    }
}

#[test]
fn record_for_file_has_no_parsed_fields() {
    let remote = pdf_metadata(100);
    let record = record_for_file(&remote, vec![9]);
    assert_eq!(record.google_drive_id, "doc-2");
    assert_eq!(record.last_modified, 100);
    assert_eq!(record.file_blob, vec![9]);
    assert_eq!(record.parsed_forecast, None);
    assert_eq!(record.schema_version, None);
}

#[test]
fn record_for_forecast_pairs_parse_and_version() {
    let remote = sheet_metadata(100);
    let record = record_for_forecast(&remote, vec![9], vec![7], "0.3.1".to_string());
    assert_eq!(record.google_drive_id, "doc-1");
    assert_eq!(record.last_modified, 100);
    assert_eq!(record.file_blob, vec![9]);
    assert_eq!(record.parsed_forecast, Some(vec![7]));
    assert_eq!(record.schema_version, Some("0.3.1".to_string()));
}

#[test]
fn matching_schema_version_reuses_parse() {
    let remote = sheet_metadata(100);
    let record = record_for_forecast(&remote, vec![9], vec![7], "0.3.1".to_string());
    let plan = plan_parsed_output(record, "0.3.1");
    assert_eq!(plan, ParsedPlan::Reuse(vec![7]));
}

#[test]
fn schema_upgrade_reparses_stored_bytes() {
    let remote = sheet_metadata(100);
    let record = record_for_forecast(&remote, vec![9], vec![7], "0.3.1".to_string());
    let plan = plan_parsed_output(record, "0.4.0");
    assert_eq!(plan, ParsedPlan::Reparse(vec![9]));
}

#[test]
fn record_without_parse_reparses_stored_bytes() {
    let remote = pdf_metadata(100);
    let record = record_for_file(&remote, vec![9]);
    let plan = plan_parsed_output(record, "0.3.1");
    assert_eq!(plan, ParsedPlan::Reparse(vec![9]));
}

#[test]
fn with_new_parse_updates_only_parsed_fields() {
    let remote = sheet_metadata(100);
    let record = record_for_forecast(&remote, vec![9], vec![7], "0.3.1".to_string());
    let updated = with_new_parse(record, vec![8], "0.4.0".to_string());
    assert_eq!(updated.google_drive_id, "doc-1");
    assert_eq!(updated.last_modified, 100);
    assert_eq!(updated.file_blob, vec![9]);
    assert_eq!(updated.parsed_forecast, Some(vec![8]));
    assert_eq!(updated.schema_version, Some("0.4.0".to_string()));
}

#[test]
fn file_is_found_by_name() {
    let list = vec![sheet_metadata(1), pdf_metadata(2)];
    let found = get_file_in_list("report.pdf", &list).unwrap();
    assert_eq!(found.id, "doc-2");
    assert!(get_file_in_list("missing.pdf", &list).is_none());
}

#[test]
fn first_file_of_a_name_is_taken() {
    let mut early = pdf_metadata(1);
    early.id = "doc-early".to_string();
    let late = pdf_metadata(2);
    let list = vec![early, late];
    let found = get_file_in_list("report.pdf", &list).unwrap();
    assert_eq!(found.id, "doc-early");
}

#[test]
fn sheet_mime_is_recognized() {
    assert!(sheet_metadata(0).is_google_sheet());
    assert!(!pdf_metadata(0).is_google_sheet());
}
