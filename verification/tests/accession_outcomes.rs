use dicom_download_cli::config::{should_download, AnalysisConfig};
use dicom_download_cli::gateway::{analysis_series_type, JsonValue};
use dicom_download_cli::process::{
    csv_report_row, finalize_status, mark_no_studies, new_result, record_conversion_error,
    record_conversion_no_output, record_conversion_success, record_series_outcome,
    summarize_status,
};
use dicom_download_cli::retry::DownloadResult;

fn completed(n: usize) -> Vec<DownloadResult> {
    (0..n).map(|_| DownloadResult::Completed).collect()
}

#[test]
fn scenario_all_instances_succeed_gives_success() {
    let mut res = new_result("ACC1".to_string(), 0);
    let folder = "DWI".to_string();
    let ok = record_series_outcome(&mut res, &folder, &completed(3));
    assert!(ok);
    finalize_status(&mut res, ok);
    assert_eq!(res.status, "Success");
    assert_eq!(res.downloaded_series, vec!["DWI".to_string()]);
    assert_eq!(res.matched_series, vec!["DWI".to_string()]);
    assert!(res.reason.is_empty());
    assert!(res.failed_series.is_empty());
}

#[test]
fn scenario_one_of_three_failures_gives_partial() {
    let mut res = new_result("ACC1".to_string(), 0);
    let folder = "DWI".to_string();
    let results = vec![
        DownloadResult::Completed,
        DownloadResult::Failed("Timeout".to_string()),
        DownloadResult::Completed,
    ];
    let ok = record_series_outcome(&mut res, &folder, &results);
    assert!(ok);
    finalize_status(&mut res, ok);
    assert_eq!(res.status, "Partial");
    assert_eq!(res.downloaded_series, vec!["DWI".to_string()]);
    assert_eq!(res.reason, vec!["1 failed out of 3 instances for DWI".to_string()]);
    assert!(res.failed_series.is_empty());
}

#[test]
fn scenario_no_studies_gives_failed_with_not_found_reason() {
    let mut res = new_result("ACC404".to_string(), 0);
    mark_no_studies(&mut res);
    assert_eq!(res.status, "Failed");
    assert_eq!(res.reason, vec!["No studies found".to_string()]);
    assert!(res.downloaded_series.is_empty());
    assert!(res.matched_series.is_empty());
    assert!(res.failed_series.is_empty());
}

#[test]
fn scenario_excluded_series_records_nothing() {
    // The classification service answers with the unknown sentinel; the
    // gateway reads that as no classification, the description matches
    // no keyword, and the allow-list check is enabled.
    let answer = JsonValue::Arr(vec![JsonValue::Obj(vec![(
        "series_type".to_string(),
        JsonValue::Str("unknown".to_string()),
    )])]);
    let classified = analysis_series_type(&answer);
    assert_eq!(classified, None);
    let config = AnalysisConfig::default();
    let included = should_download("random series", classified.as_deref(), &config);
    assert!(!included);
    let mut res = new_result("ACC1".to_string(), 0);
    // The series is simply not processed further: nothing is recorded.
    assert!(res.failed_series.is_empty());
    assert!(res.reason.is_empty());
    finalize_status(&mut res, false);
    assert_ne!(res.status, "Success");
}

#[test]
fn all_instances_failed_marks_series_failed() {
    let mut res = new_result("ACC1".to_string(), 0);
    let folder = "ADC".to_string();
    let results = vec![
        DownloadResult::Failed("a".to_string()),
        DownloadResult::Failed("b".to_string()),
    ];
    let ok = record_series_outcome(&mut res, &folder, &results);
    assert!(!ok);
    finalize_status(&mut res, ok);
    assert_eq!(res.status, "Failed");
    assert_eq!(res.failed_series, vec!["ADC".to_string()]);
    assert_eq!(res.reason, vec!["All instances failed for ADC".to_string()]);
    assert!(res.downloaded_series.is_empty());
}

#[test]
fn skipped_instances_count_as_non_failures() {
    let mut res = new_result("ACC1".to_string(), 0);
    let folder = "SWAN".to_string();
    let results = vec![DownloadResult::Skipped, DownloadResult::Skipped];
    let ok = record_series_outcome(&mut res, &folder, &results);
    assert!(ok);
    assert_eq!(res.downloaded_series, vec!["SWAN".to_string()]);
    assert!(res.reason.is_empty());
}

#[test]
fn summarize_orders_success_partial_failed() {
    let empty: Vec<String> = Vec::new();
    let some = vec!["X".to_string()];
    assert_eq!(summarize_status(&empty, &empty), "Success");
    assert_eq!(summarize_status(&some, &some), "Partial");
    assert_eq!(summarize_status(&empty, &some), "Failed");
}

#[test]
fn conversion_outcomes_are_recorded() {
    let mut res = new_result("ACC1".to_string(), 0);
    let folder = "DWI".to_string();
    record_conversion_success(&mut res, &folder);
    assert_eq!(res.converted_series, vec!["DWI".to_string()]);
    record_conversion_no_output(&mut res, &folder, None);
    assert_eq!(res.conversion_failed, vec!["DWI".to_string()]);
    assert!(res.reason.is_empty());
    record_conversion_no_output(&mut res, &folder, Some("not an image".to_string()));
    assert_eq!(res.reason, vec![
        "Conversion produced no output for DWI: not an image".to_string()
    ]);
    record_conversion_error(&mut res, &folder, &"exit 1".to_string());
    assert_eq!(res.conversion_failed.len(), 3);
    assert_eq!(res.reason[1], "Conversion failed for DWI: exit 1");
}

#[test]
fn report_row_holds_counts_and_joined_reasons() {
    let mut res = new_result("ACC7".to_string(), 0);
    let f1 = "A".to_string();
    let f2 = "B".to_string();
    record_series_outcome(&mut res, &f1, &completed(1));
    let results = vec![DownloadResult::Failed("x".to_string())];
    record_series_outcome(&mut res, &f2, &results);
    finalize_status(&mut res, true);
    let row = csv_report_row(&res, "2024-01-02T03:04:05Z".to_string());
    assert_eq!(row.len(), 7);
    assert_eq!(row[0], "ACC7");
    assert_eq!(row[1], "Partial");
    assert_eq!(row[2], "All instances failed for B");
    assert_eq!(row[3], "1");
    assert_eq!(row[4], "1");
    assert_eq!(row[5], "1");
    assert_eq!(row[6], "2024-01-02T03:04:05Z");
}

#[test]
fn nothing_succeeded_never_reads_success() {
    let mut res = new_result("ACC1".to_string(), 0);
    finalize_status(&mut res, false);
    assert_eq!(res.status, "Failed");
}
