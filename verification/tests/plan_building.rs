use dicom_download_cli::plan::{
    build_study_plan, group_instances_by_type, resolve_instance_type, resolve_series_type,
    study_folder_fallback, SeriesEntry,
};

#[test]
fn resolve_prefers_usable_verdict_when_analysis_enabled() {
    let verdict = Some("DWI1000".to_string());
    let desc = Some("ep2d diff".to_string());
    assert_eq!(resolve_series_type(true, &verdict, &desc), "DWI1000");
}

#[test]
fn resolve_falls_back_on_unknown_verdict_case_insensitively() {
    let desc = Some("ep2d diff".to_string());
    assert_eq!(resolve_series_type(true, &Some("unknown".to_string()), &desc), "ep2d diff");
    assert_eq!(resolve_series_type(true, &Some("UNKNOWN".to_string()), &desc), "ep2d diff");
    assert_eq!(resolve_series_type(true, &Some("UnKnOwN".to_string()), &desc), "ep2d diff");
}

#[test]
fn resolve_ignores_verdict_when_analysis_disabled() {
    let verdict = Some("DWI1000".to_string());
    assert_eq!(resolve_series_type(false, &verdict, &Some("desc".to_string())), "desc");
}

#[test]
fn resolve_defaults_to_unknown_without_description() {
    assert_eq!(resolve_series_type(true, &None, &None), "Unknown");
    assert_eq!(resolve_series_type(false, &None, &None), "Unknown");
}

#[test]
fn instance_type_falls_back_to_unknown_bucket() {
    assert_eq!(resolve_instance_type(&Some("ADC".to_string())), "ADC");
    assert_eq!(resolve_instance_type(&Some("unknown".to_string())), "Unknown");
    assert_eq!(resolve_instance_type(&None), "Unknown");
}

#[test]
fn grouping_partitions_by_verdict_in_first_seen_order() {
    let pairs = vec![
        ("i1".to_string(), "DWI0".to_string()),
        ("i2".to_string(), "DWI1000".to_string()),
        ("i3".to_string(), "DWI0".to_string()),
        ("i4".to_string(), "ADC".to_string()),
        ("i5".to_string(), "DWI1000".to_string()),
    ];
    let groups = group_instances_by_type(&pairs);
    assert_eq!(groups.len(), 3);
    assert_eq!(groups[0].0, "DWI0");
    assert_eq!(groups[0].1, vec!["i1".to_string(), "i3".to_string()]);
    assert_eq!(groups[1].0, "DWI1000");
    assert_eq!(groups[1].1, vec!["i2".to_string(), "i5".to_string()]);
    assert_eq!(groups[2].0, "ADC");
    assert_eq!(groups[2].1, vec!["i4".to_string()]);
}

#[test]
fn grouping_of_empty_input_is_empty() {
    assert_eq!(group_instances_by_type(&Vec::new()).len(), 0);
}

fn entry(series_type: &str, number: Option<&str>, instances: &[&str]) -> SeriesEntry {
    SeriesEntry {
        series_type: series_type.to_string(),
        series_number: number.map(|n| n.to_string()),
        instances: instances.iter().map(|i| i.to_string()).collect(),
    }
}

#[test]
fn study_plan_gives_unique_folders_only_when_needed() {
    let entries = vec![
        entry("DWI", Some("3"), &["a"]),
        entry("DWI", Some("4"), &["b", "c"]),
        entry("ADC", Some("5"), &["d"]),
    ];
    let plan = build_study_plan("STUDY".to_string(), &entries);
    assert_eq!(plan.study_folder, "STUDY");
    assert_eq!(plan.series.len(), 3);
    assert_eq!(plan.series[0].series_folder, "DWI_003");
    assert_eq!(plan.series[1].series_folder, "DWI_004");
    assert_eq!(plan.series[2].series_folder, "ADC");
    assert_eq!(plan.series[1].instances, vec!["b".to_string(), "c".to_string()]);
}

#[test]
fn study_plan_sanitizes_series_types() {
    let entries = vec![entry("T1/AX", None, &["a"]), entry("  ", None, &["b"])];
    let plan = build_study_plan("S".to_string(), &entries);
    assert_eq!(plan.series[0].series_folder, "T1_AX");
    assert_eq!(plan.series[1].series_folder, "unknown");
}

#[test]
fn fallback_study_folder_marks_unknown() {
    assert_eq!(study_folder_fallback("ACC1"), "ACC1_unknown");
    assert_eq!(study_folder_fallback(""), "unknown_unknown");
}

#[test]
fn study_plan_with_no_entries_has_no_series() {
    let plan = build_study_plan("S".to_string(), &Vec::new());
    assert_eq!(plan.study_folder, "S");
    assert!(plan.series.is_empty());
}

#[test]
fn study_plan_same_type_same_unparsable_numbers_collide() {
    // A known limit of the suffix scheme: two same-type series whose
    // numbers both fail to parse share the default suffix.
    let entries = vec![entry("DWI", Some("a"), &["x"]), entry("DWI", Some("b"), &["y"])];
    let plan = build_study_plan("S".to_string(), &entries);
    assert_eq!(plan.series[0].series_folder, "DWI_000");
    assert_eq!(plan.series[1].series_folder, "DWI_000");
}
