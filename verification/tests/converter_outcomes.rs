use dicom_download_cli::convert::{
    conversion_outcome, dcm_name, find_nifti_names, nifti_name, partition_output_files,
    str_ends_with,
};

#[test]
fn suffix_test_matches_exact_endings() {
    assert!(str_ends_with("file.nii.gz", ".nii.gz"));
    assert!(str_ends_with(".nii", ".nii"));
    assert!(!str_ends_with("nii", ".nii"));
    assert!(!str_ends_with("file.nii.gz2", ".nii.gz"));
}

#[test]
fn nifti_names_cover_both_extensions() {
    assert!(nifti_name("T1.nii"));
    assert!(nifti_name("T1.nii.gz"));
    assert!(!nifti_name("T1.json"));
    assert!(!nifti_name("T1.niix"));
}

#[test]
fn dcm_extension_is_case_insensitive() {
    assert!(dcm_name("a.dcm"));
    assert!(dcm_name("a.DCM"));
    assert!(!dcm_name("a.dc"));
    assert!(!dcm_name("dcm"));
}

#[test]
fn partition_takes_only_this_series_outputs() {
    let names = vec![
        "T1.nii.gz".to_string(),
        "T1.json".to_string(),
        "T1_e2.nii.gz".to_string(),
        "T2.nii.gz".to_string(),
        "T1notes.txt".to_string(),
    ];
    let (nifti, json) = partition_output_files(&names, "T1");
    assert_eq!(nifti, vec!["T1.nii.gz".to_string(), "T1_e2.nii.gz".to_string()]);
    assert_eq!(json, vec!["T1.json".to_string()]);
}

#[test]
fn nifti_listing_filters_images() {
    let names = vec![
        "a.nii".to_string(),
        "b.json".to_string(),
        "c.nii.gz".to_string(),
        "d.dcm".to_string(),
    ];
    assert_eq!(find_nifti_names(&names), vec!["a.nii".to_string(), "c.nii.gz".to_string()]);
}

#[test]
fn clean_exit_without_output_is_not_success() {
    let r = conversion_outcome(true, Vec::new(), Vec::new(), String::new(), String::new(), 10);
    assert!(!r.success);
    assert_eq!(r.error, None);
    assert_eq!(r.elapsed_ms, 10);
}

#[test]
fn clean_exit_with_images_succeeds() {
    let r = conversion_outcome(
        true,
        vec!["T1.nii.gz".to_string()],
        vec!["T1.json".to_string()],
        String::new(),
        String::new(),
        5,
    );
    assert!(r.success);
    assert_eq!(r.nifti_files, vec!["T1.nii.gz".to_string()]);
    assert_eq!(r.json_files, vec!["T1.json".to_string()]);
}

#[test]
fn failed_exit_prefers_error_channel() {
    let r = conversion_outcome(
        false,
        vec!["stale.nii".to_string()],
        Vec::new(),
        "bad input".to_string(),
        "noise".to_string(),
        7,
    );
    assert!(!r.success);
    assert!(r.nifti_files.is_empty());
    assert_eq!(r.error, Some("bad input".to_string()));
    let r2 = conversion_outcome(false, Vec::new(), Vec::new(), String::new(), "only out".to_string(), 7);
    assert_eq!(r2.error, Some("only out".to_string()));
}
