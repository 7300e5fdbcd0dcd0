use dicom_download_cli::names::{
    generate_series_folder_name, generate_study_folder_name, is_windows_reserved_name,
    safe_dicom_filename, sanitize_segment, DicomStudyInfo,
};

#[test]
fn sanitize_replaces_invalid_characters() {
    assert_eq!(sanitize_segment("a<b>c:d\"e/f\\g|h?i*j"), "a_b_c_d_e_f_g_h_i_j");
}

#[test]
fn sanitize_trims_whitespace() {
    assert_eq!(sanitize_segment("  T1 AXI \t"), "T1 AXI");
}

#[test]
fn sanitize_empty_becomes_unknown() {
    assert_eq!(sanitize_segment(""), "unknown");
    assert_eq!(sanitize_segment("   "), "unknown");
}

#[test]
fn sanitize_prefixes_reserved_names() {
    assert_eq!(sanitize_segment("CON"), "_CON");
    assert_eq!(sanitize_segment("com1"), "_com1");
    assert_eq!(sanitize_segment("Lpt9"), "_Lpt9");
    assert_eq!(sanitize_segment("AUX"), "_AUX");
}

#[test]
fn sanitize_output_never_empty_nor_reserved_nor_invalid() {
    let inputs = ["", "   ", "CON", "nul", "a/b", "<<<>>>", "prn ", "COM5"];
    for input in inputs {
        let out = sanitize_segment(input);
        assert!(!out.is_empty());
        assert!(!is_windows_reserved_name(&out));
        for c in out.chars() {
            assert!(!"<>:\"/\\|?*".contains(c));
        }
    }
}

#[test]
fn reserved_names_are_case_insensitive() {
    assert!(is_windows_reserved_name("CON"));
    assert!(is_windows_reserved_name("con"));
    assert!(is_windows_reserved_name("Com9"));
    assert!(is_windows_reserved_name("lpt1"));
    assert!(!is_windows_reserved_name("CONSOLE"));
    assert!(!is_windows_reserved_name("COM10"));
    assert!(!is_windows_reserved_name(""));
}

#[test]
fn dicom_filename_appends_extension() {
    assert_eq!(safe_dicom_filename("abc123"), "abc123.dcm");
    assert_eq!(safe_dicom_filename("a/b"), "a_b.dcm");
    assert_eq!(safe_dicom_filename("NUL"), "_NUL.dcm");
}

#[test]
fn study_folder_name_joins_sanitized_parts() {
    let info = DicomStudyInfo {
        patient_id: "PAT/01".to_string(),
        study_date: "20240102".to_string(),
        modality: "MR".to_string(),
        accession_number: " ACC9 ".to_string(),
    };
    assert_eq!(generate_study_folder_name(&info), "PAT_01_20240102_MR_ACC9");
}

#[test]
fn series_folder_single_occurrence_has_no_suffix() {
    assert_eq!(generate_series_folder_name("DWI", Some("3"), 1), "DWI");
    assert_eq!(generate_series_folder_name("ADC", None, 1), "ADC");
}

#[test]
fn series_folder_duplicates_get_padded_suffix() {
    assert_eq!(generate_series_folder_name("DWI", Some("3"), 2), "DWI_003");
    assert_eq!(generate_series_folder_name("DWI", Some("12"), 2), "DWI_012");
    assert_eq!(generate_series_folder_name("DWI", Some("1234"), 3), "DWI_1234");
}

#[test]
fn series_folder_unparsable_number_defaults_to_zeroes() {
    assert_eq!(generate_series_folder_name("DWI", None, 2), "DWI_000");
    assert_eq!(generate_series_folder_name("DWI", Some("x1"), 2), "DWI_000");
    assert_eq!(generate_series_folder_name("DWI", Some(""), 2), "DWI_000");
}

#[test]
fn same_type_distinct_numbers_get_distinct_folders() {
    let a = generate_series_folder_name("DWI", Some("3"), 2);
    let b = generate_series_folder_name("DWI", Some("4"), 2);
    assert_ne!(a, b);
    assert_eq!(a, "DWI_003");
    assert_eq!(b, "DWI_004");
}
