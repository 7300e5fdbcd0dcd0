use dicom_download_cli::config::{
    sanitize_optional_string, should_download, AnalysisConfig, AnalysisConfigFile,
};

fn default_config() -> AnalysisConfig {
    AnalysisConfig::default()
}

#[test]
fn download_all_overrides_everything() {
    let mut config = default_config();
    config.download_all = true;
    assert!(should_download("anything at all", None, &config));
    assert!(should_download("", Some("NOT_LISTED"), &config));
    assert!(should_download("unmatched", Some("unknown"), &config));
}

#[test]
fn keyword_match_wins_without_classification() {
    let config = default_config();
    assert!(should_download("MRA_BRAIN", None, &config));
    assert!(should_download("MRA_BRAIN", Some("NOT_LISTED"), &config));
}

#[test]
fn keyword_match_wins_even_with_whitelist_disabled() {
    let mut config = default_config();
    config.enable_whitelist = false;
    assert!(should_download("MRA_BRAIN", None, &config));
}

#[test]
fn no_classification_fails_closed() {
    let config = default_config();
    assert!(!should_download("SOME SERIES", None, &config));
}

#[test]
fn whitelisted_type_is_downloaded() {
    let config = default_config();
    assert!(should_download("whatever", Some("ADC"), &config));
    assert!(should_download("whatever", Some("T2FLAIR_AXI"), &config));
    assert!(!should_download("whatever", Some("SCOUT"), &config));
}

#[test]
fn whitelist_disabled_rejects_classified_series() {
    let mut config = default_config();
    config.enable_whitelist = false;
    assert!(!should_download("whatever", Some("ADC"), &config));
}

#[test]
fn keywords_disabled_ignores_description() {
    let mut config = default_config();
    config.enable_direct_keywords = false;
    assert!(!should_download("MRA_BRAIN", None, &config));
}

#[test]
fn default_config_contents() {
    let config = default_config();
    assert_eq!(config.series_whitelist.len(), 22);
    assert!(config.series_whitelist.iter().any(|s| s == "DWI1000"));
    assert!(config.series_whitelist.iter().any(|s| s == "DSCMTT_COLOR"));
    assert_eq!(config.direct_download_keywords, vec!["MRA_BRAIN".to_string()]);
    assert!(config.enable_whitelist);
    assert!(config.enable_direct_keywords);
    assert!(!config.download_all);
}

#[test]
fn load_without_file_gives_defaults() {
    let config = AnalysisConfig::load(None);
    assert_eq!(config.series_whitelist.len(), 22);
    assert!(config.enable_whitelist);
    assert!(!config.download_all);
}

#[test]
fn load_applies_overrides_and_cleans_lists() {
    let file = AnalysisConfigFile {
        enable_whitelist: Some(false),
        enable_direct_keywords: None,
        download_all: Some(true),
        series_whitelist: Some(vec![
            " A ".to_string(),
            "".to_string(),
            "B".to_string(),
            "   ".to_string(),
        ]),
        direct_download_keywords: None,
    };
    let config = AnalysisConfig::load(Some(file));
    assert!(!config.enable_whitelist);
    assert!(config.enable_direct_keywords);
    assert!(config.download_all);
    assert_eq!(config.series_whitelist, vec!["A".to_string(), "B".to_string()]);
    assert_eq!(config.direct_download_keywords, vec!["MRA_BRAIN".to_string()]);
}

#[test]
fn sanitize_optional_trims_and_drops_empty() {
    assert_eq!(sanitize_optional_string(Some(" user ".to_string())), Some("user".to_string()));
    assert_eq!(sanitize_optional_string(Some("   ".to_string())), None);
    assert_eq!(sanitize_optional_string(Some("".to_string())), None);
    assert_eq!(sanitize_optional_string(None), None);
}
