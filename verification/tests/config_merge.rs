use dicom_download_cli::config::{
    merge_config, CliOverrides, ConversionConfig, EffectiveConfig, PerInstanceConfig,
    RuntimeConfigFile,
};

fn no_cli() -> CliOverrides {
    CliOverrides {
        url: None,
        analyze_url: None,
        modality: None,
        target: None,
        username: None,
        password: None,
        concurrency: None,
        report_csv: None,
        report_json: None,
    }
}

#[test]
fn defaults_without_overrides() {
    let merged = merge_config(&no_cli(), None);
    let defaults = EffectiveConfig::defaults();
    assert_eq!(merged.url, defaults.url);
    assert_eq!(merged.analyze_url, defaults.analyze_url);
    assert_eq!(merged.modality, "INFINTT-SERVER");
    assert_eq!(merged.target, "RADAX");
    assert_eq!(merged.concurrency, 5);
    assert_eq!(merged.report_csv, "report.csv");
    assert_eq!(merged.report_json, "report.json");
    assert_eq!(merged.username, None);
    assert_eq!(merged.password, None);
}

#[test]
fn cli_beats_file_beats_default() {
    let mut cli = no_cli();
    cli.url = Some("http://cli/".to_string());
    cli.concurrency = Some(9);
    let mut file = RuntimeConfigFile::empty();
    file.url = Some("http://file/".to_string());
    file.modality = Some("OTHER-AET".to_string());
    file.concurrency = Some(2);
    let merged = merge_config(&cli, Some(file));
    assert_eq!(merged.url, "http://cli/");
    assert_eq!(merged.modality, "OTHER-AET");
    assert_eq!(merged.concurrency, 9);
    assert_eq!(merged.target, "RADAX");
}

#[test]
fn credentials_are_sanitized_with_cli_priority() {
    let mut cli = no_cli();
    cli.username = Some("  ".to_string());
    cli.password = Some(" secret ".to_string());
    let mut file = RuntimeConfigFile::empty();
    file.username = Some(" filed ".to_string());
    file.password = Some("other".to_string());
    let merged = merge_config(&cli, Some(file));
    assert_eq!(merged.username, Some("filed".to_string()));
    assert_eq!(merged.password, Some("secret".to_string()));
}

#[test]
fn conversion_defaults() {
    let conv = ConversionConfig::defaults();
    assert!(!conv.is_enabled());
    assert_eq!(conv.get_dcm2niix_path(), "dcm2niix");
    assert_eq!(conv.get_dcm2niix_args().len(), 4);
    assert!(!conv.should_delete_dicom());
}

#[test]
fn per_instance_trigger_is_prefix_match() {
    let config = PerInstanceConfig {
        enabled: true,
        trigger_prefixes: vec!["DWI".to_string(), "ASL".to_string()],
        analyze_concurrency: 4,
    };
    assert!(config.should_analyze("DWI1000"));
    assert!(config.should_analyze("ASLSEQCBF"));
    assert!(!config.should_analyze("ADC"));
    assert!(!config.should_analyze("XDWI"));
    let disabled = PerInstanceConfig::defaults();
    assert!(!disabled.should_analyze("DWI1000"));
}
