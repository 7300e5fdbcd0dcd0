//! Configuration values and the series inclusion rules: the analysis
//! rule set with its defaults, the merged runtime configuration, and the
//! pure `should_download` decision.

use vstd::prelude::*;

use crate::text::{contains_str, push_char, spec_trim, trim_str, vec_contains_str};

verus! {

/// Default runtime configuration file path.
pub const DEFAULT_CONFIG_PATH: &'static str = "config/dicom_download_cli.toml";

/// Default modality AET that is queried.
pub const DEFAULT_MODALITY: &'static str = "INFINTT-SERVER";

/// Default destination AET that receives downloaded series.
pub const DEFAULT_TARGET: &'static str = "RADAX";

/// Default imaging-server base URL used if no override is supplied.
pub const DEFAULT_URL: &'static str = "http://10.103.51.1:8042/";

/// Default analysis-service URL that classifies sampled instances.
pub const DEFAULT_ANALYZE_URL: &'static str =
    "http://10.103.51.1:8000/api/v1/series/dicom/analyze/by-upload";

/// Default CSV path for the summary report.
pub const DEFAULT_REPORT_CSV: &'static str = "report.csv";

/// Default JSON path for the summary report.
pub const DEFAULT_REPORT_JSON: &'static str = "report.json";

/// Default number of simultaneous accession workers.
pub const DEFAULT_CONCURRENCY: usize = 5;

/// The view of an optional string.
pub open spec fn opt_view(o: Option<String>) -> Option<Seq<char>> {
    match o {
        Some(s) => Some(s@),
        None => None,
    }
}

/// The views of a sequence of strings.
pub open spec fn views(l: Seq<String>) -> Seq<Seq<char>> {
    l.map_values(|s: String| s@)
}

/// Determines which series should be downloaded.
pub struct AnalysisConfig {
    pub series_whitelist: Vec<String>,
    pub direct_download_keywords: Vec<String>,
    pub enable_whitelist: bool,
    pub enable_direct_keywords: bool,
    pub download_all: bool,
}

/// The built-in series type allow-list.
pub open spec fn default_whitelist() -> Seq<Seq<char>> {
    seq![
        "ADC"@,
        "DWI"@,
        "DWI0"@,
        "DWI1000"@,
        "SWAN"@,
        "MRA_BRAIN"@,
        "T1FLAIR_AXI"@,
        "T1BRAVO_AXI"@,
        "T2FLAIR_AXI"@,
        "ASLSEQ"@,
        "ASLSEQATT"@,
        "ASLSEQATT_COLOR"@,
        "ASLSEQCBF"@,
        "ASLSEQCBF_COLOR"@,
        "ASLSEQPW"@,
        "ASLPROD"@,
        "ASLPRODCBF"@,
        "ASLPRODCBF_COLOR"@,
        "DSC"@,
        "DSCCBF_COLOR"@,
        "DSCCBV_COLOR"@,
        "DSCMTT_COLOR"@,
    ]
}

/// The built-in direct-download keyword list.
pub open spec fn default_keywords() -> Seq<Seq<char>> {
    seq!["MRA_BRAIN"@]
}

/// Raw values read from an analysis configuration file, before defaults
/// are applied.  Every field is optional; absent fields keep the built-in
/// value.
pub struct AnalysisConfigFile {
    pub enable_whitelist: Option<bool>,
    pub enable_direct_keywords: Option<bool>,
    pub download_all: Option<bool>,
    pub series_whitelist: Option<Vec<String>>,
    pub direct_download_keywords: Option<Vec<String>>,
}

/// Name lists from a configuration file are trimmed, and entries that
/// trim to nothing are dropped.
pub open spec fn cleaned_names(l: Seq<String>) -> Seq<Seq<char>>
    decreases l.len(),
{
    if l.len() == 0 {
        Seq::empty()
    } else {
        let init = cleaned_names(l.drop_last());
        let t = spec_trim(l.last()@);
        if t.len() > 0 {
            init.push(t)
        } else {
            init
        }
    }
}

/// Trims every entry and drops the ones that trim to nothing.
fn clean_string_list(l: &Vec<String>) -> (r: Vec<String>)
    ensures
        views(r@) == cleaned_names(l@),
{
    let mut out: Vec<String> = Vec::new();
    let mut i: usize = 0;
    while i < l.len()
        invariant
            i <= l@.len(),
            views(out@) == cleaned_names(l@.subrange(0, i as int)),
        decreases l@.len() - i,
    {
        let t = trim_str(l[i].as_str());
        proof {
            assert(l@.subrange(0, i + 1 as int).drop_last() =~= l@.subrange(0, i as int));
            assert(l@.subrange(0, i + 1 as int).last() == l@[i as int]);
        }
        if !t.as_str().is_empty() {
            let ghost prev = out@;
            out.push(t);
            proof {
                assert(views(out@) =~= views(prev).push(spec_trim(l@[i as int]@)));
            }
        }
        i = i + 1;
    }
    proof {
        assert(l@.subrange(0, l@.len() as int) =~= l@);
    }
    out
}

impl AnalysisConfig {
    /// The hard-coded defaults for whitelists and keyword matching.
    pub fn default() -> (r: Self)
        ensures
            views(r.series_whitelist@) == default_whitelist(),
            views(r.direct_download_keywords@) == default_keywords(),
            r.enable_whitelist,
            r.enable_direct_keywords,
            !r.download_all,
    {
        let mut wl: Vec<String> = Vec::new();
        wl.push("ADC".to_owned());
        wl.push("DWI".to_owned());
        wl.push("DWI0".to_owned());
        wl.push("DWI1000".to_owned());
        wl.push("SWAN".to_owned());
        wl.push("MRA_BRAIN".to_owned());
        wl.push("T1FLAIR_AXI".to_owned());
        wl.push("T1BRAVO_AXI".to_owned());
        wl.push("T2FLAIR_AXI".to_owned());
        wl.push("ASLSEQ".to_owned());
        wl.push("ASLSEQATT".to_owned());
        wl.push("ASLSEQATT_COLOR".to_owned());
        wl.push("ASLSEQCBF".to_owned());
        wl.push("ASLSEQCBF_COLOR".to_owned());
        wl.push("ASLSEQPW".to_owned());
        wl.push("ASLPROD".to_owned());
        wl.push("ASLPRODCBF".to_owned());
        wl.push("ASLPRODCBF_COLOR".to_owned());
        wl.push("DSC".to_owned());
        wl.push("DSCCBF_COLOR".to_owned());
        wl.push("DSCCBV_COLOR".to_owned());
        wl.push("DSCMTT_COLOR".to_owned());
        let mut kw: Vec<String> = Vec::new();
        kw.push("MRA_BRAIN".to_owned());
        proof {
            assert(views(wl@) =~= default_whitelist());
            assert(views(kw@) =~= default_keywords());
        }
        AnalysisConfig {
            series_whitelist: wl,
            direct_download_keywords: kw,
            enable_whitelist: true,
            enable_direct_keywords: true,
            download_all: false,
        }
    }

    /// Builds the rule set from an already-parsed analysis configuration
    /// file, falling back to the defaults when the file is absent or a
    /// field is missing.  List entries are trimmed and empties dropped.
    pub fn load(parsed: Option<AnalysisConfigFile>) -> (r: Self)
        ensures
            match parsed {
                None => {
                    &&& views(r.series_whitelist@) == default_whitelist()
                    &&& views(r.direct_download_keywords@) == default_keywords()
                    &&& r.enable_whitelist
                    &&& r.enable_direct_keywords
                    &&& !r.download_all
                },
                Some(p) => {
                    &&& r.enable_whitelist == p.enable_whitelist.unwrap_or(true)
                    &&& r.enable_direct_keywords == p.enable_direct_keywords.unwrap_or(true)
                    &&& r.download_all == p.download_all.unwrap_or(false)
                    &&& views(r.series_whitelist@) == match p.series_whitelist {
                        Some(l) => cleaned_names(l@),
                        None => default_whitelist(),
                    }
                    &&& views(r.direct_download_keywords@) == match p.direct_download_keywords {
                        Some(l) => cleaned_names(l@),
                        None => default_keywords(),
                    }
                },
            },
    {
        let mut config = Self::default();
        match parsed {
            None => config,
            Some(p) => {
                if let Some(enable) = p.enable_whitelist {
                    config.enable_whitelist = enable;
                }
                if let Some(enable) = p.enable_direct_keywords {
                    config.enable_direct_keywords = enable;
                }
                if let Some(enable) = p.download_all {
                    config.download_all = enable;
                }
                if let Some(series) = &p.series_whitelist {
                    config.series_whitelist = clean_string_list(series);
                }
                if let Some(keywords) = &p.direct_download_keywords {
                    config.direct_download_keywords = clean_string_list(keywords);
                }
                config
            },
        }
    }
}

/// The inclusion decision for a series, given its declared description
/// and the classified type when one is available.  Priority order, first
/// match wins: the download-everything override, an exact keyword match
/// on the description, then the allow-list check on the classified type,
/// which fails closed when no type is available.
pub open spec fn spec_should_download(
    series_desc: Seq<char>,
    analysis_type: Option<Seq<char>>,
    config: &AnalysisConfig,
) -> bool {
    if config.download_all {
        true
    } else if config.enable_direct_keywords && contains_str(
        config.direct_download_keywords@,
        series_desc,
    ) {
        true
    } else if !config.enable_whitelist {
        false
    } else {
        match analysis_type {
            Some(t) => contains_str(config.series_whitelist@, t),
            None => false,
        }
    }
}

/// Decides if a series should be downloaded based on the rule set.
pub fn should_download(series_desc: &str, analysis_type: Option<&str>, config: &AnalysisConfig) -> (r:
    bool)
    ensures
        r == spec_should_download(
            series_desc@,
            match analysis_type {
                Some(t) => Some(t@),
                None => None,
            },
            config,
        ),
{
    if config.download_all {
        return true;
    }
    if config.enable_direct_keywords && vec_contains_str(
        &config.direct_download_keywords,
        series_desc,
    ) {
        return true;
    }
    if !config.enable_whitelist {
        return false;
    }
    match analysis_type {
        Some(t) => vec_contains_str(&config.series_whitelist, t),
        None => false,
    }
}

/// With the download-everything override set, every series is included,
/// whatever its description or classified type.
pub proof fn lemma_download_all_wins(
    series_desc: Seq<char>,
    analysis_type: Option<Seq<char>>,
    config: &AnalysisConfig,
)
    requires
        config.download_all,
    ensures
        spec_should_download(series_desc, analysis_type, config),
{
}

/// A series whose description exactly matches a configured keyword is
/// included even when no classified type is available and whatever the
/// allow-list settings say.  The rule set keeps the keyword-matching
/// enable flag of its configuration surface, which defaults to on; with
/// that flag switched off no keyword is consulted.
pub proof fn lemma_keyword_match_wins(
    series_desc: Seq<char>,
    analysis_type: Option<Seq<char>>,
    config: &AnalysisConfig,
)
    requires
        config.enable_direct_keywords,
        contains_str(config.direct_download_keywords@, series_desc),
    ensures
        spec_should_download(series_desc, analysis_type, config),
{
}

/// Without the override or a keyword match, a series with no classified
/// type is never included: the allow-list check fails closed.
pub proof fn lemma_no_classification_fails_closed(series_desc: Seq<char>, config: &AnalysisConfig)
    requires
        !config.download_all,
        !(config.enable_direct_keywords && contains_str(
            config.direct_download_keywords@,
            series_desc,
        )),
    ensures
        spec_should_download(series_desc, None, config) == false,
{
}

/// Trims whitespace and drops empty strings from optional inputs.
pub open spec fn spec_sanitize_optional(value: Option<String>) -> Option<Seq<char>> {
    match value {
        Some(s) => if spec_trim(s@).len() == 0 {
            None
        } else {
            Some(spec_trim(s@))
        },
        None => None,
    }
}

pub fn sanitize_optional_string(value: Option<String>) -> (r: Option<String>)
    ensures
        opt_view(r) == spec_sanitize_optional(value),
{
    match value {
        Some(s) => {
            let trimmed = trim_str(s.as_str());
            if trimmed.as_str().is_empty() {
                None
            } else {
                Some(trimmed)
            }
        },
        None => None,
    }
}

/// Settings for the optional conversion step that runs an external
/// converter over each downloaded series directory.
pub struct ConversionConfig {
    pub enabled: bool,
    pub dcm2niix_path: String,
    pub dcm2niix_args: Vec<String>,
    pub delete_dicom_after: bool,
}

impl ConversionConfig {
    /// Conversion disabled, the converter looked up on the search path,
    /// compressed output with sidecar files, sources kept.
    pub fn defaults() -> (r: Self)
        ensures
            !r.enabled,
            r.dcm2niix_path@ == "dcm2niix"@,
            views(r.dcm2niix_args@) == seq!["-z"@, "y"@, "-b"@, "y"@],
            !r.delete_dicom_after,
    {
        let mut args: Vec<String> = Vec::new();
        args.push("-z".to_owned());
        args.push("y".to_owned());
        args.push("-b".to_owned());
        args.push("y".to_owned());
        proof {
            assert(views(args@) =~= seq!["-z"@, "y"@, "-b"@, "y"@]);
        }
        ConversionConfig {
            enabled: false,
            dcm2niix_path: "dcm2niix".to_owned(),
            dcm2niix_args: args,
            delete_dicom_after: false,
        }
    }

    pub fn is_enabled(&self) -> (r: bool)
        ensures
            r == self.enabled,
    {
        self.enabled
    }

    pub fn get_dcm2niix_path(&self) -> (r: &str)
        ensures
            r@ == self.dcm2niix_path@,
    {
        self.dcm2niix_path.as_str()
    }

    pub fn get_dcm2niix_args(&self) -> (r: &Vec<String>)
        ensures
            r@ == self.dcm2niix_args@,
    {
        &self.dcm2niix_args
    }

    pub fn should_delete_dicom(&self) -> (r: bool)
        ensures
            r == self.delete_dicom_after,
    {
        self.delete_dicom_after
    }
}

/// Settings for the per-instance reclassification pass.
pub struct PerInstanceConfig {
    pub enabled: bool,
    pub trigger_prefixes: Vec<String>,
    pub analyze_concurrency: usize,
}

/// Whether a first-pass series type triggers per-instance analysis: the
/// pass is enabled and some configured prefix starts the type.
pub open spec fn spec_should_analyze(config: &PerInstanceConfig, series_type: Seq<char>) -> bool {
    config.enabled && exists|i: int|
        0 <= i < config.trigger_prefixes@.len() && crate::text::spec_starts_with(
            series_type,
            #[trigger] config.trigger_prefixes@[i]@,
        )
}

impl PerInstanceConfig {
    /// Per-instance analysis disabled, no triggers, four concurrent
    /// classification calls when enabled.
    pub fn defaults() -> (r: Self)
        ensures
            !r.enabled,
            r.trigger_prefixes@.len() == 0,
            r.analyze_concurrency == 4,
    {
        PerInstanceConfig { enabled: false, trigger_prefixes: Vec::new(), analyze_concurrency: 4 }
    }

    pub fn is_enabled(&self) -> (r: bool)
        ensures
            r == self.enabled,
    {
        self.enabled
    }

    pub fn get_analyze_concurrency(&self) -> (r: usize)
        ensures
            r == self.analyze_concurrency,
    {
        self.analyze_concurrency
    }

    pub fn get_trigger_prefixes(&self) -> (r: &Vec<String>)
        ensures
            r@ == self.trigger_prefixes@,
    {
        &self.trigger_prefixes
    }

    /// Whether this series type triggers the per-instance pass.
    pub fn should_analyze(&self, series_type: &str) -> (r: bool)
        ensures
            r == spec_should_analyze(self, series_type@),
    {
        if !self.enabled {
            return false;
        }
        let mut i: usize = 0;
        while i < self.trigger_prefixes.len()
            invariant
                i <= self.trigger_prefixes@.len(),
                self.enabled,
                forall|j: int|
                    0 <= j < i ==> !crate::text::spec_starts_with(
                        series_type@,
                        #[trigger] self.trigger_prefixes@[j]@,
                    ),
            decreases self.trigger_prefixes@.len() - i,
        {
            if crate::text::str_starts_with(series_type, self.trigger_prefixes[i].as_str()) {
                return true;
            }
            i = i + 1;
        }
        false
    }
}

/// Runtime overrides loaded from the configuration file.
pub struct RuntimeConfigFile {
    pub url: Option<String>,
    pub analyze_url: Option<String>,
    pub modality: Option<String>,
    pub target: Option<String>,
    pub username: Option<String>,
    pub password: Option<String>,
    pub concurrency: Option<usize>,
    pub report_csv: Option<String>,
    pub report_json: Option<String>,
    pub conversion: Option<ConversionConfig>,
    pub per_instance: Option<PerInstanceConfig>,
}

impl RuntimeConfigFile {
    /// A file with no overrides at all.
    pub fn empty() -> (r: Self)
        ensures
            r.url is None,
            r.analyze_url is None,
            r.modality is None,
            r.target is None,
            r.username is None,
            r.password is None,
            r.concurrency is None,
            r.report_csv is None,
            r.report_json is None,
            r.conversion is None,
            r.per_instance is None,
    {
        RuntimeConfigFile {
            url: None,
            analyze_url: None,
            modality: None,
            target: None,
            username: None,
            password: None,
            concurrency: None,
            report_csv: None,
            report_json: None,
            conversion: None,
            per_instance: None,
        }
    }
}

/// Final configuration used throughout the download workflow.
pub struct EffectiveConfig {
    pub url: String,
    pub analyze_url: String,
    pub modality: String,
    pub target: String,
    pub username: Option<String>,
    pub password: Option<String>,
    pub concurrency: usize,
    pub report_csv: String,
    pub report_json: String,
}

impl EffectiveConfig {
    /// The crate-level defaults before overrides are merged.
    pub fn defaults() -> (r: Self)
        ensures
            r.url@ == DEFAULT_URL@,
            r.analyze_url@ == DEFAULT_ANALYZE_URL@,
            r.modality@ == DEFAULT_MODALITY@,
            r.target@ == DEFAULT_TARGET@,
            r.username is None,
            r.password is None,
            r.concurrency == DEFAULT_CONCURRENCY,
            r.report_csv@ == DEFAULT_REPORT_CSV@,
            r.report_json@ == DEFAULT_REPORT_JSON@,
    {
        EffectiveConfig {
            url: DEFAULT_URL.to_owned(),
            analyze_url: DEFAULT_ANALYZE_URL.to_owned(),
            modality: DEFAULT_MODALITY.to_owned(),
            target: DEFAULT_TARGET.to_owned(),
            username: None,
            password: None,
            concurrency: DEFAULT_CONCURRENCY,
            report_csv: DEFAULT_REPORT_CSV.to_owned(),
            report_json: DEFAULT_REPORT_JSON.to_owned(),
        }
    }
}

/// Command-line overrides, already reduced to plain values.
pub struct CliOverrides {
    pub url: Option<String>,
    pub analyze_url: Option<String>,
    pub modality: Option<String>,
    pub target: Option<String>,
    pub username: Option<String>,
    pub password: Option<String>,
    pub concurrency: Option<usize>,
    pub report_csv: Option<String>,
    pub report_json: Option<String>,
}

/// The first of two optional values, or the default.
pub open spec fn spec_pick(a: Option<Seq<char>>, b: Option<Seq<char>>, d: Seq<char>) -> Seq<char> {
    match a {
        Some(x) => x,
        None => match b {
            Some(y) => y,
            None => d,
        },
    }
}

fn pick_string(a: Option<String>, b: Option<String>, d: &str) -> (r: String)
    ensures
        r@ == spec_pick(opt_view(a), opt_view(b), d@),
{
    match a {
        Some(x) => x,
        None => match b {
            Some(y) => y,
            None => d.to_owned(),
        },
    }
}

fn clone_opt(o: &Option<String>) -> (r: Option<String>)
    ensures
        opt_view(r) == opt_view(*o),
{
    match o {
        Some(s) => Some(s.clone()),
        None => None,
    }
}

/// Merges command-line overrides with a parsed runtime configuration,
/// falling back to the crate defaults.  Command-line flags take
/// precedence, followed by the file, and finally the defaults; user names
/// and passwords are trimmed, and empty ones dropped.
pub fn merge_config(cli: &CliOverrides, file: Option<RuntimeConfigFile>) -> (r: EffectiveConfig)
    ensures
        r.url@ == spec_pick(
            opt_view(cli.url),
            match file {
                Some(f) => opt_view(f.url),
                None => None,
            },
            DEFAULT_URL@,
        ),
        r.analyze_url@ == spec_pick(
            opt_view(cli.analyze_url),
            match file {
                Some(f) => opt_view(f.analyze_url),
                None => None,
            },
            DEFAULT_ANALYZE_URL@,
        ),
        r.modality@ == spec_pick(
            opt_view(cli.modality),
            match file {
                Some(f) => opt_view(f.modality),
                None => None,
            },
            DEFAULT_MODALITY@,
        ),
        r.target@ == spec_pick(
            opt_view(cli.target),
            match file {
                Some(f) => opt_view(f.target),
                None => None,
            },
            DEFAULT_TARGET@,
        ),
        r.concurrency == match cli.concurrency {
            Some(c) => c,
            None => match file {
                Some(f) => f.concurrency.unwrap_or(DEFAULT_CONCURRENCY),
                None => DEFAULT_CONCURRENCY,
            },
        },
        r.report_csv@ == spec_pick(
            opt_view(cli.report_csv),
            match file {
                Some(f) => opt_view(f.report_csv),
                None => None,
            },
            DEFAULT_REPORT_CSV@,
        ),
        r.report_json@ == spec_pick(
            opt_view(cli.report_json),
            match file {
                Some(f) => opt_view(f.report_json),
                None => None,
            },
            DEFAULT_REPORT_JSON@,
        ),
        opt_view(r.username) == match spec_sanitize_optional(cli.username) {
            Some(u) => Some(u),
            None => match file {
                Some(f) => spec_sanitize_optional(f.username),
                None => None,
            },
        },
        opt_view(r.password) == match spec_sanitize_optional(cli.password) {
            Some(u) => Some(u),
            None => match file {
                Some(f) => spec_sanitize_optional(f.password),
                None => None,
            },
        },
{
    let f = match file {
        Some(x) => x,
        None => RuntimeConfigFile::empty(),
    };
    let url = pick_string(clone_opt(&cli.url), f.url, DEFAULT_URL);
    let analyze_url = pick_string(clone_opt(&cli.analyze_url), f.analyze_url, DEFAULT_ANALYZE_URL);
    let modality = pick_string(clone_opt(&cli.modality), f.modality, DEFAULT_MODALITY);
    let target = pick_string(clone_opt(&cli.target), f.target, DEFAULT_TARGET);
    let concurrency = match cli.concurrency {
        Some(c) => c,
        None => match f.concurrency {
            Some(c) => c,
            None => DEFAULT_CONCURRENCY,
        },
    };
    let report_csv = pick_string(clone_opt(&cli.report_csv), f.report_csv, DEFAULT_REPORT_CSV);
    let report_json = pick_string(clone_opt(&cli.report_json), f.report_json, DEFAULT_REPORT_JSON);
    let username = match sanitize_optional_string(clone_opt(&cli.username)) {
        Some(u) => Some(u),
        None => sanitize_optional_string(f.username),
    };
    let password = match sanitize_optional_string(clone_opt(&cli.password)) {
        Some(u) => Some(u),
        None => sanitize_optional_string(f.password),
    };
    EffectiveConfig {
        url,
        analyze_url,
        modality,
        target,
        username,
        password,
        concurrency,
        report_csv,
        report_json,
    }
}

} // verus!
