use dicom_download_cli::gateway::JsonValue;
use dicom_download_cli::input::{
    accessions_from_json, accessions_from_rows, input_format, parse_accessions_csv, InputFormat,
};

#[test]
fn extension_dispatch_is_case_insensitive() {
    assert_eq!(input_format("csv"), InputFormat::Csv);
    assert_eq!(input_format("CSV"), InputFormat::Csv);
    assert_eq!(input_format("json"), InputFormat::Json);
    assert_eq!(input_format("Json"), InputFormat::Json);
    assert_eq!(input_format("txt"), InputFormat::Unsupported);
    assert_eq!(input_format(""), InputFormat::Unsupported);
}

#[test]
fn csv_bytes_yield_first_column_without_header() {
    let data = b"AccessionNumber,Name\nACC1,Alice\n ACC2 ,Bob\n,Carol\nACC4,Dora\n".to_vec();
    let got = parse_accessions_csv(&data).expect("well-formed rows");
    assert_eq!(got, vec!["ACC1".to_string(), "ACC2".to_string(), "ACC4".to_string()]);
}

#[test]
fn csv_rows_drop_blank_first_columns() {
    let rows = vec![
        vec!["A1".to_string(), "x".to_string()],
        vec!["  ".to_string()],
        vec![],
        vec![" A2".to_string()],
    ];
    assert_eq!(accessions_from_rows(&rows), vec!["A1".to_string(), "A2".to_string()]);
}

fn obj(fields: Vec<(&str, JsonValue)>) -> JsonValue {
    JsonValue::Obj(fields.into_iter().map(|(k, v)| (k.to_string(), v)).collect())
}

#[test]
fn json_accepts_strings_and_alias_objects() {
    let root = JsonValue::Arr(vec![
        JsonValue::Str("ACC1".to_string()),
        obj(vec![("accession", JsonValue::Str("ACC2".to_string()))]),
        obj(vec![("AccessionNumber", JsonValue::Str("ACC3".to_string()))]),
        obj(vec![("acc", JsonValue::Str("ACC4".to_string()))]),
        obj(vec![("other", JsonValue::Str("ACC5".to_string()))]),
        JsonValue::Int(9),
    ]);
    let got = accessions_from_json(&root).expect("array root");
    assert_eq!(
        got,
        vec!["ACC1".to_string(), "ACC2".to_string(), "ACC3".to_string(), "ACC4".to_string()]
    );
}

#[test]
fn json_alias_priority_prefers_accession_key() {
    let item = obj(vec![
        ("acc", JsonValue::Str("LAST".to_string())),
        ("accession", JsonValue::Str("FIRST".to_string())),
    ]);
    let got = accessions_from_json(&JsonValue::Arr(vec![item])).expect("array root");
    assert_eq!(got, vec!["FIRST".to_string()]);
}

#[test]
fn json_non_array_root_is_refused() {
    let err = accessions_from_json(&obj(vec![])).unwrap_err();
    assert_eq!(err, "JSON root must be an array");
}

#[test]
fn csv_with_unequal_rows_reports_an_error() {
    let data = b"h1,h2\na,b\nc,d,e\n".to_vec();
    assert!(parse_accessions_csv(&data).is_err());
}
