//! The imaging-server gateway's decision logic: a plain model of the
//! JSON payloads the server returns, the extraction of identifiers and
//! metadata from each response shape, and the basic-auth header value.
//! The HTTP transport itself stays outside; callers hand in already
//! parsed values.

use vstd::prelude::*;

use base64::Engine;

use crate::config::{opt_view, views};
use crate::text::{spec_lower, str_eq, to_ascii_lower};

verus! {

/// A parsed JSON value, held as plain data.  Numbers are kept only when
/// they are 64-bit integers; other numbers carry no information this
/// library reads and are held as `Null`.
pub enum JsonValue {
    Null,
    Bool(bool),
    Int(i64),
    Str(String),
    Arr(Vec<JsonValue>),
    Obj(Vec<(String, JsonValue)>),
}

/// The first field with the given name, if any.
pub open spec fn obj_get(fields: Seq<(String, JsonValue)>, key: Seq<char>) -> Option<JsonValue>
    decreases fields.len(),
{
    if fields.len() == 0 {
        None
    } else if fields[0].0@ == key {
        Some(fields[0].1)
    } else {
        obj_get(fields.drop_first(), key)
    }
}

/// Field lookup on an object; anything else has no fields.
pub open spec fn spec_get(v: JsonValue, key: Seq<char>) -> Option<JsonValue> {
    match v {
        JsonValue::Obj(fields) => obj_get(fields@, key),
        _ => None,
    }
}

/// The characters of a string value.
pub open spec fn spec_as_str(v: JsonValue) -> Option<Seq<char>> {
    match v {
        JsonValue::Str(s) => Some(s@),
        _ => None,
    }
}

/// The value of an integer number.
pub open spec fn spec_as_int(v: JsonValue) -> Option<i64> {
    match v {
        JsonValue::Int(i) => Some(i),
        _ => None,
    }
}

pub fn json_get<'a>(v: &'a JsonValue, key: &str) -> (r: Option<&'a JsonValue>)
    ensures
        match r {
            Some(x) => spec_get(*v, key@) == Some(*x),
            None => spec_get(*v, key@) is None,
        },
{
    match v {
        JsonValue::Obj(fields) => {
            proof {
                assert(fields@.subrange(0, fields@.len() as int) =~= fields@);
            }
            let mut i: usize = 0;
            while i < fields.len()
                invariant
                    *v is Obj,
                    v->Obj_0 == *fields,
                    i <= fields@.len(),
                    obj_get(fields@, key@) == obj_get(
                        fields@.subrange(i as int, fields@.len() as int),
                        key@,
                    ),
                decreases fields@.len() - i,
            {
                proof {
                    let rest = fields@.subrange(i as int, fields@.len() as int);
                    assert(rest[0] == fields@[i as int]);
                    assert(rest.drop_first() =~= fields@.subrange(
                        i + 1 as int,
                        fields@.len() as int,
                    ));
                }
                let entry = &fields[i];
                if str_eq(entry.0.as_str(), key) {
                    proof {
                        assert(*entry == fields@[i as int]);
                        assert(obj_get(fields@, key@) == Some(fields@[i as int].1));
                        assert(spec_get(*v, key@) == obj_get(fields@, key@));
                    }
                    return Some(&entry.1);
                }
                i = i + 1;
            }
            None
        },
        _ => None,
    }
}

pub fn json_as_str<'a>(v: &'a JsonValue) -> (r: Option<&'a String>)
    ensures
        match r {
            Some(s) => spec_as_str(*v) == Some(s@),
            None => spec_as_str(*v) is None,
        },
{
    match v {
        JsonValue::Str(s) => Some(s),
        _ => None,
    }
}

pub fn json_as_int(v: &JsonValue) -> (r: Option<i64>)
    ensures
        r == spec_as_int(*v),
{
    match v {
        JsonValue::Int(i) => Some(*i),
        _ => None,
    }
}

/// A tag entry of a normalized query answer: the `Value` field of the
/// entry named by the tag, when it is a string.
pub open spec fn tag_opt(v: JsonValue, tag: Seq<char>) -> Option<Seq<char>> {
    match spec_get(v, tag) {
        Some(e) => match spec_get(e, "Value"@) {
            Some(s) => spec_as_str(s),
            None => None,
        },
        None => None,
    }
}

/// As `tag_opt`, with the empty string for anything missing.
pub open spec fn tag_str(v: JsonValue, tag: Seq<char>) -> Seq<char> {
    match tag_opt(v, tag) {
        Some(x) => x,
        None => Seq::empty(),
    }
}

/// Reads one tag's `Value` string from a normalized query answer.
pub fn query_content_tag(v: &JsonValue, tag: &str) -> (r: Option<String>)
    ensures
        opt_view(r) == tag_opt(*v, tag@),
{
    match json_get(v, tag) {
        Some(e) => match json_get(e, "Value") {
            Some(s) => match json_as_str(s) {
                Some(x) => Some(x.clone()),
                None => None,
            },
            None => None,
        },
        None => None,
    }
}

/// The SeriesInstanceUID and description tags of a normalized series
/// answer, with the empty string for anything missing.
pub fn extract_series_info(v: &JsonValue) -> (r: (String, String))
    ensures
        r.0@ == tag_str(*v, "0020,000e"@),
        r.1@ == tag_str(*v, "0008,103e"@),
{
    let uid = match query_content_tag(v, "0020,000e") {
        Some(x) => x,
        None => String::new(),
    };
    let desc = match query_content_tag(v, "0008,103e") {
        Some(x) => x,
        None => String::new(),
    };
    (uid, desc)
}

/// A name under the `MainDicomTags` object, when it is a string.
pub open spec fn main_tag(v: JsonValue, name: Seq<char>) -> Option<Seq<char>> {
    match spec_get(v, "MainDicomTags"@) {
        Some(t) => match spec_get(t, name) {
            Some(x) => spec_as_str(x),
            None => None,
        },
        None => None,
    }
}

pub fn main_dicom_tag(v: &JsonValue, name: &str) -> (r: Option<String>)
    ensures
        opt_view(r) == main_tag(*v, name@),
{
    match json_get(v, "MainDicomTags") {
        Some(t) => match json_get(t, name) {
            Some(x) => match json_as_str(x) {
                Some(s) => Some(s.clone()),
                None => None,
            },
            None => None,
        },
        None => None,
    }
}

/// Identified study attributes as the server returns them.
pub struct StudyMeta {
    pub study_uid: Option<String>,
}

/// Reads the StudyInstanceUID of a stored study record.
pub fn extract_study_meta(v: &JsonValue) -> (r: StudyMeta)
    ensures
        opt_view(r.study_uid) == main_tag(*v, "StudyInstanceUID"@),
{
    StudyMeta { study_uid: main_dicom_tag(v, "StudyInstanceUID") }
}

/// The string elements of a list, in order; other elements are dropped.
pub open spec fn str_list(items: Seq<JsonValue>) -> Seq<Seq<char>>
    decreases items.len(),
{
    if items.len() == 0 {
        Seq::empty()
    } else {
        let init = str_list(items.drop_last());
        match spec_as_str(items.last()) {
            Some(s) => init.push(s),
            None => init,
        }
    }
}

fn collect_str_list(items: &Vec<JsonValue>) -> (r: Vec<String>)
    ensures
        views(r@) == str_list(items@),
{
    let mut out: Vec<String> = Vec::new();
    let mut i: usize = 0;
    while i < items.len()
        invariant
            i <= items@.len(),
            views(out@) == str_list(items@.subrange(0, i as int)),
        decreases items@.len() - i,
    {
        proof {
            assert(items@.subrange(0, i + 1 as int).drop_last() =~= items@.subrange(0, i as int));
            assert(items@.subrange(0, i + 1 as int).last() == items@[i as int]);
        }
        match json_as_str(&items[i]) {
            Some(s) => {
                let ghost prev = out@;
                out.push(s.clone());
                proof {
                    assert(views(out@) =~= views(prev).push(s@));
                }
            },
            None => {},
        }
        i = i + 1;
    }
    proof {
        assert(items@.subrange(0, items@.len() as int) =~= items@);
    }
    out
}

/// The instance identifiers of a stored series record.
pub open spec fn spec_instances(v: JsonValue) -> Seq<Seq<char>> {
    match spec_get(v, "Instances"@) {
        Some(JsonValue::Arr(a)) => str_list(a@),
        _ => Seq::empty(),
    }
}

/// Identified series attributes as the server returns them.
pub struct SeriesMeta {
    pub series_uid: Option<String>,
    pub description: Option<String>,
    pub series_number: Option<String>,
    pub instances: Vec<String>,
}

/// Reads the metadata of a stored series record: its UID, declared
/// description and series number from `MainDicomTags`, and the list of
/// its instance identifiers.
pub fn extract_series_meta(v: &JsonValue) -> (r: SeriesMeta)
    ensures
        opt_view(r.series_uid) == main_tag(*v, "SeriesInstanceUID"@),
        opt_view(r.description) == main_tag(*v, "SeriesDescription"@),
        opt_view(r.series_number) == main_tag(*v, "SeriesNumber"@),
        views(r.instances@) == spec_instances(*v),
{
    let instances = match json_get(v, "Instances") {
        Some(arr) => match arr {
            JsonValue::Arr(a) => collect_str_list(a),
            _ => Vec::new(),
        },
        None => Vec::new(),
    };
    SeriesMeta {
        series_uid: main_dicom_tag(v, "SeriesInstanceUID"),
        description: main_dicom_tag(v, "SeriesDescription"),
        series_number: main_dicom_tag(v, "SeriesNumber"),
        instances,
    }
}

/// The identifiers of a find answer whose items are either plain strings
/// or objects with an `ID` string field; anything else is dropped.
pub open spec fn id_list(items: Seq<JsonValue>) -> Seq<Seq<char>>
    decreases items.len(),
{
    if items.len() == 0 {
        Seq::empty()
    } else {
        let init = id_list(items.drop_last());
        match spec_as_str(items.last()) {
            Some(s) => init.push(s),
            None => match spec_get(items.last(), "ID"@) {
                Some(x) => match spec_as_str(x) {
                    Some(s) => init.push(s),
                    None => init,
                },
                None => init,
            },
        }
    }
}

/// Collects identifiers from a find answer, accepting both the plain
/// string form and the object form with an `ID` field.
pub fn extract_id_list(items: &Vec<JsonValue>) -> (r: Vec<String>)
    ensures
        views(r@) == id_list(items@),
{
    let mut out: Vec<String> = Vec::new();
    let mut i: usize = 0;
    while i < items.len()
        invariant
            i <= items@.len(),
            views(out@) == id_list(items@.subrange(0, i as int)),
        decreases items@.len() - i,
    {
        proof {
            assert(items@.subrange(0, i + 1 as int).drop_last() =~= items@.subrange(0, i as int));
            assert(items@.subrange(0, i + 1 as int).last() == items@[i as int]);
        }
        let ghost prev = out@;
        match json_as_str(&items[i]) {
            Some(s) => {
                out.push(s.clone());
                proof {
                    assert(views(out@) =~= views(prev).push(s@));
                }
            },
            None => {
                match json_get(&items[i], "ID") {
                    Some(x) => match json_as_str(x) {
                        Some(s) => {
                            out.push(s.clone());
                            proof {
                                assert(views(out@) =~= views(prev).push(s@));
                            }
                        },
                        None => {},
                    },
                    None => {},
                }
            },
        }
        i = i + 1;
    }
    proof {
        assert(items@.subrange(0, items@.len() as int) =~= items@);
    }
    out
}

/// The SeriesInstanceUIDs of a list of stored series records.
pub open spec fn series_uid_list(items: Seq<JsonValue>) -> Seq<Seq<char>>
    decreases items.len(),
{
    if items.len() == 0 {
        Seq::empty()
    } else {
        let init = series_uid_list(items.drop_last());
        match main_tag(items.last(), "SeriesInstanceUID"@) {
            Some(s) => init.push(s),
            None => init,
        }
    }
}

/// Collects the SeriesInstanceUIDs already stored under a study.
pub fn local_series_uids(items: &Vec<JsonValue>) -> (r: Vec<String>)
    ensures
        views(r@) == series_uid_list(items@),
{
    let mut out: Vec<String> = Vec::new();
    let mut i: usize = 0;
    while i < items.len()
        invariant
            i <= items@.len(),
            views(out@) == series_uid_list(items@.subrange(0, i as int)),
        decreases items@.len() - i,
    {
        proof {
            assert(items@.subrange(0, i + 1 as int).drop_last() =~= items@.subrange(0, i as int));
            assert(items@.subrange(0, i + 1 as int).last() == items@[i as int]);
        }
        match main_dicom_tag(&items[i], "SeriesInstanceUID") {
            Some(s) => {
                let ghost prev = out@;
                out.push(s);
                proof {
                    assert(views(out@) =~= views(prev).push(out@.last()@));
                }
            },
            None => {},
        }
        i = i + 1;
    }
    proof {
        assert(items@.subrange(0, items@.len() as int) =~= items@);
    }
    out
}

/// The `ID` string field of a response object: the query identifier of a
/// modality query, or the job identifier of an asynchronous move.
pub fn extract_id(v: &JsonValue) -> (r: Option<String>)
    ensures
        opt_view(r) == match spec_get(*v, "ID"@) {
            Some(x) => spec_as_str(x),
            None => None,
        },
{
    match json_get(v, "ID") {
        Some(x) => match json_as_str(x) {
            Some(s) => Some(s.clone()),
            None => None,
        },
        None => None,
    }
}

/// The type reported by the classification call: the `series_type`
/// field of the first element of the answer, when there is one.  The
/// sentinel `unknown`, compared case-insensitively, deliberately means
/// "no information", not a classification, and reads as `None`.
pub open spec fn spec_analysis_type(v: JsonValue) -> Option<Seq<char>> {
    match v {
        JsonValue::Arr(a) => if a@.len() > 0 {
            match spec_get(a@[0], "series_type"@) {
                Some(x) => match spec_as_str(x) {
                    Some(s) => if spec_lower(s) != "unknown"@ {
                        Some(s)
                    } else {
                        None
                    },
                    None => None,
                },
                None => None,
            }
        } else {
            None
        },
        _ => None,
    }
}

pub fn analysis_series_type(v: &JsonValue) -> (r: Option<String>)
    ensures
        opt_view(r) == spec_analysis_type(*v),
{
    match v {
        JsonValue::Arr(a) => {
            if a.len() > 0 {
                match json_get(&a[0], "series_type") {
                    Some(x) => match json_as_str(x) {
                        Some(s) => {
                            let low = to_ascii_lower(s.as_str());
                            if !str_eq(low.as_str(), "unknown") {
                                Some(s.clone())
                            } else {
                                None
                            }
                        },
                        None => None,
                    },
                    None => None,
                }
            } else {
                None
            }
        },
        _ => None,
    }
}

/// Whatever the service answered, a classification the gateway hands on
/// is never the `unknown` sentinel: absence, a malformed answer, and the
/// sentinel all read alike as "no classification".
pub proof fn lemma_sentinel_never_classifies(v: JsonValue)
    ensures
        match spec_analysis_type(v) {
            Some(s) => spec_lower(s) != "unknown"@,
            None => true,
        },
{
}

/// The job state text of a job record, `Unknown` when missing.
pub fn job_state_text(v: &JsonValue) -> (r: String)
    ensures
        r@ == match spec_get(*v, "State"@) {
            Some(x) => match spec_as_str(x) {
                Some(s) => s,
                None => "Unknown"@,
            },
            None => "Unknown"@,
        },
{
    match json_get(v, "State") {
        Some(x) => match json_as_str(x) {
            Some(s) => s.clone(),
            None => "Unknown".to_owned(),
        },
        None => "Unknown".to_owned(),
    }
}

/// The progress percentage of a job record, zero when missing.
pub fn job_progress(v: &JsonValue) -> (r: i64)
    ensures
        r == match spec_get(*v, "Progress"@) {
            Some(x) => match spec_as_int(x) {
                Some(p) => p,
                None => 0,
            },
            None => 0,
        },
{
    match json_get(v, "Progress") {
        Some(x) => match json_as_int(x) {
            Some(p) => p,
            None => 0,
        },
        None => 0,
    }
}

/// The standard, padded base64 encoding of a byte sequence.
pub uninterp spec fn base64_std_of(bytes: Seq<u8>) -> Seq<char>;

/// Relies on base64's `STANDARD` engine (`Engine::encode`): the encoding
/// is a pure function of the input bytes.
#[verifier::external_body]
fn base64_standard(bytes: &Vec<u8>) -> (r: String)
    ensures
        r@ == base64_std_of(bytes@),
{
    base64::engine::general_purpose::STANDARD.encode(bytes)
}

/// The four study attributes read from a stored instance file, in the
/// order patient identifier, study date, modality, accession number;
/// `None` when the bytes do not parse as a stored instance.  An
/// attribute that is absent, or not readable as a string, reads as the
/// empty string.
pub uninterp spec fn dicom_study_tags_of(data: Seq<u8>) -> Option<Seq<Seq<char>>>;

/// Relies on dicom_object's `from_reader`, `element_by_name` and
/// `to_str`: the file is parsed after its 128-byte preamble, and the
/// PatientID, StudyDate, Modality and AccessionNumber attributes are
/// read as strings.  The parse is a pure function of the bytes.
#[verifier::external_body]
pub fn parse_dicom_study_info(data: &Vec<u8>) -> (r: Option<crate::names::DicomStudyInfo>)
    ensures
        r is Some <==> dicom_study_tags_of(data@) is Some,
        r is Some ==> {
            let t = dicom_study_tags_of(data@)->0;
            &&& t.len() == 4
            &&& r->0.patient_id@ == t[0]
            &&& r->0.study_date@ == t[1]
            &&& r->0.modality@ == t[2]
            &&& r->0.accession_number@ == t[3]
        },
{
    let obj = dicom_object::from_reader(data.get(128..).unwrap_or(&[])).ok()?;
    let read = |name: &str| -> String {
        obj.element_by_name(name).ok().and_then(|e| e.to_str().ok()).map(
            |s| s.into_owned(),
        ).unwrap_or_default()
    };
    Some(crate::names::DicomStudyInfo {
        patient_id: read("PatientID"),
        study_date: read("StudyDate"),
        modality: read("Modality"),
        accession_number: read("AccessionNumber"),
    })
}

/// The Basic authorization header value for the given credentials: the
/// word `Basic`, a space, and the base64 of `username:password` in its
/// UTF-8 bytes.
pub fn basic_auth_value(username: &str, password: &str) -> (r: String)
    ensures
        r@ == "Basic "@ + base64_std_of(
            vstd::utf8::encode_utf8(username@ + seq![':'] + password@),
        ),
{
    let mut cred = username.to_owned();
    cred.append(":");
    cred.append(password);
    let bytes = cred.as_str().as_bytes_vec();
    proof {
        reveal_strlit(":");
        assert(":"@ =~= seq![':']);
        assert(cred@ =~= username@ + seq![':'] + password@);
    }
    let token = base64_standard(&bytes);
    let mut out = "Basic ".to_owned();
    out.append(token.as_str());
    out
}

} // verus!
