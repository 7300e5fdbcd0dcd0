//! Filesystem-safe naming: path-segment sanitizing, reserved device
//! names, instance file names, and study/series folder names with their
//! collision-avoidance suffix scheme.

use vstd::prelude::*;

use crate::text::{
    dec_val, format_pad3, is_dec_string, pad3, parse_u32, push_char, spec_trim, spec_upper,
    str_eq, to_ascii_upper, trim_str, lemma_pad3_injective,
};

verus! {

/// Whether an already-uppercased name is one of the reserved device
/// names.
pub open spec fn is_windows_upper(u: Seq<char>) -> bool {
    u == "CON"@ || u == "PRN"@ || u == "AUX"@ || u == "NUL"@ || u == "COM1"@ || u == "COM2"@ || u
        == "COM3"@ || u == "COM4"@ || u == "COM5"@ || u == "COM6"@ || u == "COM7"@ || u == "COM8"@
        || u == "COM9"@ || u == "LPT1"@ || u == "LPT2"@ || u == "LPT3"@ || u == "LPT4"@ || u
        == "LPT5"@ || u == "LPT6"@ || u == "LPT7"@ || u == "LPT8"@ || u == "LPT9"@
}

/// Characters that are not allowed in a path segment.
pub open spec fn is_invalid_path_char(c: char) -> bool {
    c == '<' || c == '>' || c == ':' || c == '"' || c == '/' || c == '\\' || c == '|' || c == '?'
        || c == '*'
}

pub fn is_invalid_path_char_exec(c: char) -> (r: bool)
    ensures
        r == is_invalid_path_char(c),
{
    c == '<' || c == '>' || c == ':' || c == '"' || c == '/' || c == '\\' || c == '|' || c == '?'
        || c == '*'
}

/// `s` with every disallowed character replaced by an underscore.
pub open spec fn replace_invalid(s: Seq<char>) -> Seq<char> {
    s.map_values(|c: char| if is_invalid_path_char(c) {
        '_'
    } else {
        c
    })
}

/// Whether `s` names a reserved device, compared case-insensitively.
pub open spec fn is_reserved_device_name(s: Seq<char>) -> bool {
    is_windows_upper(spec_upper(s))
}

pub fn is_windows_reserved_name(name: &str) -> (r: bool)
    ensures
        r == is_reserved_device_name(name@),
{
    let upper = to_ascii_upper(name);
    let u = upper.as_str();
    str_eq(u, "CON") || str_eq(u, "PRN") || str_eq(u, "AUX") || str_eq(u, "NUL") || str_eq(
        u,
        "COM1",
    ) || str_eq(u, "COM2") || str_eq(u, "COM3") || str_eq(u, "COM4") || str_eq(u, "COM5")
        || str_eq(u, "COM6") || str_eq(u, "COM7") || str_eq(u, "COM8") || str_eq(u, "COM9")
        || str_eq(u, "LPT1") || str_eq(u, "LPT2") || str_eq(u, "LPT3") || str_eq(u, "LPT4")
        || str_eq(u, "LPT5") || str_eq(u, "LPT6") || str_eq(u, "LPT7") || str_eq(u, "LPT8")
        || str_eq(u, "LPT9")
}

/// The sanitized form of one path segment: trimmed, disallowed characters
/// replaced, the empty result replaced by `unknown`, and reserved device
/// names prefixed with an underscore.
pub open spec fn spec_sanitize(s: Seq<char>) -> Seq<char> {
    let cleaned = replace_invalid(spec_trim(s));
    if cleaned.len() == 0 {
        "unknown"@
    } else if is_reserved_device_name(cleaned) {
        seq!['_'] + cleaned
    } else {
        cleaned
    }
}

pub fn sanitize_segment(text: &str) -> (r: String)
    ensures
        r@ == spec_sanitize(text@),
{
    let trimmed = trim_str(text);
    let t = trimmed.as_str();
    let n = t.unicode_len();
    let mut cleaned = String::new();
    let mut i: usize = 0;
    while i < n
        invariant
            i <= n,
            n == t@.len(),
            t@ == spec_trim(text@),
            cleaned@ == replace_invalid(t@.subrange(0, i as int)),
        decreases n - i,
    {
        let c = t.get_char(i);
        if is_invalid_path_char_exec(c) {
            push_char(&mut cleaned, '_');
        } else {
            push_char(&mut cleaned, c);
        }
        proof {
            assert(replace_invalid(t@.subrange(0, i + 1 as int)) =~= replace_invalid(
                t@.subrange(0, i as int),
            ).push(
                if is_invalid_path_char(t@[i as int]) {
                    '_'
                } else {
                    t@[i as int]
                },
            ));
        }
        i = i + 1;
    }
    proof {
        assert(t@.subrange(0, n as int) =~= t@);
    }
    if cleaned.as_str().is_empty() {
        return "unknown".to_owned();
    }
    if is_windows_reserved_name(cleaned.as_str()) {
        let mut out = String::new();
        push_char(&mut out, '_');
        out.append(cleaned.as_str());
        proof {
            assert(Seq::<char>::empty().push('_') + cleaned@ =~= seq!['_'] + cleaned@);
        }
        return out;
    }
    cleaned
}

/// Sanitized outputs hold no disallowed character, are never empty, and
/// are never a bare reserved device name.
pub proof fn lemma_sanitize_segment_safe(s: Seq<char>)
    ensures
        forall|i: int|
            0 <= i < spec_sanitize(s).len() ==> !is_invalid_path_char(#[trigger] spec_sanitize(s)[i]),
        spec_sanitize(s).len() > 0,
        !is_reserved_device_name(spec_sanitize(s)),
{
    reveal_strlit("unknown");
    reveal_strlit("CON");
    reveal_strlit("PRN");
    reveal_strlit("AUX");
    reveal_strlit("NUL");
    reveal_strlit("COM1");
    reveal_strlit("COM2");
    reveal_strlit("COM3");
    reveal_strlit("COM4");
    reveal_strlit("COM5");
    reveal_strlit("COM6");
    reveal_strlit("COM7");
    reveal_strlit("COM8");
    reveal_strlit("COM9");
    reveal_strlit("LPT1");
    reveal_strlit("LPT2");
    reveal_strlit("LPT3");
    reveal_strlit("LPT4");
    reveal_strlit("LPT5");
    reveal_strlit("LPT6");
    reveal_strlit("LPT7");
    reveal_strlit("LPT8");
    reveal_strlit("LPT9");
    let cleaned = replace_invalid(spec_trim(s));
    if cleaned.len() == 0 {
        assert(spec_sanitize(s) == "unknown"@);
        assert("unknown"@.len() == 7);
        assert(forall|i: int|
            0 <= i < 7 ==> !is_invalid_path_char(#[trigger] "unknown"@[i]));
        assert(spec_upper(spec_sanitize(s)).len() == 7);
    } else if is_reserved_device_name(cleaned) {
        let out = seq!['_'] + cleaned;
        assert(spec_sanitize(s) == out);
        assert(out[0] == '_');
        assert(spec_upper(out)[0] == '_');
        assert(forall|i: int|
            0 <= i < out.len() && i >= 1 ==> out[i] == cleaned[i - 1]);
    } else {
        assert(spec_sanitize(s) == cleaned);
    }
}

/// The file name used for a stored instance: the sanitized identifier
/// with a `.dcm` extension.
pub open spec fn spec_safe_dicom_filename(s: Seq<char>) -> Seq<char> {
    spec_sanitize(s) + ".dcm"@
}

pub fn safe_dicom_filename(instance_id: &str) -> (r: String)
    ensures
        r@ == spec_safe_dicom_filename(instance_id@),
{
    let mut out = sanitize_segment(instance_id);
    out.append(".dcm");
    out
}

/// Descriptive attributes of a study, read from one of its instances and
/// used only to derive the study folder name.
pub struct DicomStudyInfo {
    pub patient_id: String,
    pub study_date: String,
    pub modality: String,
    pub accession_number: String,
}

/// The study folder name: the four sanitized attributes joined with
/// underscores.
pub open spec fn spec_study_folder_name(
    patient_id: Seq<char>,
    study_date: Seq<char>,
    modality: Seq<char>,
    accession_number: Seq<char>,
) -> Seq<char> {
    spec_sanitize(patient_id) + seq!['_'] + spec_sanitize(study_date) + seq!['_'] + spec_sanitize(
        modality,
    ) + seq!['_'] + spec_sanitize(accession_number)
}

pub fn generate_study_folder_name(info: &DicomStudyInfo) -> (r: String)
    ensures
        r@ == spec_study_folder_name(
            info.patient_id@,
            info.study_date@,
            info.modality@,
            info.accession_number@,
        ),
{
    let mut out = sanitize_segment(info.patient_id.as_str());
    push_char(&mut out, '_');
    let part2 = sanitize_segment(info.study_date.as_str());
    out.append(part2.as_str());
    push_char(&mut out, '_');
    let part3 = sanitize_segment(info.modality.as_str());
    out.append(part3.as_str());
    push_char(&mut out, '_');
    let part4 = sanitize_segment(info.accession_number.as_str());
    out.append(part4.as_str());
    proof {
        assert(spec_sanitize(info.patient_id@).push('_') + spec_sanitize(info.study_date@).push(
            '_',
        ) + spec_sanitize(info.modality@).push('_') + spec_sanitize(info.accession_number@)
            =~= spec_study_folder_name(
            info.patient_id@,
            info.study_date@,
            info.modality@,
            info.accession_number@,
        ));
    }
    out
}

/// The three-digit suffix derived from a series number: its zero-padded
/// value when the number is a decimal string in range, and `000` otherwise.
pub open spec fn spec_series_suffix(series_number: Option<Seq<char>>) -> Seq<char> {
    match series_number {
        Some(n) => if is_dec_string(n) && dec_val(n) <= u32::MAX {
            pad3(dec_val(n))
        } else {
            seq!['0', '0', '0']
        },
        None => seq!['0', '0', '0'],
    }
}

/// The series folder name: the resolved type alone when it is the only
/// series of that type in the study, and the type plus a numeric suffix
/// when the type occurs more than once.
pub open spec fn spec_series_folder_name(
    series_type: Seq<char>,
    series_number: Option<Seq<char>>,
    count: nat,
) -> Seq<char> {
    if count > 1 {
        series_type + seq!['_'] + spec_series_suffix(series_number)
    } else {
        series_type
    }
}

pub fn generate_series_folder_name(
    series_type: &str,
    series_number: Option<&str>,
    count: usize,
) -> (r: String)
    ensures
        r@ == spec_series_folder_name(
            series_type@,
            match series_number {
                Some(n) => Some(n@),
                None => None,
            },
            count as nat,
        ),
{
    if count > 1 {
        let mut out = series_type.to_owned();
        push_char(&mut out, '_');
        match series_number {
            Some(ns) => {
                match parse_u32(ns) {
                    Some(v) => {
                        let p = format_pad3(v);
                        out.append(p.as_str());
                    },
                    None => {
                        out.append("000");
                        proof {
                            reveal_strlit("000");
                            assert("000"@ =~= seq!['0', '0', '0']);
                        }
                    },
                }
            },
            None => {
                out.append("000");
                proof {
                    reveal_strlit("000");
                    assert("000"@ =~= seq!['0', '0', '0']);
                }
            },
        }
        proof {
            assert(series_type@.push('_') + spec_series_suffix(
                match series_number {
                    Some(n) => Some(n@),
                    None => None,
                },
            ) =~= spec_series_folder_name(
                series_type@,
                match series_number {
                    Some(n) => Some(n@),
                    None => None,
                },
                count as nat,
            ));
        }
        out
    } else {
        series_type.to_owned()
    }
}

/// Two series of the same resolved type whose series numbers parse to
/// distinct values receive distinct, suffixed folder names.
pub proof fn lemma_series_folder_names_distinct(
    series_type: Seq<char>,
    n1: Seq<char>,
    n2: Seq<char>,
    count: nat,
)
    requires
        count > 1,
        is_dec_string(n1) && dec_val(n1) <= u32::MAX,
        is_dec_string(n2) && dec_val(n2) <= u32::MAX,
        dec_val(n1) != dec_val(n2),
    ensures
        spec_series_folder_name(series_type, Some(n1), count) != spec_series_folder_name(
            series_type,
            Some(n2),
            count,
        ),
{
    let a = spec_series_folder_name(series_type, Some(n1), count);
    let b = spec_series_folder_name(series_type, Some(n2), count);
    if a == b {
        let k = series_type.len() as int;
        assert(a.subrange(k + 1, a.len() as int) =~= pad3(dec_val(n1)));
        assert(b.subrange(k + 1, b.len() as int) =~= pad3(dec_val(n2)));
        lemma_pad3_injective(dec_val(n1), dec_val(n2));
    }
}

/// A series that is the only one of its resolved type keeps the bare type
/// as its folder name, with no suffix.
pub proof fn lemma_singleton_series_folder_bare(
    series_type: Seq<char>,
    series_number: Option<Seq<char>>,
)
    ensures
        spec_series_folder_name(series_type, series_number, 1) == series_type,
{
}

} // verus!
