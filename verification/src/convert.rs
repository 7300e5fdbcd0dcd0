//! The outcome logic around the external image-format converter: which
//! output files count, and how a converter run is judged.  Success is
//! decided by whether expected output files actually appeared, not by
//! the exit code alone.

use vstd::prelude::*;

use crate::config::views;
use crate::text::{spec_lower, spec_starts_with, str_starts_with, to_ascii_lower};

verus! {

/// Whether `suffix` ends `s`.
pub open spec fn spec_ends_with(s: Seq<char>, suffix: Seq<char>) -> bool {
    suffix.len() <= s.len() && s.subrange(s.len() - suffix.len(), s.len() as int) == suffix
}

pub fn str_ends_with(s: &str, suffix: &str) -> (r: bool)
    ensures
        r == spec_ends_with(s@, suffix@),
{
    let s_len = s.unicode_len();
    let n = suffix.unicode_len();
    if n > s_len {
        return false;
    }
    let start = s_len - n;
    let mut i: usize = 0;
    while i < n
        invariant
            i <= n <= s_len,
            start == s_len - n,
            s_len == s@.len(),
            n == suffix@.len(),
            forall|j: int| 0 <= j < i ==> s@[start + j] == suffix@[j],
        decreases n - i,
    {
        if s.get_char(start + i) != suffix.get_char(i) {
            proof {
                assert(s@.subrange(s@.len() - suffix@.len(), s@.len() as int)[i as int] == s@[start
                    + i]);
            }
            return false;
        }
        i = i + 1;
    }
    proof {
        assert(s@.subrange(s@.len() - suffix@.len(), s@.len() as int) =~= suffix@);
    }
    true
}

/// Whether a file name is converter output: a `.nii.gz` or `.nii` file.
pub open spec fn is_nifti_name(n: Seq<char>) -> bool {
    spec_ends_with(n, ".nii.gz"@) || spec_ends_with(n, ".nii"@)
}

pub fn nifti_name(name: &str) -> (r: bool)
    ensures
        r == is_nifti_name(name@),
{
    str_ends_with(name, ".nii.gz") || str_ends_with(name, ".nii")
}

/// Whether a file name is a stored instance: a `.dcm` file, the
/// extension compared case-insensitively.
pub open spec fn is_dcm_name(n: Seq<char>) -> bool {
    spec_ends_with(spec_lower(n), ".dcm"@)
}

pub fn dcm_name(name: &str) -> (r: bool)
    ensures
        r == is_dcm_name(name@),
{
    let low = to_ascii_lower(name);
    str_ends_with(low.as_str(), ".dcm")
}

/// The names that start with the series name and are converter images.
pub open spec fn matching_nifti(names: Seq<String>, series_name: Seq<char>) -> Seq<Seq<char>>
    decreases names.len(),
{
    if names.len() == 0 {
        Seq::empty()
    } else {
        let init = matching_nifti(names.drop_last(), series_name);
        let n = names.last()@;
        if spec_starts_with(n, series_name) && is_nifti_name(n) {
            init.push(n)
        } else {
            init
        }
    }
}

/// The names that start with the series name and are sidecar files,
/// image files set aside first.
pub open spec fn matching_json(names: Seq<String>, series_name: Seq<char>) -> Seq<Seq<char>>
    decreases names.len(),
{
    if names.len() == 0 {
        Seq::empty()
    } else {
        let init = matching_json(names.drop_last(), series_name);
        let n = names.last()@;
        if spec_starts_with(n, series_name) && !is_nifti_name(n) && spec_ends_with(n, ".json"@) {
            init.push(n)
        } else {
            init
        }
    }
}

/// Partitions the file names of the output directory into the converter
/// images and the sidecar files that belong to this series.  The
/// converter may append suffixes to the series name, so any name that
/// starts with it counts.
pub fn partition_output_files(names: &Vec<String>, series_name: &str) -> (r: (
    Vec<String>,
    Vec<String>,
))
    ensures
        views(r.0@) == matching_nifti(names@, series_name@),
        views(r.1@) == matching_json(names@, series_name@),
{
    let mut nifti: Vec<String> = Vec::new();
    let mut json: Vec<String> = Vec::new();
    let mut i: usize = 0;
    while i < names.len()
        invariant
            i <= names@.len(),
            views(nifti@) == matching_nifti(names@.subrange(0, i as int), series_name@),
            views(json@) == matching_json(names@.subrange(0, i as int), series_name@),
        decreases names@.len() - i,
    {
        proof {
            assert(names@.subrange(0, i + 1 as int).drop_last() =~= names@.subrange(0, i as int));
            assert(names@.subrange(0, i + 1 as int).last() == names@[i as int]);
        }
        let name = &names[i];
        if str_starts_with(name.as_str(), series_name) {
            if nifti_name(name.as_str()) {
                let ghost prev = nifti@;
                nifti.push(name.clone());
                proof {
                    assert(views(nifti@) =~= views(prev).push(nifti@.last()@));
                }
            } else if str_ends_with(name.as_str(), ".json") {
                let ghost prev = json@;
                json.push(name.clone());
                proof {
                    assert(views(json@) =~= views(prev).push(json@.last()@));
                }
            }
        }
        i = i + 1;
    }
    proof {
        assert(names@.subrange(0, names@.len() as int) =~= names@);
    }
    (nifti, json)
}

/// The converter image names among arbitrary directory entries.
pub open spec fn nifti_names_of(names: Seq<String>) -> Seq<Seq<char>>
    decreases names.len(),
{
    if names.len() == 0 {
        Seq::empty()
    } else {
        let init = nifti_names_of(names.drop_last());
        if is_nifti_name(names.last()@) {
            init.push(names.last()@)
        } else {
            init
        }
    }
}

/// Filters a directory listing down to the converter images in it.
pub fn find_nifti_names(names: &Vec<String>) -> (r: Vec<String>)
    ensures
        views(r@) == nifti_names_of(names@),
{
    let mut out: Vec<String> = Vec::new();
    let mut i: usize = 0;
    while i < names.len()
        invariant
            i <= names@.len(),
            views(out@) == nifti_names_of(names@.subrange(0, i as int)),
        decreases names@.len() - i,
    {
        proof {
            assert(names@.subrange(0, i + 1 as int).drop_last() =~= names@.subrange(0, i as int));
            assert(names@.subrange(0, i + 1 as int).last() == names@[i as int]);
        }
        if nifti_name(names[i].as_str()) {
            let ghost prev = out@;
            out.push(names[i].clone());
            proof {
                assert(views(out@) =~= views(prev).push(out@.last()@));
            }
        }
        i = i + 1;
    }
    proof {
        assert(names@.subrange(0, names@.len() as int) =~= names@);
    }
    out
}

/// Result of one converter run.
#[derive(Debug, Clone)]
pub struct ConversionResult {
    /// Whether the conversion succeeded: the run exited cleanly and at
    /// least one image file appeared.
    pub success: bool,
    /// Names of generated image files.
    pub nifti_files: Vec<String>,
    /// Names of generated sidecar files.
    pub json_files: Vec<String>,
    /// Error message if the converter failed.
    pub error: Option<String>,
    /// Time taken in milliseconds.
    pub elapsed_ms: u64,
}

/// Judges one converter run.  A clean exit succeeds only when image
/// files actually appeared — a clean exit with no output is a non-fatal
/// "nothing to convert".  A failed exit reports the error channel, or
/// the output channel when the error channel is empty.
pub fn conversion_outcome(
    exit_ok: bool,
    nifti_files: Vec<String>,
    json_files: Vec<String>,
    stderr_text: String,
    stdout_text: String,
    elapsed_ms: u64,
) -> (r: ConversionResult)
    ensures
        exit_ok ==> {
            &&& r.success == (nifti_files@.len() > 0)
            &&& r.nifti_files == nifti_files
            &&& r.json_files == json_files
            &&& r.error is None
        },
        !exit_ok ==> {
            &&& !r.success
            &&& r.nifti_files@.len() == 0
            &&& r.json_files@.len() == 0
            &&& r.error matches Some(e) && e@ == (if stderr_text@.len() == 0 {
                stdout_text@
            } else {
                stderr_text@
            })
        },
        r.elapsed_ms == elapsed_ms,
{
    if exit_ok {
        let success = nifti_files.len() > 0;
        ConversionResult { success, nifti_files, json_files, error: None, elapsed_ms }
    } else {
        let message = if stderr_text.as_str().is_empty() {
            stdout_text
        } else {
            stderr_text
        };
        ConversionResult {
            success: false,
            nifti_files: Vec::new(),
            json_files: Vec::new(),
            error: Some(message),
            elapsed_ms,
        }
    }
}

} // verus!
