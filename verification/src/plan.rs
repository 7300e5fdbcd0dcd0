//! The download plan builder: resolving a series type from the declared
//! description and an optional classification verdict, grouping instances
//! by per-instance verdict, and assembling per-study plans with
//! collision-avoiding, filesystem-safe folder names.

use vstd::prelude::*;

use crate::config::views;
use crate::names::{
    generate_series_folder_name, lemma_sanitize_segment_safe, sanitize_segment,
    spec_sanitize, spec_series_folder_name,
};
use crate::text::{contains_str, spec_lower, str_eq, to_ascii_lower, vec_contains_str};

verus! {

/// One series as it enters plan building: its resolved type, its declared
/// series number, and the instances to download under it.
pub struct SeriesEntry {
    pub series_type: String,
    pub series_number: Option<String>,
    pub instances: Vec<String>,
}

/// The plan for one series folder: where to put it and what to fetch.
pub struct SeriesDownloadPlan {
    pub series_folder: String,
    pub instances: Vec<String>,
}

/// The plan for one study: a folder and the series plans inside it.
pub struct DownloadPlan {
    pub study_folder: String,
    pub series: Vec<SeriesDownloadPlan>,
}

/// The invariant of a built plan: a non-empty study folder, and series
/// plans with non-empty folder names and non-empty instance lists.
pub open spec fn plan_wf(p: &DownloadPlan) -> bool {
    &&& p.study_folder@.len() > 0
    &&& forall|i: int|
        0 <= i < p.series@.len() ==> (#[trigger] p.series@[i]).series_folder@.len() > 0
            && p.series@[i].instances@.len() > 0
}

/// The declared description, or `Unknown` when there is none.
pub open spec fn spec_desc_or_unknown(description: Option<Seq<char>>) -> Seq<char> {
    match description {
        Some(d) => d,
        None => "Unknown"@,
    }
}

/// The first-pass series type: the classification verdict when analysis
/// is enabled and the verdict is usable (present and not the `unknown`
/// sentinel, compared case-insensitively), else the declared description,
/// else `Unknown`.
pub open spec fn spec_resolve_series_type(
    analyze_enabled: bool,
    verdict: Option<Seq<char>>,
    description: Option<Seq<char>>,
) -> Seq<char> {
    if analyze_enabled {
        match verdict {
            Some(t) => if spec_lower(t) != "unknown"@ {
                t
            } else {
                spec_desc_or_unknown(description)
            },
            None => spec_desc_or_unknown(description),
        }
    } else {
        spec_desc_or_unknown(description)
    }
}

fn desc_or_unknown(description: &Option<String>) -> (r: String)
    ensures
        r@ == spec_desc_or_unknown(match description {
            Some(d) => Some(d@),
            None => None,
        }),
{
    match description {
        Some(d) => d.clone(),
        None => "Unknown".to_owned(),
    }
}

/// Resolves the first-pass type of a series.  The verdict is `None` when
/// the classification service erred or was not called.
pub fn resolve_series_type(
    analyze_enabled: bool,
    verdict: &Option<String>,
    description: &Option<String>,
) -> (r: String)
    ensures
        r@ == spec_resolve_series_type(
            analyze_enabled,
            match verdict {
                Some(t) => Some(t@),
                None => None,
            },
            match description {
                Some(d) => Some(d@),
                None => None,
            },
        ),
{
    if analyze_enabled {
        match verdict {
            Some(t) => {
                let low = to_ascii_lower(t.as_str());
                if !str_eq(low.as_str(), "unknown") {
                    t.clone()
                } else {
                    desc_or_unknown(description)
                }
            },
            None => desc_or_unknown(description),
        }
    } else {
        desc_or_unknown(description)
    }
}

/// The verdict for one instance during the per-instance pass: the
/// classified type when it is usable, and the `Unknown` bucket otherwise.
/// A fetch or classification error becomes `None` and so lands in
/// `Unknown` too: an instance is still downloaded, never dropped, when
/// its own classification fails.
pub open spec fn spec_resolve_instance_type(verdict: Option<Seq<char>>) -> Seq<char> {
    match verdict {
        Some(t) => if spec_lower(t) != "unknown"@ {
            t
        } else {
            "Unknown"@
        },
        None => "Unknown"@,
    }
}

pub fn resolve_instance_type(verdict: &Option<String>) -> (r: String)
    ensures
        r@ == spec_resolve_instance_type(match verdict {
            Some(t) => Some(t@),
            None => None,
        }),
{
    match verdict {
        Some(t) => {
            let low = to_ascii_lower(t.as_str());
            if !str_eq(low.as_str(), "unknown") {
                t.clone()
            } else {
                "Unknown".to_owned()
            }
        },
        None => "Unknown".to_owned(),
    }
}

/// The distinct verdict types of `pairs`, in order of first appearance.
pub open spec fn distinct_types(pairs: Seq<(String, String)>) -> Seq<Seq<char>>
    decreases pairs.len(),
{
    if pairs.len() == 0 {
        Seq::empty()
    } else {
        let init = distinct_types(pairs.drop_last());
        if init.contains(pairs.last().1@) {
            init
        } else {
            init.push(pairs.last().1@)
        }
    }
}

/// The instances of `pairs` whose verdict is `t`, in their original
/// order.
pub open spec fn instances_of_type(pairs: Seq<(String, String)>, t: Seq<char>) -> Seq<Seq<char>>
    decreases pairs.len(),
{
    if pairs.len() == 0 {
        Seq::empty()
    } else {
        let init = instances_of_type(pairs.drop_last(), t);
        if pairs.last().1@ == t {
            init.push(pairs.last().0@)
        } else {
            init
        }
    }
}

proof fn lemma_contains_views(l: Seq<String>, x: Seq<char>)
    ensures
        contains_str(l, x) <==> views(l).contains(x),
{
    if contains_str(l, x) {
        let i = choose|i: int| 0 <= i < l.len() && l[i]@ == x;
        assert(views(l)[i] == x);
    }
    if views(l).contains(x) {
        let i = choose|i: int| 0 <= i < views(l).len() && views(l)[i] == x;
        assert(l[i]@ == x);
    }
}

fn distinct_types_exec(pairs: &Vec<(String, String)>) -> (r: Vec<String>)
    ensures
        views(r@) == distinct_types(pairs@),
{
    let mut out: Vec<String> = Vec::new();
    let mut i: usize = 0;
    while i < pairs.len()
        invariant
            i <= pairs@.len(),
            views(out@) == distinct_types(pairs@.subrange(0, i as int)),
        decreases pairs@.len() - i,
    {
        proof {
            assert(pairs@.subrange(0, i + 1 as int).drop_last() =~= pairs@.subrange(0, i as int));
            assert(pairs@.subrange(0, i + 1 as int).last() == pairs@[i as int]);
            lemma_contains_views(out@, pairs@[i as int].1@);
        }
        if !vec_contains_str(&out, pairs[i].1.as_str()) {
            let ghost prev = out@;
            out.push(pairs[i].1.clone());
            proof {
                assert(views(out@) =~= views(prev).push(pairs@[i as int].1@));
            }
        }
        i = i + 1;
    }
    proof {
        assert(pairs@.subrange(0, pairs@.len() as int) =~= pairs@);
    }
    out
}

fn collect_instances(pairs: &Vec<(String, String)>, t: &str) -> (r: Vec<String>)
    ensures
        views(r@) == instances_of_type(pairs@, t@),
{
    let mut out: Vec<String> = Vec::new();
    let mut i: usize = 0;
    while i < pairs.len()
        invariant
            i <= pairs@.len(),
            views(out@) == instances_of_type(pairs@.subrange(0, i as int), t@),
        decreases pairs@.len() - i,
    {
        proof {
            assert(pairs@.subrange(0, i + 1 as int).drop_last() =~= pairs@.subrange(0, i as int));
            assert(pairs@.subrange(0, i + 1 as int).last() == pairs@[i as int]);
        }
        if str_eq(pairs[i].1.as_str(), t) {
            let ghost prev = out@;
            out.push(pairs[i].0.clone());
            proof {
                assert(views(out@) =~= views(prev).push(pairs@[i as int].0@));
            }
        }
        i = i + 1;
    }
    proof {
        assert(pairs@.subrange(0, pairs@.len() as int) =~= pairs@);
    }
    out
}

/// Partitions classified instances into one bucket per distinct verdict.
/// Buckets appear in order of first appearance of their verdict, and each
/// bucket keeps its instances in their original order.
pub fn group_instances_by_type(pairs: &Vec<(String, String)>) -> (r: Vec<(String, Vec<String>)>)
    ensures
        r@.len() == distinct_types(pairs@).len(),
        forall|j: int|
            0 <= j < r@.len() ==> (#[trigger] r@[j]).0@ == distinct_types(pairs@)[j] && views(
                r@[j].1@,
            ) == instances_of_type(pairs@, distinct_types(pairs@)[j]),
{
    let types = distinct_types_exec(pairs);
    let mut out: Vec<(String, Vec<String>)> = Vec::new();
    let mut j: usize = 0;
    while j < types.len()
        invariant
            j <= types@.len(),
            views(types@) == distinct_types(pairs@),
            out@.len() == j,
            forall|k: int|
                0 <= k < j ==> (#[trigger] out@[k]).0@ == distinct_types(pairs@)[k] && views(
                    out@[k].1@,
                ) == instances_of_type(pairs@, distinct_types(pairs@)[k]),
        decreases types@.len() - j,
    {
        let bucket = collect_instances(pairs, types[j].as_str());
        out.push((types[j].clone(), bucket));
        j = j + 1;
    }
    out
}

/// The sanitized resolved types of the entries, in order.
pub open spec fn sanitized_types(entries: Seq<SeriesEntry>) -> Seq<Seq<char>> {
    entries.map_values(|e: SeriesEntry| spec_sanitize(e.series_type@))
}

/// How many entries resolve to the sanitized type `t`.
pub open spec fn count_type(types: Seq<Seq<char>>, t: Seq<char>) -> nat
    decreases types.len(),
{
    if types.len() == 0 {
        0
    } else {
        count_type(types.drop_last(), t) + if types.last() == t {
            1nat
        } else {
            0
        }
    }
}

fn count_eq(types: &Vec<String>, t: &str) -> (n: usize)
    ensures
        n as nat == count_type(views(types@), t@),
{
    let mut n: usize = 0;
    let mut i: usize = 0;
    while i < types.len()
        invariant
            i <= types@.len(),
            n <= i,
            n as nat == count_type(views(types@).subrange(0, i as int), t@),
        decreases types@.len() - i,
    {
        proof {
            assert(views(types@).subrange(0, i + 1 as int).drop_last() =~= views(
                types@,
            ).subrange(0, i as int));
            assert(views(types@).subrange(0, i + 1 as int).last() == types@[i as int]@);
        }
        if str_eq(types[i].as_str(), t) {
            n = n + 1;
        }
        i = i + 1;
    }
    proof {
        assert(views(types@).subrange(0, views(types@).len() as int) =~= views(types@));
    }
    n
}

fn clone_string_vec(v: &Vec<String>) -> (r: Vec<String>)
    ensures
        views(r@) == views(v@),
{
    let mut out: Vec<String> = Vec::new();
    let mut i: usize = 0;
    while i < v.len()
        invariant
            i <= v@.len(),
            views(out@) == views(v@.subrange(0, i as int)),
        decreases v@.len() - i,
    {
        let ghost prev = out@;
        out.push(v[i].clone());
        proof {
            assert(views(out@) =~= views(prev).push(v@[i as int]@));
            assert(views(v@.subrange(0, i + 1 as int)) =~= views(
                v@.subrange(0, i as int),
            ).push(v@[i as int]@));
        }
        i = i + 1;
    }
    proof {
        assert(v@.subrange(0, v@.len() as int) =~= v@);
    }
    out
}

/// The study folder derived from one instance's bytes: when the bytes
/// parse as a stored instance, the four-part name built from its
/// patient identifier, study date, modality and accession number.
pub fn study_folder_from_instance(data: &Vec<u8>) -> (r: Option<String>)
    ensures
        r is Some <==> crate::gateway::dicom_study_tags_of(data@) is Some,
        r is Some ==> {
            let t = crate::gateway::dicom_study_tags_of(data@)->0;
            r->0@ == crate::names::spec_study_folder_name(t[0], t[1], t[2], t[3]) && r->0@.len()
                > 0
        },
{
    match crate::gateway::parse_dicom_study_info(data) {
        Some(info) => {
            let name = crate::names::generate_study_folder_name(&info);
            proof {
                lemma_sanitize_segment_safe(info.patient_id@);
            }
            Some(name)
        },
        None => None,
    }
}

/// The fallback study folder used when no instance yielded readable
/// study attributes: the sanitized accession with an `_unknown` mark.
pub fn study_folder_fallback(accession: &str) -> (r: String)
    ensures
        r@ == spec_sanitize(accession@) + "_unknown"@,
        r@.len() > 0,
{
    let mut out = sanitize_segment(accession);
    out.append("_unknown");
    proof {
        lemma_sanitize_segment_safe(accession@);
    }
    out
}

/// Assembles the plan for one study.  Each entry becomes one series
/// plan; its folder is the sanitized resolved type, suffixed with the
/// zero-padded series number exactly when the same sanitized type occurs
/// more than once in the study.  Empty-instance entries must have been
/// dropped before plan construction.
pub fn build_study_plan(study_folder: String, entries: &Vec<SeriesEntry>) -> (p: DownloadPlan)
    requires
        study_folder@.len() > 0,
        forall|i: int| 0 <= i < entries@.len() ==> (#[trigger] entries@[i]).instances@.len() > 0,
    ensures
        p.study_folder == study_folder,
        p.series@.len() == entries@.len(),
        forall|i: int|
            0 <= i < entries@.len() ==> (#[trigger] p.series@[i]).series_folder@
                == spec_series_folder_name(
                sanitized_types(entries@)[i],
                match entries@[i].series_number {
                    Some(n) => Some(n@),
                    None => None,
                },
                count_type(sanitized_types(entries@), sanitized_types(entries@)[i]),
            ) && views(p.series@[i].instances@) == views(entries@[i].instances@),
        plan_wf(&p),
{
    let mut sanitized: Vec<String> = Vec::new();
    let mut i: usize = 0;
    while i < entries.len()
        invariant
            i <= entries@.len(),
            views(sanitized@) == sanitized_types(entries@).subrange(0, i as int),
        decreases entries@.len() - i,
    {
        let ghost prev = sanitized@;
        sanitized.push(sanitize_segment(entries[i].series_type.as_str()));
        proof {
            assert(views(sanitized@) =~= views(prev).push(
                spec_sanitize(entries@[i as int].series_type@),
            ));
            assert(sanitized_types(entries@).subrange(0, i + 1 as int) =~= sanitized_types(
                entries@,
            ).subrange(0, i as int).push(sanitized_types(entries@)[i as int]));
        }
        i = i + 1;
    }
    proof {
        assert(sanitized_types(entries@).subrange(0, entries@.len() as int) =~= sanitized_types(
            entries@,
        ));
    }
    let mut series: Vec<SeriesDownloadPlan> = Vec::new();
    let mut k: usize = 0;
    while k < entries.len()
        invariant
            k <= entries@.len(),
            entries@.len() == sanitized@.len(),
            views(sanitized@) == sanitized_types(entries@),
            forall|i: int|
                0 <= i < entries@.len() ==> (#[trigger] entries@[i]).instances@.len() > 0,
            series@.len() == k,
            forall|i: int|
                0 <= i < k ==> (#[trigger] series@[i]).series_folder@ == spec_series_folder_name(
                    sanitized_types(entries@)[i],
                    match entries@[i].series_number {
                        Some(n) => Some(n@),
                        None => None,
                    },
                    count_type(sanitized_types(entries@), sanitized_types(entries@)[i]),
                ) && views(series@[i].instances@) == views(entries@[i].instances@)
                    && series@[i].series_folder@.len() > 0 && series@[i].instances@.len() > 0,
        decreases entries@.len() - k,
    {
        let count = count_eq(&sanitized, sanitized[k].as_str());
        let number: Option<&str> = match &entries[k].series_number {
            Some(n) => Some(n.as_str()),
            None => None,
        };
        let folder = generate_series_folder_name(sanitized[k].as_str(), number, count);
        proof {
            lemma_sanitize_segment_safe(entries@[k as int].series_type@);
        }
        let instances = clone_string_vec(&entries[k].instances);
        proof {
            assert(views(entries@[k as int].instances@).len() == entries@[k as int].instances@.len());
        }
        series.push(SeriesDownloadPlan { series_folder: folder, instances });
        proof {
            assert(sanitized_types(entries@)[k as int] == spec_sanitize(
                entries@[k as int].series_type@,
            ));
            assert(series@[k as int].series_folder@ == spec_series_folder_name(
                sanitized_types(entries@)[k as int],
                match entries@[k as int].series_number {
                    Some(n) => Some(n@),
                    None => None,
                },
                count_type(sanitized_types(entries@), sanitized_types(entries@)[k as int]),
            ));
            assert(views(series@[k as int].instances@) == views(entries@[k as int].instances@));
            assert(series@[k as int].series_folder@.len() > 0);
            assert(series@[k as int].instances@.len() > 0);
        }
        k = k + 1;
    }
    DownloadPlan { study_folder, series }
}

} // verus!
