//! Per-accession results and the status summarizer: every mutation of a
//! result record during accession processing is a function here, so the
//! folding of per-instance outcomes into per-series and per-accession
//! status is pinned down exactly.

use vstd::prelude::*;

use crate::retry::DownloadResult;
use crate::text::{dec_str, push_dec};

verus! {

/// Everything recorded while processing one accession.  Created empty,
/// mutated only by the task processing that accession, immutable once
/// returned for reporting.
pub struct ProcessResult {
    pub accession: String,
    pub status: String,
    pub reason: Vec<String>,
    pub downloaded_series: Vec<String>,
    pub matched_series: Vec<String>,
    pub failed_series: Vec<String>,
    pub converted_series: Vec<String>,
    pub conversion_failed: Vec<String>,
    /// Seconds since the Unix epoch at which processing began.
    pub timestamp: i64,
}

/// A fresh, empty result for one accession.
pub fn new_result(accession: String, timestamp: i64) -> (r: ProcessResult)
    ensures
        r.accession == accession,
        r.status@.len() == 0,
        r.reason@.len() == 0,
        r.downloaded_series@.len() == 0,
        r.matched_series@.len() == 0,
        r.failed_series@.len() == 0,
        r.converted_series@.len() == 0,
        r.conversion_failed@.len() == 0,
        r.timestamp == timestamp,
{
    ProcessResult {
        accession,
        status: String::new(),
        reason: Vec::new(),
        downloaded_series: Vec::new(),
        matched_series: Vec::new(),
        failed_series: Vec::new(),
        converted_series: Vec::new(),
        conversion_failed: Vec::new(),
        timestamp,
    }
}

/// How many outcomes are failures.
pub open spec fn count_failed(rs: Seq<DownloadResult>) -> nat
    decreases rs.len(),
{
    if rs.len() == 0 {
        0
    } else {
        count_failed(rs.drop_last()) + if rs.last() is Failed {
            1nat
        } else {
            0
        }
    }
}

fn count_failures(results: &Vec<DownloadResult>) -> (n: usize)
    ensures
        n as nat == count_failed(results@),
        n <= results@.len(),
{
    let mut n: usize = 0;
    let mut i: usize = 0;
    while i < results.len()
        invariant
            i <= results@.len(),
            n <= i,
            n as nat == count_failed(results@.subrange(0, i as int)),
        decreases results@.len() - i,
    {
        proof {
            assert(results@.subrange(0, i + 1 as int).drop_last() =~= results@.subrange(
                0,
                i as int,
            ));
        }
        if results[i].is_failure() {
            n = n + 1;
        }
        i = i + 1;
    }
    proof {
        assert(results@.subrange(0, results@.len() as int) =~= results@);
    }
    n
}

/// The accession status: `Success` if no reasons were recorded, `Partial`
/// if at least one series downloaded despite recorded reasons, `Failed`
/// if nothing downloaded.
pub open spec fn spec_status(downloaded: nat, reasons: nat) -> Seq<char> {
    if reasons == 0 {
        "Success"@
    } else if downloaded > 0 {
        "Partial"@
    } else {
        "Failed"@
    }
}

pub fn summarize_status(downloaded: &Vec<String>, reasons: &Vec<String>) -> (r: String)
    ensures
        r@ == spec_status(downloaded@.len(), reasons@.len()),
{
    if reasons.len() == 0 {
        "Success".to_owned()
    } else if downloaded.len() > 0 {
        "Partial".to_owned()
    } else {
        "Failed".to_owned()
    }
}

/// Marks the whole accession failed with one reason; everything else is
/// left as it was.
pub fn fail_with_reason(res: &mut ProcessResult, reason: String)
    ensures
        final(res).status@ == "Failed"@,
        final(res).reason@ == old(res).reason@.push(reason),
        final(res).accession == old(res).accession,
        final(res).downloaded_series == old(res).downloaded_series,
        final(res).matched_series == old(res).matched_series,
        final(res).failed_series == old(res).failed_series,
        final(res).converted_series == old(res).converted_series,
        final(res).conversion_failed == old(res).conversion_failed,
        final(res).timestamp == old(res).timestamp,
{
    res.status = "Failed".to_owned();
    res.reason.push(reason);
}

/// An accession that resolves to no study at all is failed immediately
/// with the not-found reason, independent of every other rule.
pub fn mark_no_studies(res: &mut ProcessResult)
    ensures
        final(res).status@ == "Failed"@,
        final(res).reason@.len() == old(res).reason@.len() + 1,
        final(res).reason@ == old(res).reason@.push(final(res).reason@.last()),
        final(res).reason@.last()@ == "No studies found"@,
        final(res).accession == old(res).accession,
        final(res).downloaded_series == old(res).downloaded_series,
        final(res).matched_series == old(res).matched_series,
        final(res).failed_series == old(res).failed_series,
        final(res).converted_series == old(res).converted_series,
        final(res).conversion_failed == old(res).conversion_failed,
        final(res).timestamp == old(res).timestamp,
{
    fail_with_reason(res, "No studies found".to_owned());
}

/// Records one reason without touching the status.
pub fn push_reason(res: &mut ProcessResult, message: String)
    ensures
        final(res).reason@ == old(res).reason@.push(message),
        final(res).status == old(res).status,
        final(res).accession == old(res).accession,
        final(res).downloaded_series == old(res).downloaded_series,
        final(res).matched_series == old(res).matched_series,
        final(res).failed_series == old(res).failed_series,
        final(res).converted_series == old(res).converted_series,
        final(res).conversion_failed == old(res).conversion_failed,
        final(res).timestamp == old(res).timestamp,
{
    res.reason.push(message);
}

/// Records a series whose description or classification matched.
pub fn record_matched_series(res: &mut ProcessResult, series: &String)
    ensures
        final(res).matched_series@ == old(res).matched_series@.push(*series),
        final(res).status == old(res).status,
        final(res).reason == old(res).reason,
        final(res).accession == old(res).accession,
        final(res).downloaded_series == old(res).downloaded_series,
        final(res).failed_series == old(res).failed_series,
        final(res).converted_series == old(res).converted_series,
        final(res).conversion_failed == old(res).conversion_failed,
        final(res).timestamp == old(res).timestamp,
{
    res.matched_series.push(series.clone());
}

/// Records a series whose download finished.
pub fn record_downloaded_series(res: &mut ProcessResult, series: &String)
    ensures
        final(res).downloaded_series@ == old(res).downloaded_series@.push(*series),
        final(res).status == old(res).status,
        final(res).reason == old(res).reason,
        final(res).accession == old(res).accession,
        final(res).matched_series == old(res).matched_series,
        final(res).failed_series == old(res).failed_series,
        final(res).converted_series == old(res).converted_series,
        final(res).conversion_failed == old(res).conversion_failed,
        final(res).timestamp == old(res).timestamp,
{
    res.downloaded_series.push(series.clone());
}

/// Records a series whose download failed outright.
pub fn record_failed_series(res: &mut ProcessResult, series: &String)
    ensures
        final(res).failed_series@ == old(res).failed_series@.push(*series),
        final(res).status == old(res).status,
        final(res).reason == old(res).reason,
        final(res).accession == old(res).accession,
        final(res).matched_series == old(res).matched_series,
        final(res).downloaded_series == old(res).downloaded_series,
        final(res).converted_series == old(res).converted_series,
        final(res).conversion_failed == old(res).conversion_failed,
        final(res).timestamp == old(res).timestamp,
{
    res.failed_series.push(series.clone());
}

/// Folds the per-instance outcomes of one series into the result.
///
/// No failed instance: the series counts as matched and downloaded.
/// Some but not all failed: still matched and downloaded, with one
/// reason saying how many of how many instances failed.  All failed
/// (and at least one instance): the series is failed, with a reason.
/// The returned flag says whether the series counts as downloaded.
pub fn record_series_outcome(
    res: &mut ProcessResult,
    series_folder: &String,
    results: &Vec<DownloadResult>,
) -> (ok: bool)
    ensures
        final(res).accession == old(res).accession,
        final(res).status == old(res).status,
        final(res).converted_series == old(res).converted_series,
        final(res).conversion_failed == old(res).conversion_failed,
        final(res).timestamp == old(res).timestamp,
        count_failed(results@) == 0 ==> {
            &&& ok
            &&& final(res).matched_series@ == old(res).matched_series@.push(*series_folder)
            &&& final(res).downloaded_series@ == old(res).downloaded_series@.push(*series_folder)
            &&& final(res).failed_series == old(res).failed_series
            &&& final(res).reason == old(res).reason
        },
        0 < count_failed(results@) < results@.len() ==> {
            &&& ok
            &&& final(res).matched_series@ == old(res).matched_series@.push(*series_folder)
            &&& final(res).downloaded_series@ == old(res).downloaded_series@.push(*series_folder)
            &&& final(res).failed_series == old(res).failed_series
            &&& final(res).reason@ == old(res).reason@.push(final(res).reason@.last())
            &&& final(res).reason@.last()@ == dec_str(count_failed(results@))
                + " failed out of "@ + dec_str(results@.len()) + " instances for "@
                + series_folder@
        },
        results@.len() > 0 && count_failed(results@) == results@.len() ==> {
            &&& !ok
            &&& final(res).matched_series == old(res).matched_series
            &&& final(res).downloaded_series == old(res).downloaded_series
            &&& final(res).failed_series@ == old(res).failed_series@.push(*series_folder)
            &&& final(res).reason@ == old(res).reason@.push(final(res).reason@.last())
            &&& final(res).reason@.last()@ == "All instances failed for "@ + series_folder@
        },
{
    let failures = count_failures(results);
    if failures == 0 {
        res.matched_series.push(series_folder.clone());
        res.downloaded_series.push(series_folder.clone());
        true
    } else if failures < results.len() {
        res.matched_series.push(series_folder.clone());
        res.downloaded_series.push(series_folder.clone());
        let mut m = String::new();
        push_dec(&mut m, failures as u64);
        m.append(" failed out of ");
        push_dec(&mut m, results.len() as u64);
        m.append(" instances for ");
        m.append(series_folder.as_str());
        res.reason.push(m);
        true
    } else {
        res.failed_series.push(series_folder.clone());
        let mut m = "All instances failed for ".to_owned();
        m.append(series_folder.as_str());
        res.reason.push(m);
        false
    }
}

/// Records a series that was converted to the secondary format.
pub fn record_conversion_success(res: &mut ProcessResult, series: &String)
    ensures
        final(res).converted_series@ == old(res).converted_series@.push(*series),
        final(res).status == old(res).status,
        final(res).reason == old(res).reason,
        final(res).accession == old(res).accession,
        final(res).matched_series == old(res).matched_series,
        final(res).downloaded_series == old(res).downloaded_series,
        final(res).failed_series == old(res).failed_series,
        final(res).conversion_failed == old(res).conversion_failed,
        final(res).timestamp == old(res).timestamp,
{
    res.converted_series.push(series.clone());
}

/// Records a conversion run that finished without producing output
/// files; the converter's message, when there is one, becomes a reason.
pub fn record_conversion_no_output(res: &mut ProcessResult, series: &String, err: Option<String>)
    ensures
        final(res).conversion_failed@ == old(res).conversion_failed@.push(*series),
        match err {
            Some(e) => final(res).reason@ == old(res).reason@.push(final(res).reason@.last())
                && final(res).reason@.last()@ == "Conversion produced no output for "@ + series@
                + ": "@ + e@,
            None => final(res).reason == old(res).reason,
        },
        final(res).status == old(res).status,
        final(res).accession == old(res).accession,
        final(res).matched_series == old(res).matched_series,
        final(res).downloaded_series == old(res).downloaded_series,
        final(res).failed_series == old(res).failed_series,
        final(res).converted_series == old(res).converted_series,
        final(res).timestamp == old(res).timestamp,
{
    res.conversion_failed.push(series.clone());
    match err {
        Some(e) => {
            let mut m = "Conversion produced no output for ".to_owned();
            m.append(series.as_str());
            m.append(": ");
            m.append(e.as_str());
            res.reason.push(m);
        },
        None => {},
    }
}

/// Records a conversion run that failed outright.
pub fn record_conversion_error(res: &mut ProcessResult, series: &String, err: &String)
    ensures
        final(res).conversion_failed@ == old(res).conversion_failed@.push(*series),
        final(res).reason@ == old(res).reason@.push(final(res).reason@.last()),
        final(res).reason@.last()@ == "Conversion failed for "@ + series@ + ": "@ + err@,
        final(res).status == old(res).status,
        final(res).accession == old(res).accession,
        final(res).matched_series == old(res).matched_series,
        final(res).downloaded_series == old(res).downloaded_series,
        final(res).failed_series == old(res).failed_series,
        final(res).converted_series == old(res).converted_series,
        final(res).timestamp == old(res).timestamp,
{
    res.conversion_failed.push(series.clone());
    let mut m = "Conversion failed for ".to_owned();
    m.append(series.as_str());
    m.append(": ");
    m.append(err.as_str());
    res.reason.push(m);
}

/// Records a series whose destination directory could not be created;
/// the caller supplies the formatted message.
pub fn record_dir_failure(res: &mut ProcessResult, series: &String, message: String)
    ensures
        final(res).failed_series@ == old(res).failed_series@.push(*series),
        final(res).reason@ == old(res).reason@.push(message),
        final(res).status == old(res).status,
        final(res).accession == old(res).accession,
        final(res).matched_series == old(res).matched_series,
        final(res).downloaded_series == old(res).downloaded_series,
        final(res).converted_series == old(res).converted_series,
        final(res).conversion_failed == old(res).conversion_failed,
        final(res).timestamp == old(res).timestamp,
{
    res.failed_series.push(series.clone());
    res.reason.push(message);
}

/// Sets the final status from what was recorded: the usual summary,
/// except that an accession where nothing at all succeeded is never
/// `Success`.
pub fn finalize_status(res: &mut ProcessResult, any_success: bool)
    ensures
        final(res).status@ == if old(res).reason@.len() == 0 && !any_success {
            "Failed"@
        } else {
            spec_status(old(res).downloaded_series@.len(), old(res).reason@.len())
        },
        final(res).reason == old(res).reason,
        final(res).accession == old(res).accession,
        final(res).matched_series == old(res).matched_series,
        final(res).downloaded_series == old(res).downloaded_series,
        final(res).failed_series == old(res).failed_series,
        final(res).converted_series == old(res).converted_series,
        final(res).conversion_failed == old(res).conversion_failed,
        final(res).timestamp == old(res).timestamp,
{
    if res.reason.len() == 0 && !any_success {
        res.status = "Failed".to_owned();
    } else {
        res.status = summarize_status(&res.downloaded_series, &res.reason);
    }
}

/// The reasons joined into one field, separated by semicolons.
pub open spec fn join_semicolon(l: Seq<String>) -> Seq<char>
    decreases l.len(),
{
    if l.len() == 0 {
        Seq::empty()
    } else if l.len() == 1 {
        l[0]@
    } else {
        join_semicolon(l.drop_last()) + "; "@ + l.last()@
    }
}

fn join_reasons(l: &Vec<String>) -> (r: String)
    ensures
        r@ == join_semicolon(l@),
{
    let mut out = String::new();
    let mut i: usize = 0;
    while i < l.len()
        invariant
            i <= l@.len(),
            out@ == join_semicolon(l@.subrange(0, i as int)),
        decreases l@.len() - i,
    {
        proof {
            assert(l@.subrange(0, i + 1 as int).drop_last() =~= l@.subrange(0, i as int));
            assert(l@.subrange(0, i + 1 as int).last() == l@[i as int]);
        }
        if i > 0 {
            out.append("; ");
        }
        out.append(l[i].as_str());
        i = i + 1;
    }
    proof {
        assert(l@.subrange(0, l@.len() as int) =~= l@);
    }
    out
}

fn dec_string(n: u64) -> (r: String)
    ensures
        r@ == dec_str(n as nat),
{
    let mut out = String::new();
    push_dec(&mut out, n);
    proof {
        assert(Seq::<char>::empty() + dec_str(n as nat) =~= dec_str(n as nat));
    }
    out
}

/// One tabular report row for an accession: identifier, status, the
/// reasons joined with semicolons, the three series counts, and the
/// caller-formatted timestamp.
pub fn csv_report_row(res: &ProcessResult, timestamp_text: String) -> (row: Vec<String>)
    ensures
        row@.len() == 7,
        row@[0]@ == res.accession@,
        row@[1]@ == res.status@,
        row@[2]@ == join_semicolon(res.reason@),
        row@[3]@ == dec_str(res.downloaded_series@.len()),
        row@[4]@ == dec_str(res.matched_series@.len()),
        row@[5]@ == dec_str(res.failed_series@.len()),
        row@[6]@ == timestamp_text@,
{
    let mut row: Vec<String> = Vec::new();
    row.push(res.accession.clone());
    row.push(res.status.clone());
    row.push(join_reasons(&res.reason));
    row.push(dec_string(res.downloaded_series.len() as u64));
    row.push(dec_string(res.matched_series.len() as u64));
    row.push(dec_string(res.failed_series.len() as u64));
    row.push(timestamp_text);
    row
}

} // verus!
