//! Reading the accession list: format dispatch on the file extension,
//! the first CSV column with blanks dropped, and JSON arrays of strings
//! or of objects carrying one of the accession key aliases.

use vstd::prelude::*;

use crate::config::views;
use crate::gateway::{obj_get, spec_as_str, JsonValue};
use crate::text::{spec_lower, spec_trim, str_eq, to_ascii_lower, trim_str};

verus! {

/// The recognized accession-list formats.
#[derive(Clone, Copy, Debug, PartialEq, Eq, Structural)]
pub enum InputFormat {
    Csv,
    Json,
    Unsupported,
}

/// Dispatches on a file extension, compared case-insensitively.
pub fn input_format(extension: &str) -> (r: InputFormat)
    ensures
        r is Csv <==> spec_lower(extension@) == "csv"@,
        r is Json <==> spec_lower(extension@) == "json"@,
{
    proof {
        reveal_strlit("csv");
        reveal_strlit("json");
        assert("csv"@.len() == 3);
        assert("json"@.len() == 4);
        assert("csv"@ != "json"@);
    }
    let low = to_ascii_lower(extension);
    if str_eq(low.as_str(), "csv") {
        InputFormat::Csv
    } else if str_eq(low.as_str(), "json") {
        InputFormat::Json
    } else {
        InputFormat::Unsupported
    }
}

/// The data rows of a comma-separated file: every record after the
/// header row, each a list of fields.
pub uninterp spec fn csv_data_rows_of(data: Seq<u8>) -> Seq<Seq<Seq<char>>>;

/// Whether the bytes parse as well-formed comma-separated records: like
/// the parse itself, a function of the bytes alone.
pub uninterp spec fn csv_rows_ok_of(data: Seq<u8>) -> bool;

/// Relies on csv's `Reader::from_reader` over in-memory bytes with its
/// default configuration: the first record is a header and is not
/// returned; `records` yields the remaining rows in order, and succeeds
/// or fails deterministically in the bytes.  A malformed row gives the
/// error text.
#[verifier::external_body]
fn csv_data_rows(data: &Vec<u8>) -> (r: Result<Vec<Vec<String>>, String>)
    ensures
        r is Ok <==> csv_rows_ok_of(data@),
        r is Ok ==> views_of_rows(r->Ok_0@) == csv_data_rows_of(data@),
{
    let mut rdr = csv::Reader::from_reader(data.as_slice());
    let mut rows: Vec<Vec<String>> = Vec::new();
    for rec in rdr.records() {
        match rec {
            Ok(record) => rows.push(record.iter().map(|f| f.to_string()).collect()),
            Err(e) => return Err(e.to_string()),
        }
    }
    Ok(rows)
}

/// The views of a list of rows of strings.
pub open spec fn views_of_rows(rows: Seq<Vec<String>>) -> Seq<Seq<Seq<char>>> {
    rows.map_values(|row: Vec<String>| views(row@))
}

/// The accessions of the data rows: the trimmed first field of each row
/// that has one, with blanks dropped.
pub open spec fn csv_accessions(rows: Seq<Seq<Seq<char>>>) -> Seq<Seq<char>>
    decreases rows.len(),
{
    if rows.len() == 0 {
        Seq::empty()
    } else {
        let init = csv_accessions(rows.drop_last());
        let row = rows.last();
        if row.len() > 0 && spec_trim(row[0]).len() > 0 {
            init.push(spec_trim(row[0]))
        } else {
            init
        }
    }
}

/// Collects accessions from parsed CSV rows: the trimmed first column,
/// blanks dropped.
pub fn accessions_from_rows(rows: &Vec<Vec<String>>) -> (r: Vec<String>)
    ensures
        views(r@) == csv_accessions(views_of_rows(rows@)),
{
    let ghost all = views_of_rows(rows@);
    let mut out: Vec<String> = Vec::new();
    let mut i: usize = 0;
    while i < rows.len()
        invariant
            i <= rows@.len(),
            all == views_of_rows(rows@),
            views(out@) == csv_accessions(all.subrange(0, i as int)),
        decreases rows@.len() - i,
    {
        proof {
            assert(all.subrange(0, i + 1 as int).drop_last() =~= all.subrange(0, i as int));
            assert(all.subrange(0, i + 1 as int).last() == all[i as int]);
            assert(all[i as int] == views(rows@[i as int]@));
        }
        let row = &rows[i];
        if row.len() > 0 {
            let t = trim_str(row[0].as_str());
            proof {
                assert(views(rows@[i as int]@)[0] == rows@[i as int]@[0]@);
            }
            if !t.as_str().is_empty() {
                let ghost prev = out@;
                out.push(t);
                proof {
                    assert(views(out@) =~= views(prev).push(out@.last()@));
                }
            }
        }
        i = i + 1;
    }
    proof {
        assert(all.subrange(0, all.len() as int) =~= all);
    }
    out
}

/// Reads the accession list from the bytes of a comma-separated file:
/// it succeeds exactly on well-formed input, with the trimmed first
/// column of the data rows, blanks dropped.
pub fn parse_accessions_csv(data: &Vec<u8>) -> (r: Result<Vec<String>, String>)
    ensures
        r is Ok <==> csv_rows_ok_of(data@),
        r is Ok ==> views(r->Ok_0@) == csv_accessions(csv_data_rows_of(data@)),
{
    match csv_data_rows(data) {
        Ok(rows) => Ok(accessions_from_rows(&rows)),
        Err(e) => Err(e),
    }
}

/// The accession carried by one list item: a plain string itself, or the
/// first of the `accession`, `AccessionNumber`, `acc` fields of an
/// object, when it is a string.
pub open spec fn accession_of_item(v: JsonValue) -> Option<Seq<char>> {
    match spec_as_str(v) {
        Some(s) => Some(s),
        None => match v {
            JsonValue::Obj(fields) => match key_str(fields@, "accession"@) {
                Some(s) => Some(s),
                None => match key_str(fields@, "AccessionNumber"@) {
                    Some(s) => Some(s),
                    None => key_str(fields@, "acc"@),
                },
            },
            _ => None,
        },
    }
}

/// A string field of an object, by name.
pub open spec fn key_str(fields: Seq<(String, JsonValue)>, key: Seq<char>) -> Option<Seq<char>> {
    match obj_get(fields, key) {
        Some(x) => spec_as_str(x),
        None => None,
    }
}

/// The accessions of a JSON array, in order, items without one dropped.
pub open spec fn json_accessions(items: Seq<JsonValue>) -> Seq<Seq<char>>
    decreases items.len(),
{
    if items.len() == 0 {
        Seq::empty()
    } else {
        let init = json_accessions(items.drop_last());
        match accession_of_item(items.last()) {
            Some(s) => init.push(s),
            None => init,
        }
    }
}

fn item_accession(v: &JsonValue) -> (r: Option<String>)
    ensures
        crate::config::opt_view(r) == accession_of_item(*v),
{
    match crate::gateway::json_as_str(v) {
        Some(s) => Some(s.clone()),
        None => {
            match v {
                JsonValue::Obj(_) => {
                    match string_field(v, "accession") {
                        Some(s) => Some(s),
                        None => match string_field(v, "AccessionNumber") {
                            Some(s) => Some(s),
                            None => string_field(v, "acc"),
                        },
                    }
                },
                _ => None,
            }
        },
    }
}

fn string_field(v: &JsonValue, key: &str) -> (r: Option<String>)
    requires
        *v is Obj,
    ensures
        crate::config::opt_view(r) == key_str(v->Obj_0@, key@),
{
    match crate::gateway::json_get(v, key) {
        Some(x) => match crate::gateway::json_as_str(x) {
            Some(s) => Some(s.clone()),
            None => None,
        },
        None => None,
    }
}

/// Reads the accession list from a parsed JSON document.  The root must
/// be an array; each element supplies an accession as a plain string or
/// through one of the object key aliases.
pub fn accessions_from_json(v: &JsonValue) -> (r: Result<Vec<String>, String>)
    ensures
        r is Ok <==> *v is Arr,
        *v is Arr ==> views(r->Ok_0@) == json_accessions(v->Arr_0@),
        !(*v is Arr) ==> r->Err_0@ == "JSON root must be an array"@,
{
    match v {
        JsonValue::Arr(items) => {
            let mut out: Vec<String> = Vec::new();
            let mut i: usize = 0;
            while i < items.len()
                invariant
                    i <= items@.len(),
                    views(out@) == json_accessions(items@.subrange(0, i as int)),
                decreases items@.len() - i,
            {
                proof {
                    assert(items@.subrange(0, i + 1 as int).drop_last() =~= items@.subrange(
                        0,
                        i as int,
                    ));
                    assert(items@.subrange(0, i + 1 as int).last() == items@[i as int]);
                }
                match item_accession(&items[i]) {
                    Some(s) => {
                        let ghost prev = out@;
                        out.push(s);
                        proof {
                            assert(views(out@) =~= views(prev).push(out@.last()@));
                        }
                    },
                    None => {},
                }
                i = i + 1;
            }
            proof {
                assert(items@.subrange(0, items@.len() as int) =~= items@);
            }
            Ok(out)
        },
        _ => Err("JSON root must be an array".to_owned()),
    }
}

} // verus!
