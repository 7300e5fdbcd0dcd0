//! Decisions of the stored-folder consistency check: routing diffusion
//! files between the `DWI0` and `DWI1000` folders by b-value, and
//! detecting a bare `ADC` folder that duplicates the numbered ones.
//! Directory walking and the file moves themselves stay outside.

use vstd::prelude::*;

use crate::text::{contains_str, dec_str, push_dec, spec_starts_with, str_eq, str_starts_with};

verus! {

/// Type of action to perform on a file.
#[derive(Debug, Clone, Copy, PartialEq, Eq, Structural)]
pub enum ActionType {
    Move,
    Delete,
}

/// Which check produced a result.
#[derive(Debug, Clone, Copy)]
pub enum CheckType {
    DWI,
    ADC,
}

/// A single file action: a move with a target, or a deletion.
#[derive(Debug, Clone)]
pub struct FileAction {
    pub source_path: String,
    pub action_type: ActionType,
    pub target_path: Option<String>,
    pub reason: String,
}

/// Result of checking a single series folder.
#[derive(Debug, Clone)]
pub struct SeriesCheckResult {
    pub series_folder: String,
    pub check_type: CheckType,
    pub files_checked: usize,
    pub actions: Vec<FileAction>,
}

/// Result of checking a single study folder.
#[derive(Debug, Clone)]
pub struct StudyCheckResult {
    pub study_folder: String,
    pub series_results: Vec<SeriesCheckResult>,
    pub total_moves: usize,
    pub total_deletes: usize,
}

/// Summary statistics for a whole check run.
#[derive(Debug, Clone)]
pub struct CheckSummary {
    pub total_studies: usize,
    pub total_series_checked: usize,
    pub total_files_checked: usize,
    pub total_moves: usize,
    pub total_deletes: usize,
    pub dwi_fixes: usize,
    pub adc_duplicates_removed: usize,
}

impl CheckSummary {
    /// A summary with nothing counted yet.
    pub fn new() -> (r: Self)
        ensures
            r.total_studies == 0,
            r.total_series_checked == 0,
            r.total_files_checked == 0,
            r.total_moves == 0,
            r.total_deletes == 0,
            r.dwi_fixes == 0,
            r.adc_duplicates_removed == 0,
    {
        CheckSummary {
            total_studies: 0,
            total_series_checked: 0,
            total_files_checked: 0,
            total_moves: 0,
            total_deletes: 0,
            dwi_fixes: 0,
            adc_duplicates_removed: 0,
        }
    }
}

/// Whether a folder name takes part in the diffusion check.
pub fn is_dwi_folder_name(name: &str) -> (r: bool)
    ensures
        r == (name@ == "DWI0"@ || name@ == "DWI1000"@),
{
    str_eq(name, "DWI0") || str_eq(name, "DWI1000")
}

/// Whether a folder name takes part in the duplicate check: the bare
/// `ADC` folder or a numbered `ADC_` one.
pub fn is_adc_folder_name(name: &str) -> (r: bool)
    ensures
        r == (name@ == "ADC"@ || spec_starts_with(name@, "ADC_"@)),
{
    str_eq(name, "ADC") || str_starts_with(name, "ADC_")
}

/// Where a diffusion file belongs, by its b-value: a missing or zero
/// b-value belongs in `DWI0`, a b-value of 1000 in `DWI1000`.
pub open spec fn spec_dwi_move_target(folder_is_dwi0: bool, bvalue: Option<u32>) -> Option<
    Seq<char>,
> {
    if folder_is_dwi0 {
        if bvalue == Some(1000u32) {
            Some("DWI1000"@)
        } else {
            None
        }
    } else {
        if bvalue is None || bvalue == Some(0u32) {
            Some("DWI0"@)
        } else {
            None
        }
    }
}

/// Decides whether a file is misplaced, and names the folder it should
/// move to.  A file in `DWI0` moves only when its b-value is 1000; a
/// file in `DWI1000` moves only when its b-value is missing or zero;
/// any other b-value stays put.
pub fn dwi_move_target(folder_is_dwi0: bool, bvalue: Option<u32>) -> (r: Option<String>)
    ensures
        crate::config::opt_view(r) == spec_dwi_move_target(folder_is_dwi0, bvalue),
{
    if folder_is_dwi0 {
        match bvalue {
            Some(v) => if v == 1000 {
                Some("DWI1000".to_owned())
            } else {
                None
            },
            None => None,
        }
    } else {
        match bvalue {
            Some(v) => if v == 0 {
                Some("DWI0".to_owned())
            } else {
                None
            },
            None => Some("DWI0".to_owned()),
        }
    }
}

/// The reason text recorded for one diffusion move: the b-value (or a
/// mark for a missing one) and the folder it belongs in.
pub fn dwi_move_reason(bvalue: Option<u32>, target: &str) -> (r: String)
    ensures
        r@ == "b-value="@ + (match bvalue {
            Some(v) => dec_str(v as nat),
            None => "0/None"@,
        }) + " should be in "@ + target@,
{
    let mut m = "b-value=".to_owned();
    match bvalue {
        Some(v) => push_dec(&mut m, v as u64),
        None => m.append("0/None"),
    }
    m.append(" should be in ");
    m.append(target);
    m
}

/// Whether every identifier of the bare folder also appears among the
/// identifiers of the numbered folders: then the bare folder holds
/// nothing of its own and is a duplicate.
pub open spec fn spec_all_contained(pure_uids: Seq<String>, numbered_uids: Seq<String>) -> bool {
    forall|i: int|
        0 <= i < pure_uids.len() ==> contains_str(numbered_uids, #[trigger] pure_uids[i]@)
}

pub fn all_contained(pure_uids: &Vec<String>, numbered_uids: &Vec<String>) -> (r: bool)
    ensures
        r == spec_all_contained(pure_uids@, numbered_uids@),
{
    let mut i: usize = 0;
    while i < pure_uids.len()
        invariant
            i <= pure_uids@.len(),
            forall|j: int| 0 <= j < i ==> contains_str(numbered_uids@, #[trigger] pure_uids@[j]@),
        decreases pure_uids@.len() - i,
    {
        if !crate::text::vec_contains_str(numbered_uids, pure_uids[i].as_str()) {
            return false;
        }
        i = i + 1;
    }
    true
}

/// The reason text recorded for deleting a duplicated file: how many
/// identifiers were all found elsewhere, and in which folders.
pub fn adc_delete_reason(uid_count: usize, folders_text: &str) -> (r: String)
    ensures
        r@ == "Duplicate: all "@ + dec_str(uid_count as nat)
            + " UIDs exist in numbered ADC folders ("@ + folders_text@ + ")"@,
{
    let mut m = "Duplicate: all ".to_owned();
    push_dec(&mut m, uid_count as u64);
    m.append(" UIDs exist in numbered ADC folders (");
    m.append(folders_text);
    m.append(")");
    m
}

/// How many of the actions are moves.
pub open spec fn count_moves(actions: Seq<FileAction>) -> nat
    decreases actions.len(),
{
    if actions.len() == 0 {
        0
    } else {
        count_moves(actions.drop_last()) + if actions.last().action_type is Move {
            1nat
        } else {
            0
        }
    }
}

/// How many of the actions are deletions.
pub open spec fn count_deletes(actions: Seq<FileAction>) -> nat
    decreases actions.len(),
{
    if actions.len() == 0 {
        0
    } else {
        count_deletes(actions.drop_last()) + if actions.last().action_type is Delete {
            1nat
        } else {
            0
        }
    }
}

/// Counts the moves and deletions in an action list, as the executor
/// tallies them.
pub fn count_actions(actions: &Vec<FileAction>) -> (r: (usize, usize))
    ensures
        r.0 as nat == count_moves(actions@),
        r.1 as nat == count_deletes(actions@),
        r.0 + r.1 <= actions@.len(),
{
    let mut moves: usize = 0;
    let mut deletes: usize = 0;
    let mut i: usize = 0;
    while i < actions.len()
        invariant
            i <= actions@.len(),
            moves + deletes <= i,
            moves as nat == count_moves(actions@.subrange(0, i as int)),
            deletes as nat == count_deletes(actions@.subrange(0, i as int)),
        decreases actions@.len() - i,
    {
        proof {
            assert(actions@.subrange(0, i + 1 as int).drop_last() =~= actions@.subrange(
                0,
                i as int,
            ));
            assert(actions@.subrange(0, i + 1 as int).last() == actions@[i as int]);
        }
        match actions[i].action_type {
            ActionType::Move => {
                moves = moves + 1;
            },
            ActionType::Delete => {
                deletes = deletes + 1;
            },
        }
        i = i + 1;
    }
    proof {
        assert(actions@.subrange(0, actions@.len() as int) =~= actions@);
    }
    (moves, deletes)
}

} // verus!
