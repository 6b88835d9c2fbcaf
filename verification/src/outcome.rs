//! Per-file outcome classification and the aggregate tally.

use crate::filter::evaluate;
use crate::filter::spec_evaluate;
use crate::filter::Decision;
use crate::filter::FilterOption;
use crate::geometry::Resolution;
use vstd::prelude::*;
use vstd::string::*;

verus! {

/// The failure text reported when a filter-only ratio rule misses.
pub open spec fn spec_ratio_mismatch_msg() -> Seq<char> {
    "Image ratio does not match the filter ratio"@
}

/// The message a hard ratio mismatch is reported with.
pub fn ratio_mismatch_message() -> (r: String)
    ensures
        r@ == spec_ratio_mismatch_msg(),
{
    String::from_str("Image ratio does not match the filter ratio")
}

/// The failure text reported when the codec cannot save a result.
pub open spec fn spec_save_error_msg() -> Seq<char> {
    "Error occurred in saving result"@
}

/// The message a save failure is reported with; the codec's own error text
/// is not propagated.
pub fn save_error_message() -> (r: String)
    ensures
        r@ == spec_save_error_msg(),
{
    String::from_str("Error occurred in saving result")
}

/// The tagged result of processing one discovered file. Exactly one is
/// produced per file.
#[derive(Debug)]
pub enum FileOutcome {
    /// Filtered out: not an error; contributes to neither tally, and the
    /// sink is never called for it.
    Skipped,
    /// Saved: the file's name and its decoded (pre-crop) dimensions.
    Succeeded(String, Resolution),
    /// Failed: the file's name and a description of what went wrong.
    Failed(String, String),
}

/// What one file's task should do after the decode step and before any
/// save: fail outright, skip, or save (with an optional crop first).
#[derive(Debug)]
pub enum FilePlan {
    /// The outcome is already a failure with this message.
    Fail(String),
    /// Filtered out: no save and no outcome.
    Skip,
    /// Save the image: its decoded dimensions, and the size to crop to
    /// first, if any.
    Save(Resolution, Option<Resolution>),
}

/// The plan that a decode result demands under a configuration: a decode
/// error fails with the codec's message; otherwise the evaluator's decision
/// maps to skip, hard failure, or a save with or without a crop.
pub open spec fn spec_plan_matches(
    p: FilePlan,
    decode: Result<Resolution, String>,
    config: FilterOption,
) -> bool {
    match decode {
        Result::Err(m) => p matches FilePlan::Fail(msg) && msg@ == m@,
        Result::Ok(dims) => match spec_evaluate(dims, config) {
            Decision::Reject => p is Skip,
            Decision::RatioMismatch => p matches FilePlan::Fail(msg) && msg@
                == spec_ratio_mismatch_msg(),
            Decision::AcceptAsIs => p == FilePlan::Save(dims, None::<Resolution>),
            Decision::AcceptWithCrop(size) => p == FilePlan::Save(dims, Some(size)),
        },
    }
}

/// Turn one file's decode result into its plan. Decode failure becomes an
/// immediate failure tagged with the codec's message; decoded dimensions go
/// through the evaluator.
pub fn plan_file(decode: &Result<Resolution, String>, config: &FilterOption) -> (p: FilePlan)
    requires
        config.wf(),
        *decode matches Result::Ok(dims) ==> (config.ratio is Some ==> dims.width >= 1
            && dims.height >= 1),
    ensures
        spec_plan_matches(p, *decode, *config),
{
    match decode {
        Err(m) => FilePlan::Fail(m.clone()),
        Ok(dims) => match evaluate(*dims, config) {
            Decision::Reject => FilePlan::Skip,
            Decision::RatioMismatch => FilePlan::Fail(ratio_mismatch_message()),
            Decision::AcceptAsIs => FilePlan::Save(*dims, None),
            Decision::AcceptWithCrop(size) => FilePlan::Save(*dims, Some(size)),
        },
    }
}

/// Classify the end of one accepted file from the codec's save result:
/// success carries the pre-crop decoded dimensions; failure carries the
/// fixed save error message.
pub fn finish_file(filename: String, dims: Resolution, save: &Result<(), String>) -> (o:
    FileOutcome)
    ensures
        save is Ok ==> (o matches FileOutcome::Succeeded(n, r) && n@ == filename@ && r == dims),
        save is Err ==> (o matches FileOutcome::Failed(n, m) && n@ == filename@ && m@
            == spec_save_error_msg()),
{
    match save {
        Ok(_) => FileOutcome::Succeeded(filename, dims),
        Err(_) => FileOutcome::Failed(filename, save_error_message()),
    }
}

/// Running tally of outcomes: how many files succeeded, and the ordered
/// list of (filename, error message) pairs for the failures. Skipped
/// outcomes touch neither.
pub struct AggregateReport {
    pub success_num: u64,
    pub failed_tasks: Vec<(String, String)>,
}

/// The views of a sequence of (filename, error message) pairs, in order.
pub open spec fn spec_pairs_view(s: Seq<(String, String)>) -> Seq<(Seq<char>, Seq<char>)>
    decreases s.len(),
{
    if s.len() == 0 {
        Seq::<(Seq<char>, Seq<char>)>::empty()
    } else {
        spec_pairs_view(s.drop_last()).push((s.last().0@, s.last().1@))
    }
}

/// Viewing pairs commutes with appending one pair.
pub proof fn lemma_pairs_view_push(s: Seq<(String, String)>, x: (String, String))
    ensures
        spec_pairs_view(s.push(x)) == spec_pairs_view(s).push((x.0@, x.1@)),
{
    assert(s.push(x).drop_last() =~= s);
}

impl AggregateReport {
    /// The failure pairs of the report, as views.
    pub open spec fn failures(self) -> Seq<(Seq<char>, Seq<char>)> {
        spec_pairs_view(self.failed_tasks@)
    }

    /// A fresh, empty report.
    pub fn new() -> (r: AggregateReport)
        ensures
            r.success_num == 0,
            r.failed_tasks@.len() == 0,
    {
        AggregateReport { success_num: 0, failed_tasks: Vec::new() }
    }

    /// Fold one outcome into the tally: a success bumps the counter, a
    /// failure appends its pair, a skip changes nothing.
    pub fn accept(&mut self, outcome: FileOutcome)
        requires
            old(self).success_num < u64::MAX,
        ensures
            match outcome {
                FileOutcome::Skipped => *final(self) == *old(self),
                FileOutcome::Succeeded(n, r) => final(self).success_num == old(self).success_num
                    + 1 && final(self).failed_tasks@ == old(self).failed_tasks@,
                FileOutcome::Failed(n, m) => final(self).success_num == old(self).success_num
                    && final(self).failed_tasks@ == old(self).failed_tasks@.push((n, m)),
            },
    {
        match outcome {
            FileOutcome::Skipped => {},
            FileOutcome::Succeeded(_, _) => {
                self.success_num = self.success_num + 1;
            },
            FileOutcome::Failed(n, m) => {
                self.failed_tasks.push((n, m));
            },
        }
    }
}

} // verus!
