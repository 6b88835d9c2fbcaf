//! The orchestration model: one recorded file per discovered path, each
//! contributing exactly one disposition — success, failure, or skip — to
//! the aggregate report, in the order the outcomes arrive.

use crate::filter::spec_evaluate;
use crate::filter::Decision;
use crate::filter::FilterOption;
use crate::geometry::Resolution;
use crate::outcome::finish_file;
use crate::outcome::plan_file;
use crate::outcome::spec_ratio_mismatch_msg;
use crate::outcome::spec_save_error_msg;
use crate::outcome::AggregateReport;
use crate::outcome::FileOutcome;
use crate::outcome::FilePlan;
use vstd::prelude::*;

verus! {

/// One discovered file as the orchestration model sees it: its name and
/// the codec's replies — the decode result, and the save result the codec
/// gives when a save is requested of it.
pub struct FileRecord {
    pub name: String,
    pub decode: Result<Resolution, String>,
    pub save: Result<(), String>,
}

impl FileRecord {
    /// Decoded dimensions are positive whenever a ratio rule will simplify
    /// them; a zero side cannot be reduced by its greatest common divisor.
    pub open spec fn wf(self, config: FilterOption) -> bool {
        self.decode matches Result::Ok(dims) ==> (config.ratio is Some ==> dims.width >= 1
            && dims.height >= 1)
    }
}

/// Whether the record ends in a saved file: the decode succeeded, the
/// evaluator accepted, and the save succeeded.
pub open spec fn spec_is_success(rec: FileRecord, config: FilterOption) -> bool {
    match rec.decode {
        Result::Err(m) => false,
        Result::Ok(dims) => match spec_evaluate(dims, config) {
            Decision::Reject => false,
            Decision::RatioMismatch => false,
            Decision::AcceptAsIs => rec.save is Ok,
            Decision::AcceptWithCrop(size) => rec.save is Ok,
        },
    }
}

/// Whether the record ends in a reported failure: a decode error, a hard
/// ratio mismatch, or a failed save.
pub open spec fn spec_is_failure(rec: FileRecord, config: FilterOption) -> bool {
    match rec.decode {
        Result::Err(m) => true,
        Result::Ok(dims) => match spec_evaluate(dims, config) {
            Decision::Reject => false,
            Decision::RatioMismatch => true,
            Decision::AcceptAsIs => rec.save is Err,
            Decision::AcceptWithCrop(size) => rec.save is Err,
        },
    }
}

/// Whether the record is filtered out without an outcome.
pub open spec fn spec_is_skip(rec: FileRecord, config: FilterOption) -> bool {
    match rec.decode {
        Result::Err(m) => false,
        Result::Ok(dims) => spec_evaluate(dims, config) is Reject,
    }
}

/// The message a failing record is reported with: the codec's decode
/// message, the fixed ratio-mismatch text, or the fixed save-error text.
pub open spec fn spec_failure_msg(rec: FileRecord, config: FilterOption) -> Seq<char>
    recommends
        spec_is_failure(rec, config),
{
    match rec.decode {
        Result::Err(m) => m@,
        Result::Ok(dims) => if spec_evaluate(dims, config) is RatioMismatch {
            spec_ratio_mismatch_msg()
        } else {
            spec_save_error_msg()
        },
    }
}

/// Every record lands in exactly one bucket: success, failure, or skip.
pub proof fn lemma_exactly_one_disposition(rec: FileRecord, config: FilterOption)
    ensures
        spec_is_success(rec, config) || spec_is_failure(rec, config) || spec_is_skip(rec, config),
        !(spec_is_success(rec, config) && spec_is_failure(rec, config)),
        !(spec_is_success(rec, config) && spec_is_skip(rec, config)),
        !(spec_is_failure(rec, config) && spec_is_skip(rec, config)),
{
}

/// The outcome that one record demands: skipped, succeeded with the file's
/// name and decoded dimensions, or failed with the file's name and its
/// failure message.
pub open spec fn spec_outcome_matches(o: FileOutcome, rec: FileRecord, config: FilterOption) -> bool {
    if spec_is_skip(rec, config) {
        o is Skipped
    } else if spec_is_success(rec, config) {
        o matches FileOutcome::Succeeded(n, r) && n@ == rec.name@ && rec.decode == Result::<
            Resolution,
            String,
        >::Ok(r)
    } else {
        o matches FileOutcome::Failed(n, m) && n@ == rec.name@ && m@ == spec_failure_msg(
            rec,
            config,
        )
    }
}

/// Classify one recorded file end to end: plan from the decode result,
/// then, where the plan saves, classify the recorded save result.
pub fn file_outcome(rec: &FileRecord, config: &FilterOption) -> (o: FileOutcome)
    requires
        config.wf(),
        rec.wf(*config),
    ensures
        spec_outcome_matches(o, *rec, *config),
{
    let plan = plan_file(&rec.decode, config);
    match plan {
        FilePlan::Skip => FileOutcome::Skipped,
        FilePlan::Fail(msg) => FileOutcome::Failed(rec.name.clone(), msg),
        FilePlan::Save(dims, _) => finish_file(rec.name.clone(), dims, &rec.save),
    }
}

/// The tally that a sequence of records yields under a configuration,
/// folded in arrival order: the success count and the ordered failure
/// pairs.
pub open spec fn spec_report(records: Seq<FileRecord>, config: FilterOption) -> (
    int,
    Seq<(Seq<char>, Seq<char>)>,
)
    decreases records.len(),
{
    if records.len() == 0 {
        (0, Seq::<(Seq<char>, Seq<char>)>::empty())
    } else {
        let prev = spec_report(records.drop_last(), config);
        let rec = records.last();
        if spec_is_success(rec, config) {
            (prev.0 + 1, prev.1)
        } else if spec_is_failure(rec, config) {
            (prev.0, prev.1.push((rec.name@, spec_failure_msg(rec, config))))
        } else {
            prev
        }
    }
}

/// The tally never counts a record twice: the success count plus the
/// number of failure pairs is at most the number of records.
pub proof fn lemma_report_bounds(records: Seq<FileRecord>, config: FilterOption)
    ensures
        0 <= spec_report(records, config).0,
        spec_report(records, config).0 + spec_report(records, config).1.len() <= records.len(),
    decreases records.len(),
{
    if records.len() > 0 {
        lemma_report_bounds(records.drop_last(), config);
    }
}

/// One delivered disposition per file: appending one record to a batch
/// changes the tally by exactly that record's own disposition — one more
/// success, one more failure pair, or, for a skip, nothing at all.
pub proof fn lemma_one_outcome_per_file(
    records: Seq<FileRecord>,
    rec: FileRecord,
    config: FilterOption,
)
    ensures
        ({
            let prev = spec_report(records, config);
            let next = spec_report(records.push(rec), config);
            if spec_is_success(rec, config) {
                next == (prev.0 + 1, prev.1)
            } else if spec_is_failure(rec, config) {
                next == (prev.0, prev.1.push((rec.name@, spec_failure_msg(rec, config))))
            } else {
                spec_is_skip(rec, config) && next == prev
            }
        }),
{
    lemma_exactly_one_disposition(rec, config);
    assert(records.push(rec).drop_last() =~= records);
    assert(records.push(rec).last() == rec);
}

/// Process a whole batch of recorded files: fold each file's single
/// outcome into the report, in the order the records arrived (the
/// completion order of the underlying tasks). The report gains exactly the
/// batch's tally: its success count grows by the number of successful
/// records, and its failure list is extended, in order, by exactly the
/// failing records' (filename, message) pairs; skipped records leave it
/// untouched.
pub fn process_images(
    records: &Vec<FileRecord>,
    option: &FilterOption,
    report: &mut AggregateReport,
)
    requires
        option.wf(),
        forall|k: int| 0 <= k < records@.len() ==> (#[trigger] records@[k]).wf(*option),
        old(report).success_num + records@.len() <= u64::MAX,
    ensures
        final(report).success_num == old(report).success_num + spec_report(records@, *option).0,
        final(report).failures() == old(report).failures() + spec_report(records@, *option).1,
{
    let ghost orig = *report;
    let mut i: usize = 0;
    while i < records.len()
        invariant
            option.wf(),
            forall|k: int| 0 <= k < records@.len() ==> (#[trigger] records@[k]).wf(*option),
            orig.success_num + records@.len() <= u64::MAX,
            i <= records@.len(),
            report.success_num == orig.success_num + spec_report(
                records@.take(i as int),
                *option,
            ).0,
            report.failures() == orig.failures() + spec_report(records@.take(i as int), *option).1,
        decreases records@.len() - i,
    {
        let ghost prefix = records@.take(i as int);
        proof {
            lemma_report_bounds(prefix, *option);
        }
        let rec = &records[i];
        let outcome = file_outcome(rec, option);
        let ghost o = outcome;
        let ghost pre = *report;
        report.accept(outcome);
        proof {
            lemma_exactly_one_disposition(records@[i as int], *option);
            lemma_one_outcome_per_file(prefix, records@[i as int], *option);
            assert(prefix.push(records@[i as int]) =~= records@.take(i + 1 as int));
            let prev = spec_report(prefix, *option);
            let next = spec_report(records@.take(i + 1 as int), *option);
            if spec_is_failure(records@[i as int], *option) {
                let rec_g = records@[i as int];
                let pair = (rec_g.name@, spec_failure_msg(rec_g, *option));
                crate::outcome::lemma_pairs_view_push(
                    pre.failed_tasks@,
                    (o->Failed_0, o->Failed_1),
                );
                assert(report.failures() == pre.failures().push(pair));
                assert(report.failures() =~= orig.failures() + next.1);
            } else {
                assert(report.failures() =~= orig.failures() + next.1);
            }
        }
        i = i + 1;
    }
    proof {
        assert(records@.take(records@.len() as int) =~= records@);
    }
}

} // verus!
