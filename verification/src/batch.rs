use vstd::prelude::*;
use vstd::string::StrSliceExecFns;
use vstd::string::StringExecFns;

use crate::error::{spec_message, FanqieError};
use crate::strutil::{spec_trimmed, trim_spaces};

verus! {

/// The safety cap on concurrently running download jobs. A batch may ask
/// for more; the effective ceiling silently clamps to this.
pub const MAX_BATCH_CONCURRENT: usize = 5;

/// What one batch run is asked to do: which books, where to put them, in
/// which format, and how many jobs may run at once.
#[derive(Debug, Clone)]
pub struct BatchOptions {
    pub book_ids: Vec<String>,
    pub save_path: String,
    pub format: String,
    pub max_concurrent: usize,
}

/// The record of one finished job: whether it succeeded, where its output
/// went, what failed, and how long it ran.
#[derive(Debug, PartialEq, Eq)]
pub struct BatchResult {
    pub book_id: String,
    pub success: bool,
    pub output_path: Option<String>,
    pub error: Option<String>,
    pub duration_ms: u64,
}

impl Clone for BatchResult {
    fn clone(&self) -> (r: Self)
        ensures
            r == *self,
    {
        BatchResult {
            book_id: self.book_id.clone(),
            success: self.success,
            output_path: match &self.output_path {
                Some(p) => Some(p.clone()),
                None => None,
            },
            error: match &self.error {
                Some(e) => Some(e.clone()),
                None => None,
            },
            duration_ms: self.duration_ms,
        }
    }
}

/// One batch run over its options.
pub struct BatchDownloader {
    pub options: BatchOptions,
}

impl BatchDownloader {
    pub fn new(options: BatchOptions) -> (r: Self)
        ensures
            r.options == options,
    {
        BatchDownloader { options }
    }
}

/// The ceiling the batch actually runs under: the requested concurrency,
/// silently clamped to the safety cap — never an error, and never more
/// than the cap.
pub fn effective_concurrency(requested: usize) -> (r: usize)
    ensures
        requested <= MAX_BATCH_CONCURRENT ==> r == requested,
        requested > MAX_BATCH_CONCURRENT ==> r == MAX_BATCH_CONCURRENT,
        r <= MAX_BATCH_CONCURRENT,
{
    if requested <= MAX_BATCH_CONCURRENT {
        requested
    } else {
        MAX_BATCH_CONCURRENT
    }
}

/// What one job ended with: the rendered document's location, or the error
/// that stopped it. A job's failure reaches nothing but its own record.
#[derive(Debug)]
pub enum JobOutcome {
    Completed { output_path: String },
    Failed { error: FanqieError },
}

/// How a job's record reflects its outcome: the job's id and duration are
/// carried over; a completed job is a success holding its output location
/// and no error, a failed one holds the failure's description and no
/// location.
pub open spec fn spec_matches_job(
    r: BatchResult,
    book_id: String,
    outcome: JobOutcome,
    duration_ms: u64,
) -> bool {
    &&& r.book_id == book_id
    &&& r.duration_ms == duration_ms
    &&& (outcome matches JobOutcome::Completed { output_path } ==> r.success && r.output_path
        == Some(output_path) && r.error is None)
    &&& (outcome matches JobOutcome::Failed { error } ==> !r.success && r.output_path is None && (
    r.error matches Some(m) && m@ == spec_message(error)))
}

/// The record of one finished job.
pub fn job_result(book_id: String, outcome: JobOutcome, duration_ms: u64) -> (r: BatchResult)
    ensures
        spec_matches_job(r, book_id, outcome, duration_ms),
{
    match outcome {
        JobOutcome::Completed { output_path } => BatchResult {
            book_id,
            success: true,
            output_path: Some(output_path),
            error: None,
            duration_ms,
        },
        JobOutcome::Failed { error } => BatchResult {
            book_id,
            success: false,
            output_path: None,
            error: Some(error.message()),
            duration_ms,
        },
    }
}

/// One record per submitted job, in submission order: whatever order the
/// jobs finished in, the caller hands each job's outcome back under the
/// job's submission index, and record `i` is job `i`'s.
pub fn batch_results(book_ids: Vec<String>, outcomes: Vec<(JobOutcome, u64)>) -> (r: Vec<
    BatchResult,
>)
    requires
        book_ids@.len() == outcomes@.len(),
    ensures
        r@.len() == book_ids@.len(),
        forall|i: int|
            0 <= i < r@.len() ==> spec_matches_job(
                #[trigger] r@[i],
                book_ids@[i],
                outcomes@[i].0,
                outcomes@[i].1,
            ),
{
    let ghost ids0 = book_ids@;
    let ghost outs0 = outcomes@;
    let mut ids = book_ids;
    let mut outs = outcomes;
    let mut r: Vec<BatchResult> = Vec::new();
    let mut i: usize = 0;
    let n = ids.len();
    #[verifier::loop_isolation(false)]
    while i < n
        invariant
            i <= n,
            n == ids0.len(),
            ids@ =~= ids0.subrange(i as int, ids0.len() as int),
            outs@ =~= outs0.subrange(i as int, outs0.len() as int),
            r@.len() == i,
            forall|k: int|
                0 <= k < i ==> spec_matches_job(#[trigger] r@[k], ids0[k], outs0[k].0, outs0[k].1),
        decreases n - i,
    {
        let book_id = ids.remove(0);
        let (outcome, duration_ms) = outs.remove(0);
        proof {
            assert(book_id == ids0[i as int]);
            assert(ids@ =~= ids0.subrange(i as int + 1, ids0.len() as int));
            assert(outs@ =~= outs0.subrange(i as int + 1, outs0.len() as int));
        }
        r.push(job_result(book_id, outcome, duration_ms));
        i = i + 1;
    }
    r
}

/// The book ids an id file's lines stand for: each line trimmed, with
/// blank lines and comment lines dropped.
pub open spec fn spec_selected_ids(lines: Seq<String>) -> Seq<Seq<char>>
    decreases lines.len(),
{
    if lines.len() == 0 {
        Seq::empty()
    } else {
        let rest = spec_selected_ids(lines.drop_last());
        let t = spec_trimmed(lines.last()@);
        if t.len() > 0 && t[0] != '#' {
            rest.push(t)
        } else {
            rest
        }
    }
}

/// Reads the book ids out of an id file's lines: each line is trimmed,
/// and blank lines and `#` comment lines are dropped.
pub fn select_book_id_lines(lines: &Vec<String>) -> (r: Vec<String>)
    ensures
        r@.len() == spec_selected_ids(lines@).len(),
        forall|i: int| 0 <= i < r@.len() ==> (#[trigger] r@[i])@ == spec_selected_ids(lines@)[i],
{
    let mut r: Vec<String> = Vec::new();
    let mut i: usize = 0;
    proof {
        assert(lines@.subrange(0, 0) =~= Seq::<String>::empty());
    }
    #[verifier::loop_isolation(false)]
    while i < lines.len()
        invariant
            i <= lines@.len(),
            r@.len() == spec_selected_ids(lines@.subrange(0, i as int)).len(),
            forall|k: int|
                0 <= k < r@.len() ==> (#[trigger] r@[k])@ == spec_selected_ids(
                    lines@.subrange(0, i as int),
                )[k],
        decreases lines@.len() - i,
    {
        let trimmed = trim_spaces(lines[i].as_str());
        proof {
            let longer = lines@.subrange(0, i as int + 1);
            assert(longer.drop_last() =~= lines@.subrange(0, i as int));
            assert(longer.last() == lines@[i as int]);
        }
        if trimmed.as_str().unicode_len() > 0 && trimmed.as_str().get_char(0) != '#' {
            r.push(trimmed);
        }
        i = i + 1;
    }
    proof {
        assert(lines@.subrange(0, lines@.len() as int) =~= lines@);
    }
    r
}

/// How many of the records report success.
pub open spec fn spec_success_count(rs: Seq<BatchResult>) -> nat
    decreases rs.len(),
{
    if rs.len() == 0 {
        0
    } else {
        spec_success_count(rs.drop_last()) + if rs.last().success {
            1nat
        } else {
            0nat
        }
    }
}

/// The records' summed durations.
pub open spec fn spec_duration_total(rs: Seq<BatchResult>) -> nat
    decreases rs.len(),
{
    if rs.len() == 0 {
        0
    } else {
        spec_duration_total(rs.drop_last()) + rs.last().duration_ms as nat
    }
}

/// The figures a caller reads off a finished batch: how many jobs
/// succeeded, how many failed, and the summed duration (saturated when it
/// cannot be represented). Derived from the records alone.
pub fn summarize(results: &Vec<BatchResult>) -> (r: (usize, usize, u64))
    ensures
        r.0 == spec_success_count(results@),
        r.0 + r.1 == results@.len(),
        spec_duration_total(results@) <= u64::MAX ==> r.2 == spec_duration_total(results@),
        spec_duration_total(results@) > u64::MAX ==> r.2 == u64::MAX,
{
    let mut succeeded: usize = 0;
    let mut failed: usize = 0;
    let mut duration: u64 = 0;
    let mut i: usize = 0;
    proof {
        assert(results@.subrange(0, 0) =~= Seq::<BatchResult>::empty());
    }
    #[verifier::loop_isolation(false)]
    while i < results.len()
        invariant
            i <= results@.len(),
            succeeded == spec_success_count(results@.subrange(0, i as int)),
            succeeded + failed == i,
            spec_duration_total(results@.subrange(0, i as int)) <= u64::MAX ==> duration
                == spec_duration_total(results@.subrange(0, i as int)),
            spec_duration_total(results@.subrange(0, i as int)) > u64::MAX ==> duration
                == u64::MAX,
            duration <= spec_duration_total(results@.subrange(0, i as int)),
        decreases results@.len() - i,
    {
        proof {
            let longer = results@.subrange(0, i as int + 1);
            assert(longer.drop_last() =~= results@.subrange(0, i as int));
            assert(longer.last() == results@[i as int]);
        }
        if results[i].success {
            succeeded = succeeded + 1;
        } else {
            failed = failed + 1;
        }
        let d = results[i].duration_ms;
        if d <= u64::MAX - duration {
            duration = duration + d;
        } else {
            duration = u64::MAX;
        }
        i = i + 1;
    }
    proof {
        assert(results@.subrange(0, results@.len() as int) =~= results@);
    }
    (succeeded, failed, duration)
}

} // verus!
