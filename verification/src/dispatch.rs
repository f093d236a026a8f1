use vstd::prelude::*;
use vstd::string::StringExecFns;

use crate::counters::RunCounters;
use crate::filter::should_submit;
use crate::filter::spec_should_submit;
use crate::result::JobOutcome;
use crate::result::ScanResult;

verus! {

/// Immutable run configuration: the root to walk or watch, the worker-pool
/// size, and the optional extension allow-list (empty means no extension
/// filtering). Supplied once at startup.
pub struct Config {
    pub root: String,
    pub workers: usize,
    pub ext: Vec<String>,
}

impl Config {
    /// The pool must have at least one worker.
    pub open spec fn wf(self) -> bool {
        self.workers >= 1
    }

    /// Validate a configuration. Fails exactly when the worker count is zero;
    /// a failure here is a fatal startup error, surfaced before any job runs.
    pub fn new(root: String, workers: usize, ext: Vec<String>) -> (r: Result<Config, String>)
        ensures
            r is Ok <==> workers >= 1,
            r matches Ok(c) ==> c == (Config { root, workers, ext }) && c.wf(),
    {
        if workers == 0 {
            Err(String::from_str("worker count must be at least 1"))
        } else {
            Ok(Config { root, workers, ext })
        }
    }

    /// Decide whether one candidate path becomes a scan job under this
    /// configuration, given what the filesystem probe just saw.
    pub fn should_submit(&self, is_regular_file: bool, path: &String) -> (r: bool)
        ensures
            r == spec_should_submit(is_regular_file, self.ext@, path@),
    {
        should_submit(is_regular_file, &self.ext, path)
    }
}

/// The tag strings joined in order with `sep` between consecutive entries.
pub open spec fn spec_join(ts: Seq<String>, sep: Seq<char>) -> Seq<char>
    decreases ts.len(),
{
    if ts.len() == 0 {
        Seq::empty()
    } else if ts.len() == 1 {
        ts[0]@
    } else {
        spec_join(ts.drop_last(), sep) + sep + ts.last()@
    }
}

/// Join the tag strings with `sep` between consecutive entries.
pub fn join_tags(ts: &Vec<String>, sep: &str) -> (r: String)
    ensures
        r@ == spec_join(ts@, sep@),
{
    let mut r = String::new();
    let mut i: usize = 0;
    while i < ts.len()
        invariant
            i <= ts@.len(),
            r@ == spec_join(ts@.subrange(0, i as int), sep@),
        decreases ts@.len() - i,
    {
        if i > 0 {
            r.append(sep);
        }
        r.append(ts[i].as_str());
        proof {
            let s1 = ts@.subrange(0, i + 1);
            assert(s1.drop_last() =~= ts@.subrange(0, i as int));
            assert(s1.last() == ts@[i as int]);
        }
        i = i + 1;
    }
    proof {
        assert(ts@.subrange(0, ts@.len() as int) =~= ts@);
    }
    r
}

/// The warning line reported for a positive detection: it names the scanned
/// path and the comma-joined tags of what was detected.
pub open spec fn spec_detection_message(path: Seq<char>, tags: Seq<String>) -> Seq<char> {
    "malware detected in '"@ + path + "' tagged '"@ + spec_join(tags, ", "@) + "'"@
}

/// Build the warning line for a positive detection at `path`.
pub fn detection_message(path: &String, tags: &Vec<String>) -> (r: String)
    ensures
        r@ == spec_detection_message(path@, tags@),
{
    let mut r = String::from_str("malware detected in '");
    r.append(path.as_str());
    r.append("' tagged '");
    let joined = join_tags(tags, ", ");
    r.append(joined.as_str());
    r.append("'");
    r
}

/// What one completed job reports: a warning exactly when the result is a
/// positive detection (an error result is inconclusive and never warns).
pub fn job_warning(path: &String, res: &ScanResult) -> (warn: Option<String>)
    ensures
        warn is Some <==> res.is_positive(),
        warn matches Some(m) ==> m@ == spec_detection_message(path@, res.tags@),
{
    let o = res.outcome();
    if matches!(o, JobOutcome::Detected) {
        Some(detection_message(path, &res.tags))
    } else {
        None
    }
}

/// Complete one walk-mode job: record it in the run totals exactly once,
/// whatever its outcome, and hand back the warning to report when the result
/// is a positive detection.
pub fn complete_job(counters: &mut RunCounters, path: &String, res: &ScanResult) -> (warn: Option<
    String,
>)
    requires
        old(counters).wf(),
        old(counters).scanned < u64::MAX,
    ensures
        *final(counters) == old(counters).recorded(*res),
        final(counters).wf(),
        warn is Some <==> res.is_positive(),
        warn matches Some(m) ==> m@ == spec_detection_message(path@, res.tags@),
{
    counters.record(res);
    job_warning(path, res)
}

} // verus!
