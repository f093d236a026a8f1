use vstd::prelude::*;

verus! {

/// Outcome of evaluating one scan job: a detection flag, the tags naming what
/// was detected (insertion order), and an optional error explaining why the
/// scan could not be completed. When `error` is set, `detected` and `tags`
/// carry no meaning and the result is never reported as a positive detection.
pub struct ScanResult {
    pub detected: bool,
    pub tags: Vec<String>,
    pub error: Option<String>,
}

impl ScanResult {
    /// A result is a positive detection only when the scan finished without
    /// error and the detection flag is set.
    pub open spec fn is_positive(self) -> bool {
        self.error is None && self.detected
    }

    /// The scan could not be completed.
    pub open spec fn is_error(self) -> bool {
        self.error is Some
    }
}

/// Terminal state of one scan job: every submitted job runs exactly once and
/// ends in exactly one of these.
#[derive(PartialEq, Eq, Structural, Clone, Copy, Debug)]
pub enum JobOutcome {
    /// The scan completed and found nothing.
    Clean,
    /// The scan completed and reported a detection.
    Detected,
    /// The scan could not evaluate the file.
    Failed,
}

impl ScanResult {
    /// What a completed job's result means for reporting: an error is
    /// inconclusive and masks the detection flag.
    pub open spec fn spec_outcome(self) -> JobOutcome {
        if self.is_error() {
            JobOutcome::Failed
        } else if self.detected {
            JobOutcome::Detected
        } else {
            JobOutcome::Clean
        }
    }

    /// Classify this result into its terminal job state.
    pub fn outcome(&self) -> (o: JobOutcome)
        ensures
            o == self.spec_outcome(),
            o is Detected <==> self.is_positive(),
    {
        if self.error.is_some() {
            JobOutcome::Failed
        } else if self.detected {
            JobOutcome::Detected
        } else {
            JobOutcome::Clean
        }
    }
}

} // verus!
