use vstd::prelude::*;

verus! {

/// A filesystem change notification from the watch source, reduced to plain
/// values: an event kind with the path (or path pair for a rename) it
/// concerns. Ephemeral: classified once and not retained.
pub enum FileEvent {
    /// A file or directory appeared.
    Create(String),
    /// An imminent content write was noticed.
    NoticeWrite(String),
    /// File content was written.
    Write(String),
    /// Attributes changed; content did not.
    Chmod(String),
    /// An imminent removal was noticed.
    NoticeRemove(String),
    /// The path was removed.
    Remove(String),
    /// The path was renamed: source first, destination second.
    Rename(String, String),
    /// The watch mechanism asks for a full rescan; no path is attached.
    Rescan,
    /// The watch mechanism reported an error, with an optional path.
    Error(String, Option<String>),
}

/// What the watch loop does with one event.
pub enum WatchStep {
    /// Probe this path on the filesystem and run it through the filter.
    Candidate(String),
    /// No job: note the path at diagnostic verbosity and continue.
    Ignored(String),
    /// No job: note the rescan request and continue.
    Rescan,
    /// No job: report the message (and path, if any) at error severity and
    /// keep receiving; a source-level error is not fatal.
    SourceError(String, Option<String>),
}

/// Event policy: create, notice-write, write and the rename destination are
/// scan candidates; removals and attribute changes never are; rescan notices
/// and source errors are reported and skipped.
pub open spec fn spec_classify(e: FileEvent) -> WatchStep {
    match e {
        FileEvent::Create(p) => WatchStep::Candidate(p),
        FileEvent::NoticeWrite(p) => WatchStep::Candidate(p),
        FileEvent::Write(p) => WatchStep::Candidate(p),
        FileEvent::Rename(source, dest) => WatchStep::Candidate(dest),
        FileEvent::Chmod(p) => WatchStep::Ignored(p),
        FileEvent::NoticeRemove(p) => WatchStep::Ignored(p),
        FileEvent::Remove(p) => WatchStep::Ignored(p),
        FileEvent::Rescan => WatchStep::Rescan,
        FileEvent::Error(m, p) => WatchStep::SourceError(m, p),
    }
}

/// Classify one watch event into the step the loop takes for it.
pub fn classify_event(e: FileEvent) -> (s: WatchStep)
    ensures
        s == spec_classify(e),
{
    match e {
        FileEvent::Create(p) => WatchStep::Candidate(p),
        FileEvent::NoticeWrite(p) => WatchStep::Candidate(p),
        FileEvent::Write(p) => WatchStep::Candidate(p),
        FileEvent::Rename(source, dest) => WatchStep::Candidate(dest),
        FileEvent::Chmod(p) => WatchStep::Ignored(p),
        FileEvent::NoticeRemove(p) => WatchStep::Ignored(p),
        FileEvent::Remove(p) => WatchStep::Ignored(p),
        FileEvent::Rescan => WatchStep::Rescan,
        FileEvent::Error(m, p) => WatchStep::SourceError(m, p),
    }
}

/// Removal law: a remove or notice-remove event never yields a scan
/// candidate, so it can never result in a submitted job.
pub proof fn lemma_remove_never_candidate(e: FileEvent)
    requires
        e matches FileEvent::Remove(_) || e matches FileEvent::NoticeRemove(_),
    ensures
        !(spec_classify(e) matches WatchStep::Candidate(_)),
{
}

/// Rename law: a rename yields a candidate for the destination path only;
/// the source path never becomes a job.
pub proof fn lemma_rename_candidate_is_destination(source: String, dest: String)
    ensures
        spec_classify(FileEvent::Rename(source, dest)) == WatchStep::Candidate(dest),
{
}

} // verus!
