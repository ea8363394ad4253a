use vstd::prelude::*;

verus! {

/// What a single metadata read of a path reported: the path is present, the
/// path is absent, or the probe itself failed for some other reason
/// (permission, I/O), carrying that failure's description. A single read is
/// the source of truth, so there is no check-then-open race to reason about.
#[derive(Debug, PartialEq, Eq)]
pub enum Probe {
    Present,
    Absent,
    Failed { detail: String },
}

/// An error of this layer: a required source path that does not exist, or
/// an I/O failure together with the context of the operation that failed.
/// An empty context means the underlying failure is passed on unchanged.
#[derive(Debug, PartialEq, Eq)]
pub enum FsError {
    Absence { path: String },
    Io { context: String, detail: String },
}

/// How a unit of blocking work submitted to the worker execution context
/// ended: it ran to completion, the filesystem operation inside it failed,
/// or the worker itself failed to run the work to completion.
#[derive(Debug, PartialEq, Eq)]
pub enum WorkerOutcome {
    Done,
    OpFailed { detail: String },
    DispatchFailed { detail: String },
}

/// What the removal operation is to do with its probed target.
#[derive(Debug, PartialEq, Eq, Structural)]
pub enum RemoveAction {
    Skip,
    Remove,
}

/// The fixed policy of the directory copy: entries already at the
/// destination are overwritten, and the *contents* of the source directory
/// are copied into the destination, not the source directory itself as a
/// nested entry.
#[derive(Debug, Clone, Copy, PartialEq, Eq, Structural)]
pub struct CopyPolicy {
    pub overwrite: bool,
    pub content_only: bool,
}

/// The text put before the missing source path of a copy.
pub open spec fn absence_prefix() -> Seq<char> {
    "directory can not be copied as it does not exist \""@
}

/// The context of a failure during the directory copy.
pub open spec fn copy_context() -> Seq<char> {
    "error copying directory"@
}

/// The context of a failure during the directory removal.
pub open spec fn remove_context() -> Seq<char> {
    "error removing directory"@
}

impl FsError {
    /// The text of the error: the missing path for an absence, and the
    /// operation's context followed by the underlying detail otherwise,
    /// with an empty context leaving the detail bare.
    pub open spec fn spec_message(self) -> Seq<char> {
        match self {
            FsError::Absence { path } => absence_prefix() + path@ + "\""@,
            FsError::Io { context, detail } => if context@.len() == 0 {
                detail@
            } else {
                context@ + ": "@ + detail@
            },
        }
    }

    /// Render the error as one line of text for the caller to report.
    pub fn message(&self) -> (m: String)
        ensures
            m@ == self.spec_message(),
    {
        match self {
            FsError::Absence { path } => {
                let mut m = String::from_str("directory can not be copied as it does not exist \"");
                m.append(path.as_str());
                m.append("\"");
                proof {
                    assert(m@ =~= self.spec_message());
                }
                m
            },
            FsError::Io { context, detail } => {
                if context.as_str().is_empty() {
                    detail.clone()
                } else {
                    let mut m = context.clone();
                    m.append(": ");
                    m.append(detail.as_str());
                    proof {
                        assert(m@ =~= self.spec_message());
                    }
                    m
                }
            },
        }
    }
}

/// Collapse a metadata probe to the existence outcome: a present path is
/// `true`, an absent one is `false`, and any other failure of the probe is
/// passed on as an error, never folded into `false`.
pub fn path_exists_result(probe: Probe) -> (r: Result<bool, FsError>)
    ensures
        probe is Present ==> r == Ok::<bool, FsError>(true),
        probe is Absent ==> r == Ok::<bool, FsError>(false),
        probe matches Probe::Failed { detail } ==> (r matches Err(e)
            && e matches FsError::Io { context, detail: d } && context@.len() == 0 && d
            == detail),
{
    match probe {
        Probe::Present => Ok(true),
        Probe::Absent => Ok(false),
        Probe::Failed { detail } => Err(FsError::Io { context: String::new(), detail }),
    }
}

/// Gate the directory copy on its probed source: a present source lets the
/// copy proceed, an absent one is an absence error naming that source, and
/// a failed probe is passed on unchanged. The copy may run only when this
/// returns success.
pub fn copy_precheck(source: String, probe: Probe) -> (r: Result<(), FsError>)
    ensures
        probe is Present <==> r is Ok,
        probe is Absent ==> (r matches Err(e) && e matches FsError::Absence { path } && path
            == source),
        probe matches Probe::Failed { detail } ==> (r matches Err(e)
            && e matches FsError::Io { context, detail: d } && context@.len() == 0 && d
            == detail),
{
    match probe {
        Probe::Present => Ok(()),
        Probe::Absent => Err(FsError::Absence { path: source }),
        Probe::Failed { detail } => Err(FsError::Io { context: String::new(), detail }),
    }
}

/// Close out the directory copy from the worker's outcome: completion is
/// success, and a filesystem failure and a dispatch failure both surface as
/// "error copying directory" with the underlying detail kept.
pub fn copy_finish(outcome: WorkerOutcome) -> (r: Result<(), FsError>)
    ensures
        outcome is Done <==> r is Ok,
        outcome matches WorkerOutcome::OpFailed { detail } ==> (r matches Err(e)
            && e matches FsError::Io { context, detail: d } && context@ == copy_context() && d
            == detail),
        outcome matches WorkerOutcome::DispatchFailed { detail } ==> (r matches Err(e)
            && e matches FsError::Io { context, detail: d } && context@ == copy_context() && d
            == detail),
{
    match outcome {
        WorkerOutcome::Done => Ok(()),
        WorkerOutcome::OpFailed { detail } => Err(
            FsError::Io { context: String::from_str("error copying directory"), detail },
        ),
        WorkerOutcome::DispatchFailed { detail } => Err(
            FsError::Io { context: String::from_str("error copying directory"), detail },
        ),
    }
}

/// Plan the directory removal from its probed target: an absent target is
/// success with nothing to do (removing what is already gone is a no-op,
/// not an error), a present one is to be removed, and a failed probe is
/// passed on unchanged.
pub fn remove_plan(probe: Probe) -> (r: Result<RemoveAction, FsError>)
    ensures
        probe is Present ==> r == Ok::<RemoveAction, FsError>(RemoveAction::Remove),
        probe is Absent ==> r == Ok::<RemoveAction, FsError>(RemoveAction::Skip),
        probe matches Probe::Failed { detail } ==> (r matches Err(e)
            && e matches FsError::Io { context, detail: d } && context@.len() == 0 && d
            == detail),
{
    match probe {
        Probe::Present => Ok(RemoveAction::Remove),
        Probe::Absent => Ok(RemoveAction::Skip),
        Probe::Failed { detail } => Err(FsError::Io { context: String::new(), detail }),
    }
}

/// Close out the directory removal from the worker's outcome: completion is
/// success, a filesystem failure surfaces as "error removing directory"
/// with the underlying detail kept, and a dispatch failure is passed on
/// unchanged.
pub fn remove_finish(outcome: WorkerOutcome) -> (r: Result<(), FsError>)
    ensures
        outcome is Done <==> r is Ok,
        outcome matches WorkerOutcome::OpFailed { detail } ==> (r matches Err(e)
            && e matches FsError::Io { context, detail: d } && context@ == remove_context() && d
            == detail),
        outcome matches WorkerOutcome::DispatchFailed { detail } ==> (r matches Err(e)
            && e matches FsError::Io { context, detail: d } && context@.len() == 0 && d
            == detail),
{
    match outcome {
        WorkerOutcome::Done => Ok(()),
        WorkerOutcome::OpFailed { detail } => Err(
            FsError::Io { context: String::from_str("error removing directory"), detail },
        ),
        WorkerOutcome::DispatchFailed { detail } => Err(
            FsError::Io { context: String::new(), detail },
        ),
    }
}

/// The one copy policy this layer ever uses: overwrite the destination's
/// entries and copy the source's contents only.
pub fn copy_policy() -> (p: CopyPolicy)
    ensures
        p == (CopyPolicy { overwrite: true, content_only: true }),
{
    CopyPolicy { overwrite: true, content_only: true }
}

} // verus!
