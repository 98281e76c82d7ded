use crate::paths::{downloading_path, partial_path};
use crate::transfer::{DownloadTarget, TargetType};
use vstd::prelude::*;
use vstd::string::*;

verus! {

/// What a download worker reports for one target.
#[derive(Debug)]
pub enum DownloadDoneStatus {
    Success(DownloadTarget),
    Failed(DownloadTarget),
}

impl DownloadDoneStatus {
    pub fn is_success(&self) -> (r: bool)
        ensures
            r == (self is Success),
    {
        match self {
            DownloadDoneStatus::Success(_) => true,
            DownloadDoneStatus::Failed(_) => false,
        }
    }
}

/// The local work that one target asks of a download worker.
#[derive(Debug)]
pub enum DownloadStep {
    /// The destination exists already: nothing is fetched or created, and the
    /// target counts as done.
    AlreadyPresent,
    /// Create the directory `path`.
    CreateDirectory { path: String },
    /// Stream `url` into `partial`, then rename `partial` to `dest`.
    Fetch { url: String, partial: String, dest: String },
    /// A file target without a fetch URL, which cannot be downloaded.
    MissingUrl,
}

/// Decides the work for `target`, given whether its destination path exists.
pub fn plan_download(target: &DownloadTarget, exists: bool) -> (r: DownloadStep)
    ensures
        exists ==> r is AlreadyPresent,
        !exists && target.target_type == TargetType::Directory ==> r is CreateDirectory
            && r->CreateDirectory_path@ == target.to@,
        !exists && target.target_type == TargetType::File && target.from is Some ==> r is Fetch
            && r->Fetch_url@ == target.from->0@ && r->Fetch_partial@ == partial_path(target.to@)
            && r->Fetch_dest@ == target.to@,
        !exists && target.target_type == TargetType::File && target.from is None ==> r is MissingUrl,
{
    if exists {
        return DownloadStep::AlreadyPresent;
    }
    match target.target_type {
        TargetType::Directory => DownloadStep::CreateDirectory { path: target.to.clone() },
        TargetType::File => match &target.from {
            Some(url) => DownloadStep::Fetch {
                url: url.clone(),
                partial: downloading_path(target.to.as_str()),
                dest: target.to.clone(),
            },
            None => DownloadStep::MissingUrl,
        },
    }
}

/// Whether carrying out `step` can only have succeeded: a step with nothing to
/// do succeeds, one without a URL fails, and the others succeed when their
/// local and remote work (`work_succeeded`) did.
pub open spec fn step_succeeds(step: DownloadStep, work_succeeded: bool) -> bool {
    match step {
        DownloadStep::AlreadyPresent => true,
        DownloadStep::MissingUrl => false,
        _ => work_succeeded,
    }
}

/// The status that the worker reports for `target` after carrying out `step`.
pub fn download_status(target: DownloadTarget, step: &DownloadStep, work_succeeded: bool) -> (r:
    DownloadDoneStatus)
    ensures
        step_succeeds(*step, work_succeeded) ==> r == DownloadDoneStatus::Success(target),
        !step_succeeds(*step, work_succeeded) ==> r == DownloadDoneStatus::Failed(target),
{
    let ok = match step {
        DownloadStep::AlreadyPresent => true,
        DownloadStep::MissingUrl => false,
        _ => work_succeeded,
    };
    if ok {
        DownloadDoneStatus::Success(target)
    } else {
        DownloadDoneStatus::Failed(target)
    }
}

/// A target whose destination already exists is reported as a success, and
/// no fetch is planned for it, whatever became of other work.
pub proof fn lemma_existing_destination_succeeds(step: DownloadStep, work_succeeded: bool)
    requires
        step is AlreadyPresent,
    ensures
        !(step is Fetch),
        step_succeeds(step, work_succeeded),
{
}

} // verus!
