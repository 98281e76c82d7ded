use crate::download::DownloadDoneStatus;
use crate::putio::{is_seeding_status, seeding_finished};
use crate::transfer::{
    clone_targets, first_top_level, targets_view, DownloadTarget, TargetModel, Transfer,
    TransferMessage, TransferModel,
};
use vstd::prelude::*;

verus! {

/// What an orchestration worker does with a lifecycle message.
#[derive(Debug)]
pub enum WorkerAction {
    /// Resolve the transfer's targets and run its download batch.
    Download(Transfer),
    /// Start a watcher that waits for the transfer's import.
    WatchImport(Transfer),
    /// Start a watcher that waits for the transfer to stop seeding.
    WatchSeeding(Transfer),
}

/// Routes a lifecycle message to the work it asks for.
pub fn route(msg: TransferMessage) -> (r: WorkerAction)
    ensures
        msg is QueuedForDownload ==> r == WorkerAction::Download(msg->QueuedForDownload_0),
        msg is Downloaded ==> r == WorkerAction::WatchImport(msg->Downloaded_0),
        msg is Imported ==> r == WorkerAction::WatchSeeding(msg->Imported_0),
{
    match msg {
        TransferMessage::QueuedForDownload(t) => WorkerAction::Download(t),
        TransferMessage::Downloaded(t) => WorkerAction::WatchImport(t),
        TransferMessage::Imported(t) => WorkerAction::WatchSeeding(t),
    }
}

/// How a download batch ended.
#[derive(Debug)]
pub enum BatchOutcome {
    /// Every target succeeded: the transfer, with its targets, moves on.
    Downloaded(Transfer),
    /// Some target failed: the transfer does not advance.
    Stuck(Transfer),
}

/// The fan-out and fan-in of one transfer's download: one message per target,
/// and one completion per message before the transfer may advance.
#[derive(Debug)]
pub struct DownloadBatch {
    pub transfer: Transfer,
    pub targets: Vec<DownloadTarget>,
    pub succeeded: Vec<bool>,
}

impl DownloadBatch {
    /// Whether every completion has come in.
    pub open spec fn complete(&self) -> bool {
        self.succeeded@.len() == self.targets@.len()
    }

    /// No more completions than targets have come in.
    pub open spec fn wf(&self) -> bool {
        self.succeeded@.len() <= self.targets@.len()
    }

    /// The positions of the completion channels already waited on: one per
    /// target, in dispatch order, as long as completions came in.
    pub open spec fn awaited(&self) -> Set<int> {
        Set::new(|i: int| 0 <= i < self.succeeded@.len())
    }

    /// Whether every completion that came in reported success.
    pub open spec fn all_succeeded(&self) -> bool {
        forall|i: int| 0 <= i < self.succeeded@.len() ==> #[trigger] self.succeeded@[i]
    }

    /// Starts the batch of `transfer` over its resolved `targets`.
    pub fn new(transfer: Transfer, targets: Vec<DownloadTarget>) -> (r: DownloadBatch)
        ensures
            r.transfer == transfer,
            r.targets == targets,
            r.succeeded@.len() == 0,
            r.wf(),
    {
        DownloadBatch { transfer, targets, succeeded: Vec::new() }
    }

    /// The targets to send to the download workers: exactly one per target,
    /// in order.
    pub fn dispatch(&self) -> (r: Vec<DownloadTarget>)
        ensures
            r@.len() == self.targets@.len(),
            targets_view(r@) == targets_view(self.targets@),
    {
        clone_targets(&self.targets)
    }

    /// Records one completion.
    pub fn record(&mut self, status: &DownloadDoneStatus)
        requires
            old(self).succeeded@.len() < old(self).targets@.len(),
        ensures
            final(self).succeeded@ == old(self).succeeded@.push(status is Success),
            final(self).wf(),
            final(self).transfer == old(self).transfer,
            final(self).targets == old(self).targets,
    {
        let ok = status.is_success();
        self.succeeded.push(ok);
    }

    /// The position of the completion channel to wait on next: the first
    /// target whose completion has not come in, or none once all have.
    pub fn next_to_await(&self) -> (r: Option<usize>)
        requires
            self.wf(),
        ensures
            self.complete() ==> r is None,
            !self.complete() ==> r == Some(self.succeeded@.len() as usize) && !self.awaited().contains(
                self.succeeded@.len() as int,
            ) && r->0 < self.targets@.len(),
    {
        if self.succeeded.len() < self.targets.len() {
            Some(self.succeeded.len())
        } else {
            None
        }
    }

    /// Whether every completion has come in.
    pub fn is_complete(&self) -> (r: bool)
        ensures
            r == self.complete(),
    {
        self.succeeded.len() == self.targets.len()
    }

    /// Ends a complete batch: the transfer advances, with its targets attached,
    /// only if every target succeeded.
    pub fn finish(self) -> (r: BatchOutcome)
        requires
            self.complete(),
        ensures
            self.all_succeeded() ==> r is Downloaded && r->Downloaded_0@ == (TransferModel {
                targets: Some(targets_view(self.targets@)),
                ..self.transfer@
            }),
            !self.all_succeeded() ==> r is Stuck && r->Stuck_0 == self.transfer,
    {
        let mut i: usize = 0;
        while i < self.succeeded.len()
            invariant
                i <= self.succeeded@.len(),
                forall|k: int| 0 <= k < i ==> self.succeeded@[k],
            decreases self.succeeded@.len() - i,
        {
            if !self.succeeded[i] {
                return BatchOutcome::Stuck(self.transfer);
            }
            i = i + 1;
        }
        BatchOutcome::Downloaded(self.transfer.with_targets(self.targets))
    }
}

/// The fan-in of a batch over `n` targets: the worker waits on the channel
/// that [`DownloadBatch::next_to_await`] names and records what it brings.
/// Each such step waits on a channel not waited on before, so no channel is
/// awaited twice; the batch is complete, and may advance or give up, exactly
/// when all `n` channels have been awaited once; and then it advances only if
/// every completion was a success.
pub proof fn lemma_batch_fan_in(before: DownloadBatch, after: DownloadBatch, ok: bool)
    requires
        before.wf(),
        !before.complete(),
        after.targets@.len() == before.targets@.len(),
        after.succeeded@ == before.succeeded@.push(ok),
    ensures
        after.wf(),
        !before.awaited().contains(before.succeeded@.len() as int),
        after.awaited() == before.awaited().insert(before.succeeded@.len() as int),
        after.complete() <==> after.awaited() == Set::new(
            |i: int| 0 <= i < after.targets@.len(),
        ),
        after.complete() && after.all_succeeded() ==> forall|i: int|
            0 <= i < after.targets@.len() ==> #[trigger] after.succeeded@[i],
{
    assert(after.awaited() =~= before.awaited().insert(before.succeeded@.len() as int));
    if after.awaited() == Set::new(|i: int| 0 <= i < after.targets@.len()) {
        if after.succeeded@.len() < after.targets@.len() {
            assert(Set::new(|i: int| 0 <= i < after.targets@.len()).contains(
                after.succeeded@.len() as int,
            ));
        }
    }
    if after.complete() {
        assert(after.awaited() =~= Set::new(|i: int| 0 <= i < after.targets@.len()));
    }
}

/// What the import watcher does after one import check.
#[derive(Debug)]
pub enum ImportWatchStep {
    /// Not imported yet: check again after the polling interval.
    Wait,
    /// Imported: delete this top-level target, then announce the import.
    Cleanup(DownloadTarget),
}

/// One decision of the import watcher of a downloaded transfer.
pub fn import_watch_step(transfer: &Transfer, imported: bool) -> (r: ImportWatchStep)
    requires
        transfer.targets is Some,
        exists|i: int|
            0 <= i < transfer@.targets->0.len() && (#[trigger] transfer@.targets->0[i]).top_level,
    ensures
        !imported ==> r is Wait,
        imported ==> r is Cleanup && r->Cleanup_0@ == transfer@.targets->0[first_top_level(
            transfer@.targets->0,
        )],
{
    if imported {
        ImportWatchStep::Cleanup(transfer.get_top_level())
    } else {
        ImportWatchStep::Wait
    }
}

/// How the top-level path of an imported transfer is removed.
#[derive(PartialEq, Eq, Structural, Clone, Copy, Debug)]
pub enum Removal {
    /// Remove a directory with everything below it.
    Directory,
    /// Remove a single file.
    File,
}

/// The removal for a path that is a directory or a file; `None` for a path
/// that is neither (or is missing), which the watcher cannot handle.
pub fn removal_for(is_dir: bool, is_file: bool) -> (r: Option<Removal>)
    ensures
        is_dir ==> r == Some(Removal::Directory),
        !is_dir && is_file ==> r == Some(Removal::File),
        !is_dir && !is_file ==> r is None,
{
    if is_dir {
        Some(Removal::Directory)
    } else if is_file {
        Some(Removal::File)
    } else {
        None
    }
}

/// What the seed watcher does after reading the transfer's remote status.
#[derive(PartialEq, Eq, Structural, Clone, Copy, Debug)]
pub enum SeedWatchStep {
    /// Still seeding: ask again.
    KeepWatching,
    /// Seeding ended: remove the remote transfer, then its files if it has any.
    Remove { transfer_id: u64, file_id: Option<u64> },
}

/// One decision of the seed watcher of an imported transfer.
pub fn seed_watch_step(transfer: &Transfer, status: &String) -> (r: SeedWatchStep)
    ensures
        is_seeding_status(status@) ==> r == SeedWatchStep::KeepWatching,
        !is_seeding_status(status@) ==> r == (SeedWatchStep::Remove {
            transfer_id: transfer.transfer_id,
            file_id: transfer.file_id,
        }),
{
    if seeding_finished(status) {
        SeedWatchStep::Remove { transfer_id: transfer.transfer_id, file_id: transfer.file_id }
    } else {
        SeedWatchStep::KeepWatching
    }
}

} // verus!
