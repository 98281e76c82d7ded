use crate::putio::PutIOTransfer;
use crate::tree::{names_view, node_targets, resolve_node, RemoteNode};
use vstd::prelude::*;
use vstd::string::*;

verus! {

/// The kind of media a file holds, which decides the media managers that are
/// asked about its import.
#[derive(PartialEq, Eq, Structural, Clone, Copy, Debug)]
pub enum MediaType {
    Audio,
    Video,
}

/// The media type that the remote service's file type string names.
pub open spec fn media_of(file_type: Seq<char>) -> Option<MediaType> {
    if file_type == "AUDIO"@ {
        Some(MediaType::Audio)
    } else if file_type == "VIDEO"@ {
        Some(MediaType::Video)
    } else {
        None
    }
}

impl MediaType {
    /// Classifies a remote file type string.
    pub fn from_file_type_str(file_type: &str) -> (r: Option<MediaType>)
        ensures
            r == media_of(file_type@),
    {
        let s = String::from_str(file_type);
        if s == String::from_str("AUDIO") {
            Some(MediaType::Audio)
        } else if s == String::from_str("VIDEO") {
            Some(MediaType::Video)
        } else {
            None
        }
    }
}

/// Whether a target is a directory to create or a file to fetch.
#[derive(PartialEq, Eq, Structural, Clone, Copy, Debug)]
pub enum TargetType {
    Directory,
    File,
}

/// One node of a transfer's local footprint.
#[derive(Debug)]
pub struct DownloadTarget {
    pub from: Option<String>,
    pub to: String,
    pub target_type: TargetType,
    pub top_level: bool,
    pub transfer_hash: String,
    pub media_type: Option<MediaType>,
}

/// The mathematical value of a [`DownloadTarget`].
pub struct TargetModel {
    pub from: Option<Seq<char>>,
    pub to: Seq<char>,
    pub target_type: TargetType,
    pub top_level: bool,
    pub transfer_hash: Seq<char>,
    pub media_type: Option<MediaType>,
}

/// The model of an optional string.
pub open spec fn opt_string_view(s: Option<String>) -> Option<Seq<char>> {
    match s {
        Some(v) => Some(v@),
        None => None,
    }
}

/// Copies an optional string.
pub fn clone_opt_string(s: &Option<String>) -> (r: Option<String>)
    ensures
        opt_string_view(r) == opt_string_view(*s),
{
    match s {
        Some(v) => Some(v.clone()),
        None => None,
    }
}

impl View for DownloadTarget {
    type V = TargetModel;

    open spec fn view(&self) -> TargetModel {
        TargetModel {
            from: opt_string_view(self.from),
            to: self.to@,
            target_type: self.target_type,
            top_level: self.top_level,
            transfer_hash: self.transfer_hash@,
            media_type: self.media_type,
        }
    }
}

/// The models of a sequence of targets.
pub open spec fn targets_view(v: Seq<DownloadTarget>) -> Seq<TargetModel> {
    v.map_values(|t: DownloadTarget| t@)
}

impl Clone for DownloadTarget {
    fn clone(&self) -> (r: Self)
        ensures
            r@ == self@,
    {
        DownloadTarget {
            from: clone_opt_string(&self.from),
            to: self.to.clone(),
            target_type: self.target_type,
            top_level: self.top_level,
            transfer_hash: self.transfer_hash.clone(),
            media_type: self.media_type,
        }
    }
}

/// Copies a list of targets.
pub fn clone_targets(v: &Vec<DownloadTarget>) -> (r: Vec<DownloadTarget>)
    ensures
        r@.len() == v@.len(),
        targets_view(r@) == targets_view(v@),
{
    let mut r: Vec<DownloadTarget> = Vec::new();
    let mut i: usize = 0;
    while i < v.len()
        invariant
            i <= v.len(),
            r@.len() == i,
            forall|k: int| 0 <= k < i ==> #[trigger] r@[k]@ == v@[k]@,
        decreases v.len() - i,
    {
        let c = v[i].clone();
        r.push(c);
        i = i + 1;
    }
    assert(targets_view(r@) =~= targets_view(v@));
    r
}

/// One remote transfer as the pipeline tracks it.
#[derive(Debug)]
pub struct Transfer {
    pub name: String,
    pub file_id: Option<u64>,
    pub hash: Option<String>,
    pub transfer_id: u64,
    pub targets: Option<Vec<DownloadTarget>>,
}

/// The mathematical value of a [`Transfer`].
pub struct TransferModel {
    pub name: Seq<char>,
    pub file_id: Option<u64>,
    pub hash: Option<Seq<char>>,
    pub transfer_id: u64,
    pub targets: Option<Seq<TargetModel>>,
}

impl View for Transfer {
    type V = TransferModel;

    open spec fn view(&self) -> TransferModel {
        TransferModel {
            name: self.name@,
            file_id: self.file_id,
            hash: opt_string_view(self.hash),
            transfer_id: self.transfer_id,
            targets: match self.targets {
                Some(v) => Some(targets_view(v@)),
                None => None,
            },
        }
    }
}

/// The transfer that a remote listing entry starts as: no targets yet, and
/// "unknown" for a missing name.
pub open spec fn transfer_of(t: PutIOTransfer) -> TransferModel {
    TransferModel {
        name: match t.name {
            Some(n) => n@,
            None => "unknown"@,
        },
        file_id: t.file_id,
        hash: opt_string_view(t.hash),
        transfer_id: t.id,
        targets: None,
    }
}

/// The hash that targets carry: the transfer's hash, or "0000" while it has none.
pub open spec fn hash_or_default(hash: Option<Seq<char>>) -> Seq<char> {
    match hash {
        Some(h) => h,
        None => "0000"@,
    }
}

/// Index of the first target flagged top-level.
pub open spec fn first_top_level(v: Seq<TargetModel>) -> int
    recommends
        exists|i: int| 0 <= i < v.len() && v[i].top_level,
{
    choose|i: int|
        0 <= i < v.len() && v[i].top_level && forall|j: int| 0 <= j < i ==> !v[j].top_level
}

proof fn lemma_first_top_level(v: Seq<TargetModel>, i: int)
    requires
        0 <= i < v.len(),
        v[i].top_level,
    ensures
        0 <= first_top_level(v) <= i,
        v[first_top_level(v)].top_level,
        forall|j: int| 0 <= j < first_top_level(v) ==> !v[j].top_level,
    decreases i,
{
    if exists|j: int| 0 <= j < i && v[j].top_level {
        let j = choose|j: int| 0 <= j < i && v[j].top_level;
        lemma_first_top_level(v, j);
    } else {
        assert(0 <= i < v.len() && v[i].top_level && forall|j: int|
            0 <= j < i ==> !v[j].top_level);
    }
}

/// The file targets of a list, in order.
pub open spec fn file_targets(v: Seq<TargetModel>) -> Seq<TargetModel> {
    v.filter(|t: TargetModel| t.target_type == TargetType::File)
}

impl Transfer {
    /// Starts tracking a transfer of the remote listing.
    pub fn from(transfer: &PutIOTransfer) -> (r: Transfer)
        ensures
            r@ == transfer_of(*transfer),
    {
        let name = match &transfer.name {
            Some(n) => n.clone(),
            None => String::from_str("unknown"),
        };
        Transfer {
            name,
            file_id: transfer.file_id,
            hash: clone_opt_string(&transfer.hash),
            transfer_id: transfer.id,
            targets: None,
        }
    }

    /// The hash that this transfer's targets carry.
    pub fn hash_or_default(&self) -> (r: String)
        ensures
            r@ == hash_or_default(opt_string_view(self.hash)),
    {
        match &self.hash {
            Some(h) => h.clone(),
            None => String::from_str("0000"),
        }
    }

    /// Resolves the transfer's remote tree, rooted at `root`, into its
    /// targets below `download_directory`; the root is the top-level target.
    pub fn get_download_targets(
        &self,
        root: &RemoteNode,
        download_directory: &str,
        skip_directories: &Vec<String>,
    ) -> (r: Vec<DownloadTarget>)
        ensures
            targets_view(r@) == node_targets(
                *root,
                download_directory@,
                names_view(skip_directories@),
                hash_or_default(opt_string_view(self.hash)),
                true,
            ),
    {
        let hash = self.hash_or_default();
        resolve_node(root, download_directory, skip_directories, hash.as_str(), true)
    }

    /// The same transfer with its resolved targets attached.
    pub fn with_targets(self, targets: Vec<DownloadTarget>) -> (r: Transfer)
        ensures
            r@ == (TransferModel { targets: Some(targets_view(targets@)), ..self@ }),
    {
        Transfer { targets: Some(targets), ..self }
    }

    /// The first target flagged top-level: the one whose removal removes the
    /// transfer's whole local footprint.
    pub fn get_top_level(&self) -> (r: DownloadTarget)
        requires
            self.targets is Some,
            exists|i: int|
                0 <= i < self@.targets->0.len() && (#[trigger] self@.targets->0[i]).top_level,
        ensures
            r@ == self@.targets->0[first_top_level(self@.targets->0)],
    {
        let ghost tv = self@.targets->0;
        proof {
            let i = choose|i: int| 0 <= i < tv.len() && (#[trigger] tv[i]).top_level;
            lemma_first_top_level(tv, i);
        }
        let targets = self.targets.as_ref().unwrap();
        let mut i: usize = 0;
        while i < targets.len()
            invariant
                tv == targets_view(targets@),
                tv == self@.targets->0,
                0 <= first_top_level(tv) < tv.len(),
                tv[first_top_level(tv)].top_level,
                forall|j: int| 0 <= j < first_top_level(tv) ==> !tv[j].top_level,
                i <= first_top_level(tv),
            decreases targets.len() - i,
        {
            if targets[i].top_level {
                assert(tv[i as int] == targets@[i as int]@);
                assert(i as int == first_top_level(tv));
                let r = targets[i].clone();
                return r;
            }
            i = i + 1;
        }
        proof {
            assert(false);
        }
        targets[0].clone()
    }
}

/// The confirmations of each file target, one row per target and one entry per
/// media manager asked.
pub open spec fn rows_view(c: Seq<Vec<bool>>) -> Seq<Seq<bool>> {
    c.map_values(|v: Vec<bool>| v@)
}

/// A transfer counts as imported when every file target was confirmed by at
/// least one media manager.
pub open spec fn every_target_confirmed(c: Seq<Seq<bool>>) -> bool {
    forall|i: int| 0 <= i < c.len() ==> #[trigger] row_confirmed(c[i])
}

/// A target is confirmed when any media manager confirmed it.
pub open spec fn row_confirmed(row: Seq<bool>) -> bool {
    exists|j: int| 0 <= j < row.len() && #[trigger] row[j]
}

fn any_confirmed(row: &Vec<bool>) -> (r: bool)
    ensures
        r == row_confirmed(row@),
{
    let mut j: usize = 0;
    while j < row.len()
        invariant
            j <= row.len(),
            forall|k: int| 0 <= k < j ==> !row@[k],
        decreases row.len() - j,
    {
        if row[j] {
            return true;
        }
        j = j + 1;
    }
    false
}

/// Combines the confirmations: any manager suffices for a target, and every
/// target must be confirmed.
pub fn all_targets_imported(confirmations: &Vec<Vec<bool>>) -> (r: bool)
    ensures
        r == every_target_confirmed(rows_view(confirmations@)),
{
    let ghost rows = rows_view(confirmations@);
    let mut i: usize = 0;
    while i < confirmations.len()
        invariant
            i <= confirmations.len(),
            rows == rows_view(confirmations@),
            forall|k: int| 0 <= k < i ==> #[trigger] row_confirmed(rows[k]),
        decreases confirmations.len() - i,
    {
        if !any_confirmed(&confirmations[i]) {
            assert(rows[i as int] == confirmations@[i as int]@);
            return false;
        }
        i = i + 1;
    }
    true
}

impl Transfer {
    /// The file targets, whose import is asked of the media managers.
    pub fn import_targets(&self) -> (r: Vec<DownloadTarget>)
        requires
            self.targets is Some,
        ensures
            targets_view(r@) == file_targets(self@.targets->0),
    {
        let targets = self.targets.as_ref().unwrap();
        let ghost tv = targets_view(targets@);
        let mut r: Vec<DownloadTarget> = Vec::new();
        let mut i: usize = 0;
        while i < targets.len()
            invariant
                i <= targets.len(),
                tv == targets_view(targets@),
                targets_view(r@) == file_targets(tv.subrange(0, i as int)),
            decreases targets.len() - i,
        {
            proof {
                reveal(Seq::filter);
                assert(tv.subrange(0, i + 1).drop_last() =~= tv.subrange(0, i as int));
            }
            if targets[i].target_type == TargetType::File {
                let ghost before = r@;
                r.push(targets[i].clone());
                assert(targets_view(r@) =~= targets_view(before).push(tv[i as int]));
            }
            i = i + 1;
        }
        assert(tv.subrange(0, targets.len() as int) =~= tv);
        r
    }

    /// Whether the transfer is imported, given one row of confirmations per
    /// file target (see [`Transfer::import_targets`]).
    pub fn is_imported(&self, confirmations: &Vec<Vec<bool>>) -> (r: bool)
        requires
            self.targets is Some,
            confirmations@.len() == file_targets(self@.targets->0).len(),
        ensures
            r == every_target_confirmed(rows_view(confirmations@)),
    {
        all_targets_imported(confirmations)
    }
}

/// A message that advances a transfer through the pipeline.
#[derive(Debug)]
pub enum TransferMessage {
    QueuedForDownload(Transfer),
    Downloaded(Transfer),
    Imported(Transfer),
}

} // verus!
