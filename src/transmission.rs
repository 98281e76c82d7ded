use crate::putio::PutIOTransfer;
use crate::transfer::{clone_opt_string, opt_string_view};
use crate::text::equals_str;
use vstd::prelude::*;
use vstd::string::*;

verus! {

/// The upper-case form of a string, as std's `str::to_uppercase` gives it.
pub uninterp spec fn uppercase_of(s: Seq<char>) -> Seq<char>;

/// Relies on `str::to_uppercase`: the result depends on the characters alone.
#[verifier::external_body]
fn uppercased(s: &str) -> (r: String)
    ensures
        r@ == uppercase_of(s@),
{
    s.to_uppercase()
}

/// Seconds since the Unix epoch of a date-time string read with a chrono
/// format, taken as UTC; `None` where chrono does not accept the string.
pub uninterp spec fn utc_seconds(s: Seq<char>, format: Seq<char>) -> Option<i64>;

/// Relies on chrono's `NaiveDateTime::parse_from_str`, then `and_utc` and
/// `timestamp`: the result depends on the two strings alone.
#[verifier::external_body]
fn parse_utc_seconds(s: &str, format: &str) -> (r: Option<i64>)
    ensures
        r == utc_seconds(s@, format@),
{
    chrono::NaiveDateTime::parse_from_str(s, format).ok().map(|d| d.and_utc().timestamp())
}

/// The download-client status that a remote transfer status maps to.
#[derive(PartialEq, Eq, Structural, Clone, Copy, Debug)]
pub enum TransmissionTorrentStatus {
    Stopped,
    CheckWait,
    Check,
    Queued,
    Downloading,
    SeedingWait,
    Seeding,
}

/// The status for an upper-cased remote status; unknown ones count as waiting
/// for a check.
pub open spec fn status_of_upper(s: Seq<char>) -> TransmissionTorrentStatus {
    if s == "STOPPED"@ || s == "COMPLETED"@ || s == "ERROR"@ {
        TransmissionTorrentStatus::Stopped
    } else if s == "CHECKWAIT"@ || s == "PREPARING_DOWNLOAD"@ {
        TransmissionTorrentStatus::CheckWait
    } else if s == "CHECK"@ || s == "COMPLETING"@ {
        TransmissionTorrentStatus::Check
    } else if s == "QUEUED"@ || s == "IN_QUEUE"@ {
        TransmissionTorrentStatus::Queued
    } else if s == "DOWNLOADING"@ {
        TransmissionTorrentStatus::Downloading
    } else if s == "SEEDINGWAIT"@ {
        TransmissionTorrentStatus::SeedingWait
    } else if s == "SEEDING"@ {
        TransmissionTorrentStatus::Seeding
    } else {
        TransmissionTorrentStatus::CheckWait
    }
}

/// Maps an upper-cased remote status.
pub fn status_from_upper(s: &String) -> (r: TransmissionTorrentStatus)
    ensures
        r == status_of_upper(s@),
{
    if equals_str(s, "STOPPED") || equals_str(s, "COMPLETED") || equals_str(s, "ERROR") {
        TransmissionTorrentStatus::Stopped
    } else if equals_str(s, "CHECKWAIT") || equals_str(s, "PREPARING_DOWNLOAD") {
        TransmissionTorrentStatus::CheckWait
    } else if equals_str(s, "CHECK") || equals_str(s, "COMPLETING") {
        TransmissionTorrentStatus::Check
    } else if equals_str(s, "QUEUED") || equals_str(s, "IN_QUEUE") {
        TransmissionTorrentStatus::Queued
    } else if equals_str(s, "DOWNLOADING") {
        TransmissionTorrentStatus::Downloading
    } else if equals_str(s, "SEEDINGWAIT") {
        TransmissionTorrentStatus::SeedingWait
    } else if equals_str(s, "SEEDING") {
        TransmissionTorrentStatus::Seeding
    } else {
        TransmissionTorrentStatus::CheckWait
    }
}

impl TransmissionTorrentStatus {
    /// Maps a remote transfer status, whatever its case.
    pub fn from(value: &String) -> (r: TransmissionTorrentStatus)
        ensures
            r == status_of_upper(uppercase_of(value@)),
    {
        let upper = uppercased(value.as_str());
        status_from_upper(&upper)
    }
}

/// A transfer as the download-client protocol reports it.
#[derive(Debug)]
pub struct TransmissionTorrent {
    pub id: u64,
    pub hash_string: Option<String>,
    pub name: String,
    pub download_dir: String,
    pub total_size: i64,
    pub left_until_done: i64,
    pub is_finished: bool,
    pub eta: u64,
    pub status: TransmissionTorrentStatus,
    pub seconds_downloading: i64,
    pub error_string: Option<String>,
    pub downloaded_ever: i64,
    pub seed_ratio_mode: u32,
    pub seed_idle_limit: u64,
    pub seed_idle_mode: u32,
    pub file_count: u32,
}

/// `x` limited to the range of `i64`.
pub open spec fn clamp_i64(x: int) -> i64 {
    if x > i64::MAX {
        i64::MAX
    } else if x < i64::MIN {
        i64::MIN
    } else {
        x as i64
    }
}

fn clamped_difference(a: i64, b: i64) -> (r: i64)
    ensures
        r == clamp_i64(a - b),
{
    let d: i128 = a as i128 - b as i128;
    if d > i64::MAX as i128 {
        i64::MAX
    } else if d < i64::MIN as i128 {
        i64::MIN
    } else {
        d as i64
    }
}

pub open spec fn unwrap_or_zero(x: Option<i64>) -> i64 {
    match x {
        Some(v) => v,
        None => 0,
    }
}

/// The format in which the remote service writes its start times.
pub open spec fn start_format() -> Seq<char> {
    "%FT%T"@
}

/// Seconds a transfer has been running at `now`: zero when its start time is
/// missing or unreadable.
pub open spec fn seconds_since_start(started_at: Option<Seq<char>>, now: i64) -> i64 {
    match started_at {
        Some(s) => match utc_seconds(s, start_format()) {
            Some(start) => clamp_i64(now - start),
            None => 0,
        },
        None => 0,
    }
}

impl TransmissionTorrent {
    /// Reports a remote transfer at time `now` (seconds since the epoch).
    pub fn from(t: &PutIOTransfer, now: i64) -> (r: TransmissionTorrent)
        ensures
            r.id == t.id,
            opt_string_view(r.hash_string) == opt_string_view(t.hash),
            r.name@ == (match t.name {
                Some(n) => n@,
                None => "Unknown"@,
            }),
            r.download_dir@ == Seq::<char>::empty(),
            r.total_size == unwrap_or_zero(t.size),
            r.left_until_done == (if unwrap_or_zero(t.size) - unwrap_or_zero(t.downloaded) > 0 {
                clamp_i64(unwrap_or_zero(t.size) - unwrap_or_zero(t.downloaded))
            } else {
                0
            }),
            r.is_finished == t.finished_at is Some,
            r.eta == (match t.estimated_time {
                Some(e) => e,
                None => 0,
            }),
            r.status == status_of_upper(uppercase_of(t.status@)),
            r.seconds_downloading == seconds_since_start(opt_string_view(t.started_at), now),
            opt_string_view(r.error_string) == opt_string_view(t.error_message),
            r.downloaded_ever == unwrap_or_zero(t.downloaded),
            r.seed_ratio_mode == 0,
            r.seed_idle_limit == 0,
            r.seed_idle_mode == 0,
            r.file_count == 1,
    {
        let seconds_downloading = match &t.started_at {
            Some(s) => match parse_utc_seconds(s.as_str(), "%FT%T") {
                Some(start) => clamped_difference(now, start),
                None => 0,
            },
            None => 0,
        };
        let size = match t.size {
            Some(v) => v,
            None => 0,
        };
        let downloaded = match t.downloaded {
            Some(v) => v,
            None => 0,
        };
        let left = clamped_difference(size, downloaded);
        let left_until_done = if left > 0 {
            left
        } else {
            0
        };
        let name = match &t.name {
            Some(n) => n.clone(),
            None => String::from_str("Unknown"),
        };
        TransmissionTorrent {
            id: t.id,
            hash_string: clone_opt_string(&t.hash),
            name,
            download_dir: String::new(),
            total_size: size,
            left_until_done,
            is_finished: t.finished_at.is_some(),
            eta: match t.estimated_time {
                Some(e) => e,
                None => 0,
            },
            status: TransmissionTorrentStatus::from(&t.status),
            seconds_downloading,
            error_string: clone_opt_string(&t.error_message),
            downloaded_ever: downloaded,
            seed_ratio_mode: 0,
            seed_idle_limit: 0,
            seed_idle_mode: 0,
            file_count: 1,
        }
    }
}

} // verus!
