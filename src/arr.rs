use crate::config::{ArrConfig, Config};
use crate::transfer::{DownloadTarget, MediaType};
use vstd::prelude::*;
use vstd::string::*;

verus! {

/// The kinds of media manager that can confirm imports.
#[derive(PartialEq, Eq, Structural, Clone, Copy, Debug)]
pub enum ArrAppType {
    Lidarr,
    Radarr,
    Sonarr,
    Whisparr,
}

/// One configured media manager, and the media type it imports.
#[derive(Debug)]
pub struct ArrApp {
    pub app_type: ArrAppType,
    pub config: ArrConfig,
    pub media_type: MediaType,
}

/// Why a target could not be checked against a media manager.
#[derive(PartialEq, Eq, Structural, Clone, Copy, Debug)]
pub enum ArrError {
    /// The target carries no media type, so no manager can be chosen for it.
    NoMediaType,
}

/// One event of a media manager's history, with the path it recorded as
/// imported from, if any.
#[derive(Debug)]
pub struct ArrHistoryRecord {
    pub event_type: String,
    pub dropped_path: Option<String>,
}

/// One page of a media manager's history.
#[derive(Debug)]
pub struct ArrHistoryResponse {
    pub total_records: u32,
    pub records: Vec<ArrHistoryRecord>,
}

/// The managers that a configuration enables, in this order: Lidarr for
/// audio, then Radarr, Sonarr and Whisparr for video.
pub open spec fn configured_apps(c: Config) -> Seq<(ArrAppType, ArrConfig, MediaType)> {
    let l = match c.lidarr {
        Some(a) => seq![(ArrAppType::Lidarr, a, MediaType::Audio)],
        None => Seq::empty(),
    };
    let r = match c.radarr {
        Some(a) => seq![(ArrAppType::Radarr, a, MediaType::Video)],
        None => Seq::empty(),
    };
    let s = match c.sonarr {
        Some(a) => seq![(ArrAppType::Sonarr, a, MediaType::Video)],
        None => Seq::empty(),
    };
    let w = match c.whisparr {
        Some(a) => seq![(ArrAppType::Whisparr, a, MediaType::Video)],
        None => Seq::empty(),
    };
    l + r + s + w
}

/// What a configured manager is: its kind, its settings and its media type.
pub open spec fn app_view(a: ArrApp) -> (ArrAppType, ArrConfig, MediaType) {
    (a.app_type, a.config, a.media_type)
}

/// The decimal digits of `n`.
pub open spec fn decimal(n: nat) -> Seq<char>
    decreases n,
{
    if n < 10 {
        seq![digit_char(n)]
    } else {
        decimal(n / 10).push(digit_char(n % 10))
    }
}

/// The character of a decimal digit.
pub open spec fn digit_char(d: nat) -> char {
    if d == 0 { '0' }
    else if d == 1 { '1' }
    else if d == 2 { '2' }
    else if d == 3 { '3' }
    else if d == 4 { '4' }
    else if d == 5 { '5' }
    else if d == 6 { '6' }
    else if d == 7 { '7' }
    else if d == 8 { '8' }
    else { '9' }
}

fn digit_str(d: u32) -> (r: &'static str)
    requires
        d < 10,
    ensures
        r@ == seq![digit_char(d as nat)],
{
    proof {
        reveal_strlit("0");
        reveal_strlit("1");
        reveal_strlit("2");
        reveal_strlit("3");
        reveal_strlit("4");
        reveal_strlit("5");
        reveal_strlit("6");
        reveal_strlit("7");
        reveal_strlit("8");
        reveal_strlit("9");
    }
    if d == 0 { "0" }
    else if d == 1 { "1" }
    else if d == 2 { "2" }
    else if d == 3 { "3" }
    else if d == 4 { "4" }
    else if d == 5 { "5" }
    else if d == 6 { "6" }
    else if d == 7 { "7" }
    else if d == 8 { "8" }
    else { "9" }
}

/// Appends the decimal digits of `n` to `s`.
pub fn push_decimal(s: &mut String, n: u32)
    ensures
        final(s)@ == old(s)@ + decimal(n as nat),
    decreases n,
{
    if n >= 10 {
        push_decimal(s, n / 10);
    }
    s.append(digit_str(n % 10));
    assert(final(s)@ =~= old(s)@ + decimal(n as nat));
}

/// The history query of a manager, from its base URL and a page number.
pub open spec fn history_url(app_type: ArrAppType, base: Seq<char>, page: nat) -> Seq<char> {
    let query = match app_type {
        ArrAppType::Lidarr => "/api/v1/history?includeArtist=false&includeAlbum=false&includeTrack=false&page="@,
        _ => "/api/v3/history?includeSeries=false&includeEpisode=false&page="@,
    };
    base + query + decimal(page) + "&pageSize=1000"@
}

/// The history events that record an import.
pub open spec fn is_import_event(event_type: Seq<char>) -> bool {
    event_type == "downloadFolderImported"@ || event_type == "trackFileImported"@
}

/// A history record confirms the import of `path` when it is an import event
/// whose recorded source path is exactly `path`.
pub open spec fn confirms(record: ArrHistoryRecord, path: Seq<char>) -> bool {
    is_import_event(record.event_type@) && match record.dropped_path {
        Some(p) => p@ == path,
        None => false,
    }
}

/// Whether one of `records` confirms the import of `path`.
pub open spec fn page_confirms(records: Seq<ArrHistoryRecord>, path: Seq<char>) -> bool {
    exists|i: int| 0 <= i < records.len() && #[trigger] confirms(records[i], path)
}

/// Whether `record` confirms the import of `path`.
pub fn record_confirms(record: &ArrHistoryRecord, path: &String) -> (r: bool)
    ensures
        r == confirms(*record, path@),
{
    let ev = &record.event_type;
    let import_event = *ev == String::from_str("downloadFolderImported") || *ev == String::from_str(
        "trackFileImported",
    );
    if !import_event {
        return false;
    }
    match &record.dropped_path {
        Some(p) => *p == *path,
        None => false,
    }
}

/// The next move of a history scan.
#[derive(PartialEq, Eq, Structural, Clone, Copy, Debug)]
pub enum ScanStep {
    /// An import event for the path was found.
    Imported,
    /// The scan ended without finding one.
    NotImported,
    /// Fetch this history page and hand it to [`HistoryScan::on_page`].
    Fetch(u32),
}

/// The paging through a manager's history in search of an import of one path.
/// `inspected` counts the records read so far that did not match; a further
/// page is read while the manager reports more records in total than that,
/// and the last page was not empty.
#[derive(PartialEq, Eq, Structural, Clone, Copy, Debug)]
pub struct HistoryScan {
    pub page: u32,
    pub inspected: u64,
}

/// `a + b`, or the largest `u64` where the sum does not fit.
pub open spec fn add_capped(a: u64, b: nat) -> u64 {
    if a + b <= u64::MAX {
        (a + b) as u64
    } else {
        u64::MAX
    }
}

/// One step of a scan: the move after reading a page with `records` out of
/// `total` records in all, and the scan's state after it.
pub open spec fn scan_step(scan: HistoryScan, records: Seq<ArrHistoryRecord>, total: u32, path: Seq<char>) -> (
    ScanStep,
    HistoryScan,
) {
    if page_confirms(records, path) {
        (ScanStep::Imported, scan)
    } else {
        let inspected = add_capped(scan.inspected, records.len());
        if inspected < (total as u64) && records.len() > 0 && scan.page < u32::MAX {
            (
                ScanStep::Fetch((scan.page + 1) as u32),
                HistoryScan { page: (scan.page + 1) as u32, inspected },
            )
        } else {
            (ScanStep::NotImported, HistoryScan { page: scan.page, inspected })
        }
    }
}

/// Whether a scan from `scan`, handed the pages of a history one after the
/// other for as long as it asks for more, ends by finding an import of `path`.
pub open spec fn scan_finds(
    scan: HistoryScan,
    pages: Seq<Seq<ArrHistoryRecord>>,
    total: u32,
    path: Seq<char>,
) -> bool
    decreases pages.len(),
{
    if pages.len() == 0 {
        false
    } else {
        let (step, next) = scan_step(scan, pages[0], total, path);
        match step {
            ScanStep::Imported => true,
            ScanStep::NotImported => false,
            ScanStep::Fetch(_) => scan_finds(next, pages.drop_first(), total, path),
        }
    }
}

/// The number of records over all pages.
pub open spec fn records_in(pages: Seq<Seq<ArrHistoryRecord>>) -> nat
    decreases pages.len(),
{
    if pages.len() == 0 {
        0
    } else {
        pages[0].len() + records_in(pages.drop_first())
    }
}

/// Whether some record of some page confirms the import of `path`.
pub open spec fn history_confirms(pages: Seq<Seq<ArrHistoryRecord>>, path: Seq<char>) -> bool {
    exists|i: int| 0 <= i < pages.len() && #[trigger] page_confirms(pages[i], path)
}

proof fn lemma_scan_from(scan: HistoryScan, pages: Seq<Seq<ArrHistoryRecord>>, total: u32, path: Seq<char>)
    requires
        forall|i: int| 0 <= i < pages.len() ==> (#[trigger] pages[i]).len() > 0,
        scan.inspected + records_in(pages) == total,
        scan.page + pages.len() <= u32::MAX + 1,
    ensures
        scan_finds(scan, pages, total, path) == history_confirms(pages, path),
    decreases pages.len(),
{
    if pages.len() > 0 {
        let rest = pages.drop_first();
        if page_confirms(pages[0], path) {
            assert(history_confirms(pages, path));
        } else {
            assert(forall|i: int| 0 <= i < rest.len() ==> rest[i] == pages[i + 1]);
            if rest.len() > 0 {
                assert(rest[0].len() > 0);
                assert(records_in(rest) > 0);
                let next = scan_step(scan, pages[0], total, path).1;
                lemma_scan_from(next, rest, total, path);
                if history_confirms(pages, path) {
                    let i = choose|i: int| 0 <= i < pages.len() && #[trigger] page_confirms(pages[i], path);
                    assert(page_confirms(rest[i - 1], path));
                }
                if history_confirms(rest, path) {
                    let i = choose|i: int| 0 <= i < rest.len() && #[trigger] page_confirms(rest[i], path);
                    assert(page_confirms(pages[i + 1], path));
                }
            } else {
                assert(records_in(rest) == 0);
                if history_confirms(pages, path) {
                    let i = choose|i: int| 0 <= i < pages.len() && #[trigger] page_confirms(pages[i], path);
                    assert(i == 0);
                }
            }
        }
    }
}

/// Paging through a manager's whole history, laid out as non-empty `pages`
/// that together hold the `total` records it reports, a scan from the first
/// page finds an import of `path` exactly when some record confirms it.
pub proof fn lemma_scan_reads_whole_history(pages: Seq<Seq<ArrHistoryRecord>>, total: u32, path: Seq<char>)
    requires
        forall|i: int| 0 <= i < pages.len() ==> (#[trigger] pages[i]).len() > 0,
        records_in(pages) == total,
        pages.len() <= u32::MAX + 1,
    ensures
        scan_finds(HistoryScan { page: 0, inspected: 0 }, pages, total, path) == history_confirms(
            pages,
            path,
        ),
{
    lemma_scan_from(HistoryScan { page: 0, inspected: 0 }, pages, total, path);
}

impl HistoryScan {
    /// A scan that starts at the first page.
    pub fn new() -> (r: HistoryScan)
        ensures
            r == (HistoryScan { page: 0, inspected: 0 }),
    {
        HistoryScan { page: 0, inspected: 0 }
    }

    /// Takes in the page just fetched and decides what comes next.
    pub fn on_page(&mut self, response: &ArrHistoryResponse, path: &String) -> (r: ScanStep)
        ensures
            (r, *final(self)) == scan_step(*old(self), response.records@, response.total_records, path@),
            page_confirms(response.records@, path@) ==> r == ScanStep::Imported,
            !page_confirms(response.records@, path@) ==> {
                let inspected = add_capped(old(self).inspected, response.records@.len());
                &&& final(self).inspected == inspected
                &&& if inspected < (response.total_records as u64) && response.records@.len() > 0
                    && old(self).page < u32::MAX {
                    r == ScanStep::Fetch((old(self).page + 1) as u32) && final(self).page == old(
                        self,
                    ).page + 1
                } else {
                    r == ScanStep::NotImported && final(self).page == old(self).page
                }
            },
    {
        let mut i: usize = 0;
        while i < response.records.len()
            invariant
                i <= response.records@.len(),
                forall|k: int| 0 <= k < i ==> !confirms(#[trigger] response.records@[k], path@),
            decreases response.records@.len() - i,
        {
            if record_confirms(&response.records[i], path) {
                return ScanStep::Imported;
            }
            i = i + 1;
        }
        let n = response.records.len() as u64;
        self.inspected = if self.inspected <= u64::MAX - n {
            self.inspected + n
        } else {
            u64::MAX
        };
        if self.inspected < (response.total_records as u64) && n > 0 && self.page < u32::MAX {
            self.page = self.page + 1;
            ScanStep::Fetch(self.page)
        } else {
            ScanStep::NotImported
        }
    }
}

impl ArrApp {
    pub fn new(app_type: ArrAppType, config: &ArrConfig, media_type: MediaType) -> (r: ArrApp)
        ensures
            r.app_type == app_type,
            r.config == *config,
            r.media_type == media_type,
    {
        ArrApp { app_type, config: config.clone(), media_type }
    }

    /// The managers that `config` enables.
    pub fn from_config(config: &Config) -> (r: Vec<ArrApp>)
        ensures
            r@.map_values(|a: ArrApp| app_view(a)) == configured_apps(*config),
    {
        let mut apps: Vec<ArrApp> = Vec::new();
        if let Some(c) = &config.lidarr {
            apps.push(ArrApp::new(ArrAppType::Lidarr, c, MediaType::Audio));
        }
        if let Some(c) = &config.radarr {
            apps.push(ArrApp::new(ArrAppType::Radarr, c, MediaType::Video));
        }
        if let Some(c) = &config.sonarr {
            apps.push(ArrApp::new(ArrAppType::Sonarr, c, MediaType::Video));
        }
        if let Some(c) = &config.whisparr {
            apps.push(ArrApp::new(ArrAppType::Whisparr, c, MediaType::Video));
        }
        assert(apps@.map_values(|a: ArrApp| app_view(a)) =~= configured_apps(*config));
        apps
    }

    /// The URL of one page of this manager's history.
    pub fn url(&self, page: u32) -> (r: String)
        ensures
            r@ == history_url(self.app_type, self.config.url@, page as nat),
    {
        let mut s = self.config.url.clone();
        match self.app_type {
            ArrAppType::Lidarr => s.append(
                "/api/v1/history?includeArtist=false&includeAlbum=false&includeTrack=false&page=",
            ),
            _ => s.append("/api/v3/history?includeSeries=false&includeEpisode=false&page="),
        }
        push_decimal(&mut s, page);
        s.append("&pageSize=1000");
        s
    }

    /// Whether this manager is the one to ask about `target`: only a manager of
    /// the target's media type is; a target without a media type is an error.
    pub fn should_handle(&self, target: &DownloadTarget) -> (r: Result<bool, ArrError>)
        ensures
            target.media_type is None ==> r == Err::<bool, ArrError>(ArrError::NoMediaType),
            target.media_type is Some ==> r == Ok::<bool, ArrError>(target.media_type->0 == self.media_type),
    {
        match target.media_type {
            Some(mt) => Ok(mt == self.media_type),
            None => Err(ArrError::NoMediaType),
        }
    }

    /// Starts the import check of `target`: `None` when this manager does not
    /// handle the target's media type (the answer is then "not imported"), else
    /// the scan to run from the first page.
    pub fn check_imported(&self, target: &DownloadTarget) -> (r: Result<Option<HistoryScan>, ArrError>)
        ensures
            target.media_type is None ==> r == Err::<Option<HistoryScan>, ArrError>(ArrError::NoMediaType),
            target.media_type is Some && target.media_type->0 != self.media_type ==> r == Ok::<Option<HistoryScan>, ArrError>(None),
            target.media_type is Some && target.media_type->0 == self.media_type ==> r == Ok::<Option<HistoryScan>, ArrError>(Some(HistoryScan { page: 0, inspected: 0 })),
    {
        match self.should_handle(target) {
            Err(e) => Err(e),
            Ok(false) => Ok(None),
            Ok(true) => Ok(Some(HistoryScan::new())),
        }
    }
}

} // verus!
