use putioarr::arr::{ArrApp, ArrAppType, ArrError, ArrHistoryRecord, ArrHistoryResponse, HistoryScan, ScanStep};
use putioarr::config::{ArrConfig, Config, PutioConfig};
use putioarr::discovery::Discovery;
use putioarr::download::{download_status, plan_download, DownloadDoneStatus, DownloadStep};
use putioarr::orchestration::{
    import_watch_step, removal_for, route, seed_watch_step, BatchOutcome, DownloadBatch,
    ImportWatchStep, Removal, SeedWatchStep, WorkerAction,
};
use putioarr::paths::{downloading_path, join_path};
use putioarr::putio::{seeding_finished, PutIOTransfer};
use putioarr::rpc::{add_request, transfers_to_remove, validate_user, AddError, AddRequest, RemovalRequest, RpcMethod};
use putioarr::transfer::{all_targets_imported, DownloadTarget, MediaType, TargetType, Transfer, TransferMessage};
use putioarr::transmission::{TransmissionTorrent, TransmissionTorrentStatus};
use putioarr::tree::{is_skipped, node_need, NodeNeed, RemoteNode};

fn remote(id: u64, hash: Option<&str>, file_id: Option<u64>, status: &str) -> PutIOTransfer {
    PutIOTransfer {
        id,
        hash: hash.map(|h| h.to_string()),
        name: Some(format!("transfer {id}")),
        size: Some(100),
        downloaded: Some(40),
        finished_at: None,
        estimated_time: Some(12),
        status: status.to_string(),
        started_at: None,
        error_message: None,
        file_id,
        percent_done: Some(40),
        userfile_exists: true,
    }
}

fn leaf(id: u64, name: &str, file_type: &str, url: Option<&str>) -> RemoteNode {
    RemoteNode {
        id,
        name: name.to_string(),
        file_type: file_type.to_string(),
        url: url.map(|u| u.to_string()),
        children: vec![],
    }
}

fn folder(id: u64, name: &str, children: Vec<RemoteNode>) -> RemoteNode {
    RemoteNode { id, name: name.to_string(), file_type: "FOLDER".to_string(), url: None, children }
}

fn skip() -> Vec<String> {
    vec!["sample".to_string(), "extras".to_string()]
}

fn sample_tree() -> RemoteNode {
    folder(
        1,
        "Show",
        vec![
            leaf(2, "ep1.mkv", "VIDEO", Some("https://x/2")),
            folder(3, "Sample", vec![leaf(4, "sample.mkv", "VIDEO", Some("https://x/4"))]),
            leaf(5, "notes.txt", "TEXT", None),
            folder(6, "Season 1", vec![leaf(7, "song.mp3", "AUDIO", Some("https://x/7"))]),
        ],
    )
}

fn target(to: &str, target_type: TargetType, top_level: bool) -> DownloadTarget {
    DownloadTarget {
        from: match target_type {
            TargetType::File => Some(format!("https://x/{to}")),
            TargetType::Directory => None,
        },
        to: to.to_string(),
        target_type,
        top_level,
        transfer_hash: "abcd1234".to_string(),
        media_type: match target_type {
            TargetType::File => Some(MediaType::Video),
            TargetType::Directory => None,
        },
    }
}

#[test]
fn join_path_inserts_one_separator() {
    assert_eq!(join_path("/downloads", "Show"), "/downloads/Show");
    assert_eq!(join_path("/downloads/", "Show"), "/downloads/Show");
    assert_eq!(join_path("", "Show"), "Show");
    assert_eq!(join_path("/downloads", "/abs"), "/abs");
}

#[test]
fn partial_file_is_a_sibling() {
    assert_eq!(downloading_path("/d/a.mkv"), "/d/a.mkv.downloading");
}

#[test]
fn resolver_walks_in_pre_order_and_skips() {
    let t = Transfer::from(&remote(7, Some("abcd1234"), Some(1), "COMPLETED"));
    let targets = t.get_download_targets(&sample_tree(), "/downloads", &skip());
    let paths: Vec<&str> = targets.iter().map(|t| t.to.as_str()).collect();
    assert_eq!(
        paths,
        vec!["/downloads/Show", "/downloads/Show/ep1.mkv", "/downloads/Show/Season 1", "/downloads/Show/Season 1/song.mp3"]
    );
    assert_eq!(targets[0].target_type, TargetType::Directory);
    assert_eq!(targets[1].from.as_deref(), Some("https://x/2"));
    assert_eq!(targets[1].media_type, Some(MediaType::Video));
    assert_eq!(targets[3].media_type, Some(MediaType::Audio));
    assert!(targets.iter().all(|t| t.transfer_hash == "abcd1234"));
}

#[test]
fn resolver_is_stable_with_one_top_level() {
    let t = Transfer::from(&remote(7, Some("abcd1234"), Some(1), "COMPLETED"));
    let first = t.get_download_targets(&sample_tree(), "/downloads", &skip());
    let second = t.get_download_targets(&sample_tree(), "/downloads", &skip());
    let a: Vec<(String, bool)> = first.iter().map(|t| (t.to.clone(), t.top_level)).collect();
    let b: Vec<(String, bool)> = second.iter().map(|t| (t.to.clone(), t.top_level)).collect();
    assert_eq!(a, b);
    assert_eq!(first.iter().filter(|t| t.top_level).count(), 1);
    assert!(first[0].top_level);
}

#[test]
fn skipped_folder_and_descendants_never_appear() {
    let t = Transfer::from(&remote(7, None, Some(1), "COMPLETED"));
    let tree = folder(1, "Show", vec![folder(3, "EXTRAS", vec![folder(4, "deep", vec![leaf(5, "x.mkv", "VIDEO", Some("u"))])])]);
    let targets = t.get_download_targets(&tree, "/d", &skip());
    assert_eq!(targets.len(), 1);
    assert_eq!(targets[0].to, "/d/Show");
    assert_eq!(targets[0].transfer_hash, "0000");
    let skipped_root = folder(1, "Sample", vec![leaf(2, "a.mkv", "VIDEO", Some("u"))]);
    assert!(t.get_download_targets(&skipped_root, "/d", &skip()).is_empty());
}

#[test]
fn skip_match_ignores_case() {
    assert!(is_skipped("SaMpLe", &skip()));
    assert!(!is_skipped("Samples", &skip()));
    assert_eq!(node_need("Sample", &"FOLDER".to_string(), &skip()), NodeNeed::Nothing);
    assert_eq!(node_need("Show", &"FOLDER".to_string(), &skip()), NodeNeed::Children);
    assert_eq!(node_need("a.mkv", &"VIDEO".to_string(), &skip()), NodeNeed::Url);
    assert_eq!(node_need("a.txt", &"TEXT".to_string(), &skip()), NodeNeed::Nothing);
}

#[test]
fn media_type_from_file_type() {
    assert_eq!(MediaType::from_file_type_str("AUDIO"), Some(MediaType::Audio));
    assert_eq!(MediaType::from_file_type_str("VIDEO"), Some(MediaType::Video));
    assert_eq!(MediaType::from_file_type_str("video"), None);
}

#[test]
fn transfer_from_listing_defaults_name() {
    let mut r = remote(3, None, None, "DOWNLOADING");
    r.name = None;
    let t = Transfer::from(&r);
    assert_eq!(t.name, "unknown");
    assert_eq!(t.transfer_id, 3);
    assert!(t.targets.is_none());
    assert!(!r.is_downloadable());
    assert_eq!(t.hash_or_default(), "0000");
}

#[test]
fn top_level_target_is_found() {
    let t = Transfer::from(&remote(7, Some("abcd1234"), Some(1), "COMPLETED"))
        .with_targets(vec![target("/d/a", TargetType::File, false), target("/d", TargetType::Directory, true)]);
    assert_eq!(t.get_top_level().to, "/d");
}

#[test]
fn startup_import_announced_and_never_queued() {
    let listing = vec![remote(7, Some("abcd1234"), Some(42), "COMPLETED")];
    let tree = leaf(42, "movie.mkv", "VIDEO", Some("https://x/42"));
    let t = Transfer::from(&listing[0]);
    let targets = t.get_download_targets(&tree, "/downloads", &skip());
    let t = t.with_targets(targets);
    assert_eq!(t.import_targets()[0].to, "/downloads/movie.mkv");
    let imported = t.is_imported(&vec![vec![true]]);
    assert!(imported);
    let mut d = Discovery::new();
    let msg = d.startup_check(t, imported);
    match msg {
        Some(TransferMessage::Imported(t)) => assert_eq!(t.transfer_id, 7),
        _ => panic!("expected an import announcement"),
    }
    assert_eq!(d.seen, vec![7]);
    let queued = d.tick(&listing);
    assert!(queued.is_empty());
    assert_eq!(d.seen, vec![7]);
}

#[test]
fn startup_leaves_unimported_transfer_for_ticks() {
    let listing = vec![remote(8, Some("ffff0000"), Some(1), "COMPLETED")];
    let mut d = Discovery::new();
    let t = Transfer::from(&listing[0]);
    assert!(d.startup_check(t, false).is_none());
    assert!(d.seen.is_empty());
    let queued = d.tick(&listing);
    assert_eq!(queued.len(), 1);
    assert!(matches!(&queued[0], TransferMessage::QueuedForDownload(t) if t.transfer_id == 8));
}

#[test]
fn tick_converges_working_set() {
    let mut d = Discovery::new();
    d.seen = vec![1, 2];
    let listing = vec![
        remote(2, None, Some(20), "SEEDING"),
        remote(3, None, Some(30), "COMPLETED"),
        remote(3, None, Some(30), "COMPLETED"),
        remote(4, None, None, "DOWNLOADING"),
    ];
    let queued = d.tick(&listing);
    assert_eq!(queued.len(), 1);
    assert!(matches!(&queued[0], TransferMessage::QueuedForDownload(t) if t.transfer_id == 3));
    let mut seen = d.seen.clone();
    seen.sort();
    assert_eq!(seen, vec![2, 3]);
    assert!(d.tick(&listing).is_empty());
    let queued = d.tick(&vec![]);
    assert!(queued.is_empty());
    assert!(d.seen.is_empty());
    assert_eq!(d.tick(&listing).len(), 2);
}

#[test]
fn batch_with_a_failure_is_stuck_and_not_requeued() {
    let listing = vec![remote(9, Some("abcd1234"), Some(90), "COMPLETED")];
    let mut d = Discovery::new();
    let queued = d.tick(&listing);
    let t = match route(queued.into_iter().next().unwrap()) {
        WorkerAction::Download(t) => t,
        _ => panic!("expected a download"),
    };
    let targets = vec![target("/d/a.mkv", TargetType::File, true), target("/d/b.mkv", TargetType::File, false)];
    let mut batch = DownloadBatch::new(t, targets);
    let sent = batch.dispatch();
    assert_eq!(sent.len(), 2);
    assert!(!batch.is_complete());
    batch.record(&DownloadDoneStatus::Success(sent[0].clone()));
    batch.record(&DownloadDoneStatus::Failed(sent[1].clone()));
    assert!(batch.is_complete());
    match batch.finish() {
        BatchOutcome::Stuck(t) => assert_eq!(t.transfer_id, 9),
        BatchOutcome::Downloaded(_) => panic!("a failed target must not advance"),
    }
    assert!(d.tick(&listing).is_empty());
    assert!(d.tick(&vec![]).is_empty());
    assert_eq!(d.tick(&listing).len(), 1);
}

#[test]
fn batch_all_success_downloads() {
    let t = Transfer::from(&remote(9, Some("abcd1234"), Some(90), "COMPLETED"));
    let mut batch = DownloadBatch::new(t, vec![target("/d", TargetType::Directory, true)]);
    let sent = batch.dispatch();
    batch.record(&DownloadDoneStatus::Success(sent[0].clone()));
    match batch.finish() {
        BatchOutcome::Downloaded(t) => {
            assert_eq!(t.targets.as_ref().unwrap().len(), 1);
            assert!(matches!(route(TransferMessage::Downloaded(t)), WorkerAction::WatchImport(_)));
        }
        BatchOutcome::Stuck(_) => panic!("all targets succeeded"),
    }
}

#[test]
fn existing_destination_is_success_without_fetch() {
    let t = target("/d/a.mkv", TargetType::File, true);
    let step = plan_download(&t, true);
    assert!(matches!(step, DownloadStep::AlreadyPresent));
    assert!(matches!(download_status(t, &step, false), DownloadDoneStatus::Success(_)));
}

#[test]
fn download_plans() {
    let f = target("/d/a.mkv", TargetType::File, true);
    match plan_download(&f, false) {
        DownloadStep::Fetch { url, partial, dest } => {
            assert_eq!(url, "https://x//d/a.mkv");
            assert_eq!(partial, "/d/a.mkv.downloading");
            assert_eq!(dest, "/d/a.mkv");
        }
        _ => panic!("expected a fetch"),
    }
    let d = target("/d", TargetType::Directory, true);
    assert!(matches!(plan_download(&d, false), DownloadStep::CreateDirectory { path } if path == "/d"));
    let mut no_url = target("/d/b.mkv", TargetType::File, false);
    no_url.from = None;
    let step = plan_download(&no_url, false);
    assert!(matches!(step, DownloadStep::MissingUrl));
    assert!(matches!(download_status(no_url, &step, true), DownloadDoneStatus::Failed(_)));
}

#[test]
fn import_requires_every_file_target() {
    assert!(all_targets_imported(&vec![vec![false, true], vec![true]]));
    assert!(!all_targets_imported(&vec![vec![false, true], vec![false, false]]));
    assert!(!all_targets_imported(&vec![vec![]]));
    assert!(all_targets_imported(&vec![]));
    let t = Transfer::from(&remote(1, None, Some(1), "COMPLETED"))
        .with_targets(vec![target("/d", TargetType::Directory, true), target("/d/a", TargetType::File, false)]);
    assert_eq!(t.import_targets().len(), 1);
}

#[test]
fn import_watcher_cleans_up_top_level() {
    let t = Transfer::from(&remote(1, None, Some(1), "COMPLETED"))
        .with_targets(vec![target("/d", TargetType::Directory, true), target("/d/a", TargetType::File, false)]);
    assert!(matches!(import_watch_step(&t, false), ImportWatchStep::Wait));
    match import_watch_step(&t, true) {
        ImportWatchStep::Cleanup(top) => assert_eq!(top.to, "/d"),
        ImportWatchStep::Wait => panic!("expected cleanup"),
    }
    assert_eq!(removal_for(true, false), Some(Removal::Directory));
    assert_eq!(removal_for(false, true), Some(Removal::File));
    assert_eq!(removal_for(false, false), None);
}

#[test]
fn seed_watcher_removes_after_seeding() {
    let t = Transfer::from(&remote(5, None, Some(50), "SEEDING"));
    assert_eq!(seed_watch_step(&t, &"SEEDING".to_string()), SeedWatchStep::KeepWatching);
    assert_eq!(
        seed_watch_step(&t, &"COMPLETED".to_string()),
        SeedWatchStep::Remove { transfer_id: 5, file_id: Some(50) }
    );
    assert!(seeding_finished(&"seeding".to_string()));
}

fn config() -> Config {
    Config {
        bind_address: "0.0.0.0".to_string(),
        download_directory: "/downloads".to_string(),
        download_workers: 4,
        loglevel: "info".to_string(),
        orchestration_workers: 10,
        password: "pw".to_string(),
        polling_interval: 10,
        port: 9091,
        skip_directories: skip(),
        uid: 1000,
        username: "user".to_string(),
        putio: PutioConfig { api_key: "key".to_string() },
        lidarr: Some(ArrConfig { url: "http://lidarr".to_string(), api_key: "l".to_string() }),
        sonarr: Some(ArrConfig { url: "http://sonarr".to_string(), api_key: "s".to_string() }),
        radarr: None,
        whisparr: None,
    }
}

#[test]
fn managers_from_config_and_urls() {
    let apps = ArrApp::from_config(&config());
    assert_eq!(apps.len(), 2);
    assert_eq!(apps[0].app_type, ArrAppType::Lidarr);
    assert_eq!(apps[0].media_type, MediaType::Audio);
    assert_eq!(apps[1].app_type, ArrAppType::Sonarr);
    assert_eq!(
        apps[1].url(12),
        "http://sonarr/api/v3/history?includeSeries=false&includeEpisode=false&page=12&pageSize=1000"
    );
    assert_eq!(
        apps[0].url(0),
        "http://lidarr/api/v1/history?includeArtist=false&includeAlbum=false&includeTrack=false&page=0&pageSize=1000"
    );
}

#[test]
fn manager_handles_only_its_media() {
    let apps = ArrApp::from_config(&config());
    let video = target("/d/a.mkv", TargetType::File, true);
    assert_eq!(apps[1].should_handle(&video), Ok(true));
    assert_eq!(apps[0].should_handle(&video), Ok(false));
    assert_eq!(apps[0].check_imported(&video), Ok(None));
    assert_eq!(apps[1].check_imported(&video), Ok(Some(HistoryScan { page: 0, inspected: 0 })));
    let dir = target("/d", TargetType::Directory, true);
    assert_eq!(apps[1].should_handle(&dir), Err(ArrError::NoMediaType));
}

fn record(event: &str, path: Option<&str>) -> ArrHistoryRecord {
    ArrHistoryRecord { event_type: event.to_string(), dropped_path: path.map(|p| p.to_string()) }
}

#[test]
fn history_scan_finds_exact_import() {
    let mut scan = HistoryScan::new();
    let page = ArrHistoryResponse {
        total_records: 3,
        records: vec![
            record("grabbed", Some("/d/a.mkv")),
            record("downloadFolderImported", Some("/d/a.mkv.other")),
            record("trackFileImported", Some("/d/a.mkv")),
        ],
    };
    assert_eq!(scan.on_page(&page, &"/d/a.mkv".to_string()), ScanStep::Imported);
}

#[test]
fn history_scan_pages_until_total_read() {
    let page = ArrHistoryResponse { total_records: 2, records: vec![record("grabbed", None)] };
    let mut scan = HistoryScan::new();
    assert_eq!(scan.on_page(&page, &"/x".to_string()), ScanStep::Fetch(1));
    assert_eq!(scan, HistoryScan { page: 1, inspected: 1 });
    let last = ArrHistoryResponse { total_records: 2, records: vec![record("downloadFolderImported", Some("/y"))] };
    assert_eq!(scan.on_page(&last, &"/x".to_string()), ScanStep::NotImported);
    assert_eq!(scan, HistoryScan { page: 1, inspected: 2 });
    let mut scan = HistoryScan::new();
    let empty = ArrHistoryResponse { total_records: 10, records: vec![] };
    assert_eq!(scan.on_page(&empty, &"/x".to_string()), ScanStep::NotImported);
    let mut scan = HistoryScan::new();
    let found = ArrHistoryResponse { total_records: 5, records: vec![record("grabbed", None), record("trackFileImported", Some("/x"))] };
    assert_eq!(scan.on_page(&page, &"/x".to_string()), ScanStep::Fetch(1));
    assert_eq!(scan.on_page(&found, &"/x".to_string()), ScanStep::Imported);
}

#[test]
fn batch_awaits_each_channel_once_in_order() {
    let t = Transfer::from(&remote(9, Some("abcd1234"), Some(90), "COMPLETED"));
    let targets = vec![
        target("/d", TargetType::Directory, true),
        target("/d/a.mkv", TargetType::File, false),
        target("/d/b.mkv", TargetType::File, false),
    ];
    let mut batch = DownloadBatch::new(t, targets);
    let sent = batch.dispatch();
    let mut awaited = vec![];
    while let Some(i) = batch.next_to_await() {
        awaited.push(i);
        batch.record(&DownloadDoneStatus::Success(sent[i].clone()));
    }
    assert_eq!(awaited, vec![0, 1, 2]);
    assert!(batch.is_complete());
    assert!(matches!(batch.finish(), BatchOutcome::Downloaded(_)));
}

#[test]
fn status_mapping_ignores_case() {
    assert_eq!(TransmissionTorrentStatus::from(&"completed".to_string()), TransmissionTorrentStatus::Stopped);
    assert_eq!(TransmissionTorrentStatus::from(&"IN_QUEUE".to_string()), TransmissionTorrentStatus::Queued);
    assert_eq!(TransmissionTorrentStatus::from(&"Seeding".to_string()), TransmissionTorrentStatus::Seeding);
    assert_eq!(TransmissionTorrentStatus::from(&"weird".to_string()), TransmissionTorrentStatus::CheckWait);
}

#[test]
fn torrent_report_from_transfer() {
    let mut r = remote(4, Some("abcd"), Some(1), "DOWNLOADING");
    r.started_at = Some("2024-01-01T00:00:00".to_string());
    let now = 1_704_067_200 + 90;
    let tt = TransmissionTorrent::from(&r, now);
    assert_eq!(tt.seconds_downloading, 90);
    assert_eq!(tt.left_until_done, 60);
    assert_eq!(tt.total_size, 100);
    assert_eq!(tt.status, TransmissionTorrentStatus::Downloading);
    assert_eq!(tt.eta, 12);
    assert_eq!(tt.file_count, 1);
    r.started_at = Some("not a date".to_string());
    r.downloaded = Some(500);
    let tt = TransmissionTorrent::from(&r, now);
    assert_eq!(tt.seconds_downloading, 0);
    assert_eq!(tt.left_until_done, 0);
}

#[test]
fn rpc_methods_and_credentials() {
    assert_eq!(RpcMethod::from_name(&"torrent-add".to_string()), Some(RpcMethod::TorrentAdd));
    assert_eq!(RpcMethod::from_name(&"session-get".to_string()), Some(RpcMethod::SessionGet));
    assert_eq!(RpcMethod::from_name(&"bogus".to_string()), None);
    let c = config();
    assert!(validate_user(&c, &"user".to_string(), &Some("pw".to_string())));
    assert!(!validate_user(&c, &"user".to_string(), &Some("nope".to_string())));
    assert!(!validate_user(&c, &"user".to_string(), &None));
}

#[test]
fn remove_command_matches_hashes() {
    let mut a = remote(1, Some("aaaa"), Some(10), "SEEDING");
    a.userfile_exists = true;
    let b = remote(2, None, Some(20), "SEEDING");
    let mut c = remote(3, Some("cccc"), Some(30), "SEEDING");
    c.userfile_exists = false;
    let listing = vec![a, b, c];
    let ids = vec!["aaaa".to_string(), "no_hash".to_string(), "cccc".to_string()];
    assert_eq!(
        transfers_to_remove(&listing, &ids, true),
        vec![
            RemovalRequest { transfer_id: 1, delete_file: Some(10) },
            RemovalRequest { transfer_id: 2, delete_file: Some(20) },
            RemovalRequest { transfer_id: 3, delete_file: None },
        ]
    );
    assert_eq!(transfers_to_remove(&listing, &vec!["aaaa".to_string()], false), vec![RemovalRequest { transfer_id: 1, delete_file: None }]);
}

#[test]
fn add_command_decodes_torrent() {
    match add_request(&Some("aGVsbG8=".to_string()), &None) {
        Ok(AddRequest::UploadTorrent(b)) => assert_eq!(b, b"hello".to_vec()),
        _ => panic!("expected an upload"),
    }
    assert!(matches!(add_request(&Some("***".to_string()), &None), Err(AddError::InvalidMetainfo)));
    match add_request(&None, &Some("magnet:?xt=urn:btih:abc".to_string())) {
        Ok(AddRequest::AddTransfer(u)) => assert_eq!(u, "magnet:?xt=urn:btih:abc"),
        _ => panic!("expected a link"),
    }
    assert!(matches!(add_request(&None, &None), Err(AddError::MissingFilename)));
}

#[test]
fn config_template_takes_the_key() {
    let text = putioarr::template::generate_config_text("abc123").unwrap();
    assert!(text.contains("api_key =  \"abc123\""));
    assert!(!text.contains("{putio_api_key}"));
    assert!(text.contains("skip_directories = [\"sample\", \"extras\"]"));
}
