//! What is asked of the server, what it hands out, and what is kept of it.

use auto_update::cache::{cleanup_remote_server_cache, CacheEntry, REMOTE_SERVER_CACHE_LIMIT};
use auto_update::download::{check_remote_server_status, DownloadProgress, WHOLE};
use auto_update::error::UpdateError;
use auto_update::polling::{
    check, init, settings_changed, AutoUpdateSetting, CheckReply, PollingAction, PollingChange,
    PollingEvent,
};
use auto_update::release::{
    decoded_release_asset, release_asset_body, release_asset_path, release_notes_url,
    remote_server_request, view_release_notes, AssetQuery, ReleaseAsset, ReleaseChannel, Telemetry,
};
use auto_update::remote_server::{RemoteAction, RemoteEvent, RemoteServerDownload};
use auto_update::updater::AutoUpdater;
use auto_update::version::Version;

/// Downloads as many bytes in chunks, and gives back what is told of it.
fn download(total: usize, content_length: Option<&str>) -> Vec<f32> {
    let mut progress = DownloadProgress::new(content_length);
    let mut reported = Vec::new();
    let mut left = total;
    while left > 0 {
        let bytes_read = left.min(8192);
        left -= bytes_read;
        if let Some(portion) = progress.received(bytes_read) {
            let fraction =
                (portion.downloaded_bytes as f32 / portion.total_bytes as f32).clamp(0.0, 1.0);
            let percent = (fraction * 100.0) as u8;
            if let Some(bits) = progress.report(percent, fraction.to_bits()) {
                reported.push(f32::from_bits(bits));
            }
        }
    }
    if let Some(bits) = progress.finish() {
        reported.push(f32::from_bits(bits));
    }
    assert_eq!(progress.downloaded_bytes, total as u64);
    reported
}

#[test]
fn test_download_release_reports_progress() {
    let reported = download(20_000, Some("20000"));
    assert!(
        reported.len() >= 2,
        "expected progress to be reported across multiple reads, got {reported:?}"
    );
    assert_eq!(
        reported.last().copied(),
        Some(1.0),
        "download should finish at 100%"
    );
    for fraction in reported.iter() {
        assert!(
            (0.0..=1.0).contains(fraction),
            "progress {fraction} out of range"
        );
    }
    for pair in reported.windows(2) {
        assert!(
            pair[0] <= pair[1],
            "progress must not decrease: {reported:?}"
        );
    }
}

#[test]
fn test_download_release_without_content_length_reports_no_progress() {
    for content_length in [None, Some("0"), Some("many"), Some(""), Some("-1")] {
        assert!(download(20_000, content_length).is_empty());
    }
}

#[test]
fn each_percentage_is_told_once() {
    let reported = download(8192 * 1000, Some("8192000"));
    assert_eq!(reported.len(), 101);
    let mut progress = DownloadProgress::new(Some("100"));
    progress.received(50);
    assert_eq!(progress.report(50, 7), Some(7));
    assert_eq!(progress.report(50, 8), None);
    assert_eq!(progress.report(51, 9), Some(9));
    assert_eq!(progress.finish(), Some(WHOLE));
    assert_eq!(progress.report(100, WHOLE), Some(WHOLE));
    assert_eq!(progress.finish(), None);
}

#[test]
fn percentages_are_told_rising() {
    let mut progress = DownloadProgress::new(Some("100"));
    let mut told = Vec::new();
    for percent in 0..=100 {
        for _ in 0..3 {
            told.extend(progress.report(percent, u32::from(percent)));
        }
    }
    assert_eq!(told, (0..=100).collect::<Vec<u32>>());
}

#[test]
fn download_that_ends_early_is_told_as_whole() {
    assert_eq!(f32::from_bits(WHOLE), 1.0);
    assert_eq!(download(8192, Some("16384")), [0.5, 1.0]);
    assert_eq!(download(16384, Some("8192")), [1.0]);
}

fn entry(name: &str, modified: Option<i128>) -> CacheEntry {
    CacheEntry {
        name: name.as_bytes().to_vec(),
        modified,
    }
}

fn removed(entries: &[CacheEntry], keep: Option<&str>, limit: usize) -> Vec<String> {
    cleanup_remote_server_cache(keep.map(str::as_bytes), entries, 1000, limit)
        .into_iter()
        .map(|name| String::from_utf8(name).unwrap())
        .collect()
}

#[test]
fn oldest_remote_servers_are_removed() {
    assert_eq!(REMOTE_SERVER_CACHE_LIMIT, 5);
    let entries = [
        entry("3.gz", Some(3)),
        entry("1.gz", Some(1)),
        entry("5.gz", Some(5)),
        entry("notes.txt", Some(0)),
        entry("2.gz", Some(2)),
        entry(".gz", Some(0)),
        entry("4.gz", Some(4)),
        entry("unknown.gz", None),
    ];
    assert_eq!(
        removed(&entries, Some("5.gz"), 3),
        [
            "2.gz",
            "1.gz",
            "unknown.gz",
        ]
    );
    assert!(removed(&entries, Some("5.gz"), 6).is_empty());
    assert!(removed(&entries, Some("5.gz"), 0).is_empty());
}

#[test]
fn names_decide_between_equally_old_remote_servers() {
    let entries = [
        entry("b.gz", Some(1)),
        entry("a.gz", Some(1)),
        entry("aa.gz", Some(1)),
    ];
    assert_eq!(
        removed(&entries, None, 1),
        ["aa.gz", "b.gz"]
    );
}

#[test]
fn kept_remote_server_is_not_removed() {
    let entries = [
        entry("new.gz", Some(2000)),
        entry("newer.gz", Some(3000)),
        entry("kept.gz", Some(1)),
        entry("old.gz", Some(500)),
    ];
    assert_eq!(
        removed(&entries, Some("kept.gz"), 2),
        ["old.gz"]
    );
    assert_eq!(
        removed(&entries, Some("kept.gz"), 3),
        ["old.gz"]
    );
}

#[test]
fn second_cleanup_removes_nothing() {
    let entries = [
        entry("new.gz", Some(2000)),
        entry("kept.gz", Some(1)),
        entry("old.gz", Some(500)),
    ];
    let keep = Some("kept.gz");
    assert_eq!(removed(&entries, keep, 1), ["old.gz"]);
    let rest = [entry("kept.gz", Some(1)), entry("new.gz", Some(2000))];
    assert!(removed(&rest, keep, 1).is_empty());
}

fn updater() -> AutoUpdater {
    AutoUpdater::new(Version::parse("1.2.3-rezed.1+build").unwrap(), "linux")
}

fn asset() -> ReleaseAsset {
    ReleaseAsset {
        version: "1.2.3".to_string(),
        url: "https://test.example/server".to_string(),
    }
}

#[test]
fn missing_remote_server_is_downloaded() {
    let updater = updater();
    let mut download = AutoUpdater::download_remote_server_release(
        Some(&updater),
        "stable",
        "linux",
        "x86_64",
    )
    .unwrap();
    assert_eq!(download.channel_dir(), "stable");
    assert_eq!(download.platform_dir(), "linux-x86_64");
    assert_eq!(download.file_name(), "");
    assert_eq!(
        download.status_text(),
        Some("Fetching remote server release")
    );
    assert!(matches!(
        download.advance(RemoteEvent::Fetched { asset: asset() }),
        RemoteAction::LookUp
    ));
    assert_eq!(download.file_name(), "1.2.3.gz");
    match download.advance(RemoteEvent::LookedUp { present: false }) {
        RemoteAction::Download { url } => assert_eq!(url, "https://test.example/server"),
        action => panic!("{action:?}"),
    }
    assert_eq!(download.status_text(), Some("Downloading remote server"));
    assert!(matches!(
        download.advance(RemoteEvent::Done),
        RemoteAction::CleanUp
    ));
    assert_eq!(download.status_text(), None);
    let files: Vec<CacheEntry> = (0..7)
        .map(|index| entry(&format!("0.0.{index}.gz"), Some(index)))
        .chain([entry("1.2.3.gz", None)])
        .collect();
    assert_eq!(
        RemoteServerDownload::older_releases(Some(b"1.2.3.gz"), &files, 1000),
        [
            b"0.0.2.gz".to_vec(),
            b"0.0.1.gz".to_vec(),
            b"0.0.0.gz".to_vec(),
        ]
    );
    let action = download.advance(RemoteEvent::Failed {
        error: UpdateError::LockHeld,
    });
    assert!(matches!(action, RemoteAction::Complete));
}

#[test]
fn present_remote_server_is_not_downloaded() {
    let updater = updater();
    let begin = || {
        AutoUpdater::download_remote_server_release(Some(&updater), "dev", "linux", "arm")
            .unwrap()
    };
    let mut download = begin();
    download.advance(RemoteEvent::Fetched { asset: asset() });
    assert!(matches!(
        download.advance(RemoteEvent::LookedUp { present: true }),
        RemoteAction::CleanUp
    ));
    assert!(matches!(
        download.advance(RemoteEvent::Done),
        RemoteAction::Complete
    ));
    assert!(matches!(
        download.advance(RemoteEvent::Done),
        RemoteAction::Ignore
    ));

    let mut download = begin();
    let action = download.advance(RemoteEvent::Failed {
        error: UpdateError::LockHeld,
    });
    assert!(matches!(
        action,
        RemoteAction::Fail {
            error: UpdateError::LockHeld
        }
    ));
    let mut download = begin();
    download.advance(RemoteEvent::Fetched { asset: asset() });
    download.advance(RemoteEvent::LookedUp { present: false });
    let error = check_remote_server_status(503).unwrap_err();
    match download.advance(RemoteEvent::Failed { error }) {
        RemoteAction::Fail { error } => assert_eq!(
            error.message(),
            "failed to download remote server release: 503"
        ),
        action => panic!("{action:?}"),
    }
    assert!(check_remote_server_status(200).is_ok());
}

#[test]
fn remote_servers_need_an_updater() {
    let error = AutoUpdater::download_remote_server_release(None, "dev", "linux", "arm")
        .unwrap_err();
    assert_eq!(error.message(), "auto-update not initialized");
    let error = AutoUpdater::get_remote_server_release_url(None, Ok(asset())).unwrap_err();
    assert_eq!(error.message(), "auto-update not initialized");
    let updater = updater();
    assert_eq!(
        AutoUpdater::get_remote_server_release_url(Some(&updater), Ok(asset())).unwrap(),
        Some("https://test.example/server".to_string())
    );
    let error =
        AutoUpdater::get_remote_server_release_url(Some(&updater), Err(UpdateError::LockHeld))
            .unwrap_err();
    assert!(matches!(error, UpdateError::LockHeld));
}

#[test]
fn assets_are_asked_for_by_release() {
    let version = Version::parse("1.2.3-rezed.1+build").unwrap();
    assert_eq!(
        release_asset_path("preview", Some(&version)),
        "/releases/preview/1.2.3/asset"
    );
    assert_eq!(
        release_asset_path("stable", None),
        "/releases/stable/latest/asset"
    );
    let telemetry = Telemetry {
        metrics_enabled: false,
        system_id: None,
        metrics_id: None,
        is_staff: None,
    };
    let request = remote_server_request("dev", Some(&version), "linux", "x86_64", &telemetry);
    assert_eq!(request.path, "/releases/dev/1.2.3/asset");
    assert_eq!(request.query.asset, "zed-remote-server");
    assert_eq!(release_asset_body(200, b"x".to_vec()).unwrap(), b"x");
    assert_eq!(
        release_asset_body(500, b"oops \xff".to_vec())
            .unwrap_err()
            .message(),
        "failed to fetch release: \"oops \u{fffd}\""
    );
    assert_eq!(
        decoded_release_asset(b"[]".to_vec(), Err("not a map".to_string()))
            .unwrap_err()
            .chain(),
        ["error deserializing release \"[]\"", "not a map"]
    );
    let decoded = decoded_release_asset(Vec::new(), Ok(asset())).unwrap();
    assert_eq!(decoded.version, "1.2.3");
}

#[test]
fn query_tells_of_the_installation_only_with_consent() {
    let mut telemetry = Telemetry {
        metrics_enabled: true,
        system_id: Some("system".to_string()),
        metrics_id: Some("metrics".to_string()),
        is_staff: Some(false),
    };
    let query = AssetQuery::new("zed-remote-server", "linux", "x86_64", &telemetry);
    assert_eq!(query.asset, "zed-remote-server");
    assert_eq!((query.os, query.arch), ("linux", "x86_64"));
    assert_eq!(query.system_id, Some("system"));
    assert_eq!(query.metrics_id, Some("metrics"));
    assert_eq!(query.is_staff, Some(false));
    telemetry.metrics_enabled = false;
    let query = AssetQuery::new("zed-remote-server", "linux", "x86_64", &telemetry);
    assert_eq!(query.system_id, None);
    assert_eq!(query.metrics_id, None);
    assert_eq!(query.is_staff, None);
}

#[test]
fn release_notes_go_by_channel() {
    let updater = updater();
    let url = |channel: Option<ReleaseChannel>| release_notes_url(channel, Some(&updater));
    let tagged = "https://github.com/nguyenphutrong/rezed/releases/tag/v1.2.3-rezed.1";
    assert_eq!(url(Some(ReleaseChannel::Stable)).unwrap(), tagged);
    assert_eq!(url(Some(ReleaseChannel::Preview)).unwrap(), tagged);
    assert_eq!(
        url(Some(ReleaseChannel::Nightly)).unwrap(),
        "https://github.com/nguyenphutrong/rezed/commits/nightly/"
    );
    assert_eq!(
        url(Some(ReleaseChannel::Dev)).unwrap(),
        "https://github.com/nguyenphutrong/rezed/commits/rezed/"
    );
    assert_eq!(url(None), None);
    assert_eq!(release_notes_url(Some(ReleaseChannel::Stable), None), None);
    assert!(release_notes_url(Some(ReleaseChannel::Nightly), None).is_some());
    assert_eq!(
        view_release_notes(Some(ReleaseChannel::Stable), Some(&updater)).unwrap(),
        tagged
    );
}

#[test]
fn polling_waits_and_goes_on() {
    let updater = updater();
    let mut polling = updater.start_polling(Some(ReleaseChannel::Nightly), "windows");
    assert_eq!(polling.interval, 900);
    assert_eq!(polling.action(), PollingAction::CleanUpWindows);
    assert_eq!(polling.advance(PollingEvent::Done), PollingAction::Poll);
    assert_eq!(polling.advance(PollingEvent::Waited), PollingAction::Ignore);
    assert_eq!(polling.advance(PollingEvent::Done), PollingAction::Wait);
    assert_eq!(polling.advance(PollingEvent::Waited), PollingAction::Poll);
    assert_eq!(updater.start_polling(None, "linux").interval, 3600);
}

#[test]
fn macos_polls_only_after_a_cleanup() {
    let mut polling = updater().start_polling(Some(ReleaseChannel::Stable), "macos");
    assert_eq!(polling.action(), PollingAction::CleanUp);
    for _ in 0..3 {
        let failed = PollingEvent::CleanedUp { succeeded: false };
        assert_eq!(polling.advance(failed), PollingAction::Wait);
        assert_eq!(polling.advance(PollingEvent::Waited), PollingAction::CleanUp);
    }
    let succeeded = PollingEvent::CleanedUp { succeeded: true };
    assert_eq!(polling.advance(succeeded), PollingAction::Poll);
}

#[test]
fn updates_are_looked_for_where_nothing_speaks_against_it() {
    let initial = init(None, None, Some(true), true);
    assert!(initial.observes_settings && initial.starts);
    let initial = init(None, None, Some(true), false);
    assert!(initial.observes_settings && !initial.starts);
    for initial in [
        init(Some("dnf"), None, Some(true), true),
        init(None, Some("dnf"), Some(true), true),
        init(None, None, Some(false), true),
        init(None, None, None, true),
    ] {
        assert!(!initial.observes_settings && !initial.starts);
    }
    assert!(AutoUpdateSetting::from_settings(Some(true)).0);
    assert!(!AutoUpdateSetting::from_settings(Some(false)).0);
    assert_eq!(settings_changed(true, false), PollingChange::Start);
    assert_eq!(settings_changed(true, true), PollingChange::Keep);
    assert_eq!(settings_changed(false, true), PollingChange::Stop);
    assert_eq!(settings_changed(false, false), PollingChange::Keep);
}

#[test]
fn asking_for_a_check_is_answered() {
    let prompt = |reply: CheckReply| match reply {
        CheckReply::Prompt { title, detail } => (title.to_string(), detail.to_string()),
        reply => panic!("{reply:?}"),
    };
    let explained = (
        "Zed was installed via a package manager.".to_string(),
        "built".to_string(),
    );
    assert_eq!(
        prompt(check(Some("built"), Some("set"), Some(false), true)),
        explained
    );
    assert_eq!(prompt(check(None, Some("set"), None, false)).1, "set");
    assert!(matches!(
        check(None, None, Some(false), true),
        CheckReply::Nothing
    ));
    assert!(matches!(check(None, None, None, true), CheckReply::Nothing));
    assert!(matches!(
        check(None, None, Some(true), true),
        CheckReply::Poll
    ));
    assert_eq!(
        prompt(check(None, None, Some(true), false)),
        (
            "Could not check for updates".to_string(),
            "Auto-updates disabled for non-bundled app.".to_string()
        )
    );
}

#[test]
fn notification_is_remembered() {
    let updater = updater();
    let show = updater.set_should_show_update_notification(true);
    assert_eq!(show.key, "auto-updater-should-show-updated-notification");
    assert_eq!(show.value, Some(""));
    assert!(updater.should_show_update_notification(show.value));
    let hide = updater.set_should_show_update_notification(false);
    assert_eq!(hide.key, show.key);
    assert_eq!(hide.value, None);
    assert!(!updater.should_show_update_notification(hide.value));
}
