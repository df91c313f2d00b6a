//! Runs of the updater, from a check to an installed update.

use auto_update::error::UpdateError;
use auto_update::polling::{PollingAction, PollingEvent};
use auto_update::release::{GithubRelease, GithubReleaseAsset, ReleaseChannel};
use auto_update::status::{AutoUpdateStatus, UpdateCheckType};
use auto_update::update_task::{
    install_release, target_file_name, Action, Event, Platform, Reply, UpdateTask,
};
use auto_update::updater::AutoUpdater;
use auto_update::version::Version;

fn release(version: &str, url: &str) -> GithubRelease {
    GithubRelease {
        tag_name: format!("v{version}"),
        assets: vec![GithubReleaseAsset {
            name: AutoUpdater::github_app_asset_name("linux", "x86_64").unwrap(),
            browser_download_url: url.to_string(),
        }],
    }
}

/// Runs up to the point where the release is decoded, and hands back what is to be done then.
fn decode(
    task: &mut UpdateTask,
    updater: &mut AutoUpdater,
    channel: Option<ReleaseChannel>,
    decoded: Result<GithubRelease, String>,
) -> Reply {
    let reply = task.advance(
        updater,
        Event::Locked {
            release_channel: channel,
        },
    );
    assert!(matches!(reply.action, Action::LookUpRsync));
    assert!(!reply.notify);
    let reply = task.advance(
        updater,
        Event::RsyncLookedUp {
            found: true,
            os_release: None,
        },
    );
    match reply.action {
        Action::FetchRelease { url } => assert_eq!(
            url,
            "https://api.github.com/repos/nguyenphutrong/rezed/releases/latest"
        ),
        action => panic!("{action:?}"),
    }
    assert!(reply.notify);
    assert_eq!(updater.status(), AutoUpdateStatus::Checking);
    let reply = task.advance(
        updater,
        Event::Fetched {
            status: 200,
            body: b"{}".to_vec(),
        },
    );
    match reply.action {
        Action::DecodeRelease { body } => assert_eq!(body, b"{}"),
        action => panic!("{action:?}"),
    }
    task.advance(
        updater,
        Event::Decoded {
            release: decoded,
            commit_sha: None,
        },
    )
}

fn run(updater: &mut AutoUpdater, decoded: GithubRelease) -> (UpdateTask, Reply) {
    let mut task = UpdateTask::new("linux", "x86_64");
    assert!(!task.needs_lock());
    let reply = decode(
        &mut task,
        updater,
        Some(ReleaseChannel::Stable),
        Ok(decoded),
    );
    (task, reply)
}

fn no_dir() -> UpdateError {
    UpdateError::NoInstallerDir {
        causes: vec!["read-only".to_string()],
    }
}

/// Lets the installation of a version fail.
fn fail_installation(updater: &mut AutoUpdater, version: &str) {
    let (mut task, reply) = run(updater, release(version, "https://test.example/new-download"));
    assert!(matches!(reply.action, Action::CreateInstallerDir { .. }));
    task.advance(
        updater,
        Event::DirCreated {
            target_path: b"/tmp/dir/zed.tar.gz".to_vec(),
        },
    );
    task.advance(updater, Event::Downloaded);
    let reply = task.advance(
        updater,
        Event::Failed {
            error: UpdateError::System {
                message: "disk full".to_string(),
                causes: vec!["no space".to_string()],
            },
        },
    );
    assert!(!reply.notify);
    match reply.action {
        Action::Fail { error } => {
            assert_eq!(
                error.message(),
                "Failed to install update at: /tmp/dir/zed.tar.gz"
            );
            assert_eq!(error.causes(), ["disk full", "no space"]);
            assert!(updater.finish_poll(Err(error)));
        }
        action => panic!("{action:?}"),
    }
}

#[test]
fn test_auto_update_downloads() {
    let mut updater = AutoUpdater::new(Version::new(0, 100, 0), "linux");
    let mut polling = updater.start_polling(Some(ReleaseChannel::Stable), "linux");
    assert_eq!(polling.interval, 3600);
    assert_eq!(polling.action(), PollingAction::StartCleanup);
    assert_eq!(polling.advance(PollingEvent::Done), PollingAction::Poll);

    // Nothing new is available at first.
    let reply = updater.poll(UpdateCheckType::Automatic);
    assert!(reply.start && reply.notify);
    let (_, reply) = run(
        &mut updater,
        release("0.100.0", "https://test.example/old-download"),
    );
    assert!(matches!(reply.action, Action::Stop));
    assert!(!updater.finish_poll(Ok(())));
    assert_eq!(updater.status(), AutoUpdateStatus::Idle);
    assert_eq!(updater.current_version(), Version::new(0, 100, 0));

    // The user can take a check over, and then a version is tried again that failed before.
    let failed_version = Version::new(0, 100, 1);
    updater.poll(UpdateCheckType::Automatic);
    fail_installation(&mut updater, "0.100.1");
    assert!(updater.should_skip_automatic_install_retry(&failed_version));
    updater.poll(UpdateCheckType::Automatic);
    updater.poll(UpdateCheckType::Manual);
    assert!(!updater.should_skip_automatic_install_retry(&failed_version));
    updater.finish_poll(Ok(()));

    // An automatic check leaves the version alone.
    assert_eq!(polling.advance(PollingEvent::Done), PollingAction::Wait);
    assert_eq!(polling.advance(PollingEvent::Waited), PollingAction::Poll);
    updater.poll(UpdateCheckType::Automatic);
    let (_, reply) = run(
        &mut updater,
        release("0.100.1", "https://test.example/new-download"),
    );
    assert!(matches!(reply.action, Action::Stop));
    assert!(reply.notify);
    assert!(!updater.finish_poll(Ok(())));
    assert_eq!(updater.status(), AutoUpdateStatus::Idle);

    // The user asks for a check.
    updater.poll(UpdateCheckType::Manual);
    let (mut task, reply) = run(
        &mut updater,
        release("0.100.1", "https://test.example/new-download"),
    );
    assert!(matches!(
        reply.action,
        Action::CreateInstallerDir {
            file_name: Some("zed.tar.gz")
        }
    ));
    let downloading = AutoUpdateStatus::Downloading {
        version: Version::new(0, 100, 1),
        progress: None,
    };
    assert_eq!(updater.status(), downloading);

    let reply = updater.poll(UpdateCheckType::Automatic);
    assert!(!reply.start && !reply.notify);
    let reply = updater.poll(UpdateCheckType::Manual);
    assert!(!reply.start);
    assert_eq!(updater.update_check_type(), UpdateCheckType::Manual);
    assert!(!updater.should_skip_automatic_install_retry(&Version::new(0, 100, 1)));
    assert_eq!(updater.status(), downloading);

    let reply = task.advance(
        &mut updater,
        Event::DirCreated {
            target_path: b"/tmp/dir/zed.tar.gz".to_vec(),
        },
    );
    match reply.action {
        Action::Download { url, target_path } => {
            assert_eq!(url, "https://test.example/new-download");
            assert_eq!(target_path, b"/tmp/dir/zed.tar.gz");
        }
        action => panic!("{action:?}"),
    }
    let half = 0.5f32.to_bits();
    let reply = task.advance(
        &mut updater,
        Event::Progressed {
            progress: Some(half),
        },
    );
    assert!(matches!(reply.action, Action::KeepDownloading));
    assert!(reply.notify);
    match updater.status() {
        AutoUpdateStatus::Downloading { progress, .. } => assert_eq!(progress, Some(half)),
        status => panic!("{status:?}"),
    }
    assert_eq!(updater.status(), downloading);

    let reply = task.advance(&mut updater, Event::Downloaded);
    match reply.action {
        Action::Install { target_path } => assert_eq!(target_path, b"/tmp/dir/zed.tar.gz"),
        action => panic!("{action:?}"),
    }
    assert_eq!(
        updater.status(),
        AutoUpdateStatus::Installing {
            version: Version::new(0, 100, 1)
        }
    );
    let reply = task.advance(
        &mut updater,
        Event::Installed {
            binary_path: Some(b"/opt/zed".to_vec()),
        },
    );
    match reply.action {
        Action::Complete { restart_path } => {
            assert_eq!(restart_path, Some(b"/opt/zed".to_vec()))
        }
        action => panic!("{action:?}"),
    }
    assert_eq!(
        updater.status(),
        AutoUpdateStatus::Updated {
            version: Version::new(0, 100, 1)
        }
    );
    updater.finish_poll(Ok(()));

    // What was updated is not forgotten by a check that finds nothing newer.
    updater.poll(UpdateCheckType::Automatic);
    assert!(!updater.should_skip_automatic_install_retry(&Version::new(0, 100, 1)));
    let (_, reply) = run(
        &mut updater,
        release("0.100.1", "https://test.example/new-download"),
    );
    assert!(matches!(reply.action, Action::Stop));
    assert!(updater.status().is_updated());
}

#[test]
fn missing_channel_counts_as_stable() {
    let mut updater = AutoUpdater::new(Version::parse("1.0.0+a").unwrap(), "linux");
    let mut task = UpdateTask::new("linux", "x86_64");
    let reply = decode(&mut task, &mut updater, None, Ok(release("1.0.0+b", "url")));
    assert!(matches!(reply.action, Action::Stop));

    let mut task = UpdateTask::new("linux", "x86_64");
    let reply = decode(
        &mut task,
        &mut updater,
        Some(ReleaseChannel::Nightly),
        Ok(release("1.0.0+b", "url")),
    );
    assert!(matches!(reply.action, Action::CreateInstallerDir { .. }));
}

#[test]
fn every_step_can_fail() {
    let chain = |reply: Reply| match reply.action {
        Action::Fail { error } => error.chain(),
        action => panic!("{action:?}"),
    };
    let failure = |reply: Reply| chain(reply)[0].clone();
    let network_error = || Event::Failed {
        error: UpdateError::System {
            message: "no network".to_string(),
            causes: vec!["no cable".to_string()],
        },
    };

    let mut updater = AutoUpdater::new(Version::new(1, 0, 0), "macos");
    let mut task = UpdateTask::new("macos", "aarch64");
    assert!(task.needs_lock());
    let reply = task.advance(
        &mut updater,
        Event::Failed {
            error: UpdateError::LockHeld,
        },
    );
    assert_eq!(
        failure(reply),
        "another Rezed update is already in progress"
    );

    let mut task = UpdateTask::new("macos", "aarch64");
    task.advance(
        &mut updater,
        Event::Locked {
            release_channel: None,
        },
    );
    let reply = task.advance(
        &mut updater,
        Event::RsyncLookedUp {
            found: false,
            os_release: None,
        },
    );
    assert_eq!(
        failure(reply),
        "Could not auto-update because the required rsync utility was not found."
    );

    let begin = |updater: &mut AutoUpdater| {
        let mut task = UpdateTask::new("linux", "x86_64");
        task.advance(
            updater,
            Event::Locked {
                release_channel: None,
            },
        );
        task.advance(
            updater,
            Event::RsyncLookedUp {
                found: true,
                os_release: None,
            },
        );
        task
    };
    let mut task = begin(&mut updater);
    assert_eq!(
        failure(task.advance(&mut updater, network_error())),
        "no network"
    );
    let mut task = begin(&mut updater);
    let reply = task.advance(
        &mut updater,
        Event::Fetched {
            status: 404,
            body: b"not \"found\"".to_vec(),
        },
    );
    assert_eq!(
        failure(reply),
        "failed to fetch Rezed GitHub release: \"not \\\"found\\\"\""
    );

    let mut task = UpdateTask::new("linux", "x86_64");
    let reply = decode(&mut task, &mut updater, None, Err("missing field".to_string()));
    assert_eq!(
        chain(reply),
        [
            "error deserializing Rezed GitHub release \"{}\"",
            "missing field",
        ]
    );

    let mut task = UpdateTask::new("linux", "x86_64");
    let reply = decode(&mut task, &mut updater, None, Ok(release("1", "url")));
    assert_eq!(
        failure(reply),
        "unexpected end of input while parsing major version number"
    );

    let (mut task, _) = run(&mut updater, release("1.0.1", "url"));
    assert_eq!(
        chain(task.advance(&mut updater, network_error())),
        ["Failed to create installer dir", "no network", "no cable"]
    );

    let (mut task, _) = run(&mut updater, release("1.0.1", "url"));
    task.advance(
        &mut updater,
        Event::DirCreated {
            target_path: b"/tmp/dir/zed.tar.gz".to_vec(),
        },
    );
    assert_eq!(
        chain(task.advance(&mut updater, network_error())),
        [
            "Failed to download update to /tmp/dir/zed.tar.gz",
            "no network",
            "no cable",
        ]
    );

    // A run that failed is over.
    let reply = task.advance(&mut updater, Event::Downloaded);
    assert!(matches!(reply.action, Action::Ignore));
}

#[test]
fn events_out_of_turn_are_ignored() {
    let mut updater = AutoUpdater::new(Version::new(1, 0, 0), "linux");
    let mut task = UpdateTask::new("linux", "x86_64");
    let reply = task.advance(&mut updater, Event::Downloaded);
    assert!(matches!(reply.action, Action::Ignore));
    let reply = task.advance(
        &mut updater,
        Event::Locked {
            release_channel: None,
        },
    );
    assert!(matches!(reply.action, Action::LookUpRsync));
}

#[test]
fn progress_is_dropped_when_the_status_was_dismissed() {
    let mut updater = AutoUpdater::new(Version::new(1, 0, 0), "linux");
    let (mut task, _) = run(&mut updater, release("1.0.1", "url"));
    task.advance(
        &mut updater,
        Event::DirCreated {
            target_path: b"/tmp/dir/zed.tar.gz".to_vec(),
        },
    );
    assert!(updater.dismiss());
    let reply = task.advance(&mut updater, Event::Progressed { progress: Some(1) });
    assert!(!reply.notify);
    assert_eq!(updater.status(), AutoUpdateStatus::Idle);
}

#[test]
fn failed_checks_are_shown_to_those_who_asked() {
    let failed = |check_type: UpdateCheckType, error: UpdateError| {
        let mut updater = AutoUpdater::new(Version::new(1, 0, 0), "linux");
        updater.poll(check_type);
        assert!(updater.finish_poll(Err(error)));
        updater.status()
    };
    assert_eq!(
        failed(UpdateCheckType::Automatic, no_dir()),
        AutoUpdateStatus::Idle
    );
    assert_eq!(
        failed(UpdateCheckType::Automatic, UpdateError::MissingRsync),
        AutoUpdateStatus::Idle
    );
    assert_eq!(
        failed(
            UpdateCheckType::Automatic,
            UpdateError::MissingDependency {
                message: "rsync".to_string()
            }
        ),
        AutoUpdateStatus::Errored {
            error: "rsync".to_string(),
            causes: Vec::new(),
        }
    );
    assert_eq!(
        failed(UpdateCheckType::Manual, no_dir()),
        AutoUpdateStatus::Errored {
            error: "Failed to create installer dir".to_string(),
            causes: Vec::new(),
        }
    );
    match failed(UpdateCheckType::Manual, no_dir()) {
        AutoUpdateStatus::Errored { causes, .. } => assert_eq!(causes, ["read-only"]),
        status => panic!("{status:?}"),
    }
}

#[test]
fn dismissed_status_lasts_until_the_user_asks() {
    let mut updater = AutoUpdater::new(Version::new(1, 0, 0), "linux");
    assert!(updater.dismissed_status().is_none());
    let status = AutoUpdateStatus::Updated {
        version: Version::new(1, 0, 1),
    };
    updater.dismiss_status(status.clone());
    updater.poll(UpdateCheckType::Automatic);
    assert_eq!(updater.dismissed_status(), Some(status));
    updater.poll(UpdateCheckType::Manual);
    assert_eq!(updater.dismissed_status(), None);
}

#[test]
fn idle_updater_has_nothing_to_dismiss() {
    let mut updater = AutoUpdater::new(Version::new(1, 0, 0), "linux");
    assert!(!updater.dismiss());
    updater.poll(UpdateCheckType::Manual);
    updater.finish_poll(Err(no_dir()));
    assert!(updater.dismiss());
    assert!(!updater.dismiss());
}

#[test]
fn windows_finishes_updates_on_quit_unless_it_restarts() {
    let mut updater = AutoUpdater::new(Version::new(1, 0, 0), "windows");
    assert!(updater.finishes_on_quit());
    updater.app_restarts();
    assert!(!updater.finishes_on_quit());
    assert!(!AutoUpdater::new(Version::new(1, 0, 0), "linux").finishes_on_quit());
}

#[test]
fn statuses_are_compared_without_progress() {
    let download = |patch: u64, progress: Option<u32>| AutoUpdateStatus::Downloading {
        version: Version::new(1, 0, patch),
        progress,
    };
    assert_eq!(download(1, None), download(1, Some(7)));
    assert_ne!(download(1, None), download(2, None));
    assert_ne!(
        download(1, None),
        AutoUpdateStatus::Installing {
            version: Version::new(1, 0, 1)
        }
    );
    assert_ne!(AutoUpdateStatus::Idle, AutoUpdateStatus::Checking);
    assert!(UpdateCheckType::Manual.is_manual());
    assert!(!UpdateCheckType::Automatic.is_manual());
}

#[test]
fn statuses_come_in_order() {
    let version = || Version::new(1, 0, 1);
    let mut updater = AutoUpdater::new(Version::new(1, 0, 0), "linux");
    let mut task = UpdateTask::new("linux", "x86_64");
    let mut shown = Vec::new();
    for event in [
        Event::Locked {
            release_channel: None,
        },
        Event::Downloaded,
        Event::RsyncLookedUp {
            found: true,
            os_release: None,
        },
        Event::Fetched {
            status: 200,
            body: Vec::new(),
        },
        Event::Decoded {
            release: Ok(release("1.0.1", "url")),
            commit_sha: None,
        },
        Event::Installed { binary_path: None },
        Event::DirCreated {
            target_path: b"/tmp/dir/zed.tar.gz".to_vec(),
        },
        Event::Progressed { progress: Some(1) },
        Event::Progressed { progress: Some(2) },
        Event::Downloaded,
        Event::Progressed { progress: Some(3) },
        Event::Installed { binary_path: None },
        Event::Downloaded,
    ] {
        if task.advance(&mut updater, event).notify {
            shown.push(updater.status());
        }
    }
    let downloading = || AutoUpdateStatus::Downloading {
        version: version(),
        progress: None,
    };
    assert_eq!(
        shown,
        [
            AutoUpdateStatus::Checking,
            downloading(),
            downloading(),
            downloading(),
            AutoUpdateStatus::Installing { version: version() },
            AutoUpdateStatus::Updated { version: version() },
        ]
    );
}

#[test]
fn unsupported_system_has_no_file_to_download_to() {
    assert_eq!(target_file_name("macos"), Some("Zed.dmg"));
    assert_eq!(target_file_name("linux"), Some("zed.tar.gz"));
    assert_eq!(target_file_name("windows"), Some("Zed.exe"));
    assert_eq!(target_file_name("solaris"), None);
}

#[test]
fn updates_are_installed_by_platform() {
    assert_eq!(install_release("macos").unwrap(), Platform::MacOs);
    assert_eq!(install_release("linux").unwrap(), Platform::Linux);
    assert_eq!(install_release("windows").unwrap(), Platform::Windows);
    assert_eq!(
        install_release("solaris").unwrap_err().message(),
        "not supported: solaris"
    );
}
