//! Which release is an update, and which file of it.

use auto_update::error::UpdateError;
use auto_update::release::{GithubRelease, GithubReleaseAsset, ReleaseChannel};
use auto_update::status::AutoUpdateStatus;
use auto_update::updater::AutoUpdater;
use auto_update::version::Version;

#[test]
fn test_github_release_asset_selects_linux_asset() {
    let release_asset = AutoUpdater::release_asset_from_github_release(
        GithubRelease {
            tag_name: "v1.9.0-rezed.4".to_string(),
            assets: vec![GithubReleaseAsset {
                name: "rezed-linux-x86_64.tar.gz".to_string(),
                browser_download_url: "https://example.com/rezed-linux-x86_64.tar.gz"
                    .to_string(),
            }],
        },
        "linux",
        "x86_64",
    )
    .unwrap();

    assert_eq!(release_asset.version, "1.9.0-rezed.4");
    assert_eq!(
        release_asset.url,
        "https://example.com/rezed-linux-x86_64.tar.gz"
    );
}

#[test]
fn test_github_release_asset_selects_macos_asset() {
    let release_asset = AutoUpdater::release_asset_from_github_release(
        GithubRelease {
            tag_name: "v1.9.0-rezed.4".to_string(),
            assets: vec![GithubReleaseAsset {
                name: "Rezed-aarch64.dmg".to_string(),
                browser_download_url: "https://example.com/Rezed-aarch64.dmg".to_string(),
            }],
        },
        "macos",
        "aarch64",
    )
    .unwrap();

    assert_eq!(release_asset.version, "1.9.0-rezed.4");
    assert_eq!(release_asset.url, "https://example.com/Rezed-aarch64.dmg");
}

#[test]
fn test_github_release_asset_reports_missing_asset() {
    let error = AutoUpdater::release_asset_from_github_release(
        GithubRelease {
            tag_name: "v1.9.0-rezed.4".to_string(),
            assets: Vec::new(),
        },
        "linux",
        "x86_64",
    )
    .unwrap_err();

    assert!(
        error
            .message()
            .contains("does not include app update asset rezed-linux-x86_64.tar.gz")
    );
}

#[test]
fn test_stable_does_not_update_when_fetched_version_is_not_higher() {
    let release_channel = ReleaseChannel::Stable;
    let app_commit_sha = Ok(Some("a".to_string()));
    let installed_version = Version::new(1, 0, 0);
    let status = AutoUpdateStatus::Idle;
    let fetched_version = Version::new(1, 0, 0);

    let newer_version = AutoUpdater::check_if_fetched_version_is_newer(
        release_channel,
        app_commit_sha,
        installed_version,
        fetched_version.to_string(),
        status,
    );

    assert_eq!(newer_version.unwrap(), None);
}

#[test]
fn test_stable_does_update_when_fetched_version_is_higher() {
    let release_channel = ReleaseChannel::Stable;
    let app_commit_sha = Ok(Some("a".to_string()));
    let installed_version = Version::new(1, 0, 0);
    let status = AutoUpdateStatus::Idle;
    let fetched_version = Version::new(1, 0, 1);

    let newer_version = AutoUpdater::check_if_fetched_version_is_newer(
        release_channel,
        app_commit_sha,
        installed_version,
        fetched_version.to_string(),
        status,
    );

    assert_eq!(newer_version.unwrap(), Some(fetched_version));
}

#[test]
fn test_stable_does_not_update_when_fetched_version_is_not_higher_than_cached() {
    let release_channel = ReleaseChannel::Stable;
    let app_commit_sha = Ok(Some("a".to_string()));
    let installed_version = Version::new(1, 0, 0);
    let status = AutoUpdateStatus::Updated {
        version: Version::new(1, 0, 1),
    };
    let fetched_version = Version::new(1, 0, 1);

    let newer_version = AutoUpdater::check_if_fetched_version_is_newer(
        release_channel,
        app_commit_sha,
        installed_version,
        fetched_version.to_string(),
        status,
    );

    assert_eq!(newer_version.unwrap(), None);
}

#[test]
fn test_stable_does_update_when_fetched_version_is_higher_than_cached() {
    let release_channel = ReleaseChannel::Stable;
    let app_commit_sha = Ok(Some("a".to_string()));
    let installed_version = Version::new(1, 0, 0);
    let status = AutoUpdateStatus::Updated {
        version: Version::new(1, 0, 1),
    };
    let fetched_version = Version::new(1, 0, 2);

    let newer_version = AutoUpdater::check_if_fetched_version_is_newer(
        release_channel,
        app_commit_sha,
        installed_version,
        fetched_version.to_string(),
        status,
    );

    assert_eq!(newer_version.unwrap(), Some(fetched_version));
}

#[test]
fn test_stable_rezed_prerelease_suffix_updates_when_higher() {
    let release_channel = ReleaseChannel::Stable;
    let app_commit_sha = Ok(Some("a".to_string()));
    let installed_version = Version::parse("1.9.0-rezed.2").unwrap();
    let status = AutoUpdateStatus::Idle;
    let fetched_version = Version::parse("1.9.0-rezed.3").unwrap();

    let newer_version = AutoUpdater::check_if_fetched_version_is_newer(
        release_channel,
        app_commit_sha,
        installed_version,
        fetched_version.to_string(),
        status,
    );

    assert_eq!(newer_version.unwrap(), Some(fetched_version));
}

#[test]
fn test_stable_rezed_prerelease_suffix_does_not_update_when_same() {
    let release_channel = ReleaseChannel::Stable;
    let app_commit_sha = Ok(Some("a".to_string()));
    let installed_version = Version::parse("1.9.0-rezed.3").unwrap();
    let status = AutoUpdateStatus::Idle;
    let fetched_version = Version::parse("1.9.0-rezed.3").unwrap();

    let newer_version = AutoUpdater::check_if_fetched_version_is_newer(
        release_channel,
        app_commit_sha,
        installed_version,
        fetched_version.to_string(),
        status,
    );

    assert_eq!(newer_version.unwrap(), None);
}

#[test]
fn test_nightly_does_not_update_when_fetched_sha_is_same() {
    let release_channel = ReleaseChannel::Nightly;
    let app_commit_sha = Ok(Some("a".to_string()));
    let installed_version = Version::parse("1.0.0+a").unwrap();
    let status = AutoUpdateStatus::Idle;
    let fetched_version = "1.0.0+a".to_string();

    let newer_version = AutoUpdater::check_if_fetched_version_is_newer(
        release_channel,
        app_commit_sha,
        installed_version,
        fetched_version,
        status,
    );

    assert_eq!(newer_version.unwrap(), None);
}

#[test]
fn test_nightly_does_update_when_fetched_sha_is_not_same() {
    let release_channel = ReleaseChannel::Nightly;
    let app_commit_sha = Ok(Some("a".to_string()));
    let installed_version = Version::new(1, 0, 0);
    let status = AutoUpdateStatus::Idle;
    let fetched_version = "1.0.0+b".to_string();

    let newer_version = AutoUpdater::check_if_fetched_version_is_newer(
        release_channel,
        app_commit_sha,
        installed_version,
        fetched_version.clone(),
        status,
    );

    assert_eq!(
        newer_version.unwrap(),
        Some(Version::parse(&fetched_version).unwrap())
    );
}

#[test]
fn test_nightly_does_not_update_when_fetched_version_is_same_as_cached() {
    let release_channel = ReleaseChannel::Nightly;
    let app_commit_sha = Ok(Some("a".to_string()));
    let installed_version = Version::parse("1.0.0+a").unwrap();
    let status = AutoUpdateStatus::Updated {
        version: Version::parse("1.0.0+b").unwrap(),
    };
    let fetched_version = "1.0.0+b".to_string();

    let newer_version = AutoUpdater::check_if_fetched_version_is_newer(
        release_channel,
        app_commit_sha,
        installed_version,
        fetched_version,
        status,
    );

    assert_eq!(newer_version.unwrap(), None);
}

#[test]
fn test_nightly_does_update_when_fetched_sha_is_not_same_as_cached() {
    let release_channel = ReleaseChannel::Nightly;
    let app_commit_sha = Ok(Some("a".to_string()));
    let installed_version = Version::parse("1.0.0+a").unwrap();
    let status = AutoUpdateStatus::Updated {
        version: Version::parse("1.0.0+b").unwrap(),
    };
    let fetched_version = "1.0.0+c".to_string();

    let newer_version = AutoUpdater::check_if_fetched_version_is_newer(
        release_channel,
        app_commit_sha,
        installed_version,
        fetched_version.clone(),
        status,
    );

    assert_eq!(
        newer_version.unwrap(),
        Some(Version::parse(&fetched_version).unwrap())
    );
}

#[test]
fn test_nightly_does_not_redownload_after_updating_to_fetched_version() {
    let release_channel = ReleaseChannel::Nightly;
    let installed_version = Version::new(1, 0, 0);
    let fetched_version = "1.0.0+nightly.b".to_string();

    let newer_version = AutoUpdater::check_if_fetched_version_is_newer(
        release_channel,
        Ok(Some("a".to_string())),
        installed_version.clone(),
        fetched_version.clone(),
        AutoUpdateStatus::Idle,
    )
    .unwrap()
    .expect("a newer nightly version should be available");

    let next_check = AutoUpdater::check_if_fetched_version_is_newer(
        release_channel,
        Ok(Some("a".to_string())),
        installed_version,
        fetched_version,
        AutoUpdateStatus::Updated {
            version: newer_version,
        },
    );

    assert_eq!(next_check.unwrap(), None);
}

#[test]
fn test_nightly_does_update_when_installed_versions_sha_cannot_be_retrieved() {
    let release_channel = ReleaseChannel::Nightly;
    let app_commit_sha = Ok(None);
    let installed_version = Version::new(1, 0, 0);
    let status = AutoUpdateStatus::Idle;
    let fetched_version = "1.0.0+a".to_string();

    let newer_version = AutoUpdater::check_if_fetched_version_is_newer(
        release_channel,
        app_commit_sha,
        installed_version,
        fetched_version.clone(),
        status,
    );

    assert_eq!(
        newer_version.unwrap(),
        Some(Version::parse(&fetched_version).unwrap())
    );
}

#[test]
fn test_nightly_does_not_update_when_cached_update_is_same_as_fetched_and_installed_versions_sha_cannot_be_retrieved()
 {
    let release_channel = ReleaseChannel::Nightly;
    let app_commit_sha = Ok(None);
    let installed_version = Version::new(1, 0, 0);
    let status = AutoUpdateStatus::Updated {
        version: Version::parse("1.0.0+b").unwrap(),
    };
    let fetched_version = "1.0.0+b".to_string();

    let newer_version = AutoUpdater::check_if_fetched_version_is_newer(
        release_channel,
        app_commit_sha,
        installed_version,
        fetched_version,
        status,
    );

    assert_eq!(newer_version.unwrap(), None);
}

#[test]
fn test_nightly_does_update_when_cached_update_is_not_same_as_fetched_and_installed_versions_sha_cannot_be_retrieved()
 {
    let release_channel = ReleaseChannel::Nightly;
    let app_commit_sha = Ok(None);
    let installed_version = Version::new(1, 0, 0);
    let status = AutoUpdateStatus::Updated {
        version: Version::parse("1.0.0+b").unwrap(),
    };
    let fetched_version = "1.0.0+c".to_string();

    let newer_version = AutoUpdater::check_if_fetched_version_is_newer(
        release_channel,
        app_commit_sha,
        installed_version,
        fetched_version.clone(),
        status,
    );

    assert_eq!(
        newer_version.unwrap(),
        Some(Version::parse(&fetched_version).unwrap())
    );
}

#[test]
fn build_metadata_does_not_make_a_version_newer() {
    let offer = |installed: &str, fetched: &str| {
        AutoUpdater::check_if_fetched_version_is_newer(
            ReleaseChannel::Preview,
            Ok(None),
            Version::parse(installed).unwrap(),
            fetched.to_string(),
            AutoUpdateStatus::Idle,
        )
        .unwrap()
    };
    assert_eq!(offer("1.0.0+stable.1.a", "1.0.0+stable.2.b"), None);
    assert_eq!(
        offer("1.0.0+stable.1.a", "1.0.1+stable.2.b"),
        Some(Version::new(1, 0, 1))
    );
    assert_eq!(offer("2.0.0", "1.9.9"), None);
}

#[test]
fn update_is_not_offered_again_off_the_nightly_channel() {
    let fetched = "1.2.0+build.7".to_string();
    let offered = AutoUpdater::check_if_fetched_version_is_newer(
        ReleaseChannel::Stable,
        Ok(None),
        Version::new(1, 1, 0),
        fetched.clone(),
        AutoUpdateStatus::Idle,
    )
    .unwrap()
    .unwrap();
    let again = AutoUpdater::check_if_fetched_version_is_newer(
        ReleaseChannel::Stable,
        Ok(None),
        Version::new(1, 1, 0),
        fetched,
        AutoUpdateStatus::Updated { version: offered },
    );
    assert_eq!(again.unwrap(), None);
}

#[test]
fn updates_lead_forward() {
    let updated = AutoUpdateStatus::Updated {
        version: Version::new(1, 2, 0),
    };
    let offer = |fetched: &str| {
        AutoUpdater::check_if_fetched_version_is_newer(
            ReleaseChannel::Stable,
            Ok(None),
            Version::new(1, 1, 0),
            fetched.to_string(),
            updated.clone(),
        )
        .unwrap()
    };
    assert_eq!(offer("1.1.5"), None);
    assert_eq!(offer("1.3.0"), Some(Version::new(1, 3, 0)));
}

#[test]
fn nightly_compares_the_last_part_of_the_build_metadata() {
    let offer = |commit: &str, fetched: &str| {
        AutoUpdater::check_if_fetched_version_is_newer(
            ReleaseChannel::Nightly,
            Ok(Some(commit.to_string())),
            Version::new(1, 0, 0),
            fetched.to_string(),
            AutoUpdateStatus::Idle,
        )
        .unwrap()
    };
    assert_eq!(offer("abc", "1.0.0+nightly.12.abc"), None);
    assert!(offer("abc", "1.0.0+abc.nightly").is_some());
    assert_eq!(offer("", "1.0.0"), None);
}

#[test]
fn failure_to_find_the_commit_counts_as_an_unknown_commit() {
    let newer = AutoUpdater::check_if_fetched_version_is_newer(
        ReleaseChannel::Nightly,
        Err(UpdateError::NotInitialized),
        Version::new(1, 0, 0),
        "1.0.0+a".to_string(),
        AutoUpdateStatus::Idle,
    );
    assert_eq!(newer.unwrap(), Some(Version::parse("1.0.0+a").unwrap()));
}

#[test]
fn malformed_version_is_an_error_whatever_the_channel() {
    for channel in [
        ReleaseChannel::Dev,
        ReleaseChannel::Nightly,
        ReleaseChannel::Preview,
        ReleaseChannel::Stable,
    ] {
        let error = AutoUpdater::check_if_fetched_version_is_newer(
            channel,
            Ok(None),
            Version::new(1, 0, 0),
            "1.0".to_string(),
            AutoUpdateStatus::Idle,
        )
        .unwrap_err();
        assert_eq!(
            error.message(),
            "unexpected end of input while parsing minor version number"
        );
    }
}

#[test]
fn assets_are_named_by_system_and_architecture() {
    assert_eq!(
        AutoUpdater::github_app_asset_name("macos", "aarch64").unwrap(),
        "Rezed-aarch64.dmg"
    );
    assert_eq!(
        AutoUpdater::github_app_asset_name("linux", "x86_64").unwrap(),
        "rezed-linux-x86_64.tar.gz"
    );
    assert_eq!(
        AutoUpdater::github_app_asset_name("windows", "x86_64")
            .unwrap_err()
            .message(),
        "Rezed GitHub releases do not publish a Windows app update asset yet"
    );
    assert_eq!(
        AutoUpdater::github_app_asset_name("freebsd", "x86_64")
            .unwrap_err()
            .message(),
        "not supported: freebsd"
    );
}

#[test]
fn tag_must_start_with_a_v() {
    let error = AutoUpdater::release_asset_from_github_release(
        GithubRelease {
            tag_name: "1.9.0".to_string(),
            assets: Vec::new(),
        },
        "linux",
        "x86_64",
    )
    .unwrap_err();
    assert_eq!(
        error.message(),
        "Rezed release tag \"1.9.0\" must start with 'v'"
    );
}

#[test]
fn first_asset_with_the_name_is_taken() {
    let asset = |name: &str, url: &str| GithubReleaseAsset {
        name: name.to_string(),
        browser_download_url: url.to_string(),
    };
    let found = AutoUpdater::release_asset_from_github_release(
        GithubRelease {
            tag_name: "vv2.0.0".to_string(),
            assets: vec![
                asset("Rezed-x86_64.dmg", "other"),
                asset("Rezed-aarch64.dmg", "first"),
                asset("Rezed-aarch64.dmg", "second"),
            ],
        },
        "macos",
        "aarch64",
    )
    .unwrap();
    assert_eq!(found.url, "first");
    assert_eq!(found.version, "v2.0.0");
}
