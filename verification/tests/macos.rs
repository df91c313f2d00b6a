//! Installation and cleanup under macOS.

use auto_update::command::{CommandLine, CommandResult, InstallError};
use auto_update::download::check_download_status;
use auto_update::install_macos::{
    attach_result, copy_result, detach_on_drop_command, detach_on_drop_result, detach_result,
    is_mounted, is_process_running, process_command, Cleanup, MountedMacOsInstaller,
};
use auto_update::installer_dir::{installer_dir_prefix, InstallerDir};
use auto_update::macos_task::{MacOsAction, MacOsEvent, MacOsInstall};
use auto_update::marker::{installer_marker_content, installer_marker_process_id};
use auto_update::stale::{
    cleanup_stale_installer_dirs, is_stale_installer_dir, stale_before, unix_entry_action,
    EntryAction, StaleAction, StaleCleanup, StaleEvent, TempEntry,
};
use auto_update::update_lock::{acquire_macos_update_lock_at, update_lock_path, LockAttempt};

fn text(bytes: &[u8]) -> String {
    String::from_utf8(bytes.to_vec()).unwrap()
}

fn line(command: &CommandLine) -> Vec<String> {
    let mut line = vec![text(&command.program)];
    for arg in &command.args {
        line.push(text(arg));
    }
    line
}

fn failure(message: &str) -> MacOsEvent {
    MacOsEvent::Failed {
        error: InstallError {
            message: message.to_string(),
            cause: None,
        },
    }
}

fn install() -> MacOsInstall {
    let installer_dir = InstallerDir::new(b"/tmp/rezed-auto-update1".to_vec());
    MacOsInstall::new(
        installer_dir,
        b"/tmp/rezed-auto-update1/Zed.dmg",
        b"/Applications/Rezed.app",
        "\"/Applications/Rezed.app\"",
    )
    .unwrap()
}

fn message(action: MacOsAction) -> String {
    match action {
        MacOsAction::Fail { error } => error.full(),
        action => panic!("{action:?}"),
    }
}

#[test]
fn test_macos_install_uses_fixed_mountpoint_and_cleans_up() {
    let mut install = install();
    assert_eq!(
        line(&install.attach_command()),
        [
            "hdiutil",
            "attach",
            "-nobrowse",
            "/tmp/rezed-auto-update1/Zed.dmg",
            "-mountpoint",
            "/tmp/rezed-auto-update1/mount",
        ]
    );
    assert!(matches!(
        install.advance(MacOsEvent::Done),
        MacOsAction::Copy
    ));
    let command = install.copy_command();
    assert!(command.kill_on_drop);
    assert_eq!(
        line(&command),
        [
            "rsync",
            "-av",
            "--delete",
            "--exclude",
            "Icon?",
            "/tmp/rezed-auto-update1/mount/Rezed.app/",
            "/Applications/Rezed.app",
        ]
    );
    assert!(matches!(
        install.advance(MacOsEvent::Done),
        MacOsAction::Detach
    ));
    assert_eq!(
        line(&install.detach_command()),
        ["hdiutil", "detach", "-force", "/tmp/rezed-auto-update1/mount"]
    );
    assert!(matches!(
        install.advance(MacOsEvent::Done),
        MacOsAction::Complete
    ));
    match install.cleanup() {
        Cleanup::RemoveDir { path } => assert_eq!(text(&path), "/tmp/rezed-auto-update1"),
        cleanup => panic!("{cleanup:?}"),
    }
    assert!(matches!(install.cleanup(), Cleanup::Nothing));
    assert!(matches!(
        install.advance(MacOsEvent::Done),
        MacOsAction::Ignore
    ));
}

#[test]
fn test_macos_installer_dir_cleans_up_after_download_failure() {
    let installer_dir = InstallerDir::new(b"/tmp/dir".to_vec());
    let error = check_download_status(500).unwrap_err();
    assert!(error.message().contains("failed to download update"));
    assert_eq!(error.message(), "failed to download update: 500");
    assert!(check_download_status(204).is_ok());
    assert!(installer_dir.is_owned());
}

#[test]
fn test_macos_update_lock_prevents_concurrent_attempts() {
    let lock_path = &update_lock_path(b"/tmp");
    assert_eq!(lock_path, b"/tmp/rezed-auto-update.lock");
    acquire_macos_update_lock_at(lock_path, LockAttempt::Acquired).unwrap();

    let error = acquire_macos_update_lock_at(lock_path, LockAttempt::WouldBlock).unwrap_err();
    assert!(error
        .message()
        .contains("another Rezed update is already in progress"));

    acquire_macos_update_lock_at(lock_path, LockAttempt::Acquired).unwrap();
}

#[test]
fn lock_can_fail_otherwise() {
    let lock_path = b"/tmp/rezed-auto-update.lock";
    assert_eq!(
        acquire_macos_update_lock_at(
            lock_path,
            LockAttempt::NotOpened {
                cause: "denied".to_string()
            }
        )
        .unwrap_err()
        .chain(),
        [
            "failed to open Rezed update lock at /tmp/rezed-auto-update.lock",
            "denied",
        ]
    );
    assert_eq!(
        acquire_macos_update_lock_at(
            lock_path,
            LockAttempt::Failed {
                cause: "no locks".to_string()
            }
        )
        .unwrap_err()
        .chain(),
        ["failed to acquire Rezed update lock", "no locks"]
    );
}

#[test]
fn test_macos_install_detaches_and_cleans_up_after_copy_failures() {
    let mut detached = 0;
    for _ in 0..3 {
        let mut install = install();
        install.advance(MacOsEvent::Done);
        if matches!(
            install.advance(failure("fake copy failure")),
            MacOsAction::Detach
        ) {
            detached += 1;
        }
        let message = message(install.advance(MacOsEvent::Done));
        assert!(message.contains("fake copy failure"));
        assert!(matches!(install.cleanup(), Cleanup::RemoveDir { .. }));
    }
    assert_eq!(detached, 3);
}

#[test]
fn test_macos_install_detaches_partial_mount_after_attach_failure() {
    let mut install = install();
    assert!(matches!(
        install.advance(failure("fake attach failure")),
        MacOsAction::CheckMount
    ));
    assert!(matches!(
        install.advance(MacOsEvent::Checked { mounted: true }),
        MacOsAction::Detach
    ));
    let message = message(install.advance(MacOsEvent::Done));
    assert!(message.contains("fake attach failure"));
    assert!(matches!(install.cleanup(), Cleanup::RemoveDir { .. }));
}

#[test]
fn failed_attachment_without_mount_needs_no_detaching() {
    let mut install = install();
    install.advance(failure("fake attach failure"));
    let message = message(install.advance(MacOsEvent::Checked { mounted: false }));
    assert_eq!(message, "fake attach failure");
    assert!(matches!(install.cleanup(), Cleanup::RemoveDir { .. }));
}

#[test]
fn two_failures_are_told_together() {
    let mut attaching = install();
    attaching.advance(failure("attach"));
    attaching.advance(MacOsEvent::Checked { mounted: true });
    attaching.advance(failure("detach"));
    let error = message(attaching.advance(MacOsEvent::Checked { mounted: true }));
    assert_eq!(
        error,
        "failed to attach disk image: attach; additionally failed to detach its partial mount: detach"
    );
    assert!(matches!(
        attaching.cleanup(),
        Cleanup::DetachAndRemove { .. }
    ));

    let mut copying = install();
    copying.advance(MacOsEvent::Done);
    copying.advance(MacOsEvent::Failed {
        error: InstallError {
            message: "copy".to_string(),
            cause: Some("no space".to_string()),
        },
    });
    copying.advance(failure("detach"));
    let error = message(copying.advance(MacOsEvent::Checked { mounted: false }));
    assert_eq!(
        error,
        "failed to copy app: copy: no space; additionally failed to detach disk image: detach"
    );
    assert!(matches!(copying.cleanup(), Cleanup::RemoveDir { .. }));
}

#[test]
fn test_macos_installer_detaches_when_cancelled() {
    let installer_dir = InstallerDir::new(b"/tmp/dir".to_vec());
    let mut installer = MountedMacOsInstaller::new(installer_dir, b"/tmp/dir/mount".to_vec());
    match installer.cleanup() {
        Cleanup::DetachAndRemove {
            mount_path,
            installer_path,
        } => {
            let command = detach_on_drop_command(&mount_path, &installer_path);
            let line = line(&command);
            assert_eq!(line[0], "/bin/sh");
            assert_eq!(line[1], "-c");
            assert!(line[2].starts_with("for delay in 0 1 2; do /bin/sleep \"$delay\"; "));
            assert_eq!(line[3], "rezed-auto-update-cleanup");
            assert_eq!(line[4], "/tmp/dir/mount");
            assert_eq!(line[5], "/tmp/dir");
        }
        cleanup => panic!("{cleanup:?}"),
    }
    assert!(matches!(installer.cleanup(), Cleanup::Nothing));
}

/// A directory for temporary files, with what is in it and what is attached there.
struct FakeTempDir {
    entries: Vec<FakeEntry>,
    mounted: Vec<String>,
    running: Vec<u32>,
    fail_detach: bool,
    detached: Vec<String>,
}

struct FakeEntry {
    name: &'static str,
    marker: Option<String>,
    modified: i128,
    has_image: bool,
    has_app: bool,
}

impl FakeTempDir {
    fn clean_up(&mut self, stale_before: i128) -> bool {
        let mut cleanup = StaleCleanup::new(stale_before);
        let mut index = 0;
        while index < self.entries.len() {
            let name = self.entries[index].name;
            let path = format!("/tmp/{name}");
            let mut removed = false;
            let mut action = cleanup.begin(path.into_bytes(), name.as_bytes(), true);
            while action != StaleAction::Next {
                let entry = &self.entries[index];
                let event = match action {
                    StaleAction::ReadMarker => StaleEvent::MarkerRead {
                        contents: entry.marker.clone().map(String::into_bytes),
                    },
                    StaleAction::CheckProcess { process_id } => StaleEvent::ProcessChecked {
                        running: Some(self.running.contains(&process_id)),
                    },
                    StaleAction::CheckLegacy => StaleEvent::LegacyChecked {
                        modified: Some(entry.modified),
                        image_is_file: entry.has_image,
                        app_is_directory: entry.has_app,
                        mounted: self.mounted.contains(&text(&cleanup.mount_path())),
                    },
                    StaleAction::CheckMount => StaleEvent::MountChecked {
                        mounted: self.mounted.contains(&text(&cleanup.mount_path())),
                    },
                    StaleAction::Detach => {
                        let mount_path = text(&cleanup.mount_path());
                        self.detached.push(mount_path.clone());
                        if self.fail_detach {
                            StaleEvent::Failed
                        } else {
                            self.mounted.retain(|mounted| *mounted != mount_path);
                            StaleEvent::Done
                        }
                    }
                    StaleAction::Remove => {
                        removed = true;
                        StaleEvent::Done
                    }
                    action => panic!("{action:?}"),
                };
                action = cleanup.advance(event);
            }
            if removed {
                self.entries.remove(index);
            } else {
                index += 1;
            }
        }
        cleanup.succeeded()
    }

    fn names(&self) -> Vec<&'static str> {
        self.entries.iter().map(|entry| entry.name).collect()
    }
}

fn marked(name: &'static str, process_id: u32) -> FakeEntry {
    FakeEntry {
        name,
        marker: Some(installer_marker_content(process_id)),
        modified: 1,
        has_image: false,
        has_app: false,
    }
}

#[test]
fn test_stale_cleanup_only_removes_confirmed_rezed_installer_dirs() {
    let mut temp_root = FakeTempDir {
        entries: vec![
            marked("rezed-auto-update-marked", 1000),
            marked("rezed-auto-update-live", 1001),
            FakeEntry {
                name: "zed-auto-update-legacy",
                marker: None,
                modified: 1,
                has_image: true,
                has_app: true,
            },
            FakeEntry {
                name: "zed-auto-update-unrelated",
                marker: None,
                modified: 1,
                has_image: true,
                has_app: false,
            },
            FakeEntry {
                name: "rezed-auto-update-invalid-marker",
                marker: Some("another updater".to_string()),
                modified: 1,
                has_image: false,
                has_app: false,
            },
        ],
        mounted: vec![
            "/tmp/rezed-auto-update-marked/mount".to_string(),
            "/tmp/rezed-auto-update-live/mount".to_string(),
            "/tmp/zed-auto-update-legacy/Rezed".to_string(),
            "/tmp/zed-auto-update-unrelated/Zed".to_string(),
            "/tmp/rezed-auto-update-invalid-marker/mount".to_string(),
        ],
        running: vec![1001],
        fail_detach: false,
        detached: Vec::new(),
    };

    assert!(temp_root.clean_up(0));
    assert_eq!(
        temp_root.names(),
        [
            "rezed-auto-update-live",
            "zed-auto-update-legacy",
            "zed-auto-update-unrelated",
            "rezed-auto-update-invalid-marker",
        ]
    );
    assert_eq!(temp_root.detached, ["/tmp/rezed-auto-update-marked/mount"]);

    assert!(temp_root.clean_up(1));
    assert_eq!(
        temp_root.names(),
        [
            "rezed-auto-update-live",
            "zed-auto-update-unrelated",
            "rezed-auto-update-invalid-marker",
        ]
    );
    assert_eq!(
        temp_root.detached,
        [
            "/tmp/rezed-auto-update-marked/mount",
            "/tmp/zed-auto-update-legacy/Rezed",
        ]
    );
}

#[test]
fn test_stale_cleanup_retains_mount_when_detach_fails() {
    let mut temp_root = FakeTempDir {
        entries: vec![marked("rezed-auto-update-marked", 1000)],
        mounted: vec!["/tmp/rezed-auto-update-marked/mount".to_string()],
        running: Vec::new(),
        fail_detach: true,
        detached: Vec::new(),
    };
    assert!(!temp_root.clean_up(1));
    assert_eq!(temp_root.names(), ["rezed-auto-update-marked"]);

    temp_root.fail_detach = false;
    assert!(temp_root.clean_up(1));
    assert!(temp_root.names().is_empty());
}

#[test]
fn test_macos_install_retains_mount_until_failed_detach_can_be_recovered() {
    let mut install = install();
    install.advance(MacOsEvent::Done);
    install.advance(MacOsEvent::Done);
    assert!(matches!(
        install.advance(failure("fake detach failure")),
        MacOsAction::CheckMount
    ));
    let error = message(install.advance(MacOsEvent::Checked { mounted: true }));
    assert!(error.contains("fake detach failure"));
    assert!(matches!(
        install.cleanup(),
        Cleanup::DetachAndRemove { .. }
    ));

    let mut temp_root = FakeTempDir {
        entries: vec![marked("rezed-auto-update1", 1000)],
        mounted: vec!["/tmp/rezed-auto-update1/mount".to_string()],
        running: Vec::new(),
        fail_detach: false,
        detached: Vec::new(),
    };
    assert!(temp_root.clean_up(1));
    assert!(temp_root.names().is_empty());
}

#[test]
fn stale_cleanup_asks_for_the_paths_of_a_directory() {
    let mut cleanup = StaleCleanup::new(5);
    let action = cleanup.begin(b"/tmp/zed-auto-updateX".to_vec(), b"zed-auto-updateX", true);
    assert_eq!(action, StaleAction::CheckLegacy);
    assert_eq!(cleanup.path(), b"/tmp/zed-auto-updateX");
    assert_eq!(text(&cleanup.image_path()), "/tmp/zed-auto-updateX/Zed.dmg");
    assert_eq!(
        text(&cleanup.app_path()),
        "/tmp/zed-auto-updateX/Rezed/Rezed.app"
    );
    assert_eq!(
        text(&cleanup.marker_path()),
        "/tmp/zed-auto-updateX/.rezed-auto-update"
    );
    let action = cleanup.advance(StaleEvent::LegacyChecked {
        modified: Some(6),
        image_is_file: true,
        app_is_directory: true,
        mounted: true,
    });
    assert_eq!(action, StaleAction::Next);
    assert!(cleanup.succeeded());
}

#[test]
fn stale_cleanup_fails_when_the_owner_is_unknown_or_the_directory_stays() {
    let mut cleanup = StaleCleanup::new(0);
    let name = b"rezed-auto-update7";
    assert_eq!(
        cleanup.begin(b"/tmp/x".to_vec(), name, false),
        StaleAction::Next
    );
    assert!(cleanup.succeeded());

    assert_eq!(
        cleanup.begin(b"/tmp/x".to_vec(), name, true),
        StaleAction::ReadMarker
    );
    assert_eq!(
        cleanup.advance(StaleEvent::MarkerRead {
            contents: Some(installer_marker_content(9).into_bytes())
        }),
        StaleAction::CheckProcess { process_id: 9 }
    );
    assert_eq!(
        cleanup.advance(StaleEvent::ProcessChecked { running: None }),
        StaleAction::Next
    );
    assert!(!cleanup.succeeded());

    let mut cleanup = StaleCleanup::new(0);
    cleanup.begin(b"/tmp/x".to_vec(), name, true);
    cleanup.advance(StaleEvent::MarkerRead {
        contents: Some(installer_marker_content(9).into_bytes()),
    });
    cleanup.advance(StaleEvent::ProcessChecked {
        running: Some(false),
    });
    assert_eq!(
        cleanup.advance(StaleEvent::MountChecked { mounted: false }),
        StaleAction::Remove
    );
    assert_eq!(cleanup.advance(StaleEvent::Done), StaleAction::Next);
    assert!(cleanup.succeeded());
    cleanup.begin(b"/tmp/x".to_vec(), name, true);
    cleanup.advance(StaleEvent::MarkerRead {
        contents: Some(installer_marker_content(9).into_bytes()),
    });
    cleanup.advance(StaleEvent::ProcessChecked {
        running: Some(false),
    });
    cleanup.advance(StaleEvent::MountChecked { mounted: true });
    cleanup.advance(StaleEvent::Failed);
    assert_eq!(
        cleanup.advance(StaleEvent::MountChecked { mounted: false }),
        StaleAction::Remove
    );
    assert_eq!(cleanup.advance(StaleEvent::Failed), StaleAction::Next);
    assert!(!cleanup.succeeded());
}

#[test]
fn directories_are_stale_after_a_day() {
    let day = 86_400_000_000_000;
    assert_eq!(stale_before(3 * day), 2 * day);
    assert_eq!(stale_before(0), -day);
    assert_eq!(stale_before(i128::MIN), 0);
    let name = b"zed-auto-update1";
    assert!(is_stale_installer_dir(name, true, Some(0), day + 1));
    assert!(!is_stale_installer_dir(name, true, Some(0), day));
    assert!(!is_stale_installer_dir(name, true, Some(day), 0));
    assert!(!is_stale_installer_dir(name, true, None, day + 1));
    assert!(!is_stale_installer_dir(name, false, Some(0), day + 1));
    assert!(!is_stale_installer_dir(b"zed-other", true, Some(0), day + 1));
    assert!(is_stale_installer_dir(name, true, Some(i128::MIN), i128::MAX));
    assert!(!is_stale_installer_dir(name, true, Some(i128::MAX), i128::MIN));
}

#[test]
fn cleanup_ends_where_something_cannot_be_read() {
    let day = 86_400_000_000_000;
    let entry = |file_name: &'static [u8]| {
        Some(TempEntry {
            file_name,
            is_directory: true,
            modified: Some(0),
        })
    };
    let action = |entry: Option<TempEntry>| unix_entry_action(entry, 2 * day);
    assert_eq!(action(entry(b"zed-auto-update1")), EntryAction::Remove);
    assert_eq!(action(entry(b"rezed-auto-update1")), EntryAction::Leave);
    assert_eq!(action(None), EntryAction::Stop);
}

#[test]
fn cleanup_must_remove_all_under_macos_only() {
    assert!(cleanup_stale_installer_dirs("macos", Some(true)));
    assert!(!cleanup_stale_installer_dirs("macos", Some(false)));
    assert!(cleanup_stale_installer_dirs("linux", Some(false)));
    assert!(!cleanup_stale_installer_dirs("linux", None));
    assert!(!cleanup_stale_installer_dirs("macos", None));
}

#[test]
fn marker_names_its_process() {
    assert_eq!(
        installer_marker_content(1000),
        "nguyenphutrong/rezed auto updater pid=1000\n"
    );
    for process_id in [0, 7, 1000, u32::MAX] {
        let content = installer_marker_content(process_id);
        assert_eq!(
            installer_marker_process_id(content.as_bytes()),
            Some(process_id)
        );
    }
    let prefix = "nguyenphutrong/rezed auto updater pid=";
    for content in [
        "another updater".to_string(),
        format!("{prefix}12"),
        format!("{prefix}\n"),
        format!("{prefix}4294967296\n"),
        format!("{prefix}1 \n"),
        format!(" {prefix}1\n"),
        format!("{prefix}1\n\n"),
    ] {
        assert_eq!(installer_marker_process_id(content.as_bytes()), None);
    }
    let mut invalid = format!("{prefix}1").into_bytes();
    invalid.push(0xff);
    invalid.push(b'\n');
    assert_eq!(installer_marker_process_id(&invalid), None);
    assert_eq!(
        installer_marker_process_id(format!("{prefix}+5\n").as_bytes()),
        Some(5)
    );
}

#[test]
fn installer_dir_is_marked_under_macos_only() {
    let mut dir = InstallerDir::new(b"/tmp/rezed-auto-update1".to_vec());
    let marker = dir.marker("macos", 42).unwrap();
    assert_eq!(
        text(&marker.path),
        "/tmp/rezed-auto-update1/.rezed-auto-update"
    );
    assert_eq!(marker.content, installer_marker_content(42));
    assert!(dir.marker("linux", 42).is_none());
    assert_eq!(installer_dir_prefix("macos"), "rezed-auto-update");
    assert_eq!(installer_dir_prefix("linux"), "zed-auto-update");
    assert!(dir.is_owned());
    dir.keep_for_external_cleanup();
    assert!(!dir.is_owned());
    assert_eq!(dir.path(), b"/tmp/rezed-auto-update1");
}

#[test]
fn running_app_must_have_a_name() {
    for path in ["/", "", "..", "/Applications/.."] {
        let dir = InstallerDir::new(b"/tmp/dir".to_vec());
        let shown = format!("{path:?}");
        let error = MacOsInstall::new(dir, b"/d", path.as_bytes(), &shown).unwrap_err();
        assert_eq!(error.full(), format!("invalid running app path {path:?}"));
    }
    let dir = InstallerDir::new(b"/tmp/dir".to_vec());
    let install = MacOsInstall::new(dir, b"/d", b"/Applications//Rezed.app/./", "").unwrap();
    assert_eq!(text(install.mount_path()), "/tmp/dir/mount");
    assert_eq!(line(&install.copy_command())[5], "/tmp/dir/mount/Rezed.app/");
}

#[test]
fn failed_programs_are_told() {
    let not_run = || CommandResult::NotRun {
        command: "\"hdiutil\"".to_string(),
        cause: "not found".to_string(),
    };
    let rejected = || CommandResult::Exited {
        success: false,
        stdout: Vec::new(),
        stderr: b"busy \xff".to_vec(),
    };
    let done = || CommandResult::Exited {
        success: true,
        stdout: Vec::new(),
        stderr: Vec::new(),
    };
    let full = |result: Result<(), InstallError>| result.unwrap_err().full();
    assert_eq!(
        full(attach_result(not_run(), b"/m")),
        "failed to mount disk image with \"hdiutil\": not found"
    );
    assert_eq!(
        full(attach_result(rejected(), b"/m")),
        "failed to mount disk image at /m: busy \u{fffd}"
    );
    assert!(attach_result(done(), b"/m").is_ok());
    assert_eq!(
        full(copy_result(not_run(), b"/a")),
        "failed to copy app with \"hdiutil\": not found"
    );
    assert_eq!(
        full(copy_result(rejected(), b"/a")),
        "failed to copy app to /a: busy \u{fffd}"
    );
    assert!(copy_result(done(), b"/a").is_ok());
    assert_eq!(
        full(detach_result(not_run(), b"/m")),
        "failed to run hdiutil detach for /m: not found"
    );
    assert_eq!(
        full(detach_result(rejected(), b"/m")),
        "failed to detach disk image at /m: busy \u{fffd}"
    );
    assert!(detach_result(done(), b"/m").is_ok());
    assert_eq!(
        full(detach_on_drop_result(Err("no memory".to_string()), b"/m")),
        "failed to start detach and cleanup for /m during cancellation: no memory"
    );
    assert!(detach_on_drop_result(Ok(()), b"/m").is_ok());

    let mut install = install();
    let event = install.attached(rejected());
    install.advance(event);
    assert_eq!(
        message(install.advance(MacOsEvent::Checked { mounted: false })),
        "failed to mount disk image at /tmp/rezed-auto-update1/mount: busy \u{fffd}"
    );
    let mut install = self::install();
    let event = install.attached(done());
    assert!(matches!(install.advance(event), MacOsAction::Copy));
    let event = install.copied(rejected());
    assert!(matches!(install.advance(event), MacOsAction::Detach));
    let event = install.detached(done());
    assert_eq!(
        message(install.advance(event)),
        "failed to copy app to /Applications/Rezed.app: busy \u{fffd}"
    );
}

#[test]
fn processes_and_mounts_are_recognised() {
    assert_eq!(
        line(&process_command(77)),
        ["/bin/ps", "-p", "77", "-o", "pid="]
    );
    let ran = |success: bool, stdout: &[u8]| CommandResult::Exited {
        success,
        stdout: stdout.to_vec(),
        stderr: Vec::new(),
    };
    assert!(is_process_running(ran(true, b"77")).unwrap());
    assert!(!is_process_running(ran(true, b"")).unwrap());
    assert!(!is_process_running(ran(false, b"77")).unwrap());
    let error = is_process_running(CommandResult::NotRun {
        command: String::new(),
        cause: "denied".to_string(),
    })
    .unwrap_err();
    assert_eq!(
        error.full(),
        "failed to check Rezed updater process: denied"
    );
    assert!(is_mounted(Some(2), Some(1)));
    assert!(!is_mounted(Some(1), Some(1)));
    assert!(!is_mounted(None, Some(1)));
    assert!(!is_mounted(Some(2), None));
}
