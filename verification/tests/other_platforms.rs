//! Installation under Linux and Windows, and what it needs.

use auto_update::command::{CommandLine, CommandResult};
use auto_update::dependencies::{check_dependencies, linux_rsync_install_hint};
use auto_update::install_linux::LinuxInstall;
use auto_update::install_windows::{
    cleanup_windows, finalize_auto_update_on_quit, install_release_windows, installer_command,
};
use auto_update::os_path;

fn text(bytes: &[u8]) -> String {
    String::from_utf8(bytes.to_vec()).unwrap()
}

fn line(command: &CommandLine) -> Vec<String> {
    let mut line = vec![text(&command.program)];
    for arg in &command.args {
        line.push(text(arg));
    }
    line
}

fn install(channel: &str, running: &str) -> LinuxInstall {
    LinuxInstall::new(
        b"/tmp/zed-auto-update1",
        b"/tmp/zed-auto-update1/zed.tar.gz",
        channel,
        running.as_bytes(),
        Ok("/home/user".to_string()),
    )
    .unwrap()
}

fn exited(success: bool) -> CommandResult {
    CommandResult::Exited {
        success,
        stdout: Vec::new(),
        stderr: b"bad \"tar\"".to_vec(),
    }
}

#[test]
fn linux_update_is_unpacked_and_copied() {
    let install = install("stable", "/usr/bin/zed");
    assert_eq!(text(&install.extract_dir), "/tmp/zed-auto-update1/zed");
    assert_eq!(
        line(&install.extraction()),
        [
            "tar",
            "-xzf",
            "/tmp/zed-auto-update1/zed.tar.gz",
            "-C",
            "/tmp/zed-auto-update1/zed",
        ]
    );
    assert_eq!(
        line(&install.copying()),
        [
            "rsync",
            "-av",
            "--delete",
            "/tmp/zed-auto-update1/zed/zed.app",
            "/home/user/.local",
        ]
    );
    assert!(install.dir_created(Ok(())).is_ok());
    assert!(install.extracted(exited(true), "", "").is_ok());
    let program = install.copied(exited(true), "", "").unwrap();
    assert_eq!(
        text(&program),
        "/home/user/.local/zed.app/libexec/zed-editor"
    );
}

#[test]
fn linux_update_goes_where_the_application_is() {
    let running = "/opt/apps/zed-nightly.app/libexec/zed-editor";
    let nightly = install("nightly", running);
    assert_eq!(text(&nightly.to), "/opt/apps/");
    assert_eq!(
        text(&nightly.from),
        "/tmp/zed-auto-update1/zed/zed-nightly.app"
    );
    assert_eq!(text(&nightly.program), running);

    let other_channel = install("preview", running);
    assert_eq!(text(&other_channel.to), "/home/user/.local");

    let no_text = LinuxInstall::new(
        b"/tmp/d",
        b"/tmp/d/zed.tar.gz",
        "stable",
        b"/opt/\xff/zed.app/libexec/zed-editor",
        Ok("/home/user/".to_string()),
    )
    .unwrap();
    assert_eq!(text(&no_text.to), "/home/user/.local");
}

#[test]
fn linux_installation_can_fail() {
    let error = LinuxInstall::new(
        b"/tmp/d",
        b"/tmp/d/zed.tar.gz",
        "stable",
        b"/usr/bin/zed",
        Err("environment variable not found".to_string()),
    )
    .unwrap_err();
    assert_eq!(
        error.full(),
        "no HOME env var set: environment variable not found"
    );

    let install = install("stable", "/usr/bin/zed");
    assert_eq!(
        install
            .dir_created(Err("read-only".to_string()))
            .unwrap_err()
            .full(),
        "failed to create directory into which to extract update: read-only"
    );
    let not_run = || CommandResult::NotRun {
        command: String::new(),
        cause: "not found".to_string(),
    };
    assert_eq!(
        install
            .extracted(not_run(), "\"a\"", "\"b\"")
            .unwrap_err()
            .full(),
        "failed to extract: {cmd}: not found"
    );
    assert_eq!(
        install
            .extracted(exited(false), "\"a\"", "\"b\"")
            .unwrap_err()
            .full(),
        "failed to extract \"a\" to \"b\": \"bad \\\"tar\\\"\""
    );
    assert_eq!(
        install
            .copied(exited(false), "\"a\"", "\"b\"")
            .unwrap_err()
            .full(),
        "failed to copy Zed update from \"a\" to \"b\": \"bad \\\"tar\\\"\""
    );
}

#[test]
fn linux_copying_may_not_start() {
    let error = install("stable", "/usr/bin/zed")
        .copied(
            CommandResult::NotRun {
                command: String::new(),
                cause: "not found".to_string(),
            },
            "",
            "",
        )
        .unwrap_err();
    assert_eq!(error.full(), "failed to rsync: {cmd}: not found");
}

#[test]
fn windows_installer_prepares_the_update() {
    assert_eq!(
        line(&installer_command(b"C:\\updates\\Zed.exe")),
        [
            "C:\\updates\\Zed.exe",
            "/verysilent",
            "/update=true",
            "/MERGETASKS=!desktopicon",
        ]
    );
    let helper = install_release_windows(exited(true), Ok(true)).unwrap();
    assert_eq!(helper.dir, "tools");
    assert_eq!(helper.file, "auto_update_helper.exe");
    let full = |result: CommandResult, dir: Result<bool, String>| {
        install_release_windows(result, dir).unwrap_err().full()
    };
    assert_eq!(
        full(exited(false), Ok(true)),
        "failed to start installer: \"bad \\\"tar\\\"\""
    );
    assert_eq!(full(exited(true), Ok(false)), "No parent dir for Zed.exe");
    assert_eq!(full(exited(true), Err("gone".to_string())), "gone");
    assert_eq!(
        full(
            CommandResult::NotRun {
                command: String::new(),
                cause: "denied".to_string()
            },
            Ok(true)
        ),
        "denied"
    );
}

#[test]
fn windows_update_is_finished_on_quit() {
    let command = finalize_auto_update_on_quit(Some(true)).unwrap();
    assert_eq!(command.helper.dir, "tools");
    assert_eq!(command.helper.file, "auto_update_helper.exe");
    assert_eq!(command.args, ["--launch", "false"]);
    assert!(finalize_auto_update_on_quit(Some(false)).is_none());
    assert!(finalize_auto_update_on_quit(None).is_none());
    assert_eq!(cleanup_windows(), ["updates", "install", "old"]);
}

#[test]
fn hint_goes_by_the_distribution() {
    let hint = |os_release: &str| linux_rsync_install_hint(Some(os_release));
    assert_eq!(hint("ID=arch\n"), "Install it with: sudo pacman -S rsync");
    assert_eq!(
        hint("NAME=x\nID=\"Ubuntu\"\n"),
        "Install it with: sudo apt install rsync"
    );
    assert_eq!(
        hint("ID=mint\r\nID_LIKE=\"ubuntu debian\"\r\n"),
        "Install it with: sudo apt install rsync"
    );
    for id in ["fedora", "rhel", "centos", "rocky", "almalinux"] {
        assert_eq!(
            hint(&format!("  ID={id}  ")),
            "Install it with: sudo dnf install rsync"
        );
    }
    assert_eq!(hint("ID=nixos"), "Install pkgs.rsync from nixpkgs");
    assert_eq!(
        hint("ID=debian\nID_LIKE=arch"),
        "Install it with: sudo pacman -S rsync"
    );
    let unknown = "Please install rsync using your package manager";
    assert_eq!(hint("ID=void"), unknown);
    assert_eq!(hint("VERSION_ID=arch"), unknown);
    assert_eq!(hint("ID=arch linux"), unknown);
    assert_eq!(linux_rsync_install_hint(None), unknown);
}

#[test]
fn similar_distributions_are_separated_by_whitespace() {
    for code in 0..=0x10ffff {
        if let Some(ch) = char::from_u32(code) {
            let hint = linux_rsync_install_hint(Some(&format!("ID_LIKE=x{ch}nixos")));
            let separated = ch.is_whitespace() && ch != '\n';
            assert_eq!(hint == "Install pkgs.rsync from nixpkgs", separated, "{ch:?}");
        }
    }
}

#[test]
fn rsync_is_needed_under_linux_and_macos() {
    assert!(check_dependencies("linux", true, None).is_ok());
    assert!(check_dependencies("macos", true, None).is_ok());
    assert!(check_dependencies("windows", false, None).is_ok());
    let error = check_dependencies("linux", false, Some("ID=arch")).unwrap_err();
    assert!(error.is_missing_dependency());
    assert_eq!(
        error.message(),
        "rsync is required for auto-updates but is not installed. Install it with: sudo pacman -S rsync"
    );
    let error = check_dependencies("macos", false, None).unwrap_err();
    assert!(!error.is_missing_dependency());
}

#[test]
fn paths_are_joined_like_those_of_the_system() {
    let join = |base: &str, rest: &str| text(&os_path::join(base.as_bytes(), rest.as_bytes()));
    for (base, rest) in [
        ("/a", "b"),
        ("/a/", "b"),
        ("", "b"),
        ("/a", "/b"),
        ("/a", ""),
        ("a/b", "c/d"),
    ] {
        let expected = std::path::Path::new(base).join(rest);
        assert_eq!(join(base, rest), expected.to_str().unwrap());
    }
    for path in [
        "/a/b", "/a/b/", "a", "/", "", ".", "..", "a/..", "a/.", "./", "//a//b//", "a/./b/.",
    ] {
        let expected = std::path::Path::new(path).file_name();
        let found = os_path::file_name(path.as_bytes()).map(|name| text(&name));
        assert_eq!(found.as_deref(), expected.map(|name| name.to_str().unwrap()));
    }
}
