//! Installs an update under macOS: a disk image is attached, the application is copied out of it,
//! and the image is detached again, whatever happens in between.

use crate::command;
use crate::command::{CommandLine, CommandResult, CommandView, InstallError, InstallErrorView};
use crate::error;
use crate::installer_dir::{InstallerDir, InstallerDirView};
use crate::text;
use vstd::prelude::*;
use vstd::string::*;
use vstd::utf8::*;

verus! {

/// Detaches a disk image and removes the directory that it is in, for when the application is
/// about to end. It tries three times; what cannot be detached is kept for the next start.
pub const CANCELLED_INSTALL_CLEANUP_SCRIPT: &'static str =
    "for delay in 0 1 2; do /bin/sleep \"$delay\"; if /usr/bin/hdiutil detach -force \"$1\"; then /bin/rm -rf \"$2\"; exit 0; fi; done; if [ ! -e \"$1\" ]; then /bin/rm -rf \"$2\"; exit 0; fi; mount_device=$(/usr/bin/stat -f %d \"$1\" 2>/dev/null); installer_device=$(/usr/bin/stat -f %d \"$2\" 2>/dev/null); if [ -n \"$mount_device\" ] && [ \"$mount_device\" = \"$installer_device\" ]; then /bin/rm -rf \"$2\"; exit 0; fi; /usr/bin/logger -t Rezed \"failed to detach auto-update disk image at $1 during cancellation; retained $2 for startup recovery\"";

/// Attaches a disk image to a directory.
pub open spec fn attach_line(downloaded_dmg: Seq<u8>, mount_path: Seq<u8>) -> CommandView {
    CommandView {
        program: encode_utf8("hdiutil"@),
        args: seq![
            encode_utf8("attach"@),
            encode_utf8("-nobrowse"@),
            downloaded_dmg,
            encode_utf8("-mountpoint"@),
            mount_path,
        ],
        kill_on_drop: true,
    }
}

/// Copies an application over another one.
pub open spec fn copy_line(mounted_app_path: Seq<u8>, running_app_path: Seq<u8>) -> CommandView {
    CommandView {
        program: encode_utf8("rsync"@),
        args: seq![
            encode_utf8("-av"@),
            encode_utf8("--delete"@),
            encode_utf8("--exclude"@),
            encode_utf8("Icon?"@),
            mounted_app_path,
            running_app_path,
        ],
        kill_on_drop: true,
    }
}

/// Detaches the disk image from a directory.
pub open spec fn detach_line(mount_path: Seq<u8>) -> CommandView {
    CommandView {
        program: encode_utf8("hdiutil"@),
        args: seq![encode_utf8("detach"@), encode_utf8("-force"@), mount_path],
        kill_on_drop: false,
    }
}

/// Detaches the disk image and removes the directory without anybody waiting for it.
pub open spec fn detach_on_drop_line(mount_path: Seq<u8>, installer_path: Seq<u8>) -> CommandView {
    CommandView {
        program: encode_utf8("/bin/sh"@),
        args: seq![
            encode_utf8("-c"@),
            encode_utf8(CANCELLED_INSTALL_CLEANUP_SCRIPT@),
            encode_utf8("rezed-auto-update-cleanup"@),
            mount_path,
            installer_path,
        ],
        kill_on_drop: false,
    }
}

/// Asks for a process.
pub open spec fn process_line(process_id: nat) -> CommandView {
    CommandView {
        program: encode_utf8("/bin/ps"@),
        args: seq![
            encode_utf8("-p"@),
            encode_utf8(text::decimal(process_id)),
            encode_utf8("-o"@),
            encode_utf8("pid="@),
        ],
        kill_on_drop: false,
    }
}

/// The outcome of a program that works on `path`: `not_run` says that it could not be run, and
/// `rejected` that it failed.
pub open spec fn program_result(
    result: CommandResult,
    not_run: Seq<char>,
    rejected: Seq<char>,
    path: Seq<u8>,
) -> Result<(), InstallErrorView> {
    match result {
        CommandResult::NotRun { cause, .. } => Err(InstallErrorView::caused(not_run, cause@)),
        CommandResult::Exited { success, stderr, .. } => if success {
            Ok(())
        } else {
            Err(
                InstallErrorView::plain(
                    rejected + error::utf8_lossy(path) + ": "@ + error::utf8_lossy(stderr@),
                ),
            )
        },
    }
}

/// The command of a program that could not be run.
pub open spec fn shown_command(result: CommandResult) -> Seq<char> {
    match result {
        CommandResult::NotRun { command, .. } => command@,
        CommandResult::Exited { .. } => seq![],
    }
}

/// Whether the disk image is attached to a directory.
pub open spec fn attach_outcome(result: CommandResult, mount_path: Seq<u8>) -> Result<
    (),
    InstallErrorView,
> {
    program_result(
        result,
        "failed to mount disk image with "@ + shown_command(result),
        "failed to mount disk image at "@,
        mount_path,
    )
}

/// Whether the application is copied over the one that runs.
pub open spec fn copy_outcome(result: CommandResult, running_app_path: Seq<u8>) -> Result<
    (),
    InstallErrorView,
> {
    program_result(
        result,
        "failed to copy app with "@ + shown_command(result),
        "failed to copy app to "@,
        running_app_path,
    )
}

/// Whether the disk image is detached from a directory.
pub open spec fn detach_outcome(result: CommandResult, mount_path: Seq<u8>) -> Result<
    (),
    InstallErrorView,
> {
    program_result(
        result,
        "failed to run hdiutil detach for "@ + error::utf8_lossy(mount_path),
        "failed to detach disk image at "@,
        mount_path,
    )
}

/// The outcome of a program that works on `path`.
fn checked_program(result: CommandResult, not_run: &str, rejected: &str, path: &[u8]) -> (checked:
    Result<(), InstallError>)
    ensures
        command::install_result(checked) == program_result(result, not_run@, rejected@, path@),
{
    match result {
        CommandResult::NotRun { cause, .. } => Err(InstallError::caused(not_run, cause)),
        CommandResult::Exited { success, stderr, .. } => {
            if success {
                return Ok(());
            }
            let mut message = text::appended(rejected, error::lossy(path).as_str());
            message.append(": ");
            message.append(error::lossy(stderr.as_slice()).as_str());
            Err(InstallError::plain(message))
        },
    }
}

/// Attaches a disk image to a directory.
pub fn attach_command(downloaded_dmg: &[u8], mount_path: &[u8]) -> (command: CommandLine)
    ensures
        command@ == attach_line(downloaded_dmg@, mount_path@),
{
    let mut command = CommandLine::new("hdiutil".as_bytes(), true);
    command.text_arg("attach");
    command.text_arg("-nobrowse");
    command.arg(downloaded_dmg);
    command.text_arg("-mountpoint");
    command.arg(mount_path);
    command
}

/// Whether the disk image is attached to the directory.
pub fn attach_result(result: CommandResult, mount_path: &[u8]) -> (attached: Result<
    (),
    InstallError,
>)
    ensures
        command::install_result(attached) == attach_outcome(result, mount_path@),
{
    let not_run = match &result {
        CommandResult::NotRun { command, .. } => text::appended(
            "failed to mount disk image with ",
            command.as_str(),
        ),
        CommandResult::Exited { .. } => text::appended("failed to mount disk image with ", ""),
    };
    checked_program(result, not_run.as_str(), "failed to mount disk image at ", mount_path)
}

/// Copies an application over another one.
pub fn copy_command(mounted_app_path: &[u8], running_app_path: &[u8]) -> (command: CommandLine)
    ensures
        command@ == copy_line(mounted_app_path@, running_app_path@),
{
    let mut command = CommandLine::new("rsync".as_bytes(), true);
    command.text_arg("-av");
    command.text_arg("--delete");
    command.text_arg("--exclude");
    command.text_arg("Icon?");
    command.arg(mounted_app_path);
    command.arg(running_app_path);
    command
}

/// Whether the application is copied.
pub fn copy_result(result: CommandResult, running_app_path: &[u8]) -> (copied: Result<
    (),
    InstallError,
>)
    ensures
        command::install_result(copied) == copy_outcome(result, running_app_path@),
{
    let not_run = match &result {
        CommandResult::NotRun { command, .. } => text::appended(
            "failed to copy app with ",
            command.as_str(),
        ),
        CommandResult::Exited { .. } => text::appended("failed to copy app with ", ""),
    };
    checked_program(result, not_run.as_str(), "failed to copy app to ", running_app_path)
}

/// Detaches the disk image from a directory.
pub fn detach_command(mount_path: &[u8]) -> (command: CommandLine)
    ensures
        command@ == detach_line(mount_path@),
{
    let mut command = CommandLine::new("hdiutil".as_bytes(), false);
    command.text_arg("detach");
    command.text_arg("-force");
    command.arg(mount_path);
    command
}

/// Whether the disk image is detached from the directory.
pub fn detach_result(result: CommandResult, mount_path: &[u8]) -> (detached: Result<
    (),
    InstallError,
>)
    ensures
        command::install_result(detached) == detach_outcome(result, mount_path@),
{
    let not_run = text::appended(
        "failed to run hdiutil detach for ",
        error::lossy(mount_path).as_str(),
    );
    checked_program(result, not_run.as_str(), "failed to detach disk image at ", mount_path)
}

/// Detaches the disk image and removes the directory without anybody waiting for it.
pub fn detach_on_drop_command(mount_path: &[u8], installer_path: &[u8]) -> (command: CommandLine)
    ensures
        command@ == detach_on_drop_line(mount_path@, installer_path@),
{
    let mut command = CommandLine::new("/bin/sh".as_bytes(), false);
    command.text_arg("-c");
    command.text_arg(CANCELLED_INSTALL_CLEANUP_SCRIPT);
    command.text_arg("rezed-auto-update-cleanup");
    command.arg(mount_path);
    command.arg(installer_path);
    command
}

/// Whether the program was started that detaches the disk image.
pub fn detach_on_drop_result(result: Result<(), String>, mount_path: &[u8]) -> (started: Result<
    (),
    InstallError,
>)
    ensures
        command::install_result(started) == command::step_result(
            result,
            "failed to start detach and cleanup for "@ + error::utf8_lossy(mount_path@)
                + " during cancellation"@,
        ),
{
    let message = text::surrounded(
        "failed to start detach and cleanup for ",
        error::lossy(mount_path).as_str(),
        " during cancellation",
    );
    command::checked_step(result, message.as_str())
}

/// Whether something is attached to a directory: it is then on another device than the directory
/// around it. A device is missing where nothing is known of the directory.
pub fn is_mounted(mount_device: Option<u64>, parent_device: Option<u64>) -> (mounted: bool)
    ensures
        mounted == (mount_device is Some && parent_device is Some && mount_device
            != parent_device),
{
    match (mount_device, parent_device) {
        (Some(mount_device), Some(parent_device)) => mount_device != parent_device,
        _ => false,
    }
}

/// Asks for a process.
pub fn process_command(process_id: u32) -> (command: CommandLine)
    ensures
        command@ == process_line(process_id as nat),
{
    let mut command = CommandLine::new("/bin/ps".as_bytes(), false);
    command.text_arg("-p");
    command.text_arg(text::decimal_text(process_id as u64).as_str());
    command.text_arg("-o");
    command.text_arg("pid=");
    command
}

/// Whether a process runs, by what the program said that was asked for it.
pub fn is_process_running(result: CommandResult) -> (running: Result<bool, InstallError>)
    ensures
        match result {
            CommandResult::NotRun { cause, .. } => running is Err && running->Err_0@
                == InstallErrorView::caused("failed to check Rezed updater process"@, cause@),
            CommandResult::Exited { success, stdout, .. } => running == Ok::<bool, InstallError>(
                success && stdout@.len() > 0,
            ),
        },
{
    match result {
        CommandResult::NotRun { cause, .. } => Err(
            InstallError::caused("failed to check Rezed updater process", cause),
        ),
        CommandResult::Exited { success, stdout, .. } => Ok(success && stdout.len() > 0),
    }
}

/// A directory in which a disk image is attached, or may be.
#[derive(Debug)]
pub struct MountedMacOsInstaller {
    installer_dir: InstallerDir,
    mount_path: Vec<u8>,
    needs_detach: bool,
}

/// The contents of a [`MountedMacOsInstaller`].
#[verifier::ext_equal]
pub struct MountedView {
    pub installer_dir: InstallerDirView,
    pub mount_path: Seq<u8>,
    pub needs_detach: bool,
}

/// What is left to do with a directory that is no longer used.
#[derive(Debug)]
pub enum Cleanup {
    /// Nothing: somebody else removes it.
    Nothing,
    /// Nothing is attached in it: remove it.
    RemoveDir { path: Vec<u8> },
    /// Detach what may be attached in it, and let the program that does so remove it.
    DetachAndRemove { mount_path: Vec<u8>, installer_path: Vec<u8> },
}

/// The contents of a [`Cleanup`].
#[verifier::ext_equal]
pub enum CleanupView {
    Nothing,
    RemoveDir { path: Seq<u8> },
    DetachAndRemove { mount_path: Seq<u8>, installer_path: Seq<u8> },
}

impl View for Cleanup {
    type V = CleanupView;

    open spec fn view(&self) -> CleanupView {
        match *self {
            Cleanup::Nothing => CleanupView::Nothing,
            Cleanup::RemoveDir { path } => CleanupView::RemoveDir { path: path@ },
            Cleanup::DetachAndRemove { mount_path, installer_path } =>
                CleanupView::DetachAndRemove {
                    mount_path: mount_path@,
                    installer_path: installer_path@,
                },
        }
    }
}

impl View for MountedMacOsInstaller {
    type V = MountedView;

    closed spec fn view(&self) -> MountedView {
        MountedView {
            installer_dir: self.installer_dir@,
            mount_path: self.mount_path@,
            needs_detach: self.needs_detach,
        }
    }
}

impl MountedView {
    /// What is left to do when it is no longer used.
    pub open spec fn cleanup(self) -> CleanupView {
        if self.needs_detach {
            CleanupView::DetachAndRemove {
                mount_path: self.mount_path,
                installer_path: self.installer_dir.path,
            }
        } else if self.installer_dir.owned {
            CleanupView::RemoveDir { path: self.installer_dir.path }
        } else {
            CleanupView::Nothing
        }
    }

    /// What remains of it then.
    pub open spec fn cleaned_up(self) -> MountedView {
        MountedView {
            installer_dir: InstallerDirView { owned: false, ..self.installer_dir },
            needs_detach: false,
            ..self
        }
    }
}

impl MountedMacOsInstaller {
    /// A directory in which a disk image is about to be attached.
    pub fn new(installer_dir: InstallerDir, mount_path: Vec<u8>) -> (installer:
        MountedMacOsInstaller)
        ensures
            installer@ == (MountedView {
                installer_dir: installer_dir@,
                mount_path: mount_path@,
                needs_detach: true,
            }),
    {
        MountedMacOsInstaller { installer_dir, mount_path, needs_detach: true }
    }

    /// Where the disk image is attached.
    pub fn mount_path(&self) -> (path: &[u8])
        ensures
            path@ == self@.mount_path,
    {
        self.mount_path.as_slice()
    }

    /// Nothing is attached.
    pub fn disarm(&mut self)
        ensures
            final(self)@ == (MountedView { needs_detach: false, ..old(self)@ }),
    {
        self.needs_detach = false;
    }

    /// What is left to do when it is no longer used. Afterwards nothing is.
    pub fn cleanup(&mut self) -> (cleanup: Cleanup)
        ensures
            cleanup@ == old(self)@.cleanup(),
            final(self)@ == old(self)@.cleaned_up(),
    {
        let path = vstd::slice::slice_to_vec(self.installer_dir.path());
        let cleanup = if self.needs_detach {
            Cleanup::DetachAndRemove {
                mount_path: vstd::slice::slice_to_vec(self.mount_path.as_slice()),
                installer_path: path,
            }
        } else if self.installer_dir.is_owned() {
            Cleanup::RemoveDir { path }
        } else {
            Cleanup::Nothing
        };
        self.needs_detach = false;
        self.installer_dir.keep_for_external_cleanup();
        cleanup
    }
}

/// The commands are about the places that they are given: the image is attached to the mount
/// point, the application is copied from the first place over the second, and it is the mount point
/// that is detached; a process is asked for by its number.
pub proof fn law_commands_are_about_their_places(
    image: Seq<u8>,
    mount_path: Seq<u8>,
    from: Seq<u8>,
    to: Seq<u8>,
    installer_path: Seq<u8>,
    process_id: nat,
)
    ensures
        ({
            let attach = attach_line(image, mount_path);
            let copy = copy_line(from, to);
            let detach = detach_line(mount_path);
            let drop = detach_on_drop_line(mount_path, installer_path);
            let process = process_line(process_id);
            &&& attach.args.len() == 5 && attach.args[2] == image && attach.args[4] == mount_path
            &&& attach.args[3] == encode_utf8("-mountpoint"@)
            &&& attach.args[0] == encode_utf8("attach"@)
            &&& attach.kill_on_drop && copy.kill_on_drop
            &&& copy.args.len() == 6 && copy.args[4] == from && copy.args[5] == to
            &&& copy.args.contains(encode_utf8("--delete"@))
            &&& detach.args.len() == 3 && detach.args[2] == mount_path
            &&& detach.args[0] == encode_utf8("detach"@)
            &&& !detach.kill_on_drop && !drop.kill_on_drop
            &&& attach.program == detach.program
            &&& drop.args.len() == 5 && drop.args[3] == mount_path && drop.args[4]
                == installer_path
            &&& process.args.len() == 4 && process.args[1] == encode_utf8(
                text::decimal(process_id),
            )
        }),
{
    assert(copy_line(from, to).args[1] == encode_utf8("--delete"@));
}

/// A program works if and only if it ran and ended well. Otherwise its cause is told where it could
/// not be run, and the path and what it said where it ended badly.
pub proof fn law_program_fails_with_what_was_said(
    result: CommandResult,
    not_run: Seq<char>,
    rejected: Seq<char>,
    path: Seq<u8>,
)
    ensures
        ({
            let outcome = program_result(result, not_run, rejected, path);
            &&& outcome is Ok <==> result is Exited && result->Exited_success
            &&& result is NotRun ==> outcome->Err_0.message == not_run && outcome->Err_0.cause
                == Some(result->NotRun_cause@)
            &&& result is Exited && !result->Exited_success ==> (rejected + error::utf8_lossy(
                path,
            )).is_prefix_of(outcome->Err_0.message) && error::utf8_lossy(
                result->Exited_stderr@,
            ).is_suffix_of(outcome->Err_0.message)
        }),
{
    if result is Exited && !result->Exited_success {
        let front = rejected + error::utf8_lossy(path);
        let said = error::utf8_lossy(result->Exited_stderr@);
        assert(front + ": "@ + said =~= front + (": "@ + said));
        text::lemma_starts_with(front, ": "@ + said);
        text::lemma_ends_with(front + ": "@, said);
    }
}

/// Attaching, copying and detaching work if and only if their program ran and ended well.
pub proof fn law_parts_work_when_their_program_does(
    result: CommandResult,
    mount_path: Seq<u8>,
    running_app_path: Seq<u8>,
)
    ensures
        ({
            let well = result is Exited && result->Exited_success;
            &&& (attach_outcome(result, mount_path) is Ok) == well
            &&& (copy_outcome(result, running_app_path) is Ok) == well
            &&& (detach_outcome(result, mount_path) is Ok) == well
        }),
{
}

/// A directory in which nothing is attached is removed by its owner, and by nobody else; one in
/// which something may be attached is left to the program that detaches it.
pub proof fn law_cleanup_goes_by_what_is_attached(installer: MountedView)
    ensures
        installer.needs_detach <==> installer.cleanup() is DetachAndRemove,
        !installer.needs_detach && installer.installer_dir.owned <==> installer.cleanup()
            is RemoveDir,
        installer.cleanup() matches CleanupView::RemoveDir { path } ==> path
            == installer.installer_dir.path,
        installer.cleanup() matches CleanupView::DetachAndRemove { mount_path, installer_path }
            ==> mount_path == installer.mount_path && installer_path
            == installer.installer_dir.path,
{
}

} // verus!
