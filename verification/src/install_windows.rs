//! Installs an update under Windows, where the application cannot be replaced while it runs: an
//! installer prepares the update, and a helper finishes it when the application is gone.

use crate::command::{CommandLine, CommandResult, CommandView, InstallError, InstallErrorView};
use crate::error;
use crate::installer_dir;
use crate::text;
use vstd::prelude::*;
use vstd::string::*;
use vstd::utf8::*;

verus! {

/// What is said where the directory of the program is not known.
pub const NO_PARENT_DIR: &'static str = "No parent dir for Zed.exe";

/// The file by which the installer says that it prepared the update.
pub const FLAG_FILE: &'static str = "versions.txt";

/// The directory of the helper, beside the program.
pub const HELPER_DIR: &'static str = "tools";

/// The helper in that directory.
pub const HELPER_FILE: &'static str = "auto_update_helper.exe";

/// The directories beside the program that an update leaves behind when it is finished.
pub fn cleanup_windows() -> (names: Vec<&'static str>)
    ensures
        names@.len() == 3,
        names@[0]@ == installer_dir::WINDOWS_INSTALLER_DIR@,
        names@[1]@ == "install"@,
        names@[2]@ == "old"@,
{
    let mut names: Vec<&'static str> = Vec::new();
    names.push(installer_dir::WINDOWS_INSTALLER_DIR);
    names.push("install");
    names.push("old");
    names
}

/// Runs the installer without asking the user.
pub fn installer_command(downloaded_installer: &[u8]) -> (command: CommandLine)
    ensures
        command@ == (CommandView {
            program: downloaded_installer@,
            args: seq![
                encode_utf8("/verysilent"@),
                encode_utf8("/update=true"@),
                encode_utf8("/MERGETASKS=!desktopicon"@),
            ],
            kill_on_drop: false,
        }),
{
    let mut command = CommandLine::new(downloaded_installer, false);
    command.text_arg("/verysilent");
    command.text_arg("/update=true");
    command.text_arg("/MERGETASKS=!desktopicon");
    command
}

/// The outcome of the installer.
pub open spec fn installer_outcome(result: CommandResult) -> Result<(), InstallErrorView> {
    match result {
        CommandResult::NotRun { cause, .. } => Err(InstallErrorView::plain(cause@)),
        CommandResult::Exited { success, stderr, .. } => if success {
            Ok(())
        } else {
            Err(
                InstallErrorView::plain(
                    "failed to start installer: "@ + error::debug_quoted(
                        error::utf8_lossy(stderr@),
                    ),
                ),
            )
        },
    }
}

/// A program beside the one that runs: the directory that it is in, and its name.
#[derive(Clone, Copy, Debug)]
pub struct Helper {
    pub dir: &'static str,
    pub file: &'static str,
}

impl Helper {
    /// Whether it is the program that finishes an update.
    pub open spec fn finishes_updates(self) -> bool {
        self.dir@ == HELPER_DIR@ && self.file@ == HELPER_FILE@
    }
}

/// The program to restart with: the helper, which replaces the application and starts it. The
/// directory of the program that runs is known, or the reason why it is not; there is none where
/// that program has no directory.
pub fn install_release_windows(result: CommandResult, program_dir: Result<bool, String>) -> (helper:
    Result<Helper, InstallError>)
    ensures
        match installer_outcome(result) {
            Err(error) => helper is Err && helper->Err_0@ == error,
            Ok(_) => match program_dir {
                Err(cause) => helper is Err && helper->Err_0@ == InstallErrorView::plain(cause@),
                Ok(known) => if known {
                    helper is Ok && helper->Ok_0.finishes_updates()
                } else {
                    helper is Err && helper->Err_0@ == InstallErrorView::plain(NO_PARENT_DIR@)
                },
            },
        },
{
    match result {
        CommandResult::NotRun { cause, .. } => {
            return Err(InstallError::plain(cause));
        },
        CommandResult::Exited { success, stderr, .. } => {
            if !success {
                let said = error::quoted(error::lossy(stderr.as_slice()).as_str());
                return Err(
                    InstallError::plain(
                        text::appended("failed to start installer: ", said.as_str()),
                    ),
                );
            }
        },
    }
    match program_dir {
        Err(cause) => Err(InstallError::plain(cause)),
        Ok(known) => {
            if known {
                Ok(Helper { dir: HELPER_DIR, file: HELPER_FILE })
            } else {
                Err(InstallError::plain(NO_PARENT_DIR.to_string()))
            }
        },
    }
}

/// A program with arguments that is run when the application quits.
#[derive(Debug)]
pub struct HelperCommand {
    pub helper: Helper,
    pub args: Vec<&'static str>,
}

/// What is run when the application quits: where the installer has prepared an update, the
/// helper, which then does not start the application. Whether it has is not known where the
/// program that runs has no directory.
pub fn finalize_auto_update_on_quit(flag_file_exists: Option<bool>) -> (command: Option<
    HelperCommand,
>)
    ensures
        (command is Some) == (flag_file_exists == Some(true)),
        command matches Some(command) ==> command.helper.finishes_updates() && command.args@.len()
            == 2 && command.args@[0]@ == "--launch"@ && command.args@[1]@ == "false"@,
{
    match flag_file_exists {
        Some(true) => {
            let mut args: Vec<&'static str> = Vec::new();
            args.push("--launch");
            args.push("false");
            Some(HelperCommand { helper: Helper { dir: HELPER_DIR, file: HELPER_FILE }, args })
        },
        _ => None,
    }
}

/// The installer works if and only if it ran and ended well; otherwise what it said is told, or why
/// it could not be run.
pub proof fn law_installer_fails_with_what_was_said(result: CommandResult)
    ensures
        installer_outcome(result) is Ok <==> result is Exited && result->Exited_success,
        result is NotRun ==> installer_outcome(result)->Err_0.message == result->NotRun_cause@,
        result is Exited && !result->Exited_success ==> error::debug_quoted(
            error::utf8_lossy(result->Exited_stderr@),
        ).is_suffix_of(installer_outcome(result)->Err_0.message),
        installer_outcome(result) is Err ==> installer_outcome(result)->Err_0.cause is None,
{
    if result is Exited && !result->Exited_success {
        text::lemma_ends_with(
            "failed to start installer: "@,
            error::debug_quoted(error::utf8_lossy(result->Exited_stderr@)),
        );
    }
}

} // verus!
