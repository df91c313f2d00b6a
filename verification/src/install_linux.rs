//! Installs an update under Linux.

use crate::command;
use crate::command::{CommandLine, CommandResult, CommandView, InstallError, InstallErrorView};
use crate::os_path;
use crate::text;
use vstd::prelude::*;
use vstd::string::*;
use vstd::utf8::*;

verus! {

/// The directory of the application in the archive of a release.
pub open spec fn app_folder(channel: Seq<char>) -> Seq<char> {
    if channel == "stable"@ {
        "zed"@ + ".app"@
    } else {
        "zed-"@ + channel + ".app"@
    }
}

/// Where the program is below the directory that the application is installed in.
pub open spec fn program_suffix(channel: Seq<char>) -> Seq<char> {
    app_folder(channel) + "/libexec/zed-editor"@
}

/// The directory that the application is installed in: that of the application that runs, where
/// it was installed in the same way, and one of the user's otherwise.
pub open spec fn destination(home: Seq<char>, channel: Seq<char>, running: Seq<u8>) -> Seq<u8> {
    let suffix = encode_utf8(program_suffix(channel));
    if valid_utf8(running) && suffix.is_suffix_of(running) {
        running.take(running.len() - suffix.len())
    } else {
        os_path::joined(encode_utf8(home), encode_utf8(".local"@))
    }
}

/// The places that an installation is about.
#[derive(Debug)]
pub struct LinuxInstall {
    /// The archive of the release.
    pub archive: Vec<u8>,
    /// Where the archive is unpacked.
    pub extract_dir: Vec<u8>,
    /// What is copied from there.
    pub from: Vec<u8>,
    /// Where it is copied to.
    pub to: Vec<u8>,
    /// The program that is there afterwards.
    pub program: Vec<u8>,
}

/// The contents of a [`LinuxInstall`].
#[verifier::ext_equal]
pub struct LinuxInstallView {
    pub archive: Seq<u8>,
    pub extract_dir: Seq<u8>,
    pub from: Seq<u8>,
    pub to: Seq<u8>,
    pub program: Seq<u8>,
}

impl View for LinuxInstall {
    type V = LinuxInstallView;

    open spec fn view(&self) -> LinuxInstallView {
        LinuxInstallView {
            archive: self.archive@,
            extract_dir: self.extract_dir@,
            from: self.from@,
            to: self.to@,
            program: self.program@,
        }
    }
}

impl LinuxInstallView {
    /// The places for an archive that was downloaded to a directory.
    pub open spec fn planned(
        installer_dir: Seq<u8>,
        archive: Seq<u8>,
        channel: Seq<char>,
        running: Seq<u8>,
        home: Seq<char>,
    ) -> LinuxInstallView {
        let extract_dir = os_path::joined(installer_dir, encode_utf8("zed"@));
        let to = destination(home, channel, running);
        LinuxInstallView {
            archive,
            extract_dir,
            from: os_path::joined(extract_dir, encode_utf8(app_folder(channel))),
            to,
            program: os_path::joined(to, encode_utf8(program_suffix(channel))),
        }
    }

    /// Unpacks the archive.
    pub open spec fn extraction(self) -> CommandView {
        CommandView {
            program: encode_utf8("tar"@),
            args: seq![
                encode_utf8("-xzf"@),
                self.archive,
                encode_utf8("-C"@),
                self.extract_dir,
            ],
            kill_on_drop: false,
        }
    }

    /// Copies the application, and removes what it no longer holds.
    pub open spec fn copying(self) -> CommandView {
        CommandView {
            program: encode_utf8("rsync"@),
            args: seq![encode_utf8("-av"@), encode_utf8("--delete"@), self.from, self.to],
            kill_on_drop: false,
        }
    }
}

/// The outcome of a program that brings something from one place to another. Where it could not
/// be run the message does not say which program it was.
pub open spec fn transfer_result(
    result: CommandResult,
    not_run: Seq<char>,
    head: Seq<char>,
    first: Seq<char>,
    second: Seq<char>,
) -> Result<(), InstallErrorView> {
    match result {
        CommandResult::NotRun { cause, .. } => Err(InstallErrorView::caused(not_run, cause@)),
        CommandResult::Exited { success, stderr, .. } => if success {
            Ok(())
        } else {
            Err(InstallErrorView::plain(command::copy_message(head, first, second, stderr@)))
        },
    }
}

/// The directory of the application in the archive of a release.
fn app_folder_name(channel: &str) -> (name: String)
    ensures
        name@ == app_folder(channel@),
{
    if text::same_text(channel, "stable") {
        text::appended("zed", ".app")
    } else {
        text::surrounded("zed-", channel, ".app")
    }
}

impl LinuxInstall {
    /// The places for an archive that was downloaded to a directory. The home directory of the
    /// user, or why it is not known, comes from the environment.
    pub fn new(
        installer_dir: &[u8],
        archive: &[u8],
        channel: &str,
        running_app_path: &[u8],
        home: Result<String, String>,
    ) -> (install: Result<LinuxInstall, InstallError>)
        ensures
            match install {
                Ok(install) => home is Ok && install@ == LinuxInstallView::planned(
                    installer_dir@,
                    archive@,
                    channel@,
                    running_app_path@,
                    home->Ok_0@,
                ),
                Err(error) => home is Err && error@ == InstallErrorView::caused(
                    "no HOME env var set"@,
                    home->Err_0@,
                ),
            },
    {
        let home = match home {
            Ok(home) => home,
            Err(cause) => {
                return Err(InstallError::caused("no HOME env var set", cause));
            },
        };
        let folder = app_folder_name(channel);
        let suffix = text::appended(folder.as_str(), "/libexec/zed-editor");
        let extract_dir = os_path::join_text(installer_dir, "zed");
        let from = os_path::join_text(extract_dir.as_slice(), folder.as_str());
        let installed_here = text::is_utf8(running_app_path) && os_path::ends_with(
            running_app_path,
            suffix.as_str().as_bytes(),
        );
        let to = if installed_here {
            let length: usize = running_app_path.len() - suffix.as_str().as_bytes().len();
            let prefix = vstd::slice::slice_subrange(running_app_path, 0, length);
            assert(prefix@ =~= running_app_path@.take(length as int));
            vstd::slice::slice_to_vec(prefix)
        } else {
            os_path::join_text(home.as_str().as_bytes(), ".local")
        };
        let program = os_path::join_text(to.as_slice(), suffix.as_str());
        Ok(
            LinuxInstall {
                archive: vstd::slice::slice_to_vec(archive),
                extract_dir,
                from,
                to,
                program,
            },
        )
    }

    /// Whether the directory is there that the archive is unpacked in.
    pub fn dir_created(&self, result: Result<(), String>) -> (checked: Result<(), InstallError>)
        ensures
            command::install_result(checked) == command::step_result(
                result,
                "failed to create directory into which to extract update"@,
            ),
    {
        command::checked_step(result, "failed to create directory into which to extract update")
    }

    /// Unpacks the archive.
    pub fn extraction(&self) -> (command: CommandLine)
        ensures
            command@ == self@.extraction(),
    {
        let mut command = CommandLine::new("tar".as_bytes(), false);
        command.text_arg("-xzf");
        command.arg(self.archive.as_slice());
        command.text_arg("-C");
        command.arg(self.extract_dir.as_slice());
        command
    }

    /// Whether the archive is unpacked. The paths are shown as quoted text.
    pub fn extracted(&self, result: CommandResult, archive: &str, extract_dir: &str) -> (checked:
        Result<(), InstallError>)
        ensures
            command::install_result(checked) == transfer_result(
                result,
                "failed to extract: {cmd}"@,
                "failed to extract "@,
                archive@,
                extract_dir@,
            ),
    {
        checked_transfer(
            result,
            "failed to extract: {cmd}",
            "failed to extract ",
            archive,
            extract_dir,
        )
    }

    /// Copies the application, and removes what it no longer holds.
    pub fn copying(&self) -> (command: CommandLine)
        ensures
            command@ == self@.copying(),
    {
        let mut command = CommandLine::new("rsync".as_bytes(), false);
        command.text_arg("-av");
        command.text_arg("--delete");
        command.arg(self.from.as_slice());
        command.arg(self.to.as_slice());
        command
    }

    /// The program to restart with, if the application is copied. The paths are shown as quoted
    /// text.
    pub fn copied(self, result: CommandResult, from: &str, to: &str) -> (program: Result<
        Vec<u8>,
        InstallError,
    >)
        ensures
            match transfer_result(
                result,
                "failed to rsync: {cmd}"@,
                "failed to copy Zed update from "@,
                from@,
                to@,
            ) {
                Ok(_) => program is Ok && program->Ok_0@ == self@.program,
                Err(error) => program is Err && program->Err_0@ == error,
            },
    {
        match checked_transfer(
            result,
            "failed to rsync: {cmd}",
            "failed to copy Zed update from ",
            from,
            to,
        ) {
            Ok(_) => Ok(self.program),
            Err(error) => Err(error),
        }
    }
}

/// The outcome of a program that brings something from one place to another.
fn checked_transfer(
    result: CommandResult,
    not_run: &str,
    head: &str,
    first: &str,
    second: &str,
) -> (checked: Result<(), InstallError>)
    ensures
        command::install_result(checked) == transfer_result(
            result,
            not_run@,
            head@,
            first@,
            second@,
        ),
{
    match result {
        CommandResult::NotRun { cause, .. } => Err(InstallError::caused(not_run, cause)),
        CommandResult::Exited { success, stderr, .. } => {
            if success {
                Ok(())
            } else {
                Err(
                    InstallError::plain(
                        command::copy_message_text(head, first, second, stderr.as_slice()),
                    ),
                )
            }
        },
    }
}

/// An application that runs from where an installation puts it is restarted from there.
pub proof fn law_restarts_from_the_same_place(
    installer_dir: Seq<u8>,
    archive: Seq<u8>,
    channel: Seq<char>,
    prefix: Seq<u8>,
    home: Seq<char>,
)
    requires
        prefix.len() == 0 || prefix.last() == os_path::SEPARATOR,
        valid_utf8(prefix + encode_utf8(program_suffix(channel))),
    ensures
        ({
            let running = prefix + encode_utf8(program_suffix(channel));
            let install = LinuxInstallView::planned(
                installer_dir,
                archive,
                channel,
                running,
                home,
            );
            install.to == prefix && install.program == running
        }),
{
    let suffix = encode_utf8(program_suffix(channel));
    let running = prefix + suffix;
    assert(suffix.is_suffix_of(running)) by {
        assert(running.subrange(prefix.len() as int, running.len() as int) =~= suffix);
    }
    assert(running.take(prefix.len() as int) =~= prefix);
    lemma_suffix_is_relative(channel);
}

/// The place of the program below an installation is no absolute path.
proof fn lemma_suffix_is_relative(channel: Seq<char>)
    ensures
        encode_utf8(program_suffix(channel)).len() > 0,
        encode_utf8(program_suffix(channel))[0] != os_path::SEPARATOR,
{
    reveal_strlit("zed");
    reveal_strlit("zed-");
    let suffix = program_suffix(channel);
    assert(suffix[0] == 'z');
    assert(encode_utf8(suffix) == encode_scalar('z' as u32) + encode_utf8(suffix.drop_first()));
    assert((122u32 & 0x7F) as u8 == 122u8) by (bit_vector);
}

/// The channels do not share an application: that of the stable channel is `zed.app`, and those of
/// any two other channels have different directories, which differ from it.
pub proof fn law_channels_have_their_own_application(left: Seq<char>, right: Seq<char>)
    ensures
        app_folder("stable"@) == "zed.app"@,
        app_folder(left) == app_folder(right) ==> left == right,
        program_suffix(left) == app_folder(left) + "/libexec/zed-editor"@,
{
    reveal_strlit("zed");
    reveal_strlit("zed-");
    reveal_strlit(".app");
    reveal_strlit("zed.app");
    assert("zed"@ + ".app"@ =~= "zed.app"@);
    if app_folder(left) == app_folder(right) {
        assert("zed"@ + ".app"@ != "zed-"@ + left + ".app"@) by {
            assert(("zed"@ + ".app"@)[3] == '.');
            assert(("zed-"@ + left + ".app"@)[3] == '-');
        }
        assert("zed"@ + ".app"@ != "zed-"@ + right + ".app"@) by {
            assert(("zed"@ + ".app"@)[3] == '.');
            assert(("zed-"@ + right + ".app"@)[3] == '-');
        }
        if left != "stable"@ && right != "stable"@ {
            let whole = app_folder(left);
            assert(left =~= whole.subrange(4, whole.len() - 4));
            assert(right =~= whole.subrange(4, whole.len() - 4));
        }
    }
}

/// An application that runs from elsewhere is installed in the directory of the user, and one that
/// runs from where an installation puts it is installed there again; nothing else decides.
pub proof fn law_application_is_installed_where_it_runs(
    home: Seq<char>,
    other_home: Seq<char>,
    channel: Seq<char>,
    running: Seq<u8>,
    other_running: Seq<u8>,
    prefix: Seq<u8>,
)
    requires
        valid_utf8(prefix + encode_utf8(program_suffix(channel))),
        !valid_utf8(running) || !encode_utf8(program_suffix(channel)).is_suffix_of(running),
        !valid_utf8(other_running) || !encode_utf8(program_suffix(channel)).is_suffix_of(
            other_running,
        ),
    ensures
        destination(home, channel, prefix + encode_utf8(program_suffix(channel))) == prefix,
        destination(home, channel, running) == os_path::joined(
            encode_utf8(home),
            encode_utf8(".local"@),
        ),
        destination(home, channel, running) == destination(home, channel, other_running),
{
    let suffix = encode_utf8(program_suffix(channel));
    text::lemma_ends_with(prefix, suffix);
    assert((prefix + suffix).take(prefix.len() as int) =~= prefix);
}

/// The archive is unpacked below the directory that it was downloaded to, the application of the
/// channel is copied from there, and the program that is there afterwards is below the place that
/// it is copied to.
pub proof fn law_installation_stays_in_its_places(
    installer_dir: Seq<u8>,
    archive: Seq<u8>,
    channel: Seq<char>,
    running: Seq<u8>,
    home: Seq<char>,
)
    ensures
        ({
            let install = LinuxInstallView::planned(installer_dir, archive, channel, running, home);
            &&& install.archive == archive
            &&& installer_dir.is_prefix_of(install.extract_dir)
            &&& encode_utf8("zed"@).is_suffix_of(install.extract_dir)
            &&& install.extract_dir.is_prefix_of(install.from)
            &&& encode_utf8(app_folder(channel)).is_suffix_of(install.from)
            &&& install.to.is_prefix_of(install.program)
            &&& encode_utf8(program_suffix(channel)).is_suffix_of(install.program)
        }),
{
    let extract_dir = os_path::joined(installer_dir, encode_utf8("zed"@));
    let to = destination(home, channel, running);
    assert("zed"@.len() > 0 && "zed"@[0] == 'z') by {
        reveal_strlit("zed");
    }
    assert(app_folder(channel).len() > 0 && app_folder(channel)[0] == 'z') by {
        reveal_strlit("zed");
        reveal_strlit("zed-");
    }
    lemma_starts_relative("zed"@);
    lemma_starts_relative(app_folder(channel));
    lemma_suffix_is_relative(channel);
    lemma_below(installer_dir, encode_utf8("zed"@));
    lemma_below(extract_dir, encode_utf8(app_folder(channel)));
    lemma_below(to, encode_utf8(program_suffix(channel)));
}

/// What is put into a directory is below it, and ends with what was put there.
proof fn lemma_below(base: Seq<u8>, rest: Seq<u8>)
    requires
        rest.len() > 0,
        rest[0] != 47,
    ensures
        base.is_prefix_of(os_path::joined(base, rest)),
        rest.is_suffix_of(os_path::joined(base, rest)),
{
    os_path::law_joined_path_has_both_parts(base, rest);
}

/// The archive is unpacked to where it is to be unpacked, and the application is copied from there
/// to its place, where nothing else remains of it.
pub proof fn law_commands_are_about_the_places(install: LinuxInstallView)
    ensures
        install.extraction().program == encode_utf8("tar"@),
        install.extraction().args.len() == 4,
        install.extraction().args[1] == install.archive,
        install.extraction().args[3] == install.extract_dir,
        install.copying().program == encode_utf8("rsync"@),
        install.copying().args.len() == 4,
        install.copying().args[1] == encode_utf8("--delete"@),
        install.copying().args[2] == install.from,
        install.copying().args[3] == install.to,
{
}

/// A name that starts with a `z` is no absolute path.
proof fn lemma_starts_relative(name: Seq<char>)
    ensures
        name.len() > 0 && name[0] == 'z' ==> encode_utf8(name).len() > 0 && encode_utf8(name)[0]
            != 47,
{
    if name.len() > 0 && name[0] == 'z' {
        assert(encode_utf8(name) == encode_scalar('z' as u32) + encode_utf8(name.drop_first()));
        assert((122u32 & 0x7F) as u8 == 122u8) by (bit_vector);
    }
}

/// A program that brings something from one place to another works if and only if it ran and ended
/// well. Otherwise its cause is told where it could not be run, and both places and what it said
/// where it ended badly.
pub proof fn law_transfer_fails_with_what_was_said(
    result: CommandResult,
    not_run: Seq<char>,
    head: Seq<char>,
    first: Seq<char>,
    second: Seq<char>,
)
    ensures
        ({
            let outcome = transfer_result(result, not_run, head, first, second);
            &&& outcome is Ok <==> result is Exited && result->Exited_success
            &&& result is NotRun ==> outcome->Err_0.message == not_run && outcome->Err_0.cause
                == Some(result->NotRun_cause@)
            &&& result is Exited && !result->Exited_success ==> (head + first + " to "@
                + second).is_prefix_of(outcome->Err_0.message) && outcome->Err_0.cause is None
        }),
{
    if result is Exited && !result->Exited_success {
        command::law_copy_message_has_both_places(head, first, second, result->Exited_stderr@);
    }
}

} // verus!
