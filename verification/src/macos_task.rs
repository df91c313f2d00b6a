//! One installation under macOS, step by step.

use crate::command;
use crate::command::{CommandLine, CommandResult, InstallError, InstallErrorView};
use crate::install_macos;
use crate::install_macos::{Cleanup, CleanupView, MountedMacOsInstaller, MountedView};
use crate::installer_dir::{InstallerDir, InstallerDirView};
use crate::os_path;
use crate::text;
use vstd::prelude::*;
use vstd::string::*;
use vstd::utf8::*;

verus! {

/// How far an installation is.
#[derive(Debug)]
pub enum MacOsStep {
    /// Waits for the disk image to be attached.
    Attaching,
    /// The image could not be attached. Waits for whether it is attached all the same.
    Unattached { error: InstallError },
    /// The image could not be attached as a whole. Waits for it to be detached.
    Abandoning { error: InstallError },
    /// The image could not be detached either. Waits for whether it is still attached.
    Abandoned { error: InstallError, detach_error: InstallError },
    /// Waits for the application to be copied.
    Copying,
    /// Waits for the image to be detached after the application was copied, or was not.
    Detaching { copied: Result<(), InstallError> },
    /// The image could not be detached. Waits for whether it is still attached.
    Undetached { copied: Result<(), InstallError>, detach_error: InstallError },
    /// Nothing is left to do.
    Finished,
}

/// The contents of a [`MacOsStep`].
#[verifier::ext_equal]
pub enum MacOsStepView {
    Attaching,
    Unattached { error: InstallErrorView },
    Abandoning { error: InstallErrorView },
    Abandoned { error: InstallErrorView, detach_error: InstallErrorView },
    Copying,
    Detaching { copied: Result<(), InstallErrorView> },
    Undetached { copied: Result<(), InstallErrorView>, detach_error: InstallErrorView },
    Finished,
}

impl View for MacOsStep {
    type V = MacOsStepView;

    open spec fn view(&self) -> MacOsStepView {
        match *self {
            MacOsStep::Attaching => MacOsStepView::Attaching,
            MacOsStep::Unattached { error } => MacOsStepView::Unattached { error: error@ },
            MacOsStep::Abandoning { error } => MacOsStepView::Abandoning { error: error@ },
            MacOsStep::Abandoned { error, detach_error } => MacOsStepView::Abandoned {
                error: error@,
                detach_error: detach_error@,
            },
            MacOsStep::Copying => MacOsStepView::Copying,
            MacOsStep::Detaching { copied } => MacOsStepView::Detaching {
                copied: command::install_result(copied),
            },
            MacOsStep::Undetached { copied, detach_error } => MacOsStepView::Undetached {
                copied: command::install_result(copied),
                detach_error: detach_error@,
            },
            MacOsStep::Finished => MacOsStepView::Finished,
        }
    }
}

/// What happened outside.
#[derive(Debug)]
pub enum MacOsEvent {
    /// What was asked for was done.
    Done,
    /// What was asked for could not be done.
    Failed { error: InstallError },
    /// It is known whether the disk image is attached.
    Checked { mounted: bool },
}

/// The contents of a [`MacOsEvent`].
#[verifier::ext_equal]
pub enum MacOsEventView {
    Done,
    Failed { error: InstallErrorView },
    Checked { mounted: bool },
}

impl View for MacOsEvent {
    type V = MacOsEventView;

    open spec fn view(&self) -> MacOsEventView {
        match *self {
            MacOsEvent::Done => MacOsEventView::Done,
            MacOsEvent::Failed { error } => MacOsEventView::Failed { error: error@ },
            MacOsEvent::Checked { mounted } => MacOsEventView::Checked { mounted },
        }
    }
}

impl MacOsEventView {
    /// What happened, by the outcome of a part of the installation.
    pub open spec fn of(result: Result<(), InstallErrorView>) -> MacOsEventView {
        match result {
            Ok(_) => MacOsEventView::Done,
            Err(error) => MacOsEventView::Failed { error },
        }
    }
}

impl MacOsEvent {
    /// What happened, by the outcome of a part of the installation.
    pub fn of(result: Result<(), InstallError>) -> (event: MacOsEvent)
        ensures
            event@ == MacOsEventView::of(command::install_result(result)),
    {
        match result {
            Ok(_) => MacOsEvent::Done,
            Err(error) => MacOsEvent::Failed { error },
        }
    }
}

/// What is to be done next.
#[derive(Debug)]
pub enum MacOsAction {
    /// Copy the application out of the disk image.
    Copy,
    /// Detach the disk image.
    Detach,
    /// Look whether the disk image is attached.
    CheckMount,
    /// The update is installed. The application restarts as it was started.
    Complete,
    /// The update is not installed.
    Fail { error: InstallError },
    /// Nothing: what happened does not concern the installation.
    Ignore,
}

/// The contents of a [`MacOsAction`].
#[verifier::ext_equal]
pub enum MacOsActionView {
    Copy,
    Detach,
    CheckMount,
    Complete,
    Fail { error: InstallErrorView },
    Ignore,
}

impl View for MacOsAction {
    type V = MacOsActionView;

    open spec fn view(&self) -> MacOsActionView {
        match *self {
            MacOsAction::Copy => MacOsActionView::Copy,
            MacOsAction::Detach => MacOsActionView::Detach,
            MacOsAction::CheckMount => MacOsActionView::CheckMount,
            MacOsAction::Complete => MacOsActionView::Complete,
            MacOsAction::Fail { error } => MacOsActionView::Fail { error: error@ },
            MacOsAction::Ignore => MacOsActionView::Ignore,
        }
    }
}

/// An installation.
#[derive(Debug)]
pub struct MacOsInstall {
    installer: MountedMacOsInstaller,
    downloaded_dmg: Vec<u8>,
    mounted_app_path: Vec<u8>,
    running_app_path: Vec<u8>,
    step: MacOsStep,
}

/// The contents of a [`MacOsInstall`].
#[verifier::ext_equal]
pub struct MacOsInstallView {
    pub installer: MountedView,
    /// The disk image.
    pub downloaded_dmg: Seq<u8>,
    /// The application in the disk image.
    pub mounted_app_path: Seq<u8>,
    /// The application that is replaced.
    pub running_app_path: Seq<u8>,
    pub step: MacOsStepView,
}

impl View for MacOsInstall {
    type V = MacOsInstallView;

    closed spec fn view(&self) -> MacOsInstallView {
        MacOsInstallView {
            installer: self.installer@,
            downloaded_dmg: self.downloaded_dmg@,
            mounted_app_path: self.mounted_app_path@,
            running_app_path: self.running_app_path@,
            step: self.step@,
        }
    }
}

/// What an event leads to.
#[verifier::ext_equal]
pub struct MacOsOutcome {
    pub step: MacOsStepView,
    pub needs_detach: bool,
    pub action: MacOsActionView,
}

/// The error where a disk image could be neither attached nor detached.
pub open spec fn attach_and_detach_error(
    error: InstallErrorView,
    detach_error: InstallErrorView,
) -> InstallErrorView {
    InstallErrorView::plain(
        "failed to attach disk image: "@ + error.full()
            + "; additionally failed to detach its partial mount: "@ + detach_error.full(),
    )
}

/// The error where an application could not be copied nor the disk image detached.
pub open spec fn copy_and_detach_error(
    error: InstallErrorView,
    detach_error: InstallErrorView,
) -> InstallErrorView {
    InstallErrorView::plain(
        "failed to copy app: "@ + error.full() + "; additionally failed to detach disk image: "@
            + detach_error.full(),
    )
}

/// How an installation ends when the disk image could not be detached.
pub open spec fn undetached_error(
    copied: Result<(), InstallErrorView>,
    detach_error: InstallErrorView,
) -> InstallErrorView {
    match copied {
        Ok(_) => detach_error,
        Err(error) => copy_and_detach_error(error, detach_error),
    }
}

impl MacOsInstallView {
    /// An installation of a disk image over the application that runs.
    pub open spec fn planned(
        installer_dir: InstallerDirView,
        downloaded_dmg: Seq<u8>,
        running_app_path: Seq<u8>,
        file_name: Seq<u8>,
    ) -> MacOsInstallView {
        let mount_path = os_path::joined(installer_dir.path, encode_utf8("mount"@));
        MacOsInstallView {
            installer: MountedView { installer_dir, mount_path, needs_detach: true },
            downloaded_dmg,
            mounted_app_path: os_path::joined(mount_path, file_name) + encode_utf8("/"@),
            running_app_path,
            step: MacOsStepView::Attaching,
        }
    }

    /// The installation goes on.
    pub open spec fn going_on(self, step: MacOsStepView, action: MacOsActionView) -> MacOsOutcome {
        MacOsOutcome { step, needs_detach: self.installer.needs_detach, action }
    }

    /// The installation fails.
    pub open spec fn failing(self, needs_detach: bool, error: InstallErrorView) -> MacOsOutcome {
        MacOsOutcome {
            step: MacOsStepView::Finished,
            needs_detach,
            action: MacOsActionView::Fail { error },
        }
    }

    /// What an event leads to.
    pub open spec fn next(self, event: MacOsEventView) -> MacOsOutcome {
        match (self.step, event) {
            (MacOsStepView::Attaching, MacOsEventView::Done) => self.going_on(
                MacOsStepView::Copying,
                MacOsActionView::Copy,
            ),
            (MacOsStepView::Attaching, MacOsEventView::Failed { error }) => self.going_on(
                MacOsStepView::Unattached { error },
                MacOsActionView::CheckMount,
            ),
            (MacOsStepView::Unattached { error }, MacOsEventView::Checked { mounted }) =>
                if mounted {
                    self.going_on(MacOsStepView::Abandoning { error }, MacOsActionView::Detach)
                } else {
                    self.failing(false, error)
                },
            (MacOsStepView::Abandoning { error }, MacOsEventView::Done) => self.failing(
                false,
                error,
            ),
            (
                MacOsStepView::Abandoning { error },
                MacOsEventView::Failed { error: detach_error },
            ) => self.going_on(
                MacOsStepView::Abandoned { error, detach_error },
                MacOsActionView::CheckMount,
            ),
            (
                MacOsStepView::Abandoned { error, detach_error },
                MacOsEventView::Checked { mounted },
            ) => self.failing(
                self.installer.needs_detach && mounted,
                attach_and_detach_error(error, detach_error),
            ),
            (MacOsStepView::Copying, MacOsEventView::Done) => self.going_on(
                MacOsStepView::Detaching { copied: Ok(()) },
                MacOsActionView::Detach,
            ),
            (MacOsStepView::Copying, MacOsEventView::Failed { error }) => self.going_on(
                MacOsStepView::Detaching { copied: Err(error) },
                MacOsActionView::Detach,
            ),
            (MacOsStepView::Detaching { copied }, MacOsEventView::Done) => match copied {
                Ok(_) => MacOsOutcome {
                    step: MacOsStepView::Finished,
                    needs_detach: false,
                    action: MacOsActionView::Complete,
                },
                Err(error) => self.failing(false, error),
            },
            (
                MacOsStepView::Detaching { copied },
                MacOsEventView::Failed { error: detach_error },
            ) => self.going_on(
                MacOsStepView::Undetached { copied, detach_error },
                MacOsActionView::CheckMount,
            ),
            (
                MacOsStepView::Undetached { copied, detach_error },
                MacOsEventView::Checked { mounted },
            ) => self.failing(
                self.installer.needs_detach && mounted,
                undetached_error(copied, detach_error),
            ),
            (_, _) => self.going_on(self.step, MacOsActionView::Ignore),
        }
    }

    /// The installation after an event.
    pub open spec fn advanced(self, event: MacOsEventView) -> MacOsInstallView {
        let outcome = self.next(event);
        MacOsInstallView {
            installer: MountedView { needs_detach: outcome.needs_detach, ..self.installer },
            step: outcome.step,
            ..self
        }
    }
}

/// The message of two errors.
fn both(head: &str, first: &InstallError, between: &str, second: &InstallError) -> (error:
    InstallError)
    ensures
        error@ == InstallErrorView::plain(head@ + first@.full() + between@ + second@.full()),
{
    let mut message = text::appended(head, first.full().as_str());
    message.append(between);
    message.append(second.full().as_str());
    InstallError::plain(message)
}

impl MacOsInstall {
    /// An installation of a disk image over the application that runs, in a directory that was
    /// created for it. The path of that application is also shown as quoted text. The first thing
    /// to do is to attach the disk image.
    pub fn new(
        installer_dir: InstallerDir,
        downloaded_dmg: &[u8],
        running_app_path: &[u8],
        shown_path: &str,
    ) -> (install: Result<MacOsInstall, InstallError>)
        ensures
            match os_path::file_name_of(running_app_path@) {
                Some(name) => install is Ok && install->Ok_0@ == MacOsInstallView::planned(
                    installer_dir@,
                    downloaded_dmg@,
                    running_app_path@,
                    name,
                ),
                None => install is Err && install->Err_0@ == InstallErrorView::plain(
                    "invalid running app path "@ + shown_path@,
                ),
            },
    {
        let name = match os_path::file_name(running_app_path) {
            Some(name) => name,
            None => {
                return Err(
                    InstallError::plain(text::appended("invalid running app path ", shown_path)),
                );
            },
        };
        let mount_path = os_path::join_text(installer_dir.path(), "mount");
        let app_path = os_path::join(mount_path.as_slice(), name.as_slice());
        let mounted_app_path = os_path::appended(app_path.as_slice(), "/".as_bytes());
        Ok(
            MacOsInstall {
                installer: MountedMacOsInstaller::new(installer_dir, mount_path),
                downloaded_dmg: vstd::slice::slice_to_vec(downloaded_dmg),
                mounted_app_path,
                running_app_path: vstd::slice::slice_to_vec(running_app_path),
                step: MacOsStep::Attaching,
            },
        )
    }

    /// Where the disk image is attached.
    pub fn mount_path(&self) -> (path: &[u8])
        ensures
            path@ == self@.installer.mount_path,
    {
        self.installer.mount_path()
    }

    /// Attaches the disk image.
    pub fn attach_command(&self) -> (command: CommandLine)
        ensures
            command@ == install_macos::attach_line(
                self@.downloaded_dmg,
                self@.installer.mount_path,
            ),
    {
        install_macos::attach_command(self.downloaded_dmg.as_slice(), self.installer.mount_path())
    }

    /// Copies the application out of the disk image.
    pub fn copy_command(&self) -> (command: CommandLine)
        ensures
            command@ == install_macos::copy_line(self@.mounted_app_path, self@.running_app_path),
    {
        install_macos::copy_command(
            self.mounted_app_path.as_slice(),
            self.running_app_path.as_slice(),
        )
    }

    /// Detaches the disk image.
    pub fn detach_command(&self) -> (command: CommandLine)
        ensures
            command@ == install_macos::detach_line(self@.installer.mount_path),
    {
        install_macos::detach_command(self.installer.mount_path())
    }

    /// What happened, by how the program ended that attaches the disk image.
    pub fn attached(&self, result: CommandResult) -> (event: MacOsEvent)
        ensures
            event@ == MacOsEventView::of(
                install_macos::attach_outcome(result, self@.installer.mount_path),
            ),
    {
        MacOsEvent::of(install_macos::attach_result(result, self.installer.mount_path()))
    }

    /// What happened, by how the program ended that copies the application.
    pub fn copied(&self, result: CommandResult) -> (event: MacOsEvent)
        ensures
            event@ == MacOsEventView::of(
                install_macos::copy_outcome(result, self@.running_app_path),
            ),
    {
        MacOsEvent::of(install_macos::copy_result(result, self.running_app_path.as_slice()))
    }

    /// What happened, by how the program ended that detaches the disk image.
    pub fn detached(&self, result: CommandResult) -> (event: MacOsEvent)
        ensures
            event@ == MacOsEventView::of(
                install_macos::detach_outcome(result, self@.installer.mount_path),
            ),
    {
        MacOsEvent::of(install_macos::detach_result(result, self.installer.mount_path()))
    }

    /// What is left to do when the installation ends, or is cancelled. Afterwards nothing is.
    pub fn cleanup(&mut self) -> (cleanup: Cleanup)
        ensures
            cleanup@ == old(self)@.installer.cleanup(),
            final(self)@ == (MacOsInstallView {
                installer: old(self)@.installer.cleaned_up(),
                ..old(self)@
            }),
    {
        self.installer.cleanup()
    }

    /// Goes on with what happened, and says what is to be done next.
    pub fn advance(&mut self, event: MacOsEvent) -> (action: MacOsAction)
        ensures
            final(self)@ == old(self)@.advanced(event@),
            action@ == old(self)@.next(event@).action,
    {
        let mut step = MacOsStep::Finished;
        std::mem::swap(&mut step, &mut self.step);
        match (step, event) {
            (MacOsStep::Attaching, MacOsEvent::Done) => {
                self.step = MacOsStep::Copying;
                MacOsAction::Copy
            },
            (MacOsStep::Attaching, MacOsEvent::Failed { error }) => {
                self.step = MacOsStep::Unattached { error };
                MacOsAction::CheckMount
            },
            (MacOsStep::Unattached { error }, MacOsEvent::Checked { mounted }) => {
                if mounted {
                    self.step = MacOsStep::Abandoning { error };
                    MacOsAction::Detach
                } else {
                    self.installer.disarm();
                    MacOsAction::Fail { error }
                }
            },
            (MacOsStep::Abandoning { error }, MacOsEvent::Done) => {
                self.installer.disarm();
                MacOsAction::Fail { error }
            },
            (MacOsStep::Abandoning { error }, MacOsEvent::Failed { error: detach_error }) => {
                self.step = MacOsStep::Abandoned { error, detach_error };
                MacOsAction::CheckMount
            },
            (MacOsStep::Abandoned { error, detach_error }, MacOsEvent::Checked { mounted }) => {
                if !mounted {
                    self.installer.disarm();
                }
                MacOsAction::Fail {
                    error: both(
                        "failed to attach disk image: ",
                        &error,
                        "; additionally failed to detach its partial mount: ",
                        &detach_error,
                    ),
                }
            },
            (MacOsStep::Copying, MacOsEvent::Done) => {
                self.step = MacOsStep::Detaching { copied: Ok(()) };
                MacOsAction::Detach
            },
            (MacOsStep::Copying, MacOsEvent::Failed { error }) => {
                self.step = MacOsStep::Detaching { copied: Err(error) };
                MacOsAction::Detach
            },
            (MacOsStep::Detaching { copied }, MacOsEvent::Done) => {
                self.installer.disarm();
                match copied {
                    Ok(_) => MacOsAction::Complete,
                    Err(error) => MacOsAction::Fail { error },
                }
            },
            (MacOsStep::Detaching { copied }, MacOsEvent::Failed { error: detach_error }) => {
                self.step = MacOsStep::Undetached { copied, detach_error };
                MacOsAction::CheckMount
            },
            (MacOsStep::Undetached { copied, detach_error }, MacOsEvent::Checked { mounted }) => {
                if !mounted {
                    self.installer.disarm();
                }
                match copied {
                    Ok(_) => MacOsAction::Fail { error: detach_error },
                    Err(error) => MacOsAction::Fail {
                        error: both(
                            "failed to copy app: ",
                            &error,
                            "; additionally failed to detach disk image: ",
                            &detach_error,
                        ),
                    },
                }
            },
            (step, _) => {
                self.step = step;
                MacOsAction::Ignore
            },
        }
    }
}

impl MacOsInstallView {
    /// Whether an image may be attached as long as the installation goes on.
    pub open spec fn wf(self) -> bool {
        self.step is Finished || self.installer.needs_detach
    }

    /// The installation after some events.
    pub open spec fn after(self, events: Seq<MacOsEventView>) -> MacOsInstallView
        decreases events.len(),
    {
        if events.len() == 0 {
            self
        } else {
            self.after(events.drop_last()).advanced(events.last())
        }
    }
}

/// Whatever happens, an installation that is not over is one in which an image may be attached,
/// in the directory that it began with.
pub proof fn law_unfinished_install_may_be_mounted(
    installer_dir: InstallerDirView,
    downloaded_dmg: Seq<u8>,
    running_app_path: Seq<u8>,
    file_name: Seq<u8>,
    events: Seq<MacOsEventView>,
)
    ensures
        ({
            let planned = MacOsInstallView::planned(
                installer_dir,
                downloaded_dmg,
                running_app_path,
                file_name,
            );
            let install = planned.after(events);
            &&& install.wf()
            &&& install.installer.installer_dir == installer_dir
            &&& install.installer.mount_path == planned.installer.mount_path
        }),
    decreases events.len(),
{
    if events.len() > 0 {
        law_unfinished_install_may_be_mounted(
            installer_dir,
            downloaded_dmg,
            running_app_path,
            file_name,
            events.drop_last(),
        );
    }
}

/// An installation that is cancelled before it is over detaches the image, and leaves it to the
/// program that does so to remove the directory.
pub proof fn law_cancelled_install_detaches(install: MacOsInstallView)
    requires
        install.wf(),
        !(install.step is Finished),
    ensures
        install.installer.cleanup() == (CleanupView::DetachAndRemove {
            mount_path: install.installer.mount_path,
            installer_path: install.installer.installer_dir.path,
        }),
        !install.installer.cleaned_up().installer_dir.owned,
{
}

/// The directory is only removed, with all that is in it, after the image was detached or was
/// seen not to be attached.
pub proof fn law_directory_is_removed_only_when_detached(
    install: MacOsInstallView,
    event: MacOsEventView,
)
    requires
        install.installer.needs_detach,
        !install.advanced(event).installer.needs_detach,
    ensures
        event is Done && (install.step is Detaching || install.step is Abandoning) || event == (
        MacOsEventView::Checked { mounted: false }),
{
}

/// An image that stays attached though it was to be detached is kept, with its directory, until
/// it is detached later.
pub proof fn law_stuck_image_is_kept(install: MacOsInstallView)
    requires
        install.wf(),
        install.step is Undetached || install.step is Abandoned,
    ensures
        ({
            let after = install.advanced(MacOsEventView::Checked { mounted: true });
            &&& after.step is Finished
            &&& after.installer.cleanup() is DetachAndRemove
        }),
{
}

/// The image is detached after the application was copied, and also after it could not be.
pub proof fn law_copying_is_followed_by_detaching(install: MacOsInstallView, event: MacOsEventView)
    requires
        install.step is Copying,
        !(event is Checked),
    ensures
        install.next(event).action is Detach,
{
}

/// An installation in which the image is attached, the application copied and the image detached
/// completes; the directory is removed then.
pub proof fn law_install_completes_when_all_is_done(
    installer_dir: InstallerDirView,
    downloaded_dmg: Seq<u8>,
    running_app_path: Seq<u8>,
    file_name: Seq<u8>,
)
    ensures
        ({
            let planned = MacOsInstallView::planned(
                installer_dir,
                downloaded_dmg,
                running_app_path,
                file_name,
            );
            let copied = planned.advanced(MacOsEventView::Done).advanced(MacOsEventView::Done);
            &&& copied.next(MacOsEventView::Done).action is Complete
            &&& copied.advanced(MacOsEventView::Done).installer.cleanup()
                == if installer_dir.owned {
                CleanupView::RemoveDir { path: installer_dir.path }
            } else {
                CleanupView::Nothing
            }
        }),
{
}

impl MacOsInstallView {
    /// Whether the image was attached by one of some events.
    pub open spec fn attached_by(self, events: Seq<MacOsEventView>, index: int) -> bool {
        &&& 0 <= index < events.len()
        &&& events[index] is Done
        &&& self.after(events.take(index)).step is Attaching
    }

    /// Whether the application was copied by one of some events.
    pub open spec fn copied_by(self, events: Seq<MacOsEventView>, index: int) -> bool {
        &&& 0 <= index < events.len()
        &&& events[index] is Done
        &&& self.after(events.take(index)).step is Copying
    }

    /// Whether the image was detached, after the application was copied, by one of some events.
    pub open spec fn detached_by(self, events: Seq<MacOsEventView>, index: int) -> bool {
        &&& 0 <= index < events.len()
        &&& events[index] is Done
        &&& self.after(events.take(index)).step is Detaching
    }

    /// Whether the image was attached, and then the application copied.
    spec fn attached_and_copied(self, events: Seq<MacOsEventView>) -> bool {
        exists|i: int, j: int|
            i < j && #[trigger] self.attached_by(events, i) && #[trigger] self.copied_by(events, j)
    }
}

/// What was done by some events was done by them also when more events follow.
proof fn lemma_done_stays_done(install: MacOsInstallView, events: Seq<MacOsEventView>, index: int)
    requires
        events.len() > 0,
        0 <= index < events.len() - 1,
    ensures
        install.attached_by(events.drop_last(), index) == install.attached_by(events, index),
        install.copied_by(events.drop_last(), index) == install.copied_by(events, index),
{
    assert(events.drop_last().take(index) =~= events.take(index));
}

/// An application is only copied after the image was attached, and counts as copied only after it
/// was.
proof fn lemma_copied_after_attached(install: MacOsInstallView, events: Seq<MacOsEventView>)
    requires
        install.step is Attaching,
    ensures
        ({
            let step = install.after(events).step;
            &&& step is Copying ==> exists|i: int| install.attached_by(events, i)
            &&& step is Detaching && step->Detaching_copied is Ok ==> install.attached_and_copied(
                events,
            )
            &&& step is Undetached && step->Undetached_copied is Ok ==> install.attached_and_copied(
                events,
            )
        }),
    decreases events.len(),
{
    if events.len() > 0 {
        let shorter = events.drop_last();
        let last = events.len() - 1;
        lemma_copied_after_attached(install, shorter);
        assert(events.take(last) =~= shorter);
        let before = install.after(shorter).step;
        let step = install.after(events).step;
        if step is Copying {
            if before is Attaching {
                assert(install.attached_by(events, last));
            } else {
                let i = choose|i: int| install.attached_by(shorter, i);
                lemma_done_stays_done(install, events, i);
                assert(install.attached_by(events, i));
            }
        }
        if step is Detaching && before is Copying && step->Detaching_copied is Ok {
            let i = choose|i: int| install.attached_by(shorter, i);
            lemma_done_stays_done(install, events, i);
            assert(install.attached_by(events, i) && install.copied_by(events, last));
        } else if install.attached_and_copied(shorter) {
            let (i, j) = choose|i: int, j: int|
                i < j && #[trigger] install.attached_by(shorter, i)
                    && #[trigger] install.copied_by(shorter, j);
            lemma_done_stays_done(install, events, i);
            lemma_done_stays_done(install, events, j);
            assert(install.attached_by(events, i) && install.copied_by(events, j));
        }
    }
}

/// Whatever happens, an installation completes only after the image was attached, then the
/// application was copied, and then, with the last event, the image was detached.
pub proof fn law_complete_install_did_all(install: MacOsInstallView, events: Seq<MacOsEventView>)
    requires
        install.step is Attaching,
        events.len() > 0,
        install.after(events.drop_last()).next(events.last()).action is Complete,
    ensures
        exists|i: int, j: int|
            i < j < events.len() - 1 && #[trigger] install.attached_by(events, i)
                && #[trigger] install.copied_by(events, j),
        install.detached_by(events, events.len() - 1),
{
    let shorter = events.drop_last();
    assert(events.take(events.len() - 1) =~= shorter);
    lemma_copied_after_attached(install, shorter);
    let (i, j) = choose|i: int, j: int|
        i < j && #[trigger] install.attached_by(shorter, i) && #[trigger] install.copied_by(
            shorter,
            j,
        );
    lemma_done_stays_done(install, events, i);
    lemma_done_stays_done(install, events, j);
    assert(install.attached_by(events, i) && install.copied_by(events, j));
}

/// What is left to do is done once.
pub proof fn law_cleanup_happens_once(installer: MountedView)
    ensures
        installer.cleaned_up().cleanup() is Nothing,
{
}

/// An installation takes place in the directory that was created for it: the image is attached
/// there, and the application with the name of the one that runs is copied out of it, with all that
/// is in it, over the one that runs.
pub proof fn law_application_comes_out_of_the_image(
    installer_dir: InstallerDirView,
    downloaded_dmg: Seq<u8>,
    running_app_path: Seq<u8>,
    file_name: Seq<u8>,
)
    requires
        file_name.len() > 0,
        !file_name.contains(47u8),
        file_name != seq![46u8],
        file_name != seq![46u8, 46u8],
    ensures
        ({
            let planned = MacOsInstallView::planned(
                installer_dir,
                downloaded_dmg,
                running_app_path,
                file_name,
            );
            &&& planned.installer.mount_path == os_path::joined(
                installer_dir.path,
                encode_utf8("mount"@),
            )
            &&& os_path::file_name_of(planned.mounted_app_path) == Some(file_name)
            &&& planned.mounted_app_path.last() == 47
            &&& planned.installer.mount_path.is_prefix_of(planned.mounted_app_path)
            &&& planned.downloaded_dmg == downloaded_dmg
            &&& planned.running_app_path == running_app_path
            &&& planned.installer.installer_dir == installer_dir
            &&& planned.installer.needs_detach
            &&& planned.step is Attaching
        }),
{
    let mount_path = os_path::joined(installer_dir.path, encode_utf8("mount"@));
    let app_path = os_path::joined(mount_path, file_name);
    reveal_strlit("/");
    reveal_with_fuel(encode_utf8, 2);
    assert("/"@.drop_first() =~= seq![]);
    assert((47u32 & 0x7F) as u8 == 47u8) by (bit_vector);
    assert(encode_utf8("/"@) =~= seq![47u8]);
    assert(app_path + encode_utf8("/"@) =~= app_path.push(47u8));
    os_path::law_file_has_its_name(mount_path, file_name, app_path);
    assert(file_name.contains(file_name[0]));
    os_path::law_joined_path_has_both_parts(mount_path, file_name);
    assert((app_path + encode_utf8("/"@)).subrange(0, mount_path.len() as int)
        =~= app_path.subrange(0, mount_path.len() as int));
}

/// An image that could not be attached, and is not, needs nothing more; one that is attached all
/// the same is detached. Either way the installation fails in the end with what went wrong first.
pub proof fn law_failed_attachment_is_told(install: MacOsInstallView, error: InstallErrorView)
    requires
        install.step is Attaching,
    ensures
        ({
            let failed = install.advanced(MacOsEventView::Failed { error });
            let mounted = failed.advanced(MacOsEventView::Checked { mounted: true });
            &&& install.next(MacOsEventView::Failed { error }).action is CheckMount
            &&& failed.next(MacOsEventView::Checked { mounted: false }).action == (
            MacOsActionView::Fail { error })
            &&& failed.next(MacOsEventView::Checked { mounted: true }).action is Detach
            &&& mounted.next(MacOsEventView::Done).action == (MacOsActionView::Fail { error })
            &&& !failed.advanced(
                MacOsEventView::Checked { mounted: false },
            ).installer.needs_detach
            &&& !mounted.advanced(MacOsEventView::Done).installer.needs_detach
        }),
{
}

/// An application that could not be copied is told when the image is detached.
pub proof fn law_failed_copy_is_told(install: MacOsInstallView, error: InstallErrorView)
    requires
        install.step is Copying,
    ensures
        install.advanced(MacOsEventView::Failed { error }).next(MacOsEventView::Done).action == (
        MacOsActionView::Fail { error }),
        install.advanced(MacOsEventView::Done).next(MacOsEventView::Done).action is Complete,
{
}

/// An image that cannot be detached lets the installation fail, though the application was copied;
/// where something else went wrong before, both are told, that one first. It does not matter for
/// that whether the image is still attached.
pub proof fn law_failed_detachment_is_told(
    install: MacOsInstallView,
    error: InstallErrorView,
    detach_error: InstallErrorView,
    mounted: bool,
)
    ensures
        install.step == (MacOsStepView::Detaching { copied: Ok(()) }) ==> install.advanced(
            MacOsEventView::Failed { error: detach_error },
        ).next(MacOsEventView::Checked { mounted }).action == (MacOsActionView::Fail {
            error: detach_error,
        }),
        install.step == (MacOsStepView::Detaching { copied: Err(error) }) ==> ({
            let action = install.advanced(MacOsEventView::Failed { error: detach_error }).next(
                MacOsEventView::Checked { mounted },
            ).action;
            &&& action is Fail
            &&& both_told(action->Fail_error.full(), error.full(), detach_error.full())
        }),
        install.step == (MacOsStepView::Abandoning { error }) ==> ({
            let action = install.advanced(MacOsEventView::Failed { error: detach_error }).next(
                MacOsEventView::Checked { mounted },
            ).action;
            &&& action is Fail
            &&& both_told(action->Fail_error.full(), error.full(), detach_error.full())
        }),
{
    let copy_head = "failed to copy app: "@;
    let copy_between = "; additionally failed to detach disk image: "@;
    let attach_head = "failed to attach disk image: "@;
    let attach_between = "; additionally failed to detach its partial mount: "@;
    lemma_both_told(copy_head, error.full(), copy_between, detach_error.full());
    lemma_both_told(attach_head, error.full(), attach_between, detach_error.full());
}

/// Whether a text has a first one in it and ends with a second one behind that.
pub open spec fn both_told(text: Seq<char>, first: Seq<char>, second: Seq<char>) -> bool {
    exists|head: Seq<char>, between: Seq<char>|
        text == #[trigger] (head + first + between + second)
}

proof fn lemma_both_told(
    head: Seq<char>,
    first: Seq<char>,
    between: Seq<char>,
    second: Seq<char>,
)
    ensures
        both_told(head + first + between + second, first, second),
{
}

/// What does not answer what was asked changes nothing.
pub proof fn law_install_waits_for_its_answer(install: MacOsInstallView, event: MacOsEventView)
    requires
        install.step is Finished || (event is Checked && (install.step is Attaching || install.step
            is Copying || install.step is Detaching || install.step is Abandoning)) || (!(event
            is Checked) && (install.step is Unattached || install.step is Abandoned || install.step
            is Undetached)),
    ensures
        install.advanced(event) == install,
        install.next(event).action is Ignore,
{
}

/// An image that is attached is copied from, by whatever way the installation got there.
pub proof fn law_attached_image_is_copied_from(install: MacOsInstallView)
    requires
        install.step is Attaching,
    ensures
        install.next(MacOsEventView::Done).action is Copy,
        install.advanced(MacOsEventView::Done).step is Copying,
        install.advanced(MacOsEventView::Done).installer == install.installer,
{
}

/// What happens in an installation counts as it is.
pub proof fn law_events_of_an_install_count_as_they_are(error: InstallError, mounted: bool)
    ensures
        MacOsEvent::Done@ is Done,
        (MacOsEvent::Failed { error })@ == (MacOsEventView::Failed { error: error@ }),
        (MacOsEvent::Checked { mounted })@ == (MacOsEventView::Checked { mounted }),
        MacOsEventView::of(Ok(())) is Done,
        MacOsEventView::of(Err(error@)) == (MacOsEventView::Failed { error: error@ }),
{
}

} // verus!
