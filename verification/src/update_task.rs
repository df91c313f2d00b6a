//! One run of the updater, from the question whether there is an update to its installation.
//!
//! A run is a conversation: [`UpdateTask::advance`] takes what happened and answers what is to be
//! done next. Between two steps the updater may be changed by others.

use crate::dependencies;
use crate::error::{ErrorView, UpdateError};
use crate::release;
use crate::release::{
    GithubRelease, GithubReleaseView, ReleaseAsset, ReleaseAssetView, ReleaseChannel,
};
use crate::status::{AutoUpdateStatus, StatusView, UpdateCheckType};
use crate::text;
use crate::updater;
use crate::updater::{AutoUpdater, UpdaterView};
use crate::version;
use crate::version::{Version, VersionView};
use vstd::prelude::*;
use vstd::string::*;

verus! {

/// What is known when a run begins.
#[derive(Debug)]
pub struct Beginning {
    pub release_channel: ReleaseChannel,
    pub installed_version: Version,
    pub previous_status: AutoUpdateStatus,
}

/// The contents of a [`Beginning`].
#[verifier::ext_equal]
pub struct BeginningView {
    pub release_channel: ReleaseChannel,
    pub installed_version: VersionView,
    pub previous_status: StatusView,
}

impl View for Beginning {
    type V = BeginningView;

    open spec fn view(&self) -> BeginningView {
        BeginningView {
            release_channel: self.release_channel,
            installed_version: self.installed_version@,
            previous_status: self.previous_status@,
        }
    }
}

/// How far a run is.
#[derive(Debug)]
pub enum Step {
    /// Waits for the lock that keeps runs apart.
    Locking,
    /// Waits for what is known about the programs that an update needs.
    CheckingDependencies { beginning: Beginning },
    /// Waits for the server to describe the latest release.
    Fetching { beginning: Beginning },
    /// Waits for the description to be decoded.
    Decoding { beginning: Beginning, body: Vec<u8> },
    /// Waits for the directory that the update is downloaded to.
    CreatingDir { version: Version, asset: ReleaseAsset },
    /// Waits for the update to be downloaded.
    Downloading { version: Version, target_path: Vec<u8> },
    /// Waits for the update to be installed.
    Installing { version: Version, target_path: Vec<u8> },
    /// Nothing is left to do.
    Finished,
}

/// The contents of a [`Step`].
#[verifier::ext_equal]
pub enum StepView {
    Locking,
    CheckingDependencies { beginning: BeginningView },
    Fetching { beginning: BeginningView },
    Decoding { beginning: BeginningView, body: Seq<u8> },
    CreatingDir { version: VersionView, asset: ReleaseAssetView },
    Downloading { version: VersionView, target_path: Seq<u8> },
    Installing { version: VersionView, target_path: Seq<u8> },
    Finished,
}

impl View for Step {
    type V = StepView;

    open spec fn view(&self) -> StepView {
        match *self {
            Step::Locking => StepView::Locking,
            Step::CheckingDependencies { beginning } => StepView::CheckingDependencies {
                beginning: beginning@,
            },
            Step::Fetching { beginning } => StepView::Fetching { beginning: beginning@ },
            Step::Decoding { beginning, body } => StepView::Decoding {
                beginning: beginning@,
                body: body@,
            },
            Step::CreatingDir { version, asset } => StepView::CreatingDir {
                version: version@,
                asset: asset@,
            },
            Step::Downloading { version, target_path } => StepView::Downloading {
                version: version@,
                target_path: target_path@,
            },
            Step::Installing { version, target_path } => StepView::Installing {
                version: version@,
                target_path: target_path@,
            },
            Step::Finished => StepView::Finished,
        }
    }
}

/// What happened outside.
#[derive(Debug)]
pub enum Event {
    /// The run may go on, for the release channel where one is set.
    Locked { release_channel: Option<ReleaseChannel> },
    /// It is known whether rsync is installed, and what the os-release file says.
    RsyncLookedUp { found: bool, os_release: Option<String> },
    /// The server answered.
    Fetched { status: u16, body: Vec<u8> },
    /// The answer was decoded, or is no release for this reason. The commit is that of the version
    /// that runs.
    Decoded { release: Result<GithubRelease, String>, commit_sha: Option<String> },
    /// The directory that the update is downloaded to was created. The path is that of the file
    /// with the name that was asked for, in this directory.
    DirCreated { target_path: Vec<u8> },
    /// More of the update was downloaded.
    Progressed { progress: Option<u32> },
    /// The update was downloaded.
    Downloaded,
    /// The update was installed. The path is that of the program to restart with.
    Installed { binary_path: Option<Vec<u8>> },
    /// What was asked for could not be done.
    Failed { error: UpdateError },
}

/// The contents of an [`Event`].
#[verifier::ext_equal]
pub enum EventView {
    Locked { release_channel: Option<ReleaseChannel> },
    RsyncLookedUp { found: bool, os_release: Option<Seq<char>> },
    Fetched { status: u16, body: Seq<u8> },
    Decoded { release: Result<GithubReleaseView, Seq<char>>, commit_sha: Option<Seq<char>> },
    DirCreated { target_path: Seq<u8> },
    Progressed { progress: Option<u32> },
    Downloaded,
    Installed { binary_path: Option<Seq<u8>> },
    Failed { error: ErrorView },
}

/// The contents of an optional path.
pub open spec fn optional_path(path: Option<Vec<u8>>) -> Option<Seq<u8>> {
    match path {
        Some(path) => Some(path@),
        None => None,
    }
}

impl View for Event {
    type V = EventView;

    open spec fn view(&self) -> EventView {
        match *self {
            Event::Locked { release_channel } => EventView::Locked { release_channel },
            Event::RsyncLookedUp { found, os_release } => EventView::RsyncLookedUp {
                found,
                os_release: text::optional_text(os_release),
            },
            Event::Fetched { status, body } => EventView::Fetched { status, body: body@ },
            Event::Decoded { release, commit_sha } => EventView::Decoded {
                release: match release {
                    Ok(release) => Ok(release@),
                    Err(cause) => Err(cause@),
                },
                commit_sha: text::optional_text(commit_sha),
            },
            Event::DirCreated { target_path } => EventView::DirCreated {
                target_path: target_path@,
            },
            Event::Progressed { progress } => EventView::Progressed { progress },
            Event::Downloaded => EventView::Downloaded,
            Event::Installed { binary_path } => EventView::Installed {
                binary_path: optional_path(binary_path),
            },
            Event::Failed { error } => EventView::Failed { error: error@ },
        }
    }
}

/// What is to be done next.
#[derive(Debug)]
pub enum Action {
    /// Look whether rsync is installed.
    LookUpRsync,
    /// Ask the server for the latest release.
    FetchRelease { url: String },
    /// Decode what the server answered.
    DecodeRelease { body: Vec<u8> },
    /// Create the directory that the update is downloaded to, to a file with this name. There is
    /// no name where the operating system is not supported.
    CreateInstallerDir { file_name: Option<&'static str> },
    /// Download the update.
    Download { url: String, target_path: Vec<u8> },
    /// Go on with the download.
    KeepDownloading,
    /// Install the update.
    Install { target_path: Vec<u8> },
    /// Restart with the new program, where there is one, when the application restarts, and let
    /// it say then that it was updated.
    Complete { restart_path: Option<Vec<u8>> },
    /// The run is over without an update.
    Stop,
    /// The run is over because of an error.
    Fail { error: UpdateError },
    /// Nothing: what happened does not concern the run.
    Ignore,
}

/// The contents of an [`Action`].
#[verifier::ext_equal]
pub enum ActionView {
    LookUpRsync,
    FetchRelease { url: Seq<char> },
    DecodeRelease { body: Seq<u8> },
    CreateInstallerDir { file_name: Option<Seq<char>> },
    Download { url: Seq<char>, target_path: Seq<u8> },
    KeepDownloading,
    Install { target_path: Seq<u8> },
    Complete { restart_path: Option<Seq<u8>> },
    Stop,
    Fail { error: ErrorView },
    Ignore,
}

impl View for Action {
    type V = ActionView;

    open spec fn view(&self) -> ActionView {
        match *self {
            Action::LookUpRsync => ActionView::LookUpRsync,
            Action::FetchRelease { url } => ActionView::FetchRelease { url: url@ },
            Action::DecodeRelease { body } => ActionView::DecodeRelease { body: body@ },
            Action::CreateInstallerDir { file_name } => ActionView::CreateInstallerDir {
                file_name: text::optional_slice(file_name),
            },
            Action::Download { url, target_path } => ActionView::Download {
                url: url@,
                target_path: target_path@,
            },
            Action::KeepDownloading => ActionView::KeepDownloading,
            Action::Install { target_path } => ActionView::Install { target_path: target_path@ },
            Action::Complete { restart_path } => ActionView::Complete {
                restart_path: optional_path(restart_path),
            },
            Action::Stop => ActionView::Stop,
            Action::Fail { error } => ActionView::Fail { error: error@ },
            Action::Ignore => ActionView::Ignore,
        }
    }
}

/// One run of the updater for an operating system and an architecture.
#[derive(Debug)]
pub struct UpdateTask {
    pub os: String,
    pub arch: String,
    pub step: Step,
}

/// The contents of an [`UpdateTask`].
#[verifier::ext_equal]
pub struct TaskView {
    pub os: Seq<char>,
    pub arch: Seq<char>,
    pub step: StepView,
}

impl View for UpdateTask {
    type V = TaskView;

    open spec fn view(&self) -> TaskView {
        TaskView { os: self.os@, arch: self.arch@, step: self.step@ }
    }
}

/// What to do after an event, and whether whoever shows the updater has to look at it again.
#[derive(Debug)]
pub struct Reply {
    pub action: Action,
    pub notify: bool,
}

/// What an event leads to.
#[verifier::ext_equal]
pub struct Outcome {
    pub step: StepView,
    pub updater: UpdaterView,
    pub action: ActionView,
    pub notify: bool,
}

/// The name of the file that an update is downloaded to, where the operating system is supported.
pub open spec fn download_name(os: Seq<char>) -> Option<Seq<char>> {
    if os == "macos"@ {
        Some("Zed.dmg"@)
    } else if os == "linux"@ {
        Some("zed.tar.gz"@)
    } else if os == "windows"@ {
        Some("Zed.exe"@)
    } else {
        None
    }
}

impl Outcome {
    /// The run fails and leaves the updater as it is.
    pub open spec fn failure(updater: UpdaterView, error: ErrorView) -> Outcome {
        Outcome {
            step: StepView::Finished,
            updater,
            action: ActionView::Fail { error },
            notify: false,
        }
    }

    /// The run ends without an update.
    pub open spec fn stop(updater: UpdaterView, status: StatusView) -> Outcome {
        Outcome {
            step: StepView::Finished,
            updater: UpdaterView { status, ..updater },
            action: ActionView::Stop,
            notify: true,
        }
    }
}

impl TaskView {
    /// What happened does not concern the run.
    pub open spec fn ignored(self, updater: UpdaterView) -> Outcome {
        Outcome { step: self.step, updater, action: ActionView::Ignore, notify: false }
    }

    /// The run begins: it notes what it starts from.
    pub open spec fn begun(
        self,
        updater: UpdaterView,
        release_channel: Option<ReleaseChannel>,
    ) -> Outcome {
        Outcome {
            step: StepView::CheckingDependencies {
                beginning: BeginningView {
                    release_channel: match release_channel {
                        Some(channel) => channel,
                        None => ReleaseChannel::Stable,
                    },
                    installed_version: updater.current_version,
                    previous_status: updater.status,
                },
            },
            updater,
            action: ActionView::LookUpRsync,
            notify: false,
        }
    }

    /// It is known whether the programs are there that an update needs.
    pub open spec fn dependencies_checked(
        self,
        beginning: BeginningView,
        updater: UpdaterView,
        found: bool,
        os_release: Option<Seq<char>>,
    ) -> Outcome {
        match dependencies::dependency_error(self.os, found, os_release) {
            Some(error) => Outcome::failure(updater, error),
            None => Outcome {
                step: StepView::Fetching { beginning },
                updater: UpdaterView { status: StatusView::Checking, ..updater },
                action: ActionView::FetchRelease { url: release::LATEST_RELEASE_API_URL@ },
                notify: true,
            },
        }
    }

    /// The latest release is known: it is downloaded where it is an update that is wanted.
    pub open spec fn release_found(
        self,
        beginning: BeginningView,
        updater: UpdaterView,
        asset: ReleaseAssetView,
        commit_sha: Option<Seq<char>>,
    ) -> Outcome {
        match version::parsed_version(asset.version) {
            None => Outcome::failure(
                updater,
                ErrorView::InvalidVersion { message: version::parse_error(asset.version) },
            ),
            Some(fetched) => match updater::offered_version(
                beginning.release_channel,
                commit_sha,
                beginning.installed_version,
                fetched,
                beginning.previous_status,
            ) {
                None => Outcome::stop(
                    updater,
                    if beginning.previous_status is Updated {
                        beginning.previous_status
                    } else {
                        StatusView::Idle
                    },
                ),
                Some(version) => if updater.skips_retry(version) {
                    Outcome::stop(updater, StatusView::Idle)
                } else {
                    Outcome {
                        step: StepView::CreatingDir { version, asset },
                        updater: UpdaterView {
                            status: StatusView::Downloading { version, progress: None },
                            ..updater
                        },
                        action: ActionView::CreateInstallerDir {
                            file_name: download_name(self.os),
                        },
                        notify: true,
                    }
                },
            },
        }
    }

    /// There is a directory that the update can be downloaded to.
    pub open spec fn dir_created(
        self,
        version: VersionView,
        asset: ReleaseAssetView,
        updater: UpdaterView,
        target_path: Seq<u8>,
    ) -> Outcome {
        if download_name(self.os) is None {
            Outcome::failure(updater, ErrorView::UnsupportedOs { os: self.os })
        } else {
            Outcome {
                step: StepView::Downloading { version, target_path },
                updater,
                action: ActionView::Download { url: asset.url, target_path },
                notify: false,
            }
        }
    }

    /// What an event leads to.
    pub open spec fn next(self, updater: UpdaterView, event: EventView) -> Outcome {
        match (self.step, event) {
            (StepView::Locking, EventView::Locked { release_channel }) => self.begun(
                updater,
                release_channel,
            ),
            (
                StepView::CheckingDependencies { beginning },
                EventView::RsyncLookedUp { found, os_release },
            ) => self.dependencies_checked(beginning, updater, found, os_release),
            (StepView::Fetching { beginning }, EventView::Fetched { status, body }) =>
                if release::success(status) {
                    Outcome {
                        step: StepView::Decoding { beginning, body },
                        updater,
                        action: ActionView::DecodeRelease { body },
                        notify: false,
                    }
                } else {
                    Outcome::failure(updater, ErrorView::GithubReleaseRefused { body })
                },
            (
                StepView::Decoding { beginning, body },
                EventView::Decoded { release, commit_sha },
            ) => match release {
                Err(cause) => Outcome::failure(
                    updater,
                    ErrorView::GithubReleaseMalformed { body, cause },
                ),
                Ok(release) => match release::app_asset(release, self.os, self.arch) {
                    Err(error) => Outcome::failure(updater, error),
                    Ok(asset) => self.release_found(beginning, updater, asset, commit_sha),
                },
            },
            (StepView::CreatingDir { version, asset }, EventView::DirCreated { target_path }) =>
                self.dir_created(version, asset, updater, target_path),
            (StepView::CreatingDir { .. }, EventView::Failed { error }) => Outcome::failure(
                updater,
                ErrorView::NoInstallerDir { causes: error.chain() },
            ),
            (StepView::Downloading { .. }, EventView::Progressed { progress }) => Outcome {
                step: self.step,
                updater: match updater.status {
                    StatusView::Downloading { version, .. } => UpdaterView {
                        status: StatusView::Downloading { version, progress },
                        ..updater
                    },
                    _ => updater,
                },
                action: ActionView::KeepDownloading,
                notify: updater.status is Downloading,
            },
            (StepView::Downloading { version, target_path }, EventView::Downloaded) => Outcome {
                step: StepView::Installing { version, target_path },
                updater: UpdaterView { status: StatusView::Installing { version }, ..updater },
                action: ActionView::Install { target_path },
                notify: true,
            },
            (StepView::Downloading { target_path, .. }, EventView::Failed { error }) =>
                Outcome::failure(
                    updater,
                    ErrorView::DownloadFailed { target_path, causes: error.chain() },
                ),
            (StepView::Installing { version, .. }, EventView::Installed { binary_path }) =>
                Outcome {
                    step: StepView::Finished,
                    updater: UpdaterView {
                        failed_install_version: None,
                        status: StatusView::Updated { version },
                        ..updater
                    },
                    action: ActionView::Complete { restart_path: binary_path },
                    notify: true,
                },
            (StepView::Installing { version, target_path }, EventView::Failed { error }) =>
                Outcome::failure(
                    UpdaterView { failed_install_version: Some(version), ..updater },
                    ErrorView::InstallFailed { target_path, causes: error.chain() },
                ),
            (StepView::Finished, _) => self.ignored(updater),
            (_, EventView::Failed { error }) => Outcome::failure(updater, error),
            (_, _) => self.ignored(updater),
        }
    }
}

/// How an update is installed.
#[derive(Clone, Copy, Debug, PartialEq, Eq, Structural)]
pub enum Platform {
    MacOs,
    Linux,
    Windows,
}

/// How an update is installed under an operating system.
pub fn install_release(os: &str) -> (platform: Result<Platform, UpdateError>)
    ensures
        match platform {
            Ok(Platform::MacOs) => os@ == "macos"@,
            Ok(Platform::Linux) => os@ == "linux"@,
            Ok(Platform::Windows) => os@ == "windows"@,
            Err(error) => os@ != "macos"@ && os@ != "linux"@ && os@ != "windows"@ && error@ == (
            ErrorView::UnsupportedOs { os: os@ }),
        },
{
    if text::same_text(os, "macos") {
        Ok(Platform::MacOs)
    } else if text::same_text(os, "linux") {
        Ok(Platform::Linux)
    } else if text::same_text(os, "windows") {
        Ok(Platform::Windows)
    } else {
        Err(UpdateError::UnsupportedOs { os: os.to_string() })
    }
}

/// The name of the file that an update is downloaded to, where the operating system is supported.
pub fn target_file_name(os: &str) -> (name: Option<&'static str>)
    ensures
        text::optional_slice(name) == download_name(os@),
{
    if text::same_text(os, "macos") {
        Some("Zed.dmg")
    } else if text::same_text(os, "linux") {
        Some("zed.tar.gz")
    } else if text::same_text(os, "windows") {
        Some("Zed.exe")
    } else {
        None
    }
}

impl Reply {
    /// An action that changes nothing to be shown.
    fn quiet(action: Action) -> (reply: Reply)
        ensures
            reply == (Reply { action, notify: false }),
    {
        Reply { action, notify: false }
    }

    /// An action after a change that is to be shown.
    fn loud(action: Action) -> (reply: Reply)
        ensures
            reply == (Reply { action, notify: true }),
    {
        Reply { action, notify: true }
    }

    /// The run fails.
    fn fail(error: UpdateError) -> (reply: Reply)
        ensures
            reply.action@ == (ActionView::Fail { error: error@ }),
            !reply.notify,
    {
        Reply { action: Action::Fail { error }, notify: false }
    }
}

impl UpdateTask {
    /// A run that has not begun.
    pub fn new(os: &str, arch: &str) -> (task: UpdateTask)
        ensures
            task@ == (TaskView { os: os@, arch: arch@, step: StepView::Locking }),
    {
        UpdateTask { os: os.to_string(), arch: arch.to_string(), step: Step::Locking }
    }

    /// Whether the run has to hold the lock that keeps runs apart.
    pub fn needs_lock(&self) -> (needs: bool)
        ensures
            needs == (self@.os == "macos"@),
    {
        text::same_text(self.os.as_str(), "macos")
    }

    /// Goes on with what happened, and says what is to be done next.
    pub fn advance(&mut self, updater: &mut AutoUpdater, event: Event) -> (reply: Reply)
        ensures
            final(self)@ == (TaskView {
                step: old(self)@.next(old(updater)@, event@).step,
                ..old(self)@
            }),
            final(updater)@ == old(self)@.next(old(updater)@, event@).updater,
            reply.action@ == old(self)@.next(old(updater)@, event@).action,
            reply.notify == old(self)@.next(old(updater)@, event@).notify,
    {
        let mut step = Step::Finished;
        std::mem::swap(&mut step, &mut self.step);
        match (step, event) {
            (Step::Locking, Event::Locked { release_channel }) => {
                self.step = Step::CheckingDependencies {
                    beginning: Beginning {
                        release_channel: match release_channel {
                            Some(channel) => channel,
                            None => ReleaseChannel::Stable,
                        },
                        installed_version: updater.current_version(),
                        previous_status: updater.status(),
                    },
                };
                Reply::quiet(Action::LookUpRsync)
            },
            (Step::CheckingDependencies { beginning }, Event::RsyncLookedUp { found, os_release }) => {
                let os_release = match &os_release {
                    Some(os_release) => Some(os_release.as_str()),
                    None => None,
                };
                match dependencies::check_dependencies(self.os.as_str(), found, os_release) {
                    Err(error) => Reply::fail(error),
                    Ok(_) => {
                        updater.set_status(AutoUpdateStatus::Checking);
                        self.step = Step::Fetching { beginning };
                        Reply::loud(
                            Action::FetchRelease {
                                url: release::LATEST_RELEASE_API_URL.to_string(),
                            },
                        )
                    },
                }
            },
            (Step::Fetching { beginning }, Event::Fetched { status, body }) => {
                match release::github_release_body(status, body) {
                    Err(error) => Reply::fail(error),
                    Ok(body) => {
                        let copy = vstd::slice::slice_to_vec(body.as_slice());
                        self.step = Step::Decoding { beginning, body };
                        Reply::quiet(Action::DecodeRelease { body: copy })
                    },
                }
            },
            (Step::Decoding { beginning, body }, Event::Decoded { release, commit_sha }) => {
                let release = match release {
                    Ok(release) => release,
                    Err(cause) => {
                        return Reply::fail(UpdateError::GithubReleaseMalformed { body, cause });
                    },
                };
                match AutoUpdater::release_asset_from_github_release(
                    release,
                    self.os.as_str(),
                    self.arch.as_str(),
                ) {
                    Err(error) => Reply::fail(error),
                    Ok(asset) => self.release_found(beginning, updater, asset, commit_sha),
                }
            },
            (Step::CreatingDir { version, asset }, Event::DirCreated { target_path }) => {
                if target_file_name(self.os.as_str()).is_none() {
                    return Reply::fail(UpdateError::UnsupportedOs { os: self.os.clone() });
                }
                let copy = vstd::slice::slice_to_vec(target_path.as_slice());
                self.step = Step::Downloading { version, target_path };
                Reply::quiet(Action::Download { url: asset.url, target_path: copy })
            },
            (Step::CreatingDir { .. }, Event::Failed { error }) => Reply::fail(
                UpdateError::NoInstallerDir { causes: error.chain() },
            ),
            (Step::Downloading { version, target_path }, Event::Progressed { progress }) => {
                let notify = updater.set_progress(progress);
                self.step = Step::Downloading { version, target_path };
                Reply { action: Action::KeepDownloading, notify }
            },
            (Step::Downloading { version, target_path }, Event::Downloaded) => {
                updater.set_status(AutoUpdateStatus::Installing { version: version.clone() });
                let copy = vstd::slice::slice_to_vec(target_path.as_slice());
                self.step = Step::Installing { version, target_path };
                Reply::loud(Action::Install { target_path: copy })
            },
            (Step::Downloading { target_path, .. }, Event::Failed { error }) => Reply::fail(
                UpdateError::DownloadFailed { target_path, causes: error.chain() },
            ),
            (Step::Installing { version, .. }, Event::Installed { binary_path }) => {
                updater.set_failed_install_version(None);
                updater.set_status(AutoUpdateStatus::Updated { version });
                Reply::loud(Action::Complete { restart_path: binary_path })
            },
            (Step::Installing { version, target_path }, Event::Failed { error }) => {
                updater.set_failed_install_version(Some(version));
                Reply::fail(
                    UpdateError::InstallFailed { target_path, causes: error.chain() },
                )
            },
            (Step::Finished, _) => Reply::quiet(Action::Ignore),
            (_, Event::Failed { error }) => Reply::fail(error),
            (step, _) => {
                self.step = step;
                Reply::quiet(Action::Ignore)
            },
        }
    }

    /// The latest release is known: it is downloaded where it is an update that is wanted.
    fn release_found(
        &mut self,
        beginning: Beginning,
        updater: &mut AutoUpdater,
        asset: ReleaseAsset,
        commit_sha: Option<String>,
    ) -> (reply: Reply)
        requires
            old(self)@.step is Finished,
        ensures
            final(self)@ == (TaskView {
                step: old(self)@.release_found(
                    beginning@,
                    old(updater)@,
                    asset@,
                    text::optional_text(commit_sha),
                ).step,
                ..old(self)@
            }),
            final(updater)@ == old(self)@.release_found(
                beginning@,
                old(updater)@,
                asset@,
                text::optional_text(commit_sha),
            ).updater,
            reply.action@ == old(self)@.release_found(
                beginning@,
                old(updater)@,
                asset@,
                text::optional_text(commit_sha),
            ).action,
            reply.notify == old(self)@.release_found(
                beginning@,
                old(updater)@,
                asset@,
                text::optional_text(commit_sha),
            ).notify,
    {
        let newer = match AutoUpdater::check_if_fetched_version_is_newer(
            beginning.release_channel,
            Ok(commit_sha),
            beginning.installed_version,
            asset.version.clone(),
            beginning.previous_status.clone(),
        ) {
            Err(error) => {
                return Reply::fail(error);
            },
            Ok(newer) => newer,
        };
        let version = match newer {
            Some(version) => version,
            None => {
                let status = if beginning.previous_status.is_updated() {
                    beginning.previous_status
                } else {
                    AutoUpdateStatus::Idle
                };
                updater.set_status(status);
                return Reply::loud(Action::Stop);
            },
        };
        if updater.should_skip_automatic_install_retry(&version) {
            updater.set_status(AutoUpdateStatus::Idle);
            return Reply::loud(Action::Stop);
        }
        updater.set_status(
            AutoUpdateStatus::Downloading { version: version.clone(), progress: None },
        );
        self.step = Step::CreatingDir { version, asset };
        Reply::loud(
            Action::CreateInstallerDir { file_name: target_file_name(self.os.as_str()) },
        )
    }
}

impl TaskView {
    /// The run and the updater after some events, if nobody else changes the updater.
    pub open spec fn after(self, updater: UpdaterView, events: Seq<EventView>) -> (
        TaskView,
        UpdaterView,
    )
        decreases events.len(),
    {
        if events.len() == 0 {
            (self, updater)
        } else {
            let (task, updater) = self.after(updater, events.drop_last());
            let outcome = task.next(updater, events.last());
            (TaskView { step: outcome.step, ..task }, outcome.updater)
        }
    }
}

/// A run that is over stays over, and changes nothing any more.
pub proof fn law_run_ends_once(task: TaskView, updater: UpdaterView, event: EventView)
    ensures
        task.step is Finished ==> task.next(updater, event) == (Outcome {
            step: StepView::Finished,
            updater,
            action: ActionView::Ignore,
            notify: false,
        }),
        task.next(updater, event).action is Fail || task.next(updater, event).action is Stop
            || task.next(updater, event).action is Complete ==> task.next(updater, event).step
            is Finished,
{
}

/// A run changes nothing of the updater but its status, which it then shows, and the version whose
/// installation failed, and that only by an installation.
pub proof fn law_run_changes_only_the_status(
    task: TaskView,
    updater: UpdaterView,
    event: EventView,
)
    ensures
        ({
            let after = task.next(updater, event).updater;
            &&& after == (UpdaterView {
                status: after.status,
                failed_install_version: after.failed_install_version,
                ..updater
            })
            &&& !(task.step is Installing) ==> after.failed_install_version
                == updater.failed_install_version
            &&& after.status != updater.status ==> task.next(updater, event).notify
        }),
{
}

/// The updater says that it updated the application only after an installation, or if it had said
/// so when the run began.
pub proof fn law_updated_means_installed(task: TaskView, updater: UpdaterView, event: EventView)
    requires
        !(updater.status is Updated),
        task.next(updater, event).updater.status is Updated,
    ensures
        event is Installed && task.step is Installing && task.next(updater, event).updater.status
            == (StatusView::Updated { version: task.step->Installing_version }) || event is Decoded
            && task.step is Decoding && task.next(updater, event).updater.status
            == task.step->Decoding_beginning.previous_status,
{
}

/// A version whose installation failed is not installed again by an automatic run, however it is
/// offered; a run that the user asked for tries it again.
pub proof fn law_failed_install_is_not_retried(
    task: TaskView,
    updater: UpdaterView,
    version: VersionView,
    target_path: Seq<u8>,
    error: ErrorView,
    later: TaskView,
    beginning: BeginningView,
    asset: ReleaseAssetView,
    commit_sha: Option<Seq<char>>,
    fetched: VersionView,
)
    requires
        task.step == (StepView::Installing { version, target_path }),
        version::parsed_version(asset.version) == Some(fetched),
        updater::offered_version(
            beginning.release_channel,
            commit_sha,
            beginning.installed_version,
            fetched,
            beginning.previous_status,
        ) == Some(version),
    ensures
        ({
            let failed = task.next(updater, EventView::Failed { error }).updater;
            let retried = later.release_found(beginning, failed, asset, commit_sha);
            &&& failed.failed_install_version == Some(version)
            &&& failed.update_check_type == UpdateCheckType::Automatic ==> retried.action is Stop
                && retried.updater.status is Idle
            &&& failed.update_check_type == UpdateCheckType::Manual ==> retried.action
                is CreateInstallerDir
        }),
{
}

/// The events of a download that goes on.
pub open spec fn progress_events(progresses: Seq<Option<u32>>) -> Seq<EventView> {
    progresses.map_values(|progress: Option<u32>| EventView::Progressed { progress })
}

/// However often a download goes on, the run stays where it is, and the updater shows how much
/// was downloaded last.
proof fn lemma_download_goes_on(
    task: TaskView,
    updater: UpdaterView,
    version: VersionView,
    target_path: Seq<u8>,
    progress: Option<u32>,
    progresses: Seq<Option<u32>>,
)
    requires
        task.step == (StepView::Downloading { version, target_path }),
        updater.status == (StatusView::Downloading { version, progress }),
    ensures
        task.after(updater, progress_events(progresses)) == (
            task,
            UpdaterView {
                status: StatusView::Downloading {
                    version,
                    progress: if progresses.len() == 0 {
                        progress
                    } else {
                        progresses.last()
                    },
                },
                ..updater
            },
        ),
    decreases progresses.len(),
{
    let events = progress_events(progresses);
    if progresses.len() > 0 {
        lemma_download_goes_on(
            task,
            updater,
            version,
            target_path,
            progress,
            progresses.drop_last(),
        );
        assert(events.drop_last() =~= progress_events(progresses.drop_last()));
    }
}

/// A run in which all goes well updates the application to the version that is offered: it is
/// downloaded from where the release says, however often that is told, installed, and forgotten as
/// a failure.
#[verifier::rlimit(50)]
pub proof fn law_run_updates_the_application(
    task: TaskView,
    updater: UpdaterView,
    release_channel: Option<ReleaseChannel>,
    found: bool,
    os_release: Option<Seq<char>>,
    status: u16,
    body: Seq<u8>,
    release: GithubReleaseView,
    commit_sha: Option<Seq<char>>,
    asset: ReleaseAssetView,
    fetched: VersionView,
    version: VersionView,
    target_path: Seq<u8>,
    progresses: Seq<Option<u32>>,
    binary_path: Option<Seq<u8>>,
)
    requires
        task.step is Locking,
        dependencies::dependency_error(task.os, found, os_release) is None,
        release::success(status),
        release::app_asset(release, task.os, task.arch) == Ok::<ReleaseAssetView, ErrorView>(asset),
        version::parsed_version(asset.version) == Some(fetched),
        updater::offered_version(
            match release_channel {
                Some(channel) => channel,
                None => ReleaseChannel::Stable,
            },
            commit_sha,
            updater.current_version,
            fetched,
            updater.status,
        ) == Some(version),
        !updater.skips_retry(version),
    ensures
        ({
            let checked = task.after(
                updater,
                seq![
                    EventView::Locked { release_channel },
                    EventView::RsyncLookedUp { found, os_release },
                    EventView::Fetched { status, body },
                ],
            );
            let offered = checked.0.next(
                checked.1,
                EventView::Decoded { release: Ok(release), commit_sha },
            );
            let downloading = (TaskView { step: offered.step, ..task }).next(
                offered.updater,
                EventView::DirCreated { target_path },
            );
            let progressed = (TaskView { step: downloading.step, ..task }).after(
                downloading.updater,
                progress_events(progresses),
            );
            let downloaded = progressed.0.next(progressed.1, EventView::Downloaded);
            let installed = (TaskView { step: downloaded.step, ..task }).next(
                downloaded.updater,
                EventView::Installed { binary_path },
            );
            &&& download_name(task.os) is Some
            &&& offered.action == (ActionView::CreateInstallerDir {
                file_name: download_name(task.os),
            })
            &&& offered.updater.status == (StatusView::Downloading { version, progress: None })
            &&& downloading.action == (ActionView::Download { url: asset.url, target_path })
            &&& progressed.1.status == (StatusView::Downloading {
                version,
                progress: if progresses.len() == 0 {
                    None
                } else {
                    progresses.last()
                },
            })
            &&& downloaded.action == (ActionView::Install { target_path })
            &&& downloaded.updater.status == (StatusView::Installing { version })
            &&& installed.action == (ActionView::Complete { restart_path: binary_path })
            &&& installed.updater == (UpdaterView {
                status: StatusView::Updated { version },
                failed_install_version: None,
                ..updater
            })
        }),
{
    let first = EventView::Locked { release_channel };
    let second = EventView::RsyncLookedUp { found, os_release };
    let third = EventView::Fetched { status, body };
    reveal_with_fuel(TaskView::after, 4);
    assert(seq![first, second, third].drop_last() =~= seq![first, second]);
    assert(seq![first, second].drop_last() =~= seq![first]);
    assert(seq![first].drop_last() =~= seq![]);
    let checked = task.after(updater, seq![first, second, third]);
    let offered = checked.0.next(
        checked.1,
        EventView::Decoded { release: Ok(release), commit_sha },
    );
    lemma_download_goes_on(
        TaskView { step: StepView::Downloading { version, target_path }, ..task },
        offered.updater,
        version,
        target_path,
        None,
        progresses,
    );
}

impl TaskView {
    /// The statuses that a run shows, in order, if nobody else changes the updater.
    pub open spec fn shown(self, updater: UpdaterView, events: Seq<EventView>) -> Seq<StatusView>
        decreases events.len(),
    {
        if events.len() == 0 {
            seq![]
        } else {
            let (task, updater_before) = self.after(updater, events.drop_last());
            let outcome = task.next(updater_before, events.last());
            let before = self.shown(updater, events.drop_last());
            if outcome.notify {
                before.push(outcome.updater.status)
            } else {
                before
            }
        }
    }
}

/// The statuses of a run that downloads `version`, as far as it gets: it is checked for, then
/// downloaded up to the status at `end`, then installed, then updated to.
pub open spec fn leads_to(shown: Seq<StatusView>, version: VersionView, end: int) -> bool {
    &&& 2 <= end <= shown.len() <= end + 2
    &&& shown[0] is Checking
    &&& shown[1] == (StatusView::Downloading { version, progress: None })
    &&& forall|i: int|
        2 <= i < end ==> (#[trigger] shown[i] matches StatusView::Downloading { version: one, .. }
            && one == version)
    &&& end < shown.len() ==> shown[end] == (StatusView::Installing { version })
    &&& end + 1 < shown.len() ==> shown[end + 1] == (StatusView::Updated { version })
}

/// The statuses of a run that finds no update to install: it is checked for one, and then nothing
/// is shown, or the update that was shown before.
pub open spec fn leads_nowhere(shown: Seq<StatusView>, previous: StatusView) -> bool {
    &&& shown.len() == 2
    &&& shown[0] is Checking
    &&& shown[1] is Idle || previous is Updated && shown[1] == previous
}

/// Whether statuses come in the order of a run that began with the status `previous`.
pub open spec fn in_order(shown: Seq<StatusView>, previous: StatusView) -> bool {
    ||| shown.len() == 0
    ||| shown.len() == 1 && shown[0] is Checking
    ||| leads_nowhere(shown, previous)
    ||| exists|version: VersionView, end: int| leads_to(shown, version, end)
}

/// What was shown when a run is at a step.
spec fn shown_at(step: StepView, shown: Seq<StatusView>, previous: StatusView) -> bool {
    match step {
        StepView::Locking => shown.len() == 0,
        StepView::CheckingDependencies { beginning } => shown.len() == 0
            && beginning.previous_status == previous,
        StepView::Fetching { beginning } => shown.len() == 1 && shown[0] is Checking
            && beginning.previous_status == previous,
        StepView::Decoding { beginning, .. } => shown.len() == 1 && shown[0] is Checking
            && beginning.previous_status == previous,
        StepView::CreatingDir { version, .. } => shown.len() == 2 && leads_to(shown, version, 2),
        StepView::Downloading { version, .. } => leads_to(shown, version, shown.len() as int),
        StepView::Installing { version, .. } => leads_to(shown, version, shown.len() - 1),
        StepView::Finished => in_order(shown, previous),
    }
}

/// The status that the updater has when a run is at a step.
spec fn status_at(step: StepView, status: StatusView, previous: StatusView) -> bool {
    match step {
        StepView::Locking => status == previous,
        StepView::CheckingDependencies { .. } => status == previous,
        StepView::CreatingDir { version, .. } => status == (StatusView::Downloading {
            version,
            progress: None,
        }),
        StepView::Downloading { version, .. } => status matches StatusView::Downloading {
            version: one,
            ..
        } && one == version,
        _ => true,
    }
}

/// What a run shows stays in order from step to step.
#[verifier::rlimit(50)]
proof fn lemma_shown_at(task: TaskView, updater: UpdaterView, events: Seq<EventView>)
    requires
        task.step is Locking,
    ensures
        shown_at(
            task.after(updater, events).0.step,
            task.shown(updater, events),
            updater.status,
        ),
        status_at(
            task.after(updater, events).0.step,
            task.after(updater, events).1.status,
            updater.status,
        ),
    decreases events.len(),
{
    if events.len() > 0 {
        let shorter = events.drop_last();
        lemma_shown_at(task, updater, shorter);
        let (at, before) = task.after(updater, shorter);
        let shown_before = task.shown(updater, shorter);
        let outcome = at.next(before, events.last());
        let shown = task.shown(updater, events);
        match at.step {
            StepView::CreatingDir { version, .. } => {
                assert(leads_to(shown, version, 2));
            },
            StepView::Downloading { version, .. } => {
                if outcome.notify {
                    assert(shown =~= shown_before.push(outcome.updater.status));
                    if outcome.step is Downloading {
                        assert(leads_to(shown, version, shown.len() as int));
                    } else {
                        assert(leads_to(shown, version, shown.len() - 1));
                    }
                } else {
                    assert(leads_to(shown, version, shown.len() as int));
                }
            },
            StepView::Installing { version, .. } => {
                if outcome.notify {
                    assert(shown =~= shown_before.push(outcome.updater.status));
                    assert(leads_to(shown, version, shown.len() - 2));
                } else {
                    assert(leads_to(shown, version, shown.len() - 1));
                }
            },
            _ => {},
        }
    }
}

/// Whatever happens in a run, the updater shows in order that it checks, that it downloads a
/// version, how far that is, that it installs that version and that it is updated to it, as far as
/// the run gets; or that it checks, and then nothing or the update that it showed before.
pub proof fn law_statuses_come_in_order(
    task: TaskView,
    updater: UpdaterView,
    events: Seq<EventView>,
)
    requires
        task.step is Locking,
    ensures
        in_order(task.shown(updater, events), updater.status),
{
    lemma_shown_at(task, updater, events);
    let step = task.after(updater, events).0.step;
    let shown = task.shown(updater, events);
    match step {
        StepView::CreatingDir { version, .. } => {
            assert(leads_to(shown, version, 2));
        },
        StepView::Downloading { version, .. } => {
            assert(leads_to(shown, version, shown.len() as int));
        },
        StepView::Installing { version, .. } => {
            assert(leads_to(shown, version, shown.len() - 1));
        },
        _ => {},
    }
}

/// A version is shown as being installed if and only if its download is over, and as updated to if
/// and only if its installation is, but for an update that was shown before.
pub proof fn law_statuses_say_what_happened(
    task: TaskView,
    updater: UpdaterView,
    event: EventView,
    version: VersionView,
)
    ensures
        ({
            let outcome = task.next(updater, event);
            &&& outcome.notify && outcome.updater.status == (StatusView::Installing { version })
                <==> event is Downloaded && task.step is Downloading
                && task.step->Downloading_version == version
            &&& event is Installed && task.step is Installing && task.step->Installing_version
                == version ==> outcome.notify && outcome.updater.status == (StatusView::Updated {
                version,
            })
            &&& outcome.notify && outcome.updater.status == (StatusView::Updated { version })
                ==> event is Installed && task.step is Installing && task.step->Installing_version
                == version || outcome.action is Stop && task.step is Decoding
                && task.step->Decoding_beginning.previous_status == outcome.updater.status
        }),
{
}

/// A run that ends without an update shows nothing, but for an update that was made before it.
pub proof fn law_run_without_update_shows_nothing(
    task: TaskView,
    updater: UpdaterView,
    event: EventView,
)
    requires
        task.next(updater, event).action is Stop,
    ensures
        task.next(updater, event).updater.status is Idle || task.next(
            updater,
            event,
        ).updater.status is Updated,
        task.next(updater, event).notify,
{
}

/// A run begins with the status and the version of the updater, on the release channel that is set
/// or else the stable one; it shows nothing by that.
pub proof fn law_run_begins_from_the_updater(
    task: TaskView,
    updater: UpdaterView,
    release_channel: Option<ReleaseChannel>,
)
    requires
        task.step is Locking,
    ensures
        ({
            let outcome = task.next(updater, EventView::Locked { release_channel });
            &&& outcome.action is LookUpRsync
            &&& outcome.updater == updater
            &&& outcome.step is CheckingDependencies
            &&& outcome.step->CheckingDependencies_beginning.installed_version
                == updater.current_version
            &&& outcome.step->CheckingDependencies_beginning.previous_status == updater.status
            &&& release_channel matches Some(channel)
                ==> outcome.step->CheckingDependencies_beginning.release_channel == channel
            &&& release_channel is None
                ==> outcome.step->CheckingDependencies_beginning.release_channel
                == ReleaseChannel::Stable
        }),
{
}

/// A version that is offered is downloaded although the installation of another version failed,
/// whoever asked for the check.
pub proof fn law_other_failures_do_not_matter(
    task: TaskView,
    beginning: BeginningView,
    updater: UpdaterView,
    asset: ReleaseAssetView,
    commit_sha: Option<Seq<char>>,
    fetched: VersionView,
    version: VersionView,
)
    requires
        version::parsed_version(asset.version) == Some(fetched),
        updater::offered_version(
            beginning.release_channel,
            commit_sha,
            beginning.installed_version,
            fetched,
            beginning.previous_status,
        ) == Some(version),
        updater.failed_install_version != Some(version),
    ensures
        task.release_found(beginning, updater, asset, commit_sha).action
            is CreateInstallerDir,
        task.release_found(beginning, updater, asset, commit_sha).updater.status == (
        StatusView::Downloading { version, progress: None }),
{
}

/// A release that is no update ends the run: what was updated before stays shown, and otherwise
/// nothing is shown.
pub proof fn law_no_update_ends_the_run(
    task: TaskView,
    beginning: BeginningView,
    updater: UpdaterView,
    asset: ReleaseAssetView,
    commit_sha: Option<Seq<char>>,
    fetched: VersionView,
)
    requires
        version::parsed_version(asset.version) == Some(fetched),
        updater::offered_version(
            beginning.release_channel,
            commit_sha,
            beginning.installed_version,
            fetched,
            beginning.previous_status,
        ) is None,
    ensures
        ({
            let outcome = task.release_found(beginning, updater, asset, commit_sha);
            &&& outcome.action is Stop
            &&& outcome.step is Finished
            &&& beginning.previous_status is Updated ==> outcome.updater.status
                == beginning.previous_status
            &&& !(beginning.previous_status is Updated) ==> outcome.updater.status is Idle
            &&& outcome.updater.failed_install_version == updater.failed_install_version
        }),
{
}

/// What goes wrong before the download ends the run with an error that says what it was, and
/// leaves the updater as it is.
pub proof fn law_early_failures_are_told(
    task: TaskView,
    updater: UpdaterView,
    beginning: BeginningView,
    status: u16,
    body: Seq<u8>,
    cause: Seq<char>,
    release: GithubReleaseView,
    commit_sha: Option<Seq<char>>,
    found: bool,
    os_release: Option<Seq<char>>,
    error: ErrorView,
)
    ensures
        task.step == (StepView::CheckingDependencies { beginning })
            && dependencies::dependency_error(task.os, found, os_release) == Some(error)
            ==> task.fails_with(updater, EventView::RsyncLookedUp { found, os_release }, error),
        task.step == (StepView::Fetching { beginning }) && status / 100 != 2 ==> task.fails_with(
            updater,
            EventView::Fetched { status, body },
            ErrorView::GithubReleaseRefused { body },
        ),
        task.step == (StepView::Decoding { beginning, body }) ==> task.fails_with(
            updater,
            EventView::Decoded { release: Err(cause), commit_sha },
            ErrorView::GithubReleaseMalformed { body, cause },
        ),
        task.step == (StepView::Decoding { beginning, body }) && release::app_asset(
            release,
            task.os,
            task.arch,
        ) == Err::<ReleaseAssetView, ErrorView>(error) ==> task.fails_with(
            updater,
            EventView::Decoded { release: Ok(release), commit_sha },
            error,
        ),
        task.step is Locking || task.step is CheckingDependencies || task.step is Fetching
            || task.step is Decoding ==> task.fails_with(
            updater,
            EventView::Failed { error },
            error,
        ),
{
}

impl TaskView {
    /// Whether an event ends the run with an error and leaves the updater as it is.
    pub open spec fn fails_with(
        self,
        updater: UpdaterView,
        event: EventView,
        error: ErrorView,
    ) -> bool {
        let outcome = self.next(updater, event);
        &&& outcome.action == (ActionView::Fail { error })
        &&& outcome.step is Finished
        &&& outcome.updater == updater
    }
}

/// A text that is no version ends the run.
pub proof fn law_malformed_version_is_told(
    task: TaskView,
    beginning: BeginningView,
    updater: UpdaterView,
    asset: ReleaseAssetView,
    commit_sha: Option<Seq<char>>,
)
    requires
        version::parsed_version(asset.version) is None,
    ensures
        task.release_found(beginning, updater, asset, commit_sha).action == (ActionView::Fail {
            error: ErrorView::InvalidVersion { message: version::parse_error(asset.version) },
        }),
        task.release_found(beginning, updater, asset, commit_sha).updater == updater,
{
}

/// Where the directory cannot be created, or the download or the installation fails, what led to
/// that is told behind what failed, all of it and in order. Only a failed installation is
/// remembered, with its version.
pub proof fn law_late_failures_keep_their_causes(
    task: TaskView,
    updater: UpdaterView,
    message: Seq<char>,
    causes: Seq<Seq<char>>,
)
    requires
        task.step is CreatingDir || task.step is Downloading || task.step is Installing,
    ensures
        ({
            let outcome = task.next(
                updater,
                EventView::Failed { error: ErrorView::System { message, causes } },
            );
            &&& outcome.action is Fail
            &&& outcome.step is Finished
            &&& outcome.action->Fail_error.chain() == seq![
                outcome.action->Fail_error.message(),
                message,
            ] + causes
            &&& task.step is CreatingDir ==> outcome.action->Fail_error is NoInstallerDir
                && outcome.updater == updater
            &&& task.step is Downloading ==> outcome.action->Fail_error is DownloadFailed
                && outcome.action->Fail_error->DownloadFailed_target_path
                == task.step->Downloading_target_path && outcome.updater == updater
            &&& task.step is Installing ==> outcome.action->Fail_error is InstallFailed
                && outcome.action->Fail_error->InstallFailed_target_path
                == task.step->Installing_target_path && outcome.updater == (UpdaterView {
                failed_install_version: Some(task.step->Installing_version),
                ..updater
            })
        }),
{
    let outcome = task.next(
        updater,
        EventView::Failed { error: ErrorView::System { message, causes } },
    );
    assert(outcome.action->Fail_error.chain() =~= seq![
        outcome.action->Fail_error.message(),
        message,
    ] + causes);
}

/// The file that an update is downloaded to goes by the system, and each system has its own; the
/// run goes on with the path that was made of it.
pub proof fn law_each_system_has_its_file(
    task: TaskView,
    updater: UpdaterView,
    version: VersionView,
    asset: ReleaseAssetView,
    target_path: Seq<u8>,
)
    requires
        task.step == (StepView::CreatingDir { version, asset }),
    ensures
        download_name("macos"@) == Some("Zed.dmg"@),
        download_name("linux"@) == Some("zed.tar.gz"@),
        download_name("windows"@) == Some("Zed.exe"@),
        download_name(task.os) is Some <==> task.os == "macos"@ || task.os == "linux"@ || task.os
            == "windows"@,
        download_name(task.os) is Some ==> task.next(
            updater,
            EventView::DirCreated { target_path },
        ).action == (ActionView::Download { url: asset.url, target_path }),
        download_name(task.os) is None ==> task.fails_with(
            updater,
            EventView::DirCreated { target_path },
            ErrorView::UnsupportedOs { os: task.os },
        ),
{
    reveal_strlit("macos");
    reveal_strlit("linux");
    reveal_strlit("windows");
    assert("macos"@[0] == 'm' && "linux"@[0] == 'l' && "windows"@[0] == 'w');
}

/// How much is downloaded is shown while the updater shows a download, with the version that it
/// shows, and never otherwise.
pub proof fn law_progress_is_shown_while_downloading(
    task: TaskView,
    updater: UpdaterView,
    progress: Option<u32>,
    version: VersionView,
    before: Option<u32>,
)
    requires
        task.step is Downloading,
    ensures
        ({
            let outcome = task.next(updater, EventView::Progressed { progress });
            &&& outcome.step == task.step
            &&& updater.status == (StatusView::Downloading { version, progress: before })
                ==> outcome.notify && outcome.updater == (UpdaterView {
                status: StatusView::Downloading { version, progress },
                ..updater
            })
            &&& !(updater.status is Downloading) ==> !outcome.notify && outcome.updater == updater
        }),
{
}

/// What does not answer what was asked changes nothing.
pub proof fn law_run_waits_for_its_answer(task: TaskView, updater: UpdaterView, event: EventView)
    requires
        !(event is Failed),
        (task.step is Locking && !(event is Locked)) || (task.step is CheckingDependencies && !(
        event is RsyncLookedUp)) || (task.step is Fetching && !(event is Fetched)) || (task.step
            is Decoding && !(event is Decoded)) || (task.step is CreatingDir && !(event
            is DirCreated)) || (task.step is Downloading && !(event is Downloaded) && !(event
            is Progressed)) || (task.step is Installing && !(event is Installed)),
    ensures
        task.next(updater, event).step == task.step,
        task.next(updater, event).updater == updater,
        task.next(updater, event).action is Ignore,
        !task.next(updater, event).notify,
{
}

/// The server is asked for the latest release once all is there that an update needs, and what it
/// answers is decoded as it is.
pub proof fn law_latest_release_is_asked_for(
    task: TaskView,
    updater: UpdaterView,
    beginning: BeginningView,
    found: bool,
    os_release: Option<Seq<char>>,
    status: u16,
    body: Seq<u8>,
)
    ensures
        task.step == (StepView::CheckingDependencies { beginning })
            && dependencies::dependency_error(task.os, found, os_release) is None ==> task.next(
            updater,
            EventView::RsyncLookedUp { found, os_release },
        ).action == (ActionView::FetchRelease {
            url: "https://api.github.com/repos/nguyenphutrong/rezed/releases/latest"@,
        }),
        task.step == (StepView::Fetching { beginning }) && status / 100 == 2 ==> task.next(
            updater,
            EventView::Fetched { status, body },
        ).action == (ActionView::DecodeRelease { body }),
{
}

/// What happens in a run counts as it is.
pub proof fn law_events_of_a_run_count_as_they_are(
    release_channel: Option<ReleaseChannel>,
    found: bool,
    os_release: Option<String>,
    status: u16,
    body: Vec<u8>,
    release: GithubRelease,
    cause: String,
    commit_sha: Option<String>,
    path: Vec<u8>,
    progress: Option<u32>,
    error: UpdateError,
)
    ensures
        (Event::Locked { release_channel })@ == (EventView::Locked { release_channel }),
        (Event::RsyncLookedUp { found, os_release })@ == (EventView::RsyncLookedUp {
            found,
            os_release: text::optional_text(os_release),
        }),
        (Event::Fetched { status, body })@ == (EventView::Fetched { status, body: body@ }),
        (Event::Decoded { release: Ok(release), commit_sha })@ == (EventView::Decoded {
            release: Ok(release@),
            commit_sha: text::optional_text(commit_sha),
        }),
        (Event::Decoded { release: Err(cause), commit_sha })@ == (EventView::Decoded {
            release: Err(cause@),
            commit_sha: text::optional_text(commit_sha),
        }),
        (Event::DirCreated { target_path: path })@ == (EventView::DirCreated {
            target_path: path@,
        }),
        (Event::Progressed { progress })@ == (EventView::Progressed { progress }),
        Event::Downloaded@ is Downloaded,
        (Event::Installed { binary_path: Some(path) })@ == (EventView::Installed {
            binary_path: Some(path@),
        }),
        (Event::Installed { binary_path: None })@ == (EventView::Installed { binary_path: None }),
        (Event::Failed { error })@ == (EventView::Failed { error: error@ }),
{
}

} // verus!
