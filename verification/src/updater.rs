//! The updater: what it knows and how it answers to what happens.

use crate::error::{ErrorView, UpdateError};
use crate::release::ReleaseChannel;
use crate::status::{AutoUpdateStatus, StatusView, UpdateCheckType};
use crate::text;
use crate::version;
use crate::version::{Version, VersionView};
use vstd::prelude::*;

verus! {

/// Updates the application.
#[derive(Debug)]
pub struct AutoUpdater {
    status: AutoUpdateStatus,
    current_version: Version,
    pending_poll: bool,
    quit_subscription: bool,
    update_check_type: UpdateCheckType,
    dismissed_status: Option<AutoUpdateStatus>,
    failed_install_version: Option<Version>,
}

/// What an [`AutoUpdater`] knows.
#[verifier::ext_equal]
pub struct UpdaterView {
    /// How far the update is.
    pub status: StatusView,
    /// The version that runs.
    pub current_version: VersionView,
    /// Whether a check is under way.
    pub pending_poll: bool,
    /// Whether an update is to be finished when the application quits.
    pub quit_subscription: bool,
    /// Who asked for the check that is under way, or for the last one.
    pub update_check_type: UpdateCheckType,
    /// The status that the user does not want to see any more.
    pub dismissed_status: Option<StatusView>,
    /// The version whose installation failed last.
    pub failed_install_version: Option<VersionView>,
}

/// The contents of an optional status.
pub open spec fn optional_status(status: Option<AutoUpdateStatus>) -> Option<StatusView> {
    match status {
        Some(status) => Some(status@),
        None => None,
    }
}

/// The contents of an optional version.
pub open spec fn optional_version(version: Option<Version>) -> Option<VersionView> {
    match version {
        Some(version) => Some(version@),
        None => None,
    }
}

impl View for AutoUpdater {
    type V = UpdaterView;

    closed spec fn view(&self) -> UpdaterView {
        UpdaterView {
            status: self.status@,
            current_version: self.current_version@,
            pending_poll: self.pending_poll,
            quit_subscription: self.quit_subscription,
            update_check_type: self.update_check_type,
            dismissed_status: optional_status(self.dismissed_status),
            failed_install_version: optional_version(self.failed_install_version),
        }
    }
}

/// What the caller of [`AutoUpdater::poll`] has to do.
#[derive(Clone, Copy, Debug, PartialEq, Eq, Structural)]
pub struct PollReply {
    /// Tell whoever watches the updater that it changed.
    pub notify: bool,
    /// Start a check for updates.
    pub start: bool,
}

impl UpdaterView {
    /// The updater after it was asked for a check.
    pub open spec fn polled(self, check_type: UpdateCheckType) -> UpdaterView {
        UpdaterView {
            dismissed_status: if check_type == UpdateCheckType::Manual {
                None
            } else {
                self.dismissed_status
            },
            update_check_type: if self.pending_poll && self.update_check_type
                == UpdateCheckType::Manual {
                UpdateCheckType::Manual
            } else {
                check_type
            },
            pending_poll: true,
            ..self
        }
    }

    /// The status after a check that failed. An automatic check fails quietly, unless the user
    /// can mend what is wrong.
    pub open spec fn failure_status(self, error: ErrorView) -> StatusView {
        if self.update_check_type == UpdateCheckType::Automatic && !(error is MissingDependency) {
            StatusView::Idle
        } else {
            StatusView::Errored { error: error.message(), causes: error.causes() }
        }
    }

    /// Whether a version that the user did not ask for is left alone because its installation
    /// failed before.
    pub open spec fn skips_retry(self, version: VersionView) -> bool {
        self.update_check_type == UpdateCheckType::Automatic && self.failed_install_version == Some(
            version,
        )
    }
}

/// The version that the application is to be updated to, once `fetched` is found to be the latest
/// release. The nightly channel goes by the commit, the other channels by the precedence of the
/// versions. What was already updated counts as installed.
pub open spec fn offered_version(
    channel: ReleaseChannel,
    commit_sha: Option<Seq<char>>,
    installed: VersionView,
    fetched: VersionView,
    status: StatusView,
) -> Option<VersionView> {
    if channel == ReleaseChannel::Nightly {
        let differs = match status {
            StatusView::Updated { version } => fetched != version,
            _ => commit_sha != Some(text::after_last(fetched.build, '.')),
        };
        if differs {
            Some(fetched)
        } else {
            None
        }
    } else {
        let current = match status {
            StatusView::Updated { version } => version,
            _ => installed,
        };
        if current.older_than(fetched) {
            Some(fetched.without_build())
        } else {
            None
        }
    }
}

/// The commit, where it could be found out.
pub open spec fn known_commit(commit_sha: Result<Option<String>, UpdateError>) -> Option<Seq<char>> {
    match commit_sha {
        Ok(Some(sha)) => Some(sha@),
        _ => None,
    }
}

impl AutoUpdater {
    /// The updater of an application whose version is `current_version`, which runs on `os`. On
    /// Windows an application cannot be replaced while it runs, so an update is finished when it
    /// quits.
    pub fn new(current_version: Version, os: &str) -> (updater: AutoUpdater)
        ensures
            updater@ == (UpdaterView {
                status: StatusView::Idle,
                current_version: current_version@,
                pending_poll: false,
                quit_subscription: os@ == "windows"@,
                update_check_type: UpdateCheckType::Automatic,
                dismissed_status: None,
                failed_install_version: None,
            }),
    {
        AutoUpdater {
            status: AutoUpdateStatus::Idle,
            current_version,
            pending_poll: false,
            quit_subscription: text::same_text(os, "windows"),
            update_check_type: UpdateCheckType::Automatic,
            dismissed_status: None,
            failed_install_version: None,
        }
    }

    /// The application restarts: the update is finished by that, not when it quits.
    pub fn app_restarts(&mut self)
        ensures
            final(self)@ == (UpdaterView { quit_subscription: false, ..old(self)@ }),
    {
        self.quit_subscription = false;
    }

    /// Whether an update is to be finished when the application quits.
    pub fn finishes_on_quit(&self) -> (finishes: bool)
        ensures
            finishes == self@.quit_subscription,
    {
        self.quit_subscription
    }

    /// Who asked for the check that is under way, or for the last one.
    pub fn update_check_type(&self) -> (check_type: UpdateCheckType)
        ensures
            check_type == self@.update_check_type,
    {
        self.update_check_type
    }

    /// Asks for a check. A check that is under way is not started again; the user can only take
    /// an automatic one over.
    pub fn poll(&mut self, check_type: UpdateCheckType) -> (reply: PollReply)
        ensures
            final(self)@ == old(self)@.polled(check_type),
            reply.start == !old(self)@.pending_poll,
            reply.notify == (!old(self)@.pending_poll || old(self)@.update_check_type
                == UpdateCheckType::Automatic),
    {
        if check_type.is_manual() {
            self.dismissed_status = None;
        }
        if self.pending_poll {
            if self.update_check_type == UpdateCheckType::Automatic {
                self.update_check_type = check_type;
                return PollReply { notify: true, start: false };
            }
            return PollReply { notify: false, start: false };
        }
        self.update_check_type = check_type;
        self.pending_poll = true;
        PollReply { notify: true, start: true }
    }

    /// The check that was under way is over. Says whether the updater changed visibly.
    pub fn finish_poll(&mut self, result: Result<(), UpdateError>) -> (notify: bool)
        ensures
            notify == (result is Err),
            final(self)@ == match result {
                Ok(_) => UpdaterView { pending_poll: false, ..old(self)@ },
                Err(error) => UpdaterView {
                    pending_poll: false,
                    status: old(self)@.failure_status(error@),
                    ..old(self)@
                },
            },
    {
        self.pending_poll = false;
        match result {
            Ok(_) => false,
            Err(error) => {
                self.status = match self.update_check_type {
                    UpdateCheckType::Automatic => {
                        if error.is_missing_dependency() {
                            AutoUpdateStatus::Errored {
                                error: error.message(),
                                causes: error.causes(),
                            }
                        } else {
                            AutoUpdateStatus::Idle
                        }
                    },
                    UpdateCheckType::Manual => AutoUpdateStatus::Errored {
                        error: error.message(),
                        causes: error.causes(),
                    },
                };
                true
            },
        }
    }

    /// The version that runs.
    pub fn current_version(&self) -> (version: Version)
        ensures
            version@ == self@.current_version,
    {
        self.current_version.clone()
    }

    /// How far the update is.
    pub fn status(&self) -> (status: AutoUpdateStatus)
        ensures
            status@ == self@.status,
    {
        self.status.clone()
    }

    /// The status that the user does not want to see any more.
    pub fn dismissed_status(&self) -> (status: Option<AutoUpdateStatus>)
        ensures
            optional_status(status) == self@.dismissed_status,
    {
        match &self.dismissed_status {
            Some(status) => Some(status.clone()),
            None => None,
        }
    }

    /// The user does not want to see `status` any more.
    pub fn dismiss_status(&mut self, status: AutoUpdateStatus)
        ensures
            final(self)@ == (UpdaterView { dismissed_status: Some(status@), ..old(self)@ }),
    {
        self.dismissed_status = Some(status);
    }

    /// Forgets the status. Says whether there was one.
    pub fn dismiss(&mut self) -> (dismissed: bool)
        ensures
            dismissed == !(old(self)@.status is Idle),
            final(self)@ == (UpdaterView { status: StatusView::Idle, ..old(self)@ }),
    {
        if let AutoUpdateStatus::Idle = self.status {
            return false;
        }
        self.status = AutoUpdateStatus::Idle;
        true
    }

    /// Changes the status.
    pub(crate) fn set_status(&mut self, status: AutoUpdateStatus)
        ensures
            final(self)@ == (UpdaterView { status: status@, ..old(self)@ }),
    {
        self.status = status;
    }

    /// Changes how much is downloaded, while there is a download. Says whether there is one.
    pub(crate) fn set_progress(&mut self, progress: Option<u32>) -> (changed: bool)
        ensures
            changed == (old(self)@.status is Downloading),
            final(self)@ == match old(self)@.status {
                StatusView::Downloading { version, .. } => UpdaterView {
                    status: StatusView::Downloading { version, progress },
                    ..old(self)@
                },
                _ => old(self)@,
            },
    {
        if let AutoUpdateStatus::Downloading { version, .. } = &self.status {
            self.status = AutoUpdateStatus::Downloading { version: version.clone(), progress };
            true
        } else {
            false
        }
    }

    /// Changes the version whose installation failed last.
    pub(crate) fn set_failed_install_version(&mut self, version: Option<Version>)
        ensures
            final(self)@ == (UpdaterView {
                failed_install_version: optional_version(version),
                ..old(self)@
            }),
    {
        self.failed_install_version = version;
    }

    /// Whether `version` is left alone because its installation failed before and the user did
    /// not ask for a check.
    pub fn should_skip_automatic_install_retry(&self, version: &Version) -> (skip: bool)
        ensures
            skip == self@.skips_retry(version@),
    {
        self.update_check_type == UpdateCheckType::Automatic && match &self.failed_install_version {
            Some(failed) => *failed == *version,
            None => false,
        }
    }

    /// The version that the application is to be updated to, once a release with the version
    /// `fetched_version` is found to be the latest.
    pub fn check_if_fetched_version_is_newer(
        release_channel: ReleaseChannel,
        app_commit_sha: Result<Option<String>, UpdateError>,
        installed_version: Version,
        fetched_version: String,
        status: AutoUpdateStatus,
    ) -> (newer: Result<Option<Version>, UpdateError>)
        ensures
            match (newer, version::parsed_version(fetched_version@)) {
                (Ok(newer), Some(fetched)) => optional_version(newer) == offered_version(
                    release_channel,
                    known_commit(app_commit_sha),
                    installed_version@,
                    fetched,
                    status@,
                ),
                (Err(error), None) => error@ == (ErrorView::InvalidVersion {
                    message: version::parse_error(fetched_version@),
                }),
                _ => false,
            },
    {
        let fetched = match Version::parse(fetched_version.as_str()) {
            Ok(fetched) => fetched,
            Err(message) => {
                return Err(UpdateError::InvalidVersion { message });
            },
        };
        match release_channel {
            ReleaseChannel::Nightly => {
                let should_download = if let AutoUpdateStatus::Updated { version } = status {
                    fetched != version
                } else {
                    let fetched_sha = text::part_after_last(fetched.build(), '.');
                    match app_commit_sha {
                        Ok(Some(sha)) => !text::same_text(fetched_sha, sha.as_str()),
                        _ => true,
                    }
                };
                if should_download {
                    Ok(Some(fetched))
                } else {
                    Ok(None)
                }
            },
            _ => {
                let current_version = if let AutoUpdateStatus::Updated { version } = status {
                    version
                } else {
                    installed_version
                };
                Ok(Self::check_if_fetched_version_is_newer_non_nightly(current_version, fetched))
            },
        }
    }

    /// The version `fetched_version`, without its build metadata, where it takes precedence over
    /// `installed_version`.
    pub fn check_if_fetched_version_is_newer_non_nightly(
        installed_version: Version,
        fetched_version: Version,
    ) -> (newer: Option<Version>)
        ensures
            optional_version(newer) == if installed_version@.older_than(fetched_version@) {
                Some(fetched_version@.without_build())
            } else {
                None
            },
    {
        let fetched_version = fetched_version.without_build();
        if fetched_version.newer_than(&installed_version) {
            Some(fetched_version)
        } else {
            None
        }
    }
}

/// A version that the application was updated to is not offered again, whatever is installed and
/// whichever commit runs.
pub proof fn law_update_is_not_offered_again(
    channel: ReleaseChannel,
    commit_sha: Option<Seq<char>>,
    installed: VersionView,
    fetched: VersionView,
    status: StatusView,
    later_commit_sha: Option<Seq<char>>,
    later_installed: VersionView,
)
    ensures
        offered_version(channel, commit_sha, installed, fetched, status) matches Some(version)
            ==> offered_version(
            channel,
            later_commit_sha,
            later_installed,
            fetched,
            StatusView::Updated { version },
        ) is None,
{
    version::law_not_older_than_itself(fetched);
}

/// Off the nightly channel only versions are offered that take precedence over the current one.
pub proof fn law_offer_is_newer(
    channel: ReleaseChannel,
    commit_sha: Option<Seq<char>>,
    installed: VersionView,
    fetched: VersionView,
    status: StatusView,
)
    requires
        channel != ReleaseChannel::Nightly,
    ensures
        offered_version(channel, commit_sha, installed, fetched, status) matches Some(version) ==> ({
            let current = match status {
                StatusView::Updated { version } => version,
                _ => installed,
            };
            current.older_than(version) && !version.older_than(current)
        }),
{
    let current = match status {
        StatusView::Updated { version } => version,
        _ => installed,
    };
    if current.older_than(fetched) && fetched.older_than(current) {
        version::law_older_than_is_transitive(current, fetched, current);
        version::law_not_older_than_itself(current);
    }
}

/// Off the nightly channel a second update leads further on: what is offered after an update takes
/// precedence over what was installed before it.
pub proof fn law_updates_lead_forward(
    channel: ReleaseChannel,
    commit_sha: Option<Seq<char>>,
    installed: VersionView,
    first: VersionView,
    second: VersionView,
)
    requires
        channel != ReleaseChannel::Nightly,
    ensures
        offered_version(channel, commit_sha, installed, first, StatusView::Idle) matches Some(
            updated,
        ) ==> (offered_version(
            channel,
            commit_sha,
            installed,
            second,
            StatusView::Updated { version: updated },
        ) matches Some(version) ==> installed.older_than(version)),
{
    if installed.older_than(first) && first.without_build().older_than(second) {
        version::law_older_than_is_transitive(installed, first, second);
    }
}

/// Off the nightly channel build metadata makes no difference to whether a version is offered.
pub proof fn law_build_metadata_does_not_matter(
    channel: ReleaseChannel,
    commit_sha: Option<Seq<char>>,
    installed: VersionView,
    fetched: VersionView,
    installed_build: Seq<char>,
    fetched_build: Seq<char>,
)
    requires
        channel != ReleaseChannel::Nightly,
    ensures
        offered_version(channel, commit_sha, installed, fetched, StatusView::Idle)
            == offered_version(
            channel,
            commit_sha,
            VersionView { build: installed_build, ..installed },
            VersionView { build: fetched_build, ..fetched },
            StatusView::Idle,
        ),
{
}

/// On the nightly channel, before any update, a version is offered unless it was built from the
/// commit that runs. Where that is not known it is always offered.
pub proof fn law_nightly_goes_by_the_commit(
    commit_sha: Option<Seq<char>>,
    installed: VersionView,
    fetched: VersionView,
    status: StatusView,
)
    requires
        !(status is Updated),
    ensures
        (offered_version(ReleaseChannel::Nightly, commit_sha, installed, fetched, status) is None)
            == (commit_sha == Some(text::after_last(fetched.build, '.'))),
        offered_version(ReleaseChannel::Nightly, None, installed, fetched, status) == Some(fetched),
{
}

/// A check that the user asked for stays theirs, and one that is under way becomes theirs; it
/// makes no difference how often it is asked for.
pub proof fn law_user_takes_a_check_over(updater: UpdaterView, check_type: UpdateCheckType)
    ensures
        updater.polled(UpdateCheckType::Manual).update_check_type == UpdateCheckType::Manual,
        updater.polled(UpdateCheckType::Manual).polled(check_type).update_check_type
            == UpdateCheckType::Manual,
        updater.polled(check_type).polled(check_type) == updater.polled(check_type),
        updater.polled(check_type).pending_poll,
{
}

/// What was dismissed is shown again after the user asked for a check, and stays dismissed when a
/// check is made automatically.
pub proof fn law_asking_ends_a_dismissal(updater: UpdaterView)
    ensures
        updater.polled(UpdateCheckType::Manual).dismissed_status is None,
        updater.polled(UpdateCheckType::Automatic).dismissed_status == updater.dismissed_status,
{
}

/// An automatic check that fails is not shown, unless the user can mend what is wrong; one that
/// the user asked for, or took over, is.
pub proof fn law_automatic_checks_fail_quietly(updater: UpdaterView, error: ErrorView)
    requires
        !updater.pending_poll,
    ensures
        updater.polled(UpdateCheckType::Automatic).failure_status(error) == if error
            is MissingDependency {
            StatusView::Errored { error: error.message(), causes: error.causes() }
        } else {
            StatusView::Idle
        },
        updater.polled(UpdateCheckType::Manual).failure_status(error) == (StatusView::Errored {
            error: error.message(),
            causes: error.causes(),
        }),
        updater.polled(UpdateCheckType::Automatic).polled(
            UpdateCheckType::Manual,
        ).failure_status(error) == (StatusView::Errored {
            error: error.message(),
            causes: error.causes(),
        }),
{
}

/// Only the version whose installation failed is left alone, whoever asked for the check: another
/// version is not, and nothing is where no installation failed.
pub proof fn law_only_the_failed_version_is_skipped(updater: UpdaterView, version: VersionView)
    ensures
        updater.failed_install_version != Some(version) ==> !updater.skips_retry(version),
        updater.failed_install_version is None ==> !updater.skips_retry(version),
        updater.update_check_type == UpdateCheckType::Manual ==> !updater.skips_retry(version),
        (UpdaterView {
            failed_install_version: Some(version),
            update_check_type: UpdateCheckType::Automatic,
            ..updater
        }).skips_retry(version),
{
}

/// Nothing but who asked for the check and the version whose installation failed decides whether a
/// version is left alone.
pub proof fn law_skipping_goes_by_the_failure_alone(
    left: UpdaterView,
    right: UpdaterView,
    version: VersionView,
)
    requires
        left.update_check_type == right.update_check_type,
        left.failed_install_version == right.failed_install_version,
    ensures
        left.skips_retry(version) == right.skips_retry(version),
{
}

/// Off the nightly channel every version that takes precedence over the current one is offered,
/// without its build metadata, and no other version is. The current one is the one that the
/// application was updated to, or else the one that is installed.
pub proof fn law_newer_version_is_offered(
    channel: ReleaseChannel,
    commit_sha: Option<Seq<char>>,
    installed: VersionView,
    updated: VersionView,
    fetched: VersionView,
    status: StatusView,
)
    requires
        channel != ReleaseChannel::Nightly,
        !(status is Updated),
    ensures
        installed.older_than(fetched) ==> offered_version(
            channel,
            commit_sha,
            installed,
            fetched,
            status,
        ) == Some(VersionView { build: seq![], ..fetched }),
        !installed.older_than(fetched) ==> offered_version(
            channel,
            commit_sha,
            installed,
            fetched,
            status,
        ) is None,
        updated.older_than(fetched) ==> offered_version(
            channel,
            commit_sha,
            installed,
            fetched,
            StatusView::Updated { version: updated },
        ) == Some(VersionView { build: seq![], ..fetched }),
        !updated.older_than(fetched) ==> offered_version(
            channel,
            commit_sha,
            installed,
            fetched,
            StatusView::Updated { version: updated },
        ) is None,
{
}

/// Off the nightly channel a higher number is an update, whatever stands behind it: a higher major
/// version, a higher minor version of the same major version, or a higher patch version of the
/// same minor version. A lower number is none.
pub proof fn law_higher_number_is_offered(
    channel: ReleaseChannel,
    commit_sha: Option<Seq<char>>,
    installed: VersionView,
    fetched: VersionView,
)
    requires
        channel != ReleaseChannel::Nightly,
    ensures
        ({
            let offered = offered_version(
                channel,
                commit_sha,
                installed,
                fetched,
                StatusView::Idle,
            );
            &&& fetched.major > installed.major || fetched.major == installed.major
                && fetched.minor > installed.minor || fetched.major == installed.major
                && fetched.minor == installed.minor && fetched.patch > installed.patch
                ==> offered is Some
            &&& fetched.major < installed.major || fetched.major == installed.major
                && fetched.minor < installed.minor || fetched.major == installed.major
                && fetched.minor == installed.minor && fetched.patch < installed.patch
                ==> offered is None
        }),
{
}

/// All channels but the nightly one offer the same versions, whichever commit runs.
pub proof fn law_channels_agree_off_nightly(
    left: ReleaseChannel,
    right: ReleaseChannel,
    left_sha: Option<Seq<char>>,
    right_sha: Option<Seq<char>>,
    installed: VersionView,
    fetched: VersionView,
    status: StatusView,
)
    requires
        left != ReleaseChannel::Nightly,
        right != ReleaseChannel::Nightly,
    ensures
        offered_version(left, left_sha, installed, fetched, status) == offered_version(
            right,
            right_sha,
            installed,
            fetched,
            status,
        ),
{
}

/// On the nightly channel, after an update, every other version is offered, as it is, and only the
/// version that the application was updated to is not; neither the commit nor what is installed
/// matters then. Before an update it does not matter what is installed.
pub proof fn law_nightly_offers_every_other_version(
    commit_sha: Option<Seq<char>>,
    other_sha: Option<Seq<char>>,
    installed: VersionView,
    other_installed: VersionView,
    updated: VersionView,
    fetched: VersionView,
    status: StatusView,
)
    ensures
        offered_version(
            ReleaseChannel::Nightly,
            commit_sha,
            installed,
            fetched,
            StatusView::Updated { version: updated },
        ) == if fetched == updated {
            None
        } else {
            Some(fetched)
        },
        offered_version(ReleaseChannel::Nightly, commit_sha, installed, fetched, status)
            == offered_version(
            ReleaseChannel::Nightly,
            commit_sha,
            other_installed,
            fetched,
            status,
        ),
        !(status is Updated) && commit_sha is Some && !text::is_last_part(
            fetched.build,
            '.',
            commit_sha->0,
        ) ==> offered_version(ReleaseChannel::Nightly, commit_sha, installed, fetched, status)
            == Some(fetched),
        !(status is Updated) && commit_sha is Some && text::is_last_part(
            fetched.build,
            '.',
            commit_sha->0,
        ) ==> offered_version(ReleaseChannel::Nightly, commit_sha, installed, fetched, status)
            is None,
{
    if commit_sha is Some {
        text::law_last_part(fetched.build, '.', commit_sha->0);
    }
}

/// A check changes nothing but who asked for it, that it is under way, and what was dismissed.
pub proof fn law_asking_changes_little(updater: UpdaterView, check_type: UpdateCheckType)
    ensures
        ({
            let polled = updater.polled(check_type);
            &&& polled.status == updater.status
            &&& polled.current_version == updater.current_version
            &&& polled.quit_subscription == updater.quit_subscription
            &&& polled.failed_install_version == updater.failed_install_version
            &&& !updater.pending_poll ==> polled.update_check_type == check_type
            &&& updater.pending_poll && updater.update_check_type == UpdateCheckType::Automatic
                ==> polled.update_check_type == check_type
        }),
{
}

/// What is shown of a check that failed is the error with all that led to it, or nothing; it does
/// not matter what was shown before.
pub proof fn law_failure_is_shown_whole(left: UpdaterView, right: UpdaterView, error: ErrorView)
    requires
        left.update_check_type == right.update_check_type,
    ensures
        left.failure_status(error) == right.failure_status(error),
        left.failure_status(error) is Idle || left.failure_status(error) is Errored,
        left.failure_status(error) matches StatusView::Errored { error: shown, causes } ==> seq![
            shown,
        ] + causes == error.chain(),
{
}

/// A commit is known if and only if it could be asked for and there is one; it is then that one.
pub proof fn law_commit_is_known_where_there_is_one(sha: String, error: UpdateError)
    ensures
        known_commit(Ok(Some(sha))) == Some(sha@),
        known_commit(Ok(None)) is None,
        known_commit(Err(error)) is None,
{
}

} // verus!
