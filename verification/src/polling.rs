//! When updates are looked for.

use crate::release::ReleaseChannel;
use crate::text;
use crate::updater::AutoUpdater;
use vstd::prelude::*;
use vstd::string::*;

verus! {

/// The seconds between two checks.
pub const POLL_INTERVAL: u64 = 3600;

/// The seconds between two checks on the nightly channel.
pub const NIGHTLY_POLL_INTERVAL: u64 = 900;

/// What the application remembers while it has to say that it was updated.
pub const SHOULD_SHOW_UPDATE_NOTIFICATION_KEY: &'static str =
    "auto-updater-should-show-updated-notification";

/// What a prompt says where updates come from elsewhere.
pub const EXPLANATION_TITLE: &'static str = "Zed was installed via a package manager.";

/// What a prompt says where there is nothing that could look for updates.
pub const NO_UPDATER_TITLE: &'static str = "Could not check for updates";

/// Why there is nothing that could look for updates.
pub const NO_UPDATER_DETAIL: &'static str = "Auto-updates disabled for non-bundled app.";

/// The seconds between two checks.
pub open spec fn interval_of(channel: Option<ReleaseChannel>) -> u64 {
    if channel == Some(ReleaseChannel::Nightly) {
        NIGHTLY_POLL_INTERVAL
    } else {
        POLL_INTERVAL
    }
}

/// How far the updater is that looks for updates again and again.
#[derive(Clone, Copy, Debug, PartialEq, Eq, Structural)]
pub enum PollingStep {
    /// Waits for the directories of an update for Windows to be removed.
    CleaningUpWindows,
    /// Waits for what earlier updates left behind to be removed.
    CleaningUp,
    /// Something could not be removed. Waits to try again.
    Pausing,
    /// Waits for the removal of what earlier updates left behind to begin.
    StartingCleanup,
    /// Waits for the check to be started.
    Polling,
    /// Waits for the next check.
    Waiting,
}

/// What happened outside.
#[derive(Clone, Copy, Debug, PartialEq, Eq, Structural)]
pub enum PollingEvent {
    /// What was asked for was done, or was given up.
    Done,
    /// The removal of what earlier updates left behind is over.
    CleanedUp { succeeded: bool },
    /// The interval is over.
    Waited,
}

/// What is to be done next.
#[derive(Clone, Copy, Debug, PartialEq, Eq, Structural)]
pub enum PollingAction {
    /// Remove the directories of an update for Windows.
    CleanUpWindows,
    /// Remove what earlier updates left behind.
    CleanUp,
    /// Begin to remove what earlier updates left behind, and do not wait for it.
    StartCleanup,
    /// Check for an update.
    Poll,
    /// Wait for the interval.
    Wait,
    /// Nothing: what happened does not matter now.
    Ignore,
}

/// An updater that looks for updates again and again.
#[derive(Clone, Copy, Debug, PartialEq, Eq, Structural)]
pub struct Polling {
    pub interval: u64,
    pub step: PollingStep,
}

/// What is done first.
pub open spec fn first_step(os: Seq<char>) -> PollingStep {
    if os == "windows"@ {
        PollingStep::CleaningUpWindows
    } else if os == "macos"@ {
        PollingStep::CleaningUp
    } else {
        PollingStep::StartingCleanup
    }
}

impl PollingStep {
    /// What is done in a step.
    pub open spec fn action_of(self) -> PollingAction {
        match self {
            PollingStep::CleaningUpWindows => PollingAction::CleanUpWindows,
            PollingStep::CleaningUp => PollingAction::CleanUp,
            PollingStep::Pausing => PollingAction::Wait,
            PollingStep::StartingCleanup => PollingAction::StartCleanup,
            PollingStep::Polling => PollingAction::Poll,
            PollingStep::Waiting => PollingAction::Wait,
        }
    }

    /// The step that an event leads to, if it leads to one.
    pub open spec fn next(self, event: PollingEvent) -> Option<PollingStep> {
        match (self, event) {
            (PollingStep::CleaningUpWindows, PollingEvent::Done) => Some(PollingStep::Polling),
            (PollingStep::CleaningUp, PollingEvent::CleanedUp { succeeded }) => if succeeded {
                Some(PollingStep::Polling)
            } else {
                Some(PollingStep::Pausing)
            },
            (PollingStep::Pausing, PollingEvent::Waited) => Some(PollingStep::CleaningUp),
            (PollingStep::StartingCleanup, PollingEvent::Done) => Some(PollingStep::Polling),
            (PollingStep::Polling, PollingEvent::Done) => Some(PollingStep::Waiting),
            (PollingStep::Waiting, PollingEvent::Waited) => Some(PollingStep::Polling),
            _ => None,
        }
    }

    /// The step after some events.
    pub open spec fn after(self, events: Seq<PollingEvent>) -> PollingStep
        decreases events.len(),
    {
        if events.len() == 0 {
            self
        } else {
            let before = self.after(events.drop_last());
            match before.next(events.last()) {
                Some(step) => step,
                None => before,
            }
        }
    }
}

impl AutoUpdater {
    /// Begins to look for updates again and again.
    pub fn start_polling(&self, channel: Option<ReleaseChannel>, os: &str) -> (polling: Polling)
        ensures
            polling == (Polling { interval: interval_of(channel), step: first_step(os@) }),
    {
        let interval: u64 = match channel {
            Some(ReleaseChannel::Nightly) => NIGHTLY_POLL_INTERVAL,
            _ => POLL_INTERVAL,
        };
        let step = if text::same_text(os, "windows") {
            PollingStep::CleaningUpWindows
        } else if text::same_text(os, "macos") {
            PollingStep::CleaningUp
        } else {
            PollingStep::StartingCleanup
        };
        Polling { interval, step }
    }

    /// What to remember so that the application says, or does not say, that it was updated.
    pub fn set_should_show_update_notification(&self, should_show: bool) -> (change: StoredChange)
        ensures
            change.key@ == SHOULD_SHOW_UPDATE_NOTIFICATION_KEY@,
            match change.value {
                Some(value) => should_show && value@ == ""@,
                None => !should_show,
            },
    {
        StoredChange {
            key: SHOULD_SHOW_UPDATE_NOTIFICATION_KEY,
            value: if should_show {
                Some("")
            } else {
                None
            },
        }
    }

    /// Whether the application has to say that it was updated, by what it remembers.
    pub fn should_show_update_notification(&self, stored: Option<&str>) -> (should_show: bool)
        ensures
            should_show == (stored is Some),
    {
        stored.is_some()
    }
}

impl Polling {
    /// What is to be done now.
    pub fn action(&self) -> (action: PollingAction)
        ensures
            action == self.step.action_of(),
    {
        match self.step {
            PollingStep::CleaningUpWindows => PollingAction::CleanUpWindows,
            PollingStep::CleaningUp => PollingAction::CleanUp,
            PollingStep::Pausing => PollingAction::Wait,
            PollingStep::StartingCleanup => PollingAction::StartCleanup,
            PollingStep::Polling => PollingAction::Poll,
            PollingStep::Waiting => PollingAction::Wait,
        }
    }

    /// Goes on with what happened, and says what is to be done next.
    pub fn advance(&mut self, event: PollingEvent) -> (action: PollingAction)
        ensures
            final(self).interval == old(self).interval,
            match old(self).step.next(event) {
                Some(step) => final(self).step == step && action == step.action_of(),
                None => final(self).step == old(self).step && action is Ignore,
            },
    {
        let step = match (self.step, event) {
            (PollingStep::CleaningUpWindows, PollingEvent::Done) => PollingStep::Polling,
            (PollingStep::CleaningUp, PollingEvent::CleanedUp { succeeded }) => if succeeded {
                PollingStep::Polling
            } else {
                PollingStep::Pausing
            },
            (PollingStep::Pausing, PollingEvent::Waited) => PollingStep::CleaningUp,
            (PollingStep::StartingCleanup, PollingEvent::Done) => PollingStep::Polling,
            (PollingStep::Polling, PollingEvent::Done) => PollingStep::Waiting,
            (PollingStep::Waiting, PollingEvent::Waited) => PollingStep::Polling,
            _ => {
                return PollingAction::Ignore;
            },
        };
        self.step = step;
        self.action()
    }
}

/// A change of what the application remembers: without a value the key is forgotten.
#[derive(Clone, Copy, Debug)]
pub struct StoredChange {
    pub key: &'static str,
    pub value: Option<&'static str>,
}

/// Where the text comes from that explains how the application is updated: it was built with it,
/// or its environment holds it.
pub open spec fn explanation(built_with: Option<Seq<char>>, environment: Option<Seq<char>>)
    -> Option<Seq<char>> {
    if built_with is Some {
        built_with
    } else {
        environment
    }
}

/// What the application begins with.
#[derive(Clone, Copy, Debug, PartialEq, Eq, Structural)]
pub struct InitialPolling {
    /// Whether the updater follows the user's settings.
    pub observes_settings: bool,
    /// Whether it looks for updates from the beginning.
    pub starts: bool,
}

/// Whether the updater looks for updates by itself: not where an explanation says how the
/// application is updated, nor on a release channel without updates.
pub fn init(
    built_with: Option<&str>,
    environment: Option<&str>,
    polls_for_updates: Option<bool>,
    enabled: bool,
) -> (initial: InitialPolling)
    ensures
        initial.observes_settings == (built_with is None && environment is None
            && polls_for_updates == Some(true)),
        initial.starts == (initial.observes_settings && enabled),
{
    let polls = match polls_for_updates {
        Some(polls) => polls,
        None => false,
    };
    let observes_settings = built_with.is_none() && environment.is_none() && polls;
    InitialPolling { observes_settings, starts: observes_settings && enabled }
}

/// Whether or not to automatically check for updates.
#[derive(Clone, Copy, Debug, PartialEq, Eq, Structural)]
pub struct AutoUpdateSetting(pub bool);

impl AutoUpdateSetting {
    /// The setting as the settings hold it. The default settings always do.
    pub fn from_settings(auto_update: Option<bool>) -> (setting: AutoUpdateSetting)
        requires
            auto_update is Some,
        ensures
            auto_update == Some(setting.0),
    {
        AutoUpdateSetting(auto_update.unwrap())
    }
}

/// What a change of the settings leads to.
#[derive(Clone, Copy, Debug, PartialEq, Eq, Structural)]
pub enum PollingChange {
    Start,
    Stop,
    Keep,
}

/// What it leads to that the user enabled or disabled updates, while the updater looks for some
/// or does not.
pub fn settings_changed(enabled: bool, polling: bool) -> (change: PollingChange)
    ensures
        change == if enabled && !polling {
            PollingChange::Start
        } else if !enabled && polling {
            PollingChange::Stop
        } else {
            PollingChange::Keep
        },
{
    if enabled && !polling {
        PollingChange::Start
    } else if !enabled && polling {
        PollingChange::Stop
    } else {
        PollingChange::Keep
    }
}

/// What the user gets who asks for a check.
#[derive(Clone, Copy, Debug)]
pub enum CheckReply<'a> {
    /// A prompt.
    Prompt { title: &'static str, detail: &'a str },
    /// Nothing.
    Nothing,
    /// A check.
    Poll,
}

/// What the user gets who asks for a check.
pub fn check<'a>(
    built_with: Option<&'a str>,
    environment: Option<&'a str>,
    polls_for_updates: Option<bool>,
    has_updater: bool,
) -> (reply: CheckReply<'a>)
    ensures
        match explanation(text::optional_slice(built_with), text::optional_slice(environment)) {
            Some(message) => reply matches CheckReply::Prompt { title, detail } && title@
                == EXPLANATION_TITLE@ && detail@ == message,
            None => if polls_for_updates != Some(true) {
                reply is Nothing
            } else if has_updater {
                reply is Poll
            } else {
                reply matches CheckReply::Prompt { title, detail } && title@ == NO_UPDATER_TITLE@
                    && detail@ == NO_UPDATER_DETAIL@
            },
        },
{
    let explanation = match built_with {
        Some(message) => Some(message),
        None => environment,
    };
    if let Some(message) = explanation {
        return CheckReply::Prompt { title: EXPLANATION_TITLE, detail: message };
    }
    let polls = match polls_for_updates {
        Some(polls) => polls,
        None => false,
    };
    if !polls {
        return CheckReply::Nothing;
    }
    if has_updater {
        CheckReply::Poll
    } else {
        CheckReply::Prompt { title: NO_UPDATER_TITLE, detail: NO_UPDATER_DETAIL }
    }
}

/// Under macOS no check is made before what earlier updates left behind is removed.
pub proof fn law_no_check_before_cleanup(events: Seq<PollingEvent>)
    requires
        forall|i: int|
            0 <= i < events.len() ==> #[trigger] events[i] != (PollingEvent::CleanedUp {
                succeeded: true,
            }),
    ensures
        first_step("macos"@).after(events) is CleaningUp || first_step("macos"@).after(events)
            is Pausing,
        !(first_step("macos"@).after(events).action_of() is Poll),
    decreases events.len(),
{
    reveal_strlit("macos");
    reveal_strlit("windows");
    assert("macos"@.len() != "windows"@.len());
    if events.len() > 0 {
        let shorter = events.drop_last();
        assert forall|i: int| 0 <= i < shorter.len() implies #[trigger] shorter[i] != (
        PollingEvent::CleanedUp { succeeded: true }) by {
            assert(shorter[i] == events[i]);
        }
        law_no_check_before_cleanup(shorter);
        assert(events[events.len() - 1] != (PollingEvent::CleanedUp { succeeded: true }));
    }
}

/// Once updates are looked for, they are looked for again and again, with a wait in between.
pub proof fn law_polling_goes_on(step: PollingStep, events: Seq<PollingEvent>)
    requires
        step is Polling || step is Waiting,
    ensures
        step.after(events) is Polling || step.after(events) is Waiting,
        PollingStep::Polling.next(PollingEvent::Done) == Some(PollingStep::Waiting),
        PollingStep::Waiting.next(PollingEvent::Waited) == Some(PollingStep::Polling),
    decreases events.len(),
{
    if events.len() > 0 {
        law_polling_goes_on(step, events.drop_last());
    }
}

/// The nightly channel is checked every quarter of an hour, all others, and where none is set,
/// every hour.
pub proof fn law_nightly_is_checked_more_often(channel: Option<ReleaseChannel>)
    ensures
        channel == Some(ReleaseChannel::Nightly) ==> interval_of(channel) == 15 * 60,
        channel != Some(ReleaseChannel::Nightly) ==> interval_of(channel) == 60 * 60,
{
}

/// Whatever the system, updates are looked for as soon as what is done first is over.
pub proof fn law_check_follows_the_cleanup(os: Seq<char>)
    ensures
        os == "macos"@ ==> first_step(os).action_of() is CleanUp && first_step(os).next(
            PollingEvent::CleanedUp { succeeded: true },
        ) == Some(PollingStep::Polling),
        os == "windows"@ ==> first_step(os).action_of() is CleanUpWindows,
        os != "macos"@ && os != "windows"@ ==> first_step(os).action_of() is StartCleanup,
        os != "macos"@ ==> first_step(os).next(PollingEvent::Done) == Some(PollingStep::Polling),
        PollingStep::Polling.action_of() is Poll,
        PollingStep::Waiting.action_of() is Wait,
        PollingStep::Pausing.action_of() is Wait,
{
    reveal_strlit("macos");
    reveal_strlit("windows");
    assert("macos"@.len() != "windows"@.len());
}

/// Checks are never made without a wait between them: what follows a check is a wait, and nothing
/// else ends the wait but that the interval is over.
pub proof fn law_checks_are_apart(step: PollingStep, event: PollingEvent)
    requires
        step is Polling || step is Waiting || step is Pausing,
    ensures
        step is Polling ==> (step.next(event) matches Some(next) ==> next is Waiting),
        step is Waiting && step.next(event) is Some ==> event is Waited && step.next(event)->0
            is Polling,
        step is Pausing && step.next(event) is Some ==> event is Waited && step.next(event)->0
            is CleaningUp,
{
}

/// What the application was built with goes before what its environment holds.
pub proof fn law_explanation_built_in_goes_first(
    built_with: Seq<char>,
    environment: Option<Seq<char>>,
)
    ensures
        explanation(Some(built_with), environment) == Some(built_with),
        explanation(None, environment) == environment,
{
}

} // verus!
