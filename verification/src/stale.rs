//! Removes the directories that earlier updates left behind.

use crate::installer_dir;
use crate::marker;
use crate::os_path;
use crate::text;
use vstd::prelude::*;
use vstd::string::*;
use vstd::utf8::*;

verus! {

/// The nanoseconds after which a directory is taken for left behind: a day.
pub const STALE_AGE: i128 = 86_400_000_000_000;

/// The earliest time there is, in nanoseconds after the beginning of 1970.
pub const EARLIEST_TIME: i128 = -9_223_372_036_854_775_808_000_000_000;

/// The time a day before `now`, or the beginning of 1970 where there is no such time.
pub fn stale_before(now: i128) -> (time: i128)
    ensures
        time == if now - STALE_AGE >= EARLIEST_TIME {
            now - STALE_AGE
        } else {
            0
        },
{
    match now.checked_sub(STALE_AGE) {
        Some(time) => {
            if time >= EARLIEST_TIME {
                time
            } else {
                0
            }
        },
        None => 0,
    }
}

/// Whether a file's name starts with `prefix`.
pub open spec fn name_starts(file_name: Seq<u8>, prefix: &str) -> bool {
    encode_utf8(prefix@).is_prefix_of(file_name)
}

/// Whether something in the directory for temporary files was left behind by an update on a Unix
/// system other than macOS: a directory with the name of one, older than a day. Times are in
/// nanoseconds.
pub open spec fn is_stale(
    file_name: Seq<u8>,
    is_directory: bool,
    modified: Option<i128>,
    now: i128,
) -> bool {
    name_starts(file_name, installer_dir::INSTALLER_DIR_PREFIX) && is_directory && modified is Some
        && now - modified->0 > STALE_AGE
}

/// Whether something in the directory for temporary files was left behind by an update on a Unix
/// system other than macOS.
pub fn is_stale_installer_dir(
    file_name: &[u8],
    is_directory: bool,
    modified: Option<i128>,
    now: i128,
) -> (stale: bool)
    ensures
        stale == is_stale(file_name@, is_directory, modified, now),
{
    if !os_path::starts_with(file_name, installer_dir::INSTALLER_DIR_PREFIX.as_bytes()) {
        return false;
    }
    if !is_directory {
        return false;
    }
    match modified {
        Some(modified) => match now.checked_sub(modified) {
            Some(age) => age > STALE_AGE,
            None => now > modified,
        },
        None => false,
    }
}

/// Something in the directory for temporary files. Times are in nanoseconds.
#[derive(Debug)]
pub struct TempEntry<'a> {
    pub file_name: &'a [u8],
    pub is_directory: bool,
    pub modified: Option<i128>,
}

/// What is done with something in the directory for temporary files.
#[derive(Clone, Copy, Debug, PartialEq, Eq, Structural)]
pub enum EntryAction {
    /// Remove it with all that it holds.
    Remove,
    /// Leave it.
    Leave,
    /// Leave it and all that comes after it.
    Stop,
}

/// What is done on a Unix system other than macOS with something in the directory for temporary
/// files: what was left behind by an update is removed. The cleanup ends where something cannot
/// be read.
pub fn unix_entry_action(entry: Option<TempEntry<'_>>, now: i128) -> (action: EntryAction)
    ensures
        action == match entry {
            Some(entry) => if is_stale(
                entry.file_name@,
                entry.is_directory,
                entry.modified,
                now,
            ) {
                EntryAction::Remove
            } else {
                EntryAction::Leave
            },
            None => EntryAction::Stop,
        },
{
    match entry {
        Some(entry) => {
            if is_stale_installer_dir(entry.file_name, entry.is_directory, entry.modified, now) {
                EntryAction::Remove
            } else {
                EntryAction::Leave
            }
        },
        None => EntryAction::Stop,
    }
}

/// Whether the cleanup succeeded, if the directory for temporary files could be read: under macOS
/// it has to remove all that was left behind, on other systems it does not matter what could be
/// removed.
pub fn cleanup_stale_installer_dirs(os: &str, removed_all: Option<bool>) -> (succeeded: bool)
    ensures
        succeeded == match removed_all {
            Some(removed_all) => os@ == "macos"@ ==> removed_all,
            None => false,
        },
{
    match removed_all {
        Some(removed_all) => removed_all || !text::same_text(os, "macos"),
        None => false,
    }
}

/// How far the cleanup of a directory is.
#[derive(Clone, Copy, Debug, PartialEq, Eq, Structural)]
pub enum StaleStep {
    /// Waits for what the marker says.
    ReadingMarker,
    /// Waits for whether the process still runs that owns the directory.
    CheckingProcess { process_id: u32 },
    /// Waits for what the directory without a marker holds.
    CheckingLegacy,
    /// Waits for whether a disk image is attached in it.
    CheckingMount,
    /// Waits for the disk image to be detached.
    Detaching { legacy: bool },
    /// It could not be detached. Waits for whether it is still attached.
    CheckingDetached { legacy: bool },
    /// Waits for the directory to be removed.
    Removing,
    /// Nothing is left to do for this directory.
    Finished,
}

/// What happened outside.
#[derive(Debug)]
pub enum StaleEvent {
    /// The marker was read, or could not be.
    MarkerRead { contents: Option<Vec<u8>> },
    /// It is known whether the process runs, or it could not be found out.
    ProcessChecked { running: Option<bool> },
    /// It is known when the directory was modified, and what it holds.
    LegacyChecked {
        modified: Option<i128>,
        image_is_file: bool,
        app_is_directory: bool,
        mounted: bool,
    },
    /// It is known whether a disk image is attached.
    MountChecked { mounted: bool },
    /// What was asked for was done.
    Done,
    /// What was asked for could not be done.
    Failed,
}

/// The contents of a [`StaleEvent`].
#[verifier::ext_equal]
pub enum StaleEventView {
    MarkerRead { contents: Option<Seq<u8>> },
    ProcessChecked { running: Option<bool> },
    LegacyChecked {
        modified: Option<i128>,
        image_is_file: bool,
        app_is_directory: bool,
        mounted: bool,
    },
    MountChecked { mounted: bool },
    Done,
    Failed,
}

impl View for StaleEvent {
    type V = StaleEventView;

    open spec fn view(&self) -> StaleEventView {
        match *self {
            StaleEvent::MarkerRead { contents } => StaleEventView::MarkerRead {
                contents: match contents {
                    Some(contents) => Some(contents@),
                    None => None,
                },
            },
            StaleEvent::ProcessChecked { running } => StaleEventView::ProcessChecked { running },
            StaleEvent::LegacyChecked { modified, image_is_file, app_is_directory, mounted } =>
                StaleEventView::LegacyChecked {
                    modified,
                    image_is_file,
                    app_is_directory,
                    mounted,
                },
            StaleEvent::MountChecked { mounted } => StaleEventView::MountChecked { mounted },
            StaleEvent::Done => StaleEventView::Done,
            StaleEvent::Failed => StaleEventView::Failed,
        }
    }
}

/// What is to be done next.
#[derive(Clone, Copy, Debug, PartialEq, Eq, Structural)]
pub enum StaleAction {
    /// Read the marker.
    ReadMarker,
    /// Look whether a process runs.
    CheckProcess { process_id: u32 },
    /// Look what the directory holds.
    CheckLegacy,
    /// Look whether a disk image is attached.
    CheckMount,
    /// Detach the disk image.
    Detach,
    /// Remove the directory with all that it holds.
    Remove,
    /// Go on with what else there is.
    Next,
    /// Nothing: what happened does not concern the directory.
    Ignore,
}

/// The cleanup of a directory for temporary files.
#[derive(Debug)]
pub struct StaleCleanup {
    stale_before: i128,
    succeeded: bool,
    legacy: bool,
    path: Vec<u8>,
    step: StaleStep,
}

/// The contents of a [`StaleCleanup`].
#[verifier::ext_equal]
pub struct StaleView {
    pub stale_before: i128,
    /// Whether nothing had to be left that should have been removed.
    pub succeeded: bool,
    /// Whether the name is that of a directory without a marker.
    pub legacy: bool,
    pub path: Seq<u8>,
    pub step: StaleStep,
}

impl View for StaleCleanup {
    type V = StaleView;

    closed spec fn view(&self) -> StaleView {
        StaleView {
            stale_before: self.stale_before,
            succeeded: self.succeeded,
            legacy: self.legacy,
            path: self.path@,
            step: self.step,
        }
    }
}

impl StaleView {
    /// Nothing is left to do for this directory.
    pub open spec fn done(self) -> (StaleView, StaleAction) {
        (StaleView { step: StaleStep::Finished, ..self }, StaleAction::Next)
    }

    /// The directory has to be left.
    pub open spec fn left(self) -> (StaleView, StaleAction) {
        (
            StaleView { step: StaleStep::Finished, succeeded: false, ..self },
            StaleAction::Next,
        )
    }

    /// The next step and what is done in it.
    pub open spec fn going(self, step: StaleStep, action: StaleAction) -> (StaleView, StaleAction) {
        (StaleView { step, ..self }, action)
    }

    /// No marker names a process.
    pub open spec fn unmarked(self) -> (StaleView, StaleAction) {
        if self.legacy {
            self.going(StaleStep::CheckingLegacy, StaleAction::CheckLegacy)
        } else {
            self.done()
        }
    }

    /// Something in the directory for temporary files is looked at.
    pub open spec fn begun(self, path: Seq<u8>, file_name: Seq<u8>, is_directory: bool) -> (
        StaleView,
        StaleAction,
    ) {
        let entry = StaleView {
            path,
            legacy: name_starts(file_name, installer_dir::INSTALLER_DIR_PREFIX),
            ..self
        };
        if !is_directory {
            entry.done()
        } else if name_starts(file_name, installer_dir::MACOS_INSTALLER_DIR_PREFIX) {
            entry.going(StaleStep::ReadingMarker, StaleAction::ReadMarker)
        } else {
            entry.unmarked()
        }
    }

    /// What an event leads to.
    pub open spec fn next(self, event: StaleEventView) -> (StaleView, StaleAction) {
        match (self.step, event) {
            (StaleStep::ReadingMarker, StaleEventView::MarkerRead { contents }) => {
                let process_id = match contents {
                    Some(contents) => marker::marked_process(contents),
                    None => None,
                };
                match process_id {
                    Some(process_id) => {
                        let process_id = process_id as u32;
                        self.going(
                            StaleStep::CheckingProcess { process_id },
                            StaleAction::CheckProcess { process_id },
                        )
                    },
                    None => self.unmarked(),
                }
            },
            (
                StaleStep::CheckingProcess { .. },
                StaleEventView::ProcessChecked { running },
            ) => match running {
                Some(true) => self.done(),
                Some(false) => self.going(StaleStep::CheckingMount, StaleAction::CheckMount),
                None => self.left(),
            },
            (
                StaleStep::CheckingLegacy,
                StaleEventView::LegacyChecked { modified, image_is_file, app_is_directory, mounted },
            ) => if modified is Some && modified->0 <= self.stale_before && image_is_file
                && app_is_directory && mounted {
                self.going(StaleStep::Detaching { legacy: true }, StaleAction::Detach)
            } else {
                self.done()
            },
            (StaleStep::CheckingMount, StaleEventView::MountChecked { mounted }) => if mounted {
                self.going(StaleStep::Detaching { legacy: false }, StaleAction::Detach)
            } else {
                self.going(StaleStep::Removing, StaleAction::Remove)
            },
            (StaleStep::Detaching { .. }, StaleEventView::Done) => self.going(
                StaleStep::Removing,
                StaleAction::Remove,
            ),
            (StaleStep::Detaching { legacy }, StaleEventView::Failed) => self.going(
                StaleStep::CheckingDetached { legacy },
                StaleAction::CheckMount,
            ),
            (StaleStep::CheckingDetached { .. }, StaleEventView::MountChecked { mounted }) =>
                if mounted {
                    self.left()
                } else {
                    self.going(StaleStep::Removing, StaleAction::Remove)
                },
            (StaleStep::Removing, StaleEventView::Done) => self.done(),
            (StaleStep::Removing, StaleEventView::Failed) => self.left(),
            (_, _) => (self, StaleAction::Ignore),
        }
    }

    /// Where a disk image is attached in the directory: a directory without a marker has it
    /// elsewhere than one with a marker.
    pub open spec fn mount_path(self) -> Seq<u8> {
        let legacy = match self.step {
            StaleStep::CheckingLegacy => true,
            StaleStep::Detaching { legacy } => legacy,
            StaleStep::CheckingDetached { legacy } => legacy,
            _ => false,
        };
        os_path::joined(
            self.path,
            encode_utf8(
                if legacy {
                    "Rezed"@
                } else {
                    "mount"@
                },
            ),
        )
    }
}

impl StaleCleanup {
    /// A cleanup that has not begun. Directories without a marker are only removed where they
    /// were not modified after `stale_before`.
    pub fn new(stale_before: i128) -> (cleanup: StaleCleanup)
        ensures
            cleanup@ == (StaleView {
                stale_before,
                succeeded: true,
                legacy: false,
                path: seq![],
                step: StaleStep::Finished,
            }),
    {
        let cleanup = StaleCleanup {
            stale_before,
            succeeded: true,
            legacy: false,
            path: Vec::new(),
            step: StaleStep::Finished,
        };
        assert(cleanup.path@ =~= seq![]);
        cleanup
    }

    /// Whether nothing had to be left that should have been removed.
    pub fn succeeded(&self) -> (succeeded: bool)
        ensures
            succeeded == self@.succeeded,
    {
        self.succeeded
    }

    /// The directory that is looked at.
    pub fn path(&self) -> (path: &[u8])
        ensures
            path@ == self@.path,
    {
        self.path.as_slice()
    }

    /// Where its marker is.
    pub fn marker_path(&self) -> (path: Vec<u8>)
        ensures
            path@ == os_path::joined(self@.path, encode_utf8(marker::INSTALLER_MARKER_FILE@)),
    {
        os_path::join_text(self.path.as_slice(), marker::INSTALLER_MARKER_FILE)
    }

    /// Where the disk image is in a directory without a marker.
    pub fn image_path(&self) -> (path: Vec<u8>)
        ensures
            path@ == os_path::joined(self@.path, encode_utf8("Zed.dmg"@)),
    {
        os_path::join_text(self.path.as_slice(), "Zed.dmg")
    }

    /// Where the application is in a directory without a marker.
    pub fn app_path(&self) -> (path: Vec<u8>)
        ensures
            path@ == os_path::joined(
                os_path::joined(self@.path, encode_utf8("Rezed"@)),
                encode_utf8("Rezed.app"@),
            ),
    {
        let mount_path = os_path::join_text(self.path.as_slice(), "Rezed");
        os_path::join_text(mount_path.as_slice(), "Rezed.app")
    }

    /// Where a disk image is attached in the directory.
    pub fn mount_path(&self) -> (path: Vec<u8>)
        ensures
            path@ == self@.mount_path(),
    {
        let legacy = match self.step {
            StaleStep::CheckingLegacy => true,
            StaleStep::Detaching { legacy } => legacy,
            StaleStep::CheckingDetached { legacy } => legacy,
            _ => false,
        };
        if legacy {
            os_path::join_text(self.path.as_slice(), "Rezed")
        } else {
            os_path::join_text(self.path.as_slice(), "mount")
        }
    }

    /// Looks at something in the directory for temporary files.
    pub fn begin(&mut self, path: Vec<u8>, file_name: &[u8], is_directory: bool) -> (action:
        StaleAction)
        ensures
            (final(self)@, action) == old(self)@.begun(path@, file_name@, is_directory),
    {
        self.path = path;
        self.legacy =
        os_path::starts_with(file_name, installer_dir::INSTALLER_DIR_PREFIX.as_bytes());
        if !is_directory {
            self.step = StaleStep::Finished;
            StaleAction::Next
        } else if os_path::starts_with(
            file_name,
            installer_dir::MACOS_INSTALLER_DIR_PREFIX.as_bytes(),
        ) {
            self.step = StaleStep::ReadingMarker;
            StaleAction::ReadMarker
        } else {
            self.unmarked()
        }
    }

    /// Goes on with what happened, and says what is to be done next.
    pub fn advance(&mut self, event: StaleEvent) -> (action: StaleAction)
        ensures
            (final(self)@, action) == old(self)@.next(event@),
    {
        match (self.step, event) {
            (StaleStep::ReadingMarker, StaleEvent::MarkerRead { contents }) => {
                let process_id = match contents {
                    Some(contents) => marker::installer_marker_process_id(contents.as_slice()),
                    None => None,
                };
                match process_id {
                    Some(process_id) => {
                        self.step = StaleStep::CheckingProcess { process_id };
                        StaleAction::CheckProcess { process_id }
                    },
                    None => self.unmarked(),
                }
            },
            (StaleStep::CheckingProcess { .. }, StaleEvent::ProcessChecked { running }) => {
                match running {
                    Some(true) => self.finish(true),
                    Some(false) => {
                        self.step = StaleStep::CheckingMount;
                        StaleAction::CheckMount
                    },
                    None => self.finish(false),
                }
            },
            (
                StaleStep::CheckingLegacy,
                StaleEvent::LegacyChecked { modified, image_is_file, app_is_directory, mounted },
            ) => {
                let old_enough = match modified {
                    Some(modified) => modified <= self.stale_before,
                    None => false,
                };
                if old_enough && image_is_file && app_is_directory && mounted {
                    self.step = StaleStep::Detaching { legacy: true };
                    StaleAction::Detach
                } else {
                    self.finish(true)
                }
            },
            (StaleStep::CheckingMount, StaleEvent::MountChecked { mounted }) => {
                if mounted {
                    self.step = StaleStep::Detaching { legacy: false };
                    StaleAction::Detach
                } else {
                    self.remove()
                }
            },
            (StaleStep::Detaching { .. }, StaleEvent::Done) => self.remove(),
            (StaleStep::Detaching { legacy }, StaleEvent::Failed) => {
                self.step = StaleStep::CheckingDetached { legacy };
                StaleAction::CheckMount
            },
            (StaleStep::CheckingDetached { .. }, StaleEvent::MountChecked { mounted }) => {
                if mounted {
                    self.finish(false)
                } else {
                    self.remove()
                }
            },
            (StaleStep::Removing, StaleEvent::Done) => self.finish(true),
            (StaleStep::Removing, StaleEvent::Failed) => self.finish(false),
            (_, _) => StaleAction::Ignore,
        }
    }

    /// No marker names a process.
    fn unmarked(&mut self) -> (action: StaleAction)
        ensures
            (final(self)@, action) == old(self)@.unmarked(),
    {
        if self.legacy {
            self.step = StaleStep::CheckingLegacy;
            StaleAction::CheckLegacy
        } else {
            self.finish(true)
        }
    }

    /// The directory can be removed.
    fn remove(&mut self) -> (action: StaleAction)
        ensures
            (final(self)@, action) == old(self)@.going(StaleStep::Removing, StaleAction::Remove),
    {
        self.step = StaleStep::Removing;
        StaleAction::Remove
    }

    /// Nothing is left to do for this directory, or it has to be left.
    fn finish(&mut self, well: bool) -> (action: StaleAction)
        ensures
            (final(self)@, action) == if well {
                old(self)@.done()
            } else {
                old(self)@.left()
            },
    {
        if !well {
            self.succeeded = false;
        }
        self.step = StaleStep::Finished;
        StaleAction::Next
    }
}

/// All that can be asked about something in the directory for temporary files.
#[verifier::ext_equal]
pub struct StaleFacts {
    pub path: Seq<u8>,
    pub file_name: Seq<u8>,
    pub is_directory: bool,
    /// What the marker says, if it can be read.
    pub contents: Option<Seq<u8>>,
    /// Whether the process runs that the marker names, if that can be found out.
    pub running: Option<bool>,
    pub modified: Option<i128>,
    pub image_is_file: bool,
    pub app_is_directory: bool,
    /// Whether a disk image is attached where directories without a marker have it.
    pub legacy_mounted: bool,
    /// Whether a disk image is attached where directories with a marker have it.
    pub mounted: bool,
    /// Whether it can be detached.
    pub detaches: bool,
    /// Whether it is still attached where it cannot be detached.
    pub stays_mounted: bool,
    /// Whether the directory can be removed.
    pub removable: bool,
}

impl StaleFacts {
    /// The process that owns the directory.
    pub open spec fn owner(self) -> Option<nat> {
        if name_starts(self.file_name, installer_dir::MACOS_INSTALLER_DIR_PREFIX)
            && self.contents is Some {
            marker::marked_process(self.contents->0)
        } else {
            None
        }
    }

    /// Whether an earlier update left the directory behind: the process that owned it is gone,
    /// or there is no such process and it is old and looks like one of an old version.
    pub open spec fn left_behind(self, stale_before: i128) -> bool {
        self.is_directory && if self.owner() is Some {
            self.running == Some(false)
        } else {
            name_starts(self.file_name, installer_dir::INSTALLER_DIR_PREFIX)
                && self.modified is Some && self.modified->0 <= stale_before
                && self.image_is_file && self.app_is_directory && self.legacy_mounted
        }
    }

    /// Whether a disk image is attached in the directory and will not go.
    pub open spec fn stuck(self) -> bool {
        (self.owner() is Some ==> self.mounted) && !self.detaches && self.stays_mounted
    }

    /// Whether it cannot be found out if the owner is gone.
    pub open spec fn owner_unknown(self) -> bool {
        self.is_directory && self.owner() is Some && self.running is None
    }

    /// The answer to what is asked in a state.
    pub open spec fn answer(self, state: StaleView, action: StaleAction) -> StaleEventView {
        match action {
            StaleAction::ReadMarker => StaleEventView::MarkerRead { contents: self.contents },
            StaleAction::CheckProcess { .. } => StaleEventView::ProcessChecked {
                running: self.running,
            },
            StaleAction::CheckLegacy => StaleEventView::LegacyChecked {
                modified: self.modified,
                image_is_file: self.image_is_file,
                app_is_directory: self.app_is_directory,
                mounted: self.legacy_mounted,
            },
            StaleAction::CheckMount => StaleEventView::MountChecked {
                mounted: if state.step is CheckingMount {
                    self.mounted
                } else {
                    self.stays_mounted
                },
            },
            StaleAction::Detach => if self.detaches {
                StaleEventView::Done
            } else {
                StaleEventView::Failed
            },
            _ => if self.removable {
                StaleEventView::Done
            } else {
                StaleEventView::Failed
            },
        }
    }

    /// The states and actions that the answers lead to, up to a number of them.
    pub open spec fn driven(self, state: StaleView, action: StaleAction, steps: nat) -> Seq<
        (StaleView, StaleAction),
    >
        decreases steps,
    {
        if steps == 0 || action is Next {
            seq![(state, action)]
        } else {
            let (next_state, next_action) = state.next(self.answer(state, action));
            seq![(state, action)] + self.driven(next_state, next_action, (steps - 1) as nat)
        }
    }

    /// All that happens to the directory.
    pub open spec fn history(self, cleanup: StaleView) -> Seq<(StaleView, StaleAction)> {
        let (state, action) = cleanup.begun(self.path, self.file_name, self.is_directory);
        self.driven(state, action, 7)
    }

    /// Whether the directory is removed, or is tried to be.
    pub open spec fn removed(self, cleanup: StaleView) -> bool {
        exists|i: int|
            0 <= i < self.history(cleanup).len() && #[trigger] self.history(cleanup)[i].1
                is Remove
    }
}

/// A directory is removed if and only if an earlier update left it behind and no disk image is
/// stuck in it. The cleanup ends with every directory, and it has not succeeded if it had not
/// before, if the owner of a directory could not be determined, if a disk image was stuck in one
/// that should have been removed, or if it could not be removed.
#[verifier::rlimit(50)]
pub proof fn law_only_confirmed_directories_are_removed(cleanup: StaleView, facts: StaleFacts)
    ensures
        facts.removed(cleanup) <==> facts.left_behind(cleanup.stale_before) && !facts.stuck(),
        facts.history(cleanup).last().1 is Next,
        facts.history(cleanup).last().0.succeeded <==> cleanup.succeeded && !facts.owner_unknown()
            && (facts.left_behind(cleanup.stale_before) ==> !facts.stuck() && facts.removable),
{
    reveal_with_fuel(StaleFacts::driven, 8);
    let history = facts.history(cleanup);
    if facts.left_behind(cleanup.stale_before) && !facts.stuck() {
        let position: int = if facts.owner() is Some {
            if !facts.mounted {
                3
            } else if facts.detaches {
                4
            } else {
                5
            }
        } else if name_starts(facts.file_name, installer_dir::MACOS_INSTALLER_DIR_PREFIX) {
            if facts.detaches {
                3
            } else {
                4
            }
        } else if facts.detaches {
            2
        } else {
            3
        };
        assert(history[position].1 is Remove);
    }
}

/// A cleanup that has not succeeded does not succeed by what happens afterwards.
pub proof fn law_failed_cleanup_stays_failed(cleanup: StaleView, event: StaleEventView)
    requires
        !cleanup.succeeded,
    ensures
        !cleanup.next(event).0.succeeded,
{
}

/// A directory that was modified within the last day is never taken for left behind, nor is one
/// that was modified later than now.
pub proof fn law_recent_directory_is_kept(
    file_name: Seq<u8>,
    is_directory: bool,
    modified: i128,
    now: i128,
)
    requires
        now <= modified + 86_400_000_000_000,
    ensures
        !is_stale(file_name, is_directory, Some(modified), now),
{
}

/// Only the age of a directory matters, not the time at which it is looked at.
pub proof fn law_only_the_age_matters(
    file_name: Seq<u8>,
    is_directory: bool,
    modified: i128,
    now: i128,
    later_modified: i128,
    later_now: i128,
)
    requires
        later_modified - modified == later_now - now,
    ensures
        is_stale(file_name, is_directory, Some(later_modified), later_now) == is_stale(
            file_name,
            is_directory,
            Some(modified),
            now,
        ),
{
}

/// A directory with the name of one for updates that was not modified for more than a day is taken
/// for left behind, whatever follows in its name. Anything else is not: neither with another name,
/// nor what is no directory, nor where it is not known when it was modified.
pub proof fn law_old_directory_is_stale(
    rest: Seq<u8>,
    file_name: Seq<u8>,
    modified: i128,
    known: Option<i128>,
    now: i128,
)
    requires
        now > modified + 86_400_000_000_000,
    ensures
        is_stale(encode_utf8("zed-auto-update"@) + rest, true, Some(modified), now),
        !is_stale(file_name, false, known, now),
        !is_stale(file_name, true, None, now),
        is_stale(file_name, true, known, now) ==> file_name.len() >= encode_utf8(
            "zed-auto-update"@,
        ).len() && file_name.take(encode_utf8("zed-auto-update"@).len() as int) == encode_utf8(
            "zed-auto-update"@,
        ),
{
    let prefix = encode_utf8("zed-auto-update"@);
    let name = prefix + rest;
    assert(name.subrange(0, prefix.len() as int) =~= prefix);
    assert(prefix.is_prefix_of(name));
}

/// What is taken for left behind is still taken for left behind later.
pub proof fn law_stale_directory_stays_stale(
    file_name: Seq<u8>,
    is_directory: bool,
    modified: Option<i128>,
    now: i128,
    later: i128,
)
    requires
        now <= later,
        is_stale(file_name, is_directory, modified, now),
    ensures
        is_stale(file_name, is_directory, modified, later),
{
}

/// Under macOS only what is a directory, and has the name of one for updates, is looked at more
/// closely: one with a marker by its marker, one of an old version by what it holds.
pub proof fn law_only_names_of_updates_are_looked_at(
    cleanup: StaleView,
    path: Seq<u8>,
    file_name: Seq<u8>,
    is_directory: bool,
    rest: Seq<u8>,
)
    ensures
        cleanup.begun(path, encode_utf8("rezed-auto-update"@) + rest, true).1 is ReadMarker,
        cleanup.begun(path, file_name, false).1 is Next,
        !(cleanup.begun(path, file_name, is_directory).1 is Next) ==> is_directory && (encode_utf8(
            "rezed-auto-update"@,
        ).is_prefix_of(file_name) || encode_utf8("zed-auto-update"@).is_prefix_of(file_name)),
        is_directory && encode_utf8("zed-auto-update"@).is_prefix_of(file_name) ==> !(cleanup.begun(
            path,
            file_name,
            is_directory,
        ).1 is Next),
        cleanup.begun(path, file_name, is_directory).0.path == path,
        cleanup.begun(path, file_name, is_directory).0.succeeded == cleanup.succeeded,
        cleanup.begun(path, file_name, is_directory).0.stale_before == cleanup.stale_before,
{
    let prefix = encode_utf8("rezed-auto-update"@);
    let name = prefix + rest;
    assert(name.subrange(0, prefix.len() as int) =~= prefix);
    assert(prefix.is_prefix_of(name));
}

/// A disk image is looked for in the directory itself: in `mount` where the directory has a marker,
/// in `Rezed` where it is one of an old version.
pub proof fn law_mount_is_in_the_directory(state: StaleView, event: StaleEventView)
    ensures
        state.step is CheckingMount ==> state.mount_path() == os_path::joined(
            state.path,
            encode_utf8("mount"@),
        ),
        state.step is CheckingLegacy ==> state.mount_path() == os_path::joined(
            state.path,
            encode_utf8("Rezed"@),
        ),
        state.step is CheckingLegacy && state.next(event).0.step is Detaching ==> state.next(
            event,
        ).0.mount_path() == state.mount_path(),
        state.step is CheckingMount && state.next(event).0.step is Detaching ==> state.next(
            event,
        ).0.mount_path() == state.mount_path(),
        state.step is Detaching && state.next(event).0.step is CheckingDetached ==> state.next(
            event,
        ).0.mount_path() == state.mount_path(),
        state.next(event).0.path == state.path,
{
}

/// The process that is asked for is the one that the marker names; a marker that cannot be read, or
/// names none, counts as none.
pub proof fn law_owner_is_asked_for(state: StaleView, process_id: u32, contents: Seq<u8>)
    requires
        state.step is ReadingMarker,
    ensures
        state.next(
            StaleEventView::MarkerRead {
                contents: Some(encode_utf8(marker::marker_text(process_id as nat))),
            },
        ).1 == (StaleAction::CheckProcess { process_id }),
        marker::marked_process(contents) is None ==> state.next(
            StaleEventView::MarkerRead { contents: Some(contents) },
        ) == state.next(StaleEventView::MarkerRead { contents: None }),
        !state.legacy ==> state.next(StaleEventView::MarkerRead { contents: None }).1 is Next,
{
    marker::law_marker_names_its_process(process_id);
}

/// A directory whose owner runs is left, and so is one whose owner may run; only the latter counts
/// as a failure.
pub proof fn law_live_directory_is_left(state: StaleView, process_id: u32)
    requires
        state.step == (StaleStep::CheckingProcess { process_id }),
    ensures
        state.next(StaleEventView::ProcessChecked { running: Some(true) }).1 is Next,
        state.next(StaleEventView::ProcessChecked { running: Some(true) }).0.succeeded
            == state.succeeded,
        state.next(StaleEventView::ProcessChecked { running: None }).1 is Next,
        !state.next(StaleEventView::ProcessChecked { running: None }).0.succeeded,
        state.next(StaleEventView::ProcessChecked { running: Some(false) }).1 is CheckMount,
{
}

/// What does not answer what was asked changes nothing.
pub proof fn law_stale_cleanup_waits_for_its_answer(state: StaleView, event: StaleEventView)
    requires
        state.step is Finished || (state.step is ReadingMarker && !(event is MarkerRead)) || (
        state.step is CheckingProcess && !(event is ProcessChecked)) || (state.step
            is CheckingLegacy && !(event is LegacyChecked)) || ((state.step is CheckingMount
            || state.step is CheckingDetached) && !(event is MountChecked)) || ((state.step
            is Detaching || state.step is Removing) && !(event is Done) && !(event is Failed)),
    ensures
        state.next(event).0 == state,
        state.next(event).1 is Ignore,
{
}

/// What is found out about a directory counts as it is.
pub proof fn law_findings_count_as_they_are(
    contents: Vec<u8>,
    running: Option<bool>,
    modified: Option<i128>,
    image_is_file: bool,
    app_is_directory: bool,
    mounted: bool,
)
    ensures
        (StaleEvent::MarkerRead { contents: Some(contents) })@ == (StaleEventView::MarkerRead {
            contents: Some(contents@),
        }),
        (StaleEvent::MarkerRead { contents: None })@ == (StaleEventView::MarkerRead {
            contents: None,
        }),
        (StaleEvent::ProcessChecked { running })@ == (StaleEventView::ProcessChecked { running }),
        (StaleEvent::LegacyChecked { modified, image_is_file, app_is_directory, mounted })@ == (
        StaleEventView::LegacyChecked { modified, image_is_file, app_is_directory, mounted }),
        (StaleEvent::MountChecked { mounted })@ == (StaleEventView::MountChecked { mounted }),
        StaleEvent::Done@ is Done,
        StaleEvent::Failed@ is Failed,
{
}

} // verus!
