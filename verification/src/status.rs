//! How far an update is, and who asked for it.

use crate::text;
use crate::version::{Version, VersionView};
use vstd::prelude::*;
use vstd::std_specs::cmp::PartialEqSpec;
use vstd::string::*;

verus! {

/// Who asked whether there is an update.
#[derive(Clone, Copy, Debug, PartialEq, Eq, Structural)]
pub enum UpdateCheckType {
    Automatic,
    Manual,
}

impl UpdateCheckType {
    /// Whether the user asked.
    pub fn is_manual(self) -> (manual: bool)
        ensures
            manual == (self == UpdateCheckType::Manual),
    {
        self == UpdateCheckType::Manual
    }
}

/// How far an update is.
#[derive(Debug, Eq)]
pub enum AutoUpdateStatus {
    Idle,
    Checking,
    Downloading {
        version: Version,
        /// The bits of the fraction, a single-precision number from zero to one, that is
        /// downloaded, or `None` when the total download size is not yet known.
        progress: Option<u32>,
    },
    Installing { version: Version },
    Updated { version: Version },
    /// The update failed with an error that says this, because of these causes.
    Errored { error: String, causes: Vec<String> },
}

/// The contents of an [`AutoUpdateStatus`].
#[verifier::ext_equal]
pub enum StatusView {
    Idle,
    Checking,
    Downloading { version: VersionView, progress: Option<u32> },
    Installing { version: VersionView },
    Updated { version: VersionView },
    Errored { error: Seq<char>, causes: Seq<Seq<char>> },
}

impl View for AutoUpdateStatus {
    type V = StatusView;

    open spec fn view(&self) -> StatusView {
        match *self {
            AutoUpdateStatus::Idle => StatusView::Idle,
            AutoUpdateStatus::Checking => StatusView::Checking,
            AutoUpdateStatus::Downloading { version, progress } => StatusView::Downloading {
                version: version@,
                progress,
            },
            AutoUpdateStatus::Installing { version } => StatusView::Installing {
                version: version@,
            },
            AutoUpdateStatus::Updated { version } => StatusView::Updated { version: version@ },
            AutoUpdateStatus::Errored { error, causes } => StatusView::Errored {
                error: error@,
                causes: text::texts(causes@),
            },
        }
    }
}

impl StatusView {
    /// What statuses are compared by: neither how much is downloaded nor the causes of an error.
    pub open spec fn essence(self) -> StatusView {
        match self {
            StatusView::Downloading { version, progress } => StatusView::Downloading {
                version,
                progress: None,
            },
            StatusView::Errored { error, causes } => StatusView::Errored {
                error,
                causes: seq![],
            },
            other => other,
        }
    }
}

impl PartialEq for AutoUpdateStatus {
    fn eq(&self, other: &Self) -> (same: bool) {
        match (self, other) {
            (AutoUpdateStatus::Idle, AutoUpdateStatus::Idle) => true,
            (AutoUpdateStatus::Checking, AutoUpdateStatus::Checking) => true,
            (
                AutoUpdateStatus::Downloading { version: left, .. },
                AutoUpdateStatus::Downloading { version: right, .. },
            ) => *left == *right,
            (
                AutoUpdateStatus::Installing { version: left },
                AutoUpdateStatus::Installing { version: right },
            ) => *left == *right,
            (
                AutoUpdateStatus::Updated { version: left },
                AutoUpdateStatus::Updated { version: right },
            ) => *left == *right,
            (
                AutoUpdateStatus::Errored { error: left, .. },
                AutoUpdateStatus::Errored { error: right, .. },
            ) => *left == *right,
            _ => false,
        }
    }
}

impl vstd::std_specs::cmp::PartialEqSpecImpl for AutoUpdateStatus {
    open spec fn obeys_eq_spec() -> bool {
        true
    }

    /// How much is downloaded is deliberately left out: two downloads of the same version are
    /// equal however far they are. Two errors are equal if they say the same.
    open spec fn eq_spec(&self, other: &Self) -> bool {
        self@.essence() == other@.essence()
    }
}

impl Clone for AutoUpdateStatus {
    fn clone(&self) -> (copy: Self)
        ensures
            copy@ == self@,
    {
        match self {
            AutoUpdateStatus::Idle => AutoUpdateStatus::Idle,
            AutoUpdateStatus::Checking => AutoUpdateStatus::Checking,
            AutoUpdateStatus::Downloading { version, progress } => AutoUpdateStatus::Downloading {
                version: version.clone(),
                progress: *progress,
            },
            AutoUpdateStatus::Installing { version } => AutoUpdateStatus::Installing {
                version: version.clone(),
            },
            AutoUpdateStatus::Updated { version } => AutoUpdateStatus::Updated {
                version: version.clone(),
            },
            AutoUpdateStatus::Errored { error, causes } => AutoUpdateStatus::Errored {
                error: error.clone(),
                causes: text::copied(causes),
            },
        }
    }
}

impl AutoUpdateStatus {
    /// Whether an update is installed.
    pub fn is_updated(&self) -> (updated: bool)
        ensures
            updated == (self@ is Updated),
    {
        matches!(self, AutoUpdateStatus::Updated { .. })
    }
}

/// Statuses are equal to themselves, whichever way they are compared, and to what their equals are
/// equal to.
pub proof fn law_equality_of_statuses(
    first: AutoUpdateStatus,
    second: AutoUpdateStatus,
    third: AutoUpdateStatus,
)
    ensures
        first.eq_spec(&first),
        first.eq_spec(&second) == second.eq_spec(&first),
        first.eq_spec(&second) && second.eq_spec(&third) ==> first.eq_spec(&third),
{
}

/// Two downloads are equal if and only if they are of the same version, however far they are.
pub proof fn law_progress_does_not_matter(
    left: Version,
    left_progress: Option<u32>,
    right: Version,
    right_progress: Option<u32>,
)
    ensures
        (AutoUpdateStatus::Downloading { version: left, progress: left_progress }).eq_spec(
            &AutoUpdateStatus::Downloading { version: right, progress: right_progress },
        ) == (left@ == right@),
{
}

/// Two errors are equal if and only if they say the same, whatever led to them.
pub proof fn law_causes_do_not_matter(
    left: String,
    left_causes: Vec<String>,
    right: String,
    right_causes: Vec<String>,
)
    ensures
        (AutoUpdateStatus::Errored { error: left, causes: left_causes }).eq_spec(
            &AutoUpdateStatus::Errored { error: right, causes: right_causes },
        ) == (left@ == right@),
{
}

/// Statuses of different kinds are different, and so are those of the same kind with different
/// versions, or with errors that say different things; all others are equal.
pub proof fn law_equal_statuses_are_alike(left: AutoUpdateStatus, right: AutoUpdateStatus)
    ensures
        left.eq_spec(&right) <==> match (left, right) {
            (AutoUpdateStatus::Idle, AutoUpdateStatus::Idle) => true,
            (AutoUpdateStatus::Checking, AutoUpdateStatus::Checking) => true,
            (
                AutoUpdateStatus::Downloading { version: one, .. },
                AutoUpdateStatus::Downloading { version: other, .. },
            ) => one@ == other@,
            (
                AutoUpdateStatus::Installing { version: one },
                AutoUpdateStatus::Installing { version: other },
            ) => one@ == other@,
            (
                AutoUpdateStatus::Updated { version: one },
                AutoUpdateStatus::Updated { version: other },
            ) => one@ == other@,
            (
                AutoUpdateStatus::Errored { error: one, .. },
                AutoUpdateStatus::Errored { error: other, .. },
            ) => one@ == other@,
            _ => false,
        },
{
}

/// A status is shown with the version, the progress, and the error with its causes, that it has.
pub proof fn law_statuses_count_as_they_are(
    version: Version,
    progress: Option<u32>,
    error: String,
    causes: Vec<String>,
)
    ensures
        AutoUpdateStatus::Idle@ is Idle,
        AutoUpdateStatus::Checking@ is Checking,
        (AutoUpdateStatus::Downloading { version, progress })@ == (StatusView::Downloading {
            version: version@,
            progress,
        }),
        (AutoUpdateStatus::Installing { version })@ == (StatusView::Installing {
            version: version@,
        }),
        (AutoUpdateStatus::Updated { version })@ == (StatusView::Updated { version: version@ }),
        (AutoUpdateStatus::Errored { error, causes })@ == (StatusView::Errored {
            error: error@,
            causes: text::texts(causes@),
        }),
{
}

} // verus!
