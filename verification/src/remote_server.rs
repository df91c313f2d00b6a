//! Downloads the program that runs on remote machines.

use crate::cache;
use crate::cache::{CacheEntry, CacheView};
use crate::error::{ErrorView, UpdateError};
use crate::release;
use crate::release::{ReleaseAsset, ReleaseAssetView};
use crate::text;
use crate::updater::AutoUpdater;
use vstd::prelude::*;
use vstd::string::*;

verus! {

/// What is shown while the server is asked for the release.
pub const FETCHING_TEXT: &'static str = "Fetching remote server release";

/// What is shown while the release is downloaded.
pub const DOWNLOADING_TEXT: &'static str = "Downloading remote server";

/// How far a download is.
#[derive(Debug)]
pub enum RemoteStep {
    /// Waits for the server to describe the release.
    Fetching,
    /// Waits for whether the release is there already.
    LookingUp { url: String },
    /// Waits for the release to be downloaded.
    Downloading,
    /// Waits for older releases to be removed.
    CleaningUp,
    /// Nothing is left to do.
    Finished,
}

/// The contents of a [`RemoteStep`].
#[verifier::ext_equal]
pub enum RemoteStepView {
    Fetching,
    LookingUp { url: Seq<char> },
    Downloading,
    CleaningUp,
    Finished,
}

impl View for RemoteStep {
    type V = RemoteStepView;

    open spec fn view(&self) -> RemoteStepView {
        match *self {
            RemoteStep::Fetching => RemoteStepView::Fetching,
            RemoteStep::LookingUp { url } => RemoteStepView::LookingUp { url: url@ },
            RemoteStep::Downloading => RemoteStepView::Downloading,
            RemoteStep::CleaningUp => RemoteStepView::CleaningUp,
            RemoteStep::Finished => RemoteStepView::Finished,
        }
    }
}

/// What happened outside.
#[derive(Debug)]
pub enum RemoteEvent {
    /// The server described the release.
    Fetched { asset: ReleaseAsset },
    /// It is known whether the release is there already.
    LookedUp { present: bool },
    /// What was asked for was done.
    Done,
    /// What was asked for could not be done.
    Failed { error: UpdateError },
}

/// The contents of a [`RemoteEvent`].
#[verifier::ext_equal]
pub enum RemoteEventView {
    Fetched { asset: ReleaseAssetView },
    LookedUp { present: bool },
    Done,
    Failed { error: ErrorView },
}

impl View for RemoteEvent {
    type V = RemoteEventView;

    open spec fn view(&self) -> RemoteEventView {
        match *self {
            RemoteEvent::Fetched { asset } => RemoteEventView::Fetched { asset: asset@ },
            RemoteEvent::LookedUp { present } => RemoteEventView::LookedUp { present },
            RemoteEvent::Done => RemoteEventView::Done,
            RemoteEvent::Failed { error } => RemoteEventView::Failed { error: error@ },
        }
    }
}

/// What is to be done next.
#[derive(Debug)]
pub enum RemoteAction {
    /// Create the directory for the platform, which may fail, and look whether the release is
    /// there already.
    LookUp,
    /// Say what is done, and download the release.
    Download { url: String },
    /// Remove older releases.
    CleanUp,
    /// The release is there.
    Complete,
    /// The release is not there.
    Fail { error: UpdateError },
    /// Nothing: what happened does not concern the download.
    Ignore,
}

/// The contents of a [`RemoteAction`].
#[verifier::ext_equal]
pub enum RemoteActionView {
    LookUp,
    Download { url: Seq<char> },
    CleanUp,
    Complete,
    Fail { error: ErrorView },
    Ignore,
}

impl View for RemoteAction {
    type V = RemoteActionView;

    open spec fn view(&self) -> RemoteActionView {
        match *self {
            RemoteAction::LookUp => RemoteActionView::LookUp,
            RemoteAction::Download { url } => RemoteActionView::Download { url: url@ },
            RemoteAction::CleanUp => RemoteActionView::CleanUp,
            RemoteAction::Complete => RemoteActionView::Complete,
            RemoteAction::Fail { error } => RemoteActionView::Fail { error: error@ },
            RemoteAction::Ignore => RemoteActionView::Ignore,
        }
    }
}

/// A download of the remote server for a platform. It goes to a file in a directory for the
/// platform, which is in a directory for the release channel.
#[derive(Debug)]
pub struct RemoteServerDownload {
    channel_dir: String,
    platform_dir: String,
    file_name: String,
    step: RemoteStep,
}

/// The contents of a [`RemoteServerDownload`].
#[verifier::ext_equal]
pub struct RemoteServerView {
    pub channel_dir: Seq<char>,
    pub platform_dir: Seq<char>,
    /// The name of the file, once it is known.
    pub file_name: Seq<char>,
    pub step: RemoteStepView,
}

impl View for RemoteServerDownload {
    type V = RemoteServerView;

    closed spec fn view(&self) -> RemoteServerView {
        RemoteServerView {
            channel_dir: self.channel_dir@,
            platform_dir: self.platform_dir@,
            file_name: self.file_name@,
            step: self.step@,
        }
    }
}

impl RemoteServerView {
    /// What is shown to the user, if it changes.
    pub open spec fn status_text(self) -> Option<Seq<char>> {
        match self.step {
            RemoteStepView::Fetching => Some(FETCHING_TEXT@),
            RemoteStepView::Downloading => Some(DOWNLOADING_TEXT@),
            _ => None,
        }
    }

    /// The next step and what is done in it.
    pub open spec fn going(self, step: RemoteStepView, action: RemoteActionView) -> (
        RemoteServerView,
        RemoteActionView,
    ) {
        (RemoteServerView { step, ..self }, action)
    }

    /// What an event leads to. That older releases could not be removed does no harm.
    pub open spec fn next(self, event: RemoteEventView) -> (RemoteServerView, RemoteActionView) {
        match (self.step, event) {
            (RemoteStepView::Fetching, RemoteEventView::Fetched { asset }) => (
                RemoteServerView {
                    file_name: asset.version + ".gz"@,
                    step: RemoteStepView::LookingUp { url: asset.url },
                    ..self
                },
                RemoteActionView::LookUp,
            ),
            (RemoteStepView::LookingUp { url }, RemoteEventView::LookedUp { present }) =>
                if present {
                    self.going(RemoteStepView::CleaningUp, RemoteActionView::CleanUp)
                } else {
                    self.going(RemoteStepView::Downloading, RemoteActionView::Download { url })
                },
            (RemoteStepView::Downloading, RemoteEventView::Done) => self.going(
                RemoteStepView::CleaningUp,
                RemoteActionView::CleanUp,
            ),
            (RemoteStepView::CleaningUp, RemoteEventView::Done) => self.going(
                RemoteStepView::Finished,
                RemoteActionView::Complete,
            ),
            (RemoteStepView::CleaningUp, RemoteEventView::Failed { .. }) => self.going(
                RemoteStepView::Finished,
                RemoteActionView::Complete,
            ),
            (RemoteStepView::Fetching, RemoteEventView::Failed { error }) => self.going(
                RemoteStepView::Finished,
                RemoteActionView::Fail { error },
            ),
            (RemoteStepView::Downloading, RemoteEventView::Failed { error }) => self.going(
                RemoteStepView::Finished,
                RemoteActionView::Fail { error },
            ),
            (_, _) => (self, RemoteActionView::Ignore),
        }
    }
}

impl AutoUpdater {
    /// Begins to download the remote server. The first thing to do is to say so, and to ask the
    /// server for the release.
    pub fn download_remote_server_release(
        updater: Option<&AutoUpdater>,
        channel_name: &str,
        os: &str,
        arch: &str,
    ) -> (download: Result<RemoteServerDownload, UpdateError>)
        ensures
            match download {
                Ok(download) => updater is Some && download@ == (RemoteServerView {
                    channel_dir: channel_name@,
                    platform_dir: os@ + "-"@ + arch@,
                    file_name: ""@,
                    step: RemoteStepView::Fetching,
                }),
                Err(error) => updater is None && error@ == ErrorView::NotInitialized,
            },
    {
        if updater.is_none() {
            return Err(UpdateError::NotInitialized);
        }
        Ok(
            RemoteServerDownload {
                channel_dir: channel_name.to_string(),
                platform_dir: text::surrounded(os, "-", arch),
                file_name: "".to_string(),
                step: RemoteStep::Fetching,
            },
        )
    }

    /// Where the remote server can be downloaded, by what the server said of the release.
    pub fn get_remote_server_release_url(
        updater: Option<&AutoUpdater>,
        fetched: Result<ReleaseAsset, UpdateError>,
    ) -> (url: Result<Option<String>, UpdateError>)
        ensures
            match url {
                Ok(Some(url)) => updater is Some && fetched is Ok && url@ == fetched->Ok_0@.url,
                Ok(None) => false,
                Err(error) => if updater is None {
                    error@ == ErrorView::NotInitialized
                } else {
                    fetched is Err && error@ == fetched->Err_0@
                },
            },
    {
        if updater.is_none() {
            return Err(UpdateError::NotInitialized);
        }
        match fetched {
            Ok(asset) => Ok(Some(asset.url)),
            Err(error) => Err(error),
        }
    }
}

impl RemoteServerDownload {
    /// The name of the directory for the release channel, among those of the remote servers.
    pub fn channel_dir(&self) -> (name: &str)
        ensures
            name@ == self@.channel_dir,
    {
        self.channel_dir.as_str()
    }

    /// The name of the directory for the platform, in the one for the release channel.
    pub fn platform_dir(&self) -> (name: &str)
        ensures
            name@ == self@.platform_dir,
    {
        self.platform_dir.as_str()
    }

    /// The name of the file that the release is in, in the directory for the platform, once it is
    /// known.
    pub fn file_name(&self) -> (name: &str)
        ensures
            name@ == self@.file_name,
    {
        self.file_name.as_str()
    }

    /// What is shown to the user now, if it changes.
    pub fn status_text(&self) -> (text: Option<&'static str>)
        ensures
            text::optional_slice(text) == self@.status_text(),
    {
        match self.step {
            RemoteStep::Fetching => Some(FETCHING_TEXT),
            RemoteStep::Downloading => Some(DOWNLOADING_TEXT),
            _ => None,
        }
    }

    /// The names of the older releases to remove, by the files that are in the directory for the
    /// platform, and the name among them of the one that was asked for.
    pub fn older_releases(
        keep_name: Option<&[u8]>,
        entries: &[CacheEntry],
        now: i128,
    ) -> (names: Vec<Vec<u8>>)
        ensures
            names@.map_values(|name: Vec<u8>| name@) == (CacheView {
                keep_name: cache::optional_name(keep_name),
                now: now as int,
            }).removed(
                entries@.map_values(|entry: CacheEntry| entry@),
                cache::REMOTE_SERVER_CACHE_LIMIT as nat,
            ),
    {
        cache::cleanup_remote_server_cache(
            keep_name,
            entries,
            now,
            cache::REMOTE_SERVER_CACHE_LIMIT,
        )
    }

    /// Goes on with what happened, and says what is to be done next.
    pub fn advance(&mut self, event: RemoteEvent) -> (action: RemoteAction)
        ensures
            (final(self)@, action@) == old(self)@.next(event@),
    {
        let mut step = RemoteStep::Finished;
        std::mem::swap(&mut step, &mut self.step);
        match (step, event) {
            (RemoteStep::Fetching, RemoteEvent::Fetched { asset }) => {
                self.file_name = text::appended(asset.version.as_str(), ".gz");
                self.step = RemoteStep::LookingUp { url: asset.url };
                RemoteAction::LookUp
            },
            (RemoteStep::LookingUp { url }, RemoteEvent::LookedUp { present }) => {
                if present {
                    self.step = RemoteStep::CleaningUp;
                    RemoteAction::CleanUp
                } else {
                    self.step = RemoteStep::Downloading;
                    RemoteAction::Download { url }
                }
            },
            (RemoteStep::Downloading, RemoteEvent::Done) => {
                self.step = RemoteStep::CleaningUp;
                RemoteAction::CleanUp
            },
            (RemoteStep::CleaningUp, RemoteEvent::Done) => RemoteAction::Complete,
            (RemoteStep::CleaningUp, RemoteEvent::Failed { .. }) => RemoteAction::Complete,
            (RemoteStep::Fetching, RemoteEvent::Failed { error }) => RemoteAction::Fail { error },
            (RemoteStep::Downloading, RemoteEvent::Failed { error }) => RemoteAction::Fail {
                error,
            },
            (step, _) => {
                self.step = step;
                RemoteAction::Ignore
            },
        }
    }
}

/// A release that is there already is not downloaded again.
pub proof fn law_present_release_is_not_downloaded(
    download: RemoteServerView,
    url: Seq<char>,
)
    requires
        download.step == (RemoteStepView::LookingUp { url }),
    ensures
        download.next(RemoteEventView::LookedUp { present: true }).1 is CleanUp,
        download.next(RemoteEventView::LookedUp { present: false }).1 == (
        RemoteActionView::Download { url }),
{
}

/// A release that is there counts as downloaded though older ones could not be removed.
pub proof fn law_failed_cleanup_does_no_harm(download: RemoteServerView, error: ErrorView)
    requires
        download.step is CleaningUp,
    ensures
        download.next(RemoteEventView::Failed { error }) == download.next(RemoteEventView::Done),
        download.next(RemoteEventView::Done).1 is Complete,
        download.next(RemoteEventView::Done).0.file_name == download.file_name,
{
}

/// The file of a release is named after its whole version, so that releases with different
/// versions have different files; it does not matter where they are downloaded from.
pub proof fn law_file_is_named_after_the_version(
    download: RemoteServerView,
    left: ReleaseAssetView,
    right: ReleaseAssetView,
)
    requires
        download.step is Fetching,
    ensures
        ({
            let left_file = download.next(RemoteEventView::Fetched { asset: left }).0.file_name;
            let right_file = download.next(RemoteEventView::Fetched { asset: right }).0.file_name;
            &&& left_file.len() == left.version.len() + 3
            &&& left_file.take(left.version.len() as int) == left.version
            &&& left_file.skip(left.version.len() as int) == seq!['.', 'g', 'z']
            &&& (left_file == right_file) == (left.version == right.version)
        }),
{
    reveal_strlit(".gz");
    let left_file = download.next(RemoteEventView::Fetched { asset: left }).0.file_name;
    let right_file = download.next(RemoteEventView::Fetched { asset: right }).0.file_name;
    assert(left_file.take(left.version.len() as int) =~= left.version);
    assert(right_file.take(right.version.len() as int) =~= right.version);
    assert(left_file.skip(left.version.len() as int) =~= seq!['.', 'g', 'z']);
}

/// A release that is not there is downloaded from where the server said, in the directories that
/// the download began with; the file that is looked for is the one that is there in the end.
pub proof fn law_release_is_downloaded_from_where_it_is(
    download: RemoteServerView,
    asset: ReleaseAssetView,
)
    requires
        download.step is Fetching,
    ensures
        ({
            let (found, look_up) = download.next(RemoteEventView::Fetched { asset });
            let (missing, action) = found.next(RemoteEventView::LookedUp { present: false });
            let (downloaded, clean_up) = missing.next(RemoteEventView::Done);
            let (done, complete) = downloaded.next(RemoteEventView::Done);
            &&& look_up is LookUp
            &&& action == (RemoteActionView::Download { url: asset.url })
            &&& clean_up is CleanUp
            &&& complete is Complete
            &&& missing.file_name == found.file_name
            &&& downloaded.file_name == found.file_name
            &&& done.file_name == found.file_name
            &&& done.channel_dir == download.channel_dir
            &&& done.platform_dir == download.platform_dir
        }),
{
}

/// Where the server or the download fails, so does the whole, with the same error.
pub proof fn law_failed_download_is_told(download: RemoteServerView, error: ErrorView)
    requires
        download.step is Fetching || download.step is Downloading,
    ensures
        download.next(RemoteEventView::Failed { error }).1 == (RemoteActionView::Fail { error }),
        download.next(RemoteEventView::Failed { error }).0.step is Finished,
{
}

/// The user is told while the server is asked and while the release is downloaded, and what they
/// are told differs.
pub proof fn law_user_is_told_what_is_done(download: RemoteServerView)
    ensures
        download.status_text() is Some <==> download.step is Fetching || download.step
            is Downloading,
        download.step is Fetching ==> download.status_text() == Some(
            "Fetching remote server release"@,
        ),
        download.step is Downloading ==> download.status_text() == Some(
            "Downloading remote server"@,
        ),
{
}

/// What does not answer what was asked changes nothing.
pub proof fn law_download_waits_for_its_answer(download: RemoteServerView, event: RemoteEventView)
    requires
        download.step is Finished || (download.step is Fetching && !(event is Fetched) && !(event
            is Failed)) || (download.step is LookingUp && !(event is LookedUp)) || ((download.step
            is Downloading || download.step is CleaningUp) && !(event is Done) && !(event
            is Failed)),
    ensures
        download.next(event).0 == download,
        download.next(event).1 is Ignore,
{
}

/// What happens in a download counts as it is.
pub proof fn law_events_of_a_download_count_as_they_are(
    asset: ReleaseAsset,
    present: bool,
    error: UpdateError,
)
    ensures
        (RemoteEvent::Fetched { asset })@ == (RemoteEventView::Fetched { asset: asset@ }),
        (RemoteEvent::LookedUp { present })@ == (RemoteEventView::LookedUp { present }),
        RemoteEvent::Done@ is Done,
        (RemoteEvent::Failed { error })@ == (RemoteEventView::Failed { error: error@ }),
{
}

} // verus!
