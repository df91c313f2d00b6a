//! What can go wrong while the application updates itself.

use crate::text;
use vstd::prelude::*;
use vstd::string::*;
use vstd::utf8::*;

verus! {

/// How `text` looks between quotes, with escapes, as `{:?}` writes it.
pub uninterp spec fn debug_quoted(text: Seq<char>) -> Seq<char>;

/// What `bytes` look like as text where what is no UTF-8 is replaced.
pub uninterp spec fn utf8_lossy(bytes: Seq<u8>) -> Seq<char>;

/// The `Debug` format of a [`str`]: the text in quotes, with escapes.
#[verifier::external_body]
pub(crate) fn quoted(text: &str) -> (quoted: String)
    ensures
        quoted@ == debug_quoted(text@),
{
    format!("{:?}", text)
}

/// [`String::from_utf8_lossy`] decodes UTF-8, with replacement characters for what is none.
#[verifier::external_body]
pub(crate) fn lossy(bytes: &[u8]) -> (text: String)
    ensures
        text@ == utf8_lossy(bytes@),
        valid_utf8(bytes@) ==> text@ == decode_utf8(bytes@),
{
    String::from_utf8_lossy(bytes).into_owned()
}

/// A reason why an update, or a part of one, failed. The causes are what led to it, each with what
/// led to it behind it.
#[derive(Debug)]
pub enum UpdateError {
    /// A program that updates need is not installed, and the user can install it.
    MissingDependency { message: String },
    /// The rsync program is not installed.
    MissingRsync,
    /// The tag of a release does not start with a `v`.
    InvalidTag { tag: String },
    /// Releases hold nothing for Windows.
    NoWindowsAsset,
    /// There is no update for the operating system.
    UnsupportedOs { os: String },
    /// A release does not hold the asset that was looked for.
    MissingAsset { tag: String, asset_name: String },
    /// The server did not hand out the latest release.
    GithubReleaseRefused { body: Vec<u8> },
    /// What the server handed out is no release.
    GithubReleaseMalformed { body: Vec<u8>, cause: String },
    /// The server did not hand out an asset.
    ReleaseRefused { body: Vec<u8> },
    /// What the server handed out is no asset.
    ReleaseMalformed { body: Vec<u8>, cause: String },
    /// The version of a release is no version.
    InvalidVersion { message: String },
    /// The directory that an update is unpacked in could not be created.
    NoInstallerDir { causes: Vec<String> },
    /// The server did not hand out the update.
    DownloadRefused { status: u16 },
    /// The server did not hand out the remote server.
    RemoteServerRefused { status: u16 },
    /// The update could not be downloaded.
    DownloadFailed { target_path: Vec<u8>, causes: Vec<String> },
    /// The update could not be installed.
    InstallFailed { target_path: Vec<u8>, causes: Vec<String> },
    /// There is no updater yet.
    NotInitialized,
    /// The lock that keeps updates apart could not be opened.
    LockNotOpened { path: Vec<u8>, cause: String },
    /// Another update holds the lock.
    LockHeld,
    /// The lock could not be taken for another reason.
    LockNotAcquired { cause: String },
    /// The operating system or the network reported a failure.
    System { message: String, causes: Vec<String> },
}

/// The contents of an [`UpdateError`].
#[verifier::ext_equal]
pub enum ErrorView {
    MissingDependency { message: Seq<char> },
    MissingRsync,
    InvalidTag { tag: Seq<char> },
    NoWindowsAsset,
    UnsupportedOs { os: Seq<char> },
    MissingAsset { tag: Seq<char>, asset_name: Seq<char> },
    GithubReleaseRefused { body: Seq<u8> },
    GithubReleaseMalformed { body: Seq<u8>, cause: Seq<char> },
    ReleaseRefused { body: Seq<u8> },
    ReleaseMalformed { body: Seq<u8>, cause: Seq<char> },
    InvalidVersion { message: Seq<char> },
    NoInstallerDir { causes: Seq<Seq<char>> },
    DownloadRefused { status: u16 },
    RemoteServerRefused { status: u16 },
    DownloadFailed { target_path: Seq<u8>, causes: Seq<Seq<char>> },
    InstallFailed { target_path: Seq<u8>, causes: Seq<Seq<char>> },
    NotInitialized,
    LockNotOpened { path: Seq<u8>, cause: Seq<char> },
    LockHeld,
    LockNotAcquired { cause: Seq<char> },
    System { message: Seq<char>, causes: Seq<Seq<char>> },
}

impl View for UpdateError {
    type V = ErrorView;

    open spec fn view(&self) -> ErrorView {
        match *self {
            UpdateError::MissingDependency { message } => ErrorView::MissingDependency {
                message: message@,
            },
            UpdateError::MissingRsync => ErrorView::MissingRsync,
            UpdateError::InvalidTag { tag } => ErrorView::InvalidTag { tag: tag@ },
            UpdateError::NoWindowsAsset => ErrorView::NoWindowsAsset,
            UpdateError::UnsupportedOs { os } => ErrorView::UnsupportedOs { os: os@ },
            UpdateError::MissingAsset { tag, asset_name } => ErrorView::MissingAsset {
                tag: tag@,
                asset_name: asset_name@,
            },
            UpdateError::GithubReleaseRefused { body } => ErrorView::GithubReleaseRefused {
                body: body@,
            },
            UpdateError::GithubReleaseMalformed { body, cause } =>
                ErrorView::GithubReleaseMalformed { body: body@, cause: cause@ },
            UpdateError::ReleaseRefused { body } => ErrorView::ReleaseRefused { body: body@ },
            UpdateError::ReleaseMalformed { body, cause } => ErrorView::ReleaseMalformed {
                body: body@,
                cause: cause@,
            },
            UpdateError::InvalidVersion { message } => ErrorView::InvalidVersion {
                message: message@,
            },
            UpdateError::NoInstallerDir { causes } => ErrorView::NoInstallerDir {
                causes: text::texts(causes@),
            },
            UpdateError::DownloadRefused { status } => ErrorView::DownloadRefused { status },
            UpdateError::RemoteServerRefused { status } => ErrorView::RemoteServerRefused {
                status,
            },
            UpdateError::DownloadFailed { target_path, causes } => ErrorView::DownloadFailed {
                target_path: target_path@,
                causes: text::texts(causes@),
            },
            UpdateError::InstallFailed { target_path, causes } => ErrorView::InstallFailed {
                target_path: target_path@,
                causes: text::texts(causes@),
            },
            UpdateError::NotInitialized => ErrorView::NotInitialized,
            UpdateError::LockNotOpened { path, cause } => ErrorView::LockNotOpened {
                path: path@,
                cause: cause@,
            },
            UpdateError::LockHeld => ErrorView::LockHeld,
            UpdateError::LockNotAcquired { cause } => ErrorView::LockNotAcquired {
                cause: cause@,
            },
            UpdateError::System { message, causes } => ErrorView::System {
                message: message@,
                causes: text::texts(causes@),
            },
        }
    }
}

impl ErrorView {
    /// What the error says.
    pub open spec fn message(self) -> Seq<char> {
        match self {
            ErrorView::MissingDependency { message } => message,
            ErrorView::MissingRsync =>
                "Could not auto-update because the required rsync utility was not found."@,
            ErrorView::InvalidTag { tag } => "Rezed release tag "@ + debug_quoted(tag)
                + " must start with 'v'"@,
            ErrorView::NoWindowsAsset =>
                "Rezed GitHub releases do not publish a Windows app update asset yet"@,
            ErrorView::UnsupportedOs { os } => "not supported: "@ + os,
            ErrorView::MissingAsset { tag, asset_name } => "Rezed release "@ + tag
                + " does not include app update asset "@ + asset_name,
            ErrorView::GithubReleaseRefused { body } =>
                "failed to fetch Rezed GitHub release: "@ + debug_quoted(utf8_lossy(body)),
            ErrorView::GithubReleaseMalformed { body, .. } =>
                "error deserializing Rezed GitHub release "@ + debug_quoted(utf8_lossy(body)),
            ErrorView::ReleaseRefused { body } => "failed to fetch release: "@ + debug_quoted(
                utf8_lossy(body),
            ),
            ErrorView::ReleaseMalformed { body, .. } => "error deserializing release "@ + debug_quoted(
                utf8_lossy(body),
            ),
            ErrorView::InvalidVersion { message } => message,
            ErrorView::NoInstallerDir { .. } => "Failed to create installer dir"@,
            ErrorView::DownloadRefused { status } => "failed to download update: "@
                + text::decimal(status as nat),
            ErrorView::RemoteServerRefused { status } =>
                "failed to download remote server release: "@ + text::decimal(status as nat),
            ErrorView::DownloadFailed { target_path, .. } => "Failed to download update to "@
                + utf8_lossy(target_path),
            ErrorView::InstallFailed { target_path, .. } => "Failed to install update at: "@
                + utf8_lossy(target_path),
            ErrorView::NotInitialized => "auto-update not initialized"@,
            ErrorView::LockNotOpened { path, .. } => "failed to open Rezed update lock at "@
                + utf8_lossy(path),
            ErrorView::LockHeld => "another Rezed update is already in progress"@,
            ErrorView::LockNotAcquired { .. } => "failed to acquire Rezed update lock"@,
            ErrorView::System { message, .. } => message,
        }
    }

    /// What led to the error, each with what led to it behind it.
    pub open spec fn causes(self) -> Seq<Seq<char>> {
        match self {
            ErrorView::GithubReleaseMalformed { cause, .. } => seq![cause],
            ErrorView::ReleaseMalformed { cause, .. } => seq![cause],
            ErrorView::NoInstallerDir { causes } => causes,
            ErrorView::DownloadFailed { causes, .. } => causes,
            ErrorView::InstallFailed { causes, .. } => causes,
            ErrorView::LockNotOpened { cause, .. } => seq![cause],
            ErrorView::LockNotAcquired { cause } => seq![cause],
            ErrorView::System { causes, .. } => causes,
            _ => seq![],
        }
    }

    /// What the error says, and what led to it.
    pub open spec fn chain(self) -> Seq<Seq<char>> {
        seq![self.message()] + self.causes()
    }
}

impl UpdateError {
    /// What the error says.
    pub fn message(&self) -> (message: String)
        ensures
            message@ == self@.message(),
    {
        match self {
            UpdateError::MissingDependency { message } => message.clone(),
            UpdateError::MissingRsync =>
                "Could not auto-update because the required rsync utility was not found.".to_string(),
            UpdateError::InvalidTag { tag } => text::surrounded(
                "Rezed release tag ",
                quoted(tag.as_str()).as_str(),
                " must start with 'v'",
            ),
            UpdateError::NoWindowsAsset =>
                "Rezed GitHub releases do not publish a Windows app update asset yet".to_string(),
            UpdateError::UnsupportedOs { os } => text::appended("not supported: ", os.as_str()),
            UpdateError::MissingAsset { tag, asset_name } => text::appended(
                text::surrounded(
                    "Rezed release ",
                    tag.as_str(),
                    " does not include app update asset ",
                ).as_str(),
                asset_name.as_str(),
            ),
            UpdateError::GithubReleaseRefused { body } => text::appended(
                "failed to fetch Rezed GitHub release: ",
                quoted(lossy(body.as_slice()).as_str()).as_str(),
            ),
            UpdateError::GithubReleaseMalformed { body, .. } => text::appended(
                "error deserializing Rezed GitHub release ",
                quoted(lossy(body.as_slice()).as_str()).as_str(),
            ),
            UpdateError::ReleaseRefused { body } => text::appended(
                "failed to fetch release: ",
                quoted(lossy(body.as_slice()).as_str()).as_str(),
            ),
            UpdateError::ReleaseMalformed { body, .. } => text::appended(
                "error deserializing release ",
                quoted(lossy(body.as_slice()).as_str()).as_str(),
            ),
            UpdateError::InvalidVersion { message } => message.clone(),
            UpdateError::NoInstallerDir { .. } => "Failed to create installer dir".to_string(),
            UpdateError::DownloadRefused { status } => text::appended(
                "failed to download update: ",
                text::decimal_text(*status as u64).as_str(),
            ),
            UpdateError::RemoteServerRefused { status } => text::appended(
                "failed to download remote server release: ",
                text::decimal_text(*status as u64).as_str(),
            ),
            UpdateError::DownloadFailed { target_path, .. } => text::appended(
                "Failed to download update to ",
                lossy(target_path.as_slice()).as_str(),
            ),
            UpdateError::InstallFailed { target_path, .. } => text::appended(
                "Failed to install update at: ",
                lossy(target_path.as_slice()).as_str(),
            ),
            UpdateError::NotInitialized => "auto-update not initialized".to_string(),
            UpdateError::LockNotOpened { path, .. } => text::appended(
                "failed to open Rezed update lock at ",
                lossy(path.as_slice()).as_str(),
            ),
            UpdateError::LockHeld => "another Rezed update is already in progress".to_string(),
            UpdateError::LockNotAcquired { .. } => "failed to acquire Rezed update lock".to_string(),
            UpdateError::System { message, .. } => message.clone(),
        }
    }

    /// What led to the error, each with what led to it behind it.
    pub fn causes(&self) -> (causes: Vec<String>)
        ensures
            text::texts(causes@) == self@.causes(),
    {
        let mut single: Vec<String> = Vec::new();
        match self {
            UpdateError::NoInstallerDir { causes } => {
                return text::copied(causes);
            },
            UpdateError::DownloadFailed { causes, .. } => {
                return text::copied(causes);
            },
            UpdateError::InstallFailed { causes, .. } => {
                return text::copied(causes);
            },
            UpdateError::System { causes, .. } => {
                return text::copied(causes);
            },
            UpdateError::GithubReleaseMalformed { cause, .. } => single.push(cause.clone()),
            UpdateError::ReleaseMalformed { cause, .. } => single.push(cause.clone()),
            UpdateError::LockNotOpened { cause, .. } => single.push(cause.clone()),
            UpdateError::LockNotAcquired { cause } => single.push(cause.clone()),
            _ => {},
        }
        assert(text::texts(single@) =~= self@.causes());
        single
    }

    /// What the error says, and what led to it.
    pub fn chain(&self) -> (chain: Vec<String>)
        ensures
            text::texts(chain@) == self@.chain(),
    {
        let causes = self.causes();
        let mut chain: Vec<String> = Vec::new();
        chain.push(self.message());
        let mut i: usize = 0;
        assert(text::texts(chain@) =~= seq![self@.message()] + text::texts(causes@.take(0)));
        while i < causes.len()
            invariant
                i <= causes@.len(),
                text::texts(chain@) == seq![self@.message()] + text::texts(causes@.take(i as int)),
            decreases causes@.len() - i,
        {
            let ghost before = chain@;
            chain.push(causes[i].clone());
            assert(text::texts(chain@) =~= text::texts(before).push(causes@[i as int]@));
            assert(text::texts(causes@.take(i + 1)) =~= text::texts(causes@.take(i as int)).push(
                causes@[i as int]@,
            ));
            i += 1;
        }
        assert(causes@.take(i as int) =~= causes@);
        chain
    }

    /// Whether the user can mend the failure by installing a program.
    pub fn is_missing_dependency(&self) -> (missing: bool)
        ensures
            missing == (self@ is MissingDependency),
    {
        matches!(self, UpdateError::MissingDependency { .. })
    }
}

/// What an error says ends with what it is about: the name of the asset that is missing, the
/// operating system, what the server answered, or the path of a file; the asset that is missing is
/// told together with the tag of the release.
pub proof fn law_errors_say_what_they_are_about(
    tag: Seq<char>,
    name: Seq<char>,
    body: Seq<u8>,
    path: Seq<u8>,
    cause: Seq<char>,
    causes: Seq<Seq<char>>,
)
    ensures
        name.is_suffix_of((ErrorView::MissingAsset { tag, asset_name: name }).message()),
        exists|front: Seq<char>, back: Seq<char>|
            (ErrorView::MissingAsset { tag, asset_name: name }).message() == #[trigger] (front + tag
                + back),
        name.is_suffix_of((ErrorView::UnsupportedOs { os: name }).message()),
        debug_quoted(utf8_lossy(body)).is_suffix_of(
            (ErrorView::GithubReleaseRefused { body }).message(),
        ),
        debug_quoted(utf8_lossy(body)).is_suffix_of(
            (ErrorView::GithubReleaseMalformed { body, cause }).message(),
        ),
        debug_quoted(utf8_lossy(body)).is_suffix_of((ErrorView::ReleaseRefused { body }).message()),
        debug_quoted(utf8_lossy(body)).is_suffix_of(
            (ErrorView::ReleaseMalformed { body, cause }).message(),
        ),
        utf8_lossy(path).is_suffix_of(
            (ErrorView::DownloadFailed { target_path: path, causes }).message(),
        ),
        utf8_lossy(path).is_suffix_of(
            (ErrorView::InstallFailed { target_path: path, causes }).message(),
        ),
        utf8_lossy(path).is_suffix_of((ErrorView::LockNotOpened { path, cause }).message()),
{
    let first = "Rezed release "@;
    let second = " does not include app update asset "@;
    assert(first + tag + second + name =~= first + tag + (second + name));
    text::lemma_ends_with(first + tag + second, name);
    text::lemma_ends_with("not supported: "@, name);
    let quoted = debug_quoted(utf8_lossy(body));
    text::lemma_ends_with("failed to fetch Rezed GitHub release: "@, quoted);
    text::lemma_ends_with("error deserializing Rezed GitHub release "@, quoted);
    text::lemma_ends_with("failed to fetch release: "@, quoted);
    text::lemma_ends_with("error deserializing release "@, quoted);
    text::lemma_ends_with("Failed to download update to "@, utf8_lossy(path));
    text::lemma_ends_with("Failed to install update at: "@, utf8_lossy(path));
    text::lemma_ends_with("failed to open Rezed update lock at "@, utf8_lossy(path));
}

/// Errors about different HTTP statuses say different things.
pub proof fn law_errors_tell_the_status(left: u16, right: u16)
    ensures
        (ErrorView::DownloadRefused { status: left }).message() == (ErrorView::DownloadRefused {
            status: right,
        }).message() ==> left == right,
        (ErrorView::RemoteServerRefused { status: left }).message() == (
        ErrorView::RemoteServerRefused { status: right }).message() ==> left == right,
        text::decimal(left as nat).is_suffix_of(
            (ErrorView::DownloadRefused { status: left }).message(),
        ),
        text::decimal(left as nat).is_suffix_of(
            (ErrorView::RemoteServerRefused { status: left }).message(),
        ),
{
    let left_text = text::decimal(left as nat);
    let right_text = text::decimal(right as nat);
    let download = "failed to download update: "@;
    let remote = "failed to download remote server release: "@;
    text::law_numbers_look_different(left as nat, right as nat);
    text::lemma_ends_with(download, left_text);
    text::lemma_ends_with(remote, left_text);
    if download + left_text == download + right_text {
        assert(left_text =~= (download + left_text).skip(download.len() as int));
        assert(right_text =~= (download + right_text).skip(download.len() as int));
    }
    if remote + left_text == remote + right_text {
        assert(left_text =~= (remote + left_text).skip(remote.len() as int));
        assert(right_text =~= (remote + right_text).skip(remote.len() as int));
    }
}

/// What led to an error is told behind what the error says, all of it and in order.
pub proof fn law_causes_are_told(
    error: ErrorView,
    message: Seq<char>,
    path: Seq<u8>,
    cause: Seq<char>,
    causes: Seq<Seq<char>>,
)
    ensures
        error.chain().len() > 0,
        error.chain()[0] == error.message(),
        (ErrorView::System { message, causes }).chain() == seq![message] + causes,
        (ErrorView::NoInstallerDir { causes }).chain().skip(1) == causes,
        (ErrorView::DownloadFailed { target_path: path, causes }).chain().skip(1) == causes,
        (ErrorView::InstallFailed { target_path: path, causes }).chain().skip(1) == causes,
        (ErrorView::LockNotOpened { path, cause }).chain().skip(1) == seq![cause],
        (ErrorView::LockNotAcquired { cause }).chain().skip(1) == seq![cause],
        (ErrorView::GithubReleaseMalformed { body: path, cause }).chain().skip(1) == seq![cause],
        (ErrorView::ReleaseMalformed { body: path, cause }).chain().skip(1) == seq![cause],
        (ErrorView::MissingDependency { message }).chain() == seq![message],
        (ErrorView::InvalidVersion { message }).chain() == seq![message],
{
    assert((ErrorView::NoInstallerDir { causes }).chain().skip(1) =~= causes);
    assert((ErrorView::DownloadFailed { target_path: path, causes }).chain().skip(1) =~= causes);
    assert((ErrorView::InstallFailed { target_path: path, causes }).chain().skip(1) =~= causes);
    assert((ErrorView::LockNotOpened { path, cause }).chain().skip(1) =~= seq![cause]);
    assert((ErrorView::LockNotAcquired { cause }).chain().skip(1) =~= seq![cause]);
    assert((ErrorView::GithubReleaseMalformed { body: path, cause }).chain().skip(1) =~= seq![
        cause,
    ]);
    assert((ErrorView::ReleaseMalformed { body: path, cause }).chain().skip(1) =~= seq![cause]);
    assert((ErrorView::MissingDependency { message }).chain() =~= seq![message]);
    assert((ErrorView::InvalidVersion { message }).chain() =~= seq![message]);
}

} // verus!
