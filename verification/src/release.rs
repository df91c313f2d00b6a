//! Releases of the application: where they are found and what they hold.

use crate::error::{ErrorView, UpdateError};
use crate::text;
use crate::updater::AutoUpdater;
use crate::version;
use crate::version::{Version, VersionView};
use vstd::prelude::*;
use vstd::string::*;

verus! {

/// Where the releases are published.
pub const RELEASES_URL: &'static str = "https://github.com/nguyenphutrong/rezed/releases";

/// Where the latest release is described.
pub const LATEST_RELEASE_API_URL: &'static str =
    "https://api.github.com/repos/nguyenphutrong/rezed/releases/latest";

/// The asset that the remote server is published as.
pub const REMOTE_SERVER_ASSET: &'static str = "zed-remote-server";

/// How stable the releases are that the application is updated to.
#[derive(Clone, Copy, Debug, PartialEq, Eq, Structural)]
pub enum ReleaseChannel {
    Dev,
    Nightly,
    Preview,
    Stable,
}

/// A file that a version can be downloaded from.
#[derive(Debug)]
pub struct ReleaseAsset {
    pub version: String,
    pub url: String,
}

/// The contents of a [`ReleaseAsset`].
#[verifier::ext_equal]
pub struct ReleaseAssetView {
    pub version: Seq<char>,
    pub url: Seq<char>,
}

impl View for ReleaseAsset {
    type V = ReleaseAssetView;

    open spec fn view(&self) -> ReleaseAssetView {
        ReleaseAssetView { version: self.version@, url: self.url@ }
    }
}

impl Clone for ReleaseAsset {
    fn clone(&self) -> (copy: Self)
        ensures
            copy@ == self@,
    {
        ReleaseAsset { version: self.version.clone(), url: self.url.clone() }
    }
}

/// A release with the files that belong to it.
#[derive(Debug)]
pub struct GithubRelease {
    pub tag_name: String,
    pub assets: Vec<GithubReleaseAsset>,
}

/// A file of a release.
#[derive(Debug)]
pub struct GithubReleaseAsset {
    pub name: String,
    pub browser_download_url: String,
}

/// The contents of a [`GithubReleaseAsset`].
#[verifier::ext_equal]
pub struct GithubReleaseAssetView {
    pub name: Seq<char>,
    pub browser_download_url: Seq<char>,
}

/// The contents of a [`GithubRelease`].
#[verifier::ext_equal]
pub struct GithubReleaseView {
    pub tag_name: Seq<char>,
    pub assets: Seq<GithubReleaseAssetView>,
}

impl View for GithubReleaseAsset {
    type V = GithubReleaseAssetView;

    open spec fn view(&self) -> GithubReleaseAssetView {
        GithubReleaseAssetView {
            name: self.name@,
            browser_download_url: self.browser_download_url@,
        }
    }
}

impl View for GithubRelease {
    type V = GithubReleaseView;

    open spec fn view(&self) -> GithubReleaseView {
        GithubReleaseView {
            tag_name: self.tag_name@,
            assets: self.assets@.map_values(|asset: GithubReleaseAsset| asset@),
        }
    }
}

/// The name of the file that holds the application for an operating system and an architecture.
pub open spec fn app_asset_name(os: Seq<char>, arch: Seq<char>) -> Result<Seq<char>, ErrorView> {
    if os == "macos"@ {
        Ok("Rezed-"@ + arch + ".dmg"@)
    } else if os == "linux"@ {
        Ok("rezed-linux-"@ + arch + ".tar.gz"@)
    } else if os == "windows"@ {
        Err(ErrorView::NoWindowsAsset)
    } else {
        Err(ErrorView::UnsupportedOs { os })
    }
}

/// Where the first of `assets` that is called `name` can be downloaded, if there is one.
pub open spec fn url_of_first_named(
    assets: Seq<GithubReleaseAssetView>,
    name: Seq<char>,
) -> Option<Seq<char>>
    decreases assets.len(),
{
    if assets.len() == 0 {
        None
    } else if assets[0].name == name {
        Some(assets[0].browser_download_url)
    } else {
        url_of_first_named(assets.skip(1), name)
    }
}

/// The application as a release holds it for an operating system and an architecture.
pub open spec fn app_asset(
    release: GithubReleaseView,
    os: Seq<char>,
    arch: Seq<char>,
) -> Result<ReleaseAssetView, ErrorView> {
    if release.tag_name.len() == 0 || release.tag_name[0] != 'v' {
        Err(ErrorView::InvalidTag { tag: release.tag_name })
    } else {
        match app_asset_name(os, arch) {
            Err(error) => Err(error),
            Ok(asset_name) => match url_of_first_named(release.assets, asset_name) {
                Some(url) => Ok(ReleaseAssetView { version: release.tag_name.skip(1), url }),
                None => Err(ErrorView::MissingAsset { tag: release.tag_name, asset_name }),
            },
        }
    }
}

/// The contents of a result.
pub open spec fn asset_result(result: Result<ReleaseAsset, UpdateError>) -> Result<
    ReleaseAssetView,
    ErrorView,
> {
    match result {
        Ok(asset) => Ok(asset@),
        Err(error) => Err(error@),
    }
}

impl AutoUpdater {
    /// The name of the file that holds the application for an operating system and an
    /// architecture.
    pub fn github_app_asset_name(os: &str, arch: &str) -> (name: Result<String, UpdateError>)
        ensures
            match name {
                Ok(name) => app_asset_name(os@, arch@) == Ok::<Seq<char>, ErrorView>(name@),
                Err(error) => app_asset_name(os@, arch@) == Err::<Seq<char>, ErrorView>(error@),
            },
    {
        if text::same_text(os, "macos") {
            Ok(text::surrounded("Rezed-", arch, ".dmg"))
        } else if text::same_text(os, "linux") {
            Ok(text::surrounded("rezed-linux-", arch, ".tar.gz"))
        } else if text::same_text(os, "windows") {
            Err(UpdateError::NoWindowsAsset)
        } else {
            Err(UpdateError::UnsupportedOs { os: os.to_string() })
        }
    }

    /// The application as `release` holds it for an operating system and an architecture.
    pub fn release_asset_from_github_release(release: GithubRelease, os: &str, arch: &str) -> (asset:
        Result<ReleaseAsset, UpdateError>)
        ensures
            asset_result(asset) == app_asset(release@, os@, arch@),
    {
        let tag = release.tag_name.as_str();
        let tag_len = tag.unicode_len();
        if tag_len == 0 || tag.get_char(0) != 'v' {
            return Err(UpdateError::InvalidTag { tag: release.tag_name });
        }
        let version = tag.substring_char(1, tag_len).to_string();
        assert(version@ =~= release@.tag_name.skip(1));
        let asset_name = match Self::github_app_asset_name(os, arch) {
            Ok(asset_name) => asset_name,
            Err(error) => {
                return Err(error);
            },
        };
        let mut i: usize = 0;
        assert(release@.assets.skip(0) =~= release@.assets);
        while i < release.assets.len()
            invariant
                i <= release.assets@.len(),
                release@.assets.len() == release.assets@.len(),
                release.tag_name@.len() > 0,
                release.tag_name@[0] == 'v',
                version@ == release@.tag_name.skip(1),
                app_asset_name(os@, arch@) == Ok::<Seq<char>, ErrorView>(asset_name@),
                url_of_first_named(release@.assets.skip(i as int), asset_name@)
                    == url_of_first_named(release@.assets, asset_name@),
            decreases release.assets@.len() - i,
        {
            assert(release@.assets.skip(i as int)[0] == release.assets@[i as int]@);
            assert(release@.assets.skip(i as int).skip(1) =~= release@.assets.skip(i + 1));
            if release.assets[i].name == asset_name {
                return Ok(
                    ReleaseAsset { version, url: release.assets[i].browser_download_url.clone() },
                );
            }
            i += 1;
        }
        Err(UpdateError::MissingAsset { tag: release.tag_name, asset_name })
    }
}

/// Where the notes on the release that runs can be read. There are none where it is not known
/// which release that is.
pub open spec fn notes_url(channel: Option<ReleaseChannel>, current: Option<VersionView>) -> Option<
    Seq<char>,
> {
    match channel {
        None => None,
        Some(ReleaseChannel::Stable) | Some(ReleaseChannel::Preview) => match current {
            None => None,
            Some(version) => Some(
                RELEASES_URL@ + "/tag/v"@ + version.without_build().render(),
            ),
        },
        Some(ReleaseChannel::Nightly) => Some(
            "https://github.com/nguyenphutrong/rezed/commits/nightly/"@,
        ),
        Some(ReleaseChannel::Dev) => Some(
            "https://github.com/nguyenphutrong/rezed/commits/rezed/"@,
        ),
    }
}

/// Where the notes on the release that runs can be read.
pub fn release_notes_url(channel: Option<ReleaseChannel>, updater: Option<&AutoUpdater>) -> (url:
    Option<String>)
    ensures
        match url {
            Some(url) => notes_url(
                channel,
                match updater {
                    Some(updater) => Some(updater@.current_version),
                    None => None,
                },
            ) == Some(url@),
            None => notes_url(
                channel,
                match updater {
                    Some(updater) => Some(updater@.current_version),
                    None => None,
                },
            ) is None,
        },
{
    match channel {
        None => None,
        Some(ReleaseChannel::Stable) | Some(ReleaseChannel::Preview) => match updater {
            None => None,
            Some(updater) => {
                let version = updater.current_version().without_build();
                Some(text::surrounded(RELEASES_URL, "/tag/v", version.to_string().as_str()))
            },
        },
        Some(ReleaseChannel::Nightly) => Some(
            "https://github.com/nguyenphutrong/rezed/commits/nightly/".to_string(),
        ),
        Some(ReleaseChannel::Dev) => Some(
            "https://github.com/nguyenphutrong/rezed/commits/rezed/".to_string(),
        ),
    }
}

/// What is opened to show the notes on the release that runs.
pub fn view_release_notes(channel: Option<ReleaseChannel>, updater: Option<&AutoUpdater>) -> (url:
    Option<String>)
    ensures
        text::optional_text(url) == notes_url(
            channel,
            match updater {
                Some(updater) => Some(updater@.current_version),
                None => None,
            },
        ),
{
    release_notes_url(channel, updater)
}

/// What is sent along with the request for an asset.
#[derive(Debug)]
pub struct AssetQuery<'a> {
    pub asset: &'a str,
    pub os: &'a str,
    pub arch: &'a str,
    pub metrics_id: Option<&'a str>,
    pub system_id: Option<&'a str>,
    pub is_staff: Option<bool>,
}

/// What is known about the installation.
#[derive(Debug)]
pub struct Telemetry {
    /// Whether the user agreed that it is sent.
    pub metrics_enabled: bool,
    pub system_id: Option<String>,
    pub metrics_id: Option<String>,
    pub is_staff: Option<bool>,
}

fn as_slice_of(text: &Option<String>) -> (slice: Option<&str>)
    ensures
        text::optional_slice(slice) == text::optional_text(*text),
{
    match text {
        Some(text) => Some(text.as_str()),
        None => None,
    }
}

impl<'a> AssetQuery<'a> {
    /// Whether it is the query for an asset. It holds something about the installation only where
    /// the user agreed to that.
    pub open spec fn asks(
        self,
        asset: Seq<char>,
        os: Seq<char>,
        arch: Seq<char>,
        telemetry: Telemetry,
    ) -> bool {
        &&& self.asset@ == asset
        &&& self.os@ == os
        &&& self.arch@ == arch
        &&& text::optional_slice(self.metrics_id) == if telemetry.metrics_enabled {
            text::optional_text(telemetry.metrics_id)
        } else {
            None
        }
        &&& text::optional_slice(self.system_id) == if telemetry.metrics_enabled {
            text::optional_text(telemetry.system_id)
        } else {
            None
        }
        &&& self.is_staff == if telemetry.metrics_enabled {
            telemetry.is_staff
        } else {
            None
        }
    }

    /// The query for `asset`. It holds something about the installation only where the user
    /// agreed to that.
    pub fn new(asset: &'a str, os: &'a str, arch: &'a str, telemetry: &'a Telemetry) -> (query:
        AssetQuery<'a>)
        ensures
            query.asks(asset@, os@, arch@, *telemetry),
    {
        if telemetry.metrics_enabled {
            AssetQuery {
                asset,
                os,
                arch,
                metrics_id: as_slice_of(&telemetry.metrics_id),
                system_id: as_slice_of(&telemetry.system_id),
                is_staff: telemetry.is_staff,
            }
        } else {
            AssetQuery { asset, os, arch, metrics_id: None, system_id: None, is_staff: None }
        }
    }
}

/// The path under which the server hands out an asset of a version, or of the latest one.
pub open spec fn asset_path(channel_name: Seq<char>, version: Option<VersionView>) -> Seq<char> {
    "/releases/"@ + channel_name + "/"@ + match version {
        Some(version) => version.release().render(),
        None => "latest"@,
    } + "/asset"@
}

/// The path under which the server hands out an asset of `version`, or of the latest version.
/// Neither pre-release nor build metadata take part.
pub fn release_asset_path(channel_name: &str, version: Option<&Version>) -> (path: String)
    ensures
        path@ == asset_path(
            channel_name@,
            match version {
                Some(version) => Some(version@),
                None => None,
            },
        ),
{
    let label = match version {
        Some(version) => version.release().to_string(),
        None => "latest".to_string(),
    };
    let mut path = text::surrounded("/releases/", channel_name, "/");
    path.append(label.as_str());
    path.append("/asset");
    path
}

/// A request for an asset.
#[derive(Debug)]
pub struct AssetRequest<'a> {
    pub path: String,
    pub query: AssetQuery<'a>,
}

/// The request for the remote server of `version`, or of the latest version.
pub fn remote_server_request<'a>(
    channel_name: &str,
    version: Option<&Version>,
    os: &'a str,
    arch: &'a str,
    telemetry: &'a Telemetry,
) -> (request: AssetRequest<'a>)
    ensures
        request.path@ == asset_path(
            channel_name@,
            match version {
                Some(version) => Some(version@),
                None => None,
            },
        ),
        request.query.asks(REMOTE_SERVER_ASSET@, os@, arch@, *telemetry),
{
    AssetRequest {
        path: release_asset_path(channel_name, version),
        query: AssetQuery::new(REMOTE_SERVER_ASSET, os, arch, telemetry),
    }
}

/// Whether an HTTP status says that a request was served.
pub open spec fn success(status: u16) -> bool {
    200 <= status < 300
}

/// Whether an HTTP status says that a request was served.
pub fn is_success(status: u16) -> (served: bool)
    ensures
        served == success(status),
{
    200 <= status && status < 300
}

/// The description of the latest release as the server handed it out.
pub fn github_release_body(status: u16, body: Vec<u8>) -> (result: Result<Vec<u8>, UpdateError>)
    ensures
        match result {
            Ok(received) => success(status) && received@ == body@,
            Err(error) => !success(status) && error@ == (ErrorView::GithubReleaseRefused {
                body: body@,
            }),
        },
{
    if is_success(status) {
        Ok(body)
    } else {
        Err(UpdateError::GithubReleaseRefused { body })
    }
}

/// The description of an asset as the server handed it out.
pub fn release_asset_body(status: u16, body: Vec<u8>) -> (result: Result<Vec<u8>, UpdateError>)
    ensures
        match result {
            Ok(received) => success(status) && received@ == body@,
            Err(error) => !success(status) && error@ == (ErrorView::ReleaseRefused { body: body@ }),
        },
{
    if is_success(status) {
        Ok(body)
    } else {
        Err(UpdateError::ReleaseRefused { body })
    }
}

/// The asset that the server described, if it could be decoded, or else the reason why not.
pub fn decoded_release_asset(body: Vec<u8>, decoded: Result<ReleaseAsset, String>) -> (asset: Result<
    ReleaseAsset,
    UpdateError,
>)
    ensures
        asset_result(asset) == match decoded {
            Ok(decoded) => Ok(decoded@),
            Err(cause) => Err(ErrorView::ReleaseMalformed { body: body@, cause: cause@ }),
        },
{
    match decoded {
        Ok(decoded) => Ok(decoded),
        Err(cause) => Err(UpdateError::ReleaseMalformed { body, cause }),
    }
}

/// A release that is tagged with a version, and holds the application, is found as that version.
pub proof fn law_tagged_version_is_found(
    version: VersionView,
    assets: Seq<GithubReleaseAssetView>,
    os: Seq<char>,
    arch: Seq<char>,
)
    requires
        version.wf(),
    ensures
        app_asset(
            GithubReleaseView { tag_name: seq!['v'] + version.render(), assets },
            os,
            arch,
        ) matches Ok(asset) ==> version::parsed_version(asset.version) == Some(version),
{
    let tag_name = seq!['v'] + version.render();
    assert(tag_name.skip(1) =~= version.render());
    version::law_version_text_parses_back(version);
}

/// The application is found in a release if and only if its tag starts with a `v`, there is an
/// application for the operating system, and one of its assets has the right name. It is then the
/// first such asset, and its version is what follows the `v`.
pub proof fn law_first_asset_with_the_name_is_found(
    release: GithubReleaseView,
    os: Seq<char>,
    arch: Seq<char>,
    name: Seq<char>,
    index: int,
)
    requires
        os == "linux"@ && name == "rezed-linux-"@ + arch + ".tar.gz"@ || os == "macos"@ && name
            == "Rezed-"@ + arch + ".dmg"@,
        0 <= index <= release.assets.len(),
        forall|i: int| 0 <= i < index ==> (#[trigger] release.assets[i]).name != name,
        index < release.assets.len() ==> release.assets[index].name == name,
    ensures
        ({
            let found = app_asset(release, os, arch);
            &&& found is Ok <==> release.tag_name.len() > 0 && release.tag_name[0] == 'v' && index
                < release.assets.len()
            &&& found matches Ok(asset) ==> seq!['v'] + asset.version == release.tag_name
                && asset.url == release.assets[index].browser_download_url
            &&& release.tag_name.len() == 0 || release.tag_name[0] != 'v' ==> found == Err::<
                ReleaseAssetView,
                ErrorView,
            >(ErrorView::InvalidTag { tag: release.tag_name })
            &&& release.tag_name.len() > 0 && release.tag_name[0] == 'v' && index
                == release.assets.len() ==> found == Err::<ReleaseAssetView, ErrorView>(
                ErrorView::MissingAsset { tag: release.tag_name, asset_name: name },
            )
        }),
{
    lemma_systems_differ();
    lemma_first_named(release.assets, name, index);
    if release.tag_name.len() > 0 && release.tag_name[0] == 'v' {
        assert(seq!['v'] + release.tag_name.skip(1) =~= release.tag_name);
    }
}

/// The operating systems have different names.
proof fn lemma_systems_differ()
    ensures
        "linux"@ != "macos"@,
        "linux"@ != "windows"@,
        "macos"@ != "windows"@,
{
    reveal_strlit("linux");
    reveal_strlit("macos");
    reveal_strlit("windows");
    assert("linux"@[0] == 'l' && "macos"@[0] == 'm' && "windows"@[0] == 'w');
}

/// The first asset with a name is found.
proof fn lemma_first_named(assets: Seq<GithubReleaseAssetView>, name: Seq<char>, index: int)
    requires
        0 <= index <= assets.len(),
        forall|i: int| 0 <= i < index ==> (#[trigger] assets[i]).name != name,
        index < assets.len() ==> assets[index].name == name,
    ensures
        url_of_first_named(assets, name) == if index < assets.len() {
            Some(assets[index].browser_download_url)
        } else {
            None
        },
    decreases assets.len(),
{
    if assets.len() > 0 && index > 0 {
        assert(assets[0].name != name);
        assert forall|i: int| 0 <= i < index - 1 implies (#[trigger] assets.skip(1)[i]).name
            != name by {
            assert(assets.skip(1)[i] == assets[i + 1]);
        }
        lemma_first_named(assets.skip(1), name, index - 1);
    }
}

/// There is no application for Windows, nor for other systems than Linux and macOS, whatever a
/// release holds.
pub proof fn law_other_systems_have_no_application(
    release: GithubReleaseView,
    os: Seq<char>,
    arch: Seq<char>,
)
    requires
        os != "linux"@,
        os != "macos"@,
    ensures
        app_asset(release, os, arch) is Err,
        release.tag_name.len() > 0 && release.tag_name[0] == 'v' ==> app_asset(release, os, arch)
            == Err::<ReleaseAssetView, ErrorView>(
            if os == "windows"@ {
                ErrorView::NoWindowsAsset
            } else {
                ErrorView::UnsupportedOs { os }
            },
        ),
{
}

/// The notes on a release of the stable and the preview channel are those of its version, whatever
/// its build metadata; those of different versions are in different places. The other channels
/// have one place each, for all versions.
pub proof fn law_notes_go_by_the_version(
    left: VersionView,
    right: VersionView,
    build: Seq<char>,
    known: Option<VersionView>,
)
    requires
        left.wf(),
        right.wf(),
    ensures
        notes_url(Some(ReleaseChannel::Stable), Some(left)) is Some,
        left.without_build().render().is_suffix_of(
            notes_url(Some(ReleaseChannel::Stable), Some(left))->0,
        ),
        notes_url(Some(ReleaseChannel::Preview), known) == notes_url(
            Some(ReleaseChannel::Stable),
            known,
        ),
        notes_url(Some(ReleaseChannel::Stable), Some(VersionView { build, ..left })) == notes_url(
            Some(ReleaseChannel::Stable),
            Some(left),
        ),
        notes_url(Some(ReleaseChannel::Stable), Some(left)) == notes_url(
            Some(ReleaseChannel::Stable),
            Some(right),
        ) ==> left.without_build() == right.without_build(),
        notes_url(Some(ReleaseChannel::Stable), None) is None,
        notes_url(None, known) is None,
        notes_url(Some(ReleaseChannel::Nightly), known) == notes_url(
            Some(ReleaseChannel::Nightly),
            None,
        ),
        notes_url(Some(ReleaseChannel::Dev), known) == notes_url(Some(ReleaseChannel::Dev), None),
        notes_url(Some(ReleaseChannel::Nightly), None) is Some,
        notes_url(Some(ReleaseChannel::Dev), None) is Some,
{
    let front = RELEASES_URL@ + "/tag/v"@;
    let left_text = left.without_build().render();
    let right_text = right.without_build().render();
    text::lemma_ends_with(front, left_text);
    assert((VersionView { build, ..left }).without_build() == left.without_build());
    version::lemma_without_build_wf(left);
    version::lemma_without_build_wf(right);
    if front + left_text == front + right_text {
        assert(left_text =~= (front + left_text).skip(front.len() as int));
        assert(right_text =~= (front + right_text).skip(front.len() as int));
        version::law_version_text_is_unique(left.without_build(), right.without_build());
    }
}

/// An asset is asked for by the numbers of its version alone: neither pre-release nor build
/// metadata make a difference, but other numbers do. The latest one has a place of its own.
pub proof fn law_asset_goes_by_the_numbers(
    channel_name: Seq<char>,
    left: VersionView,
    right: VersionView,
    pre: Seq<char>,
    build: Seq<char>,
)
    requires
        left.wf(),
        right.wf(),
    ensures
        asset_path(channel_name, Some(VersionView { pre, build, ..left })) == asset_path(
            channel_name,
            Some(left),
        ),
        asset_path(channel_name, Some(left)) == asset_path(channel_name, Some(right)) ==> left.major
            == right.major && left.minor == right.minor && left.patch == right.patch,
        asset_path(channel_name, None) == "/releases/"@ + channel_name + "/latest/asset"@,
        ("/releases/"@ + channel_name + "/"@).is_prefix_of(asset_path(channel_name, Some(left))),
{
    let front = "/releases/"@ + channel_name + "/"@;
    let back = "/asset"@;
    let left_text = left.release().render();
    let right_text = right.release().render();
    assert((VersionView { pre, build, ..left }).release() == left.release());
    assert(asset_path(channel_name, Some(left)) =~= front + (left_text + back));
    text::lemma_starts_with(front, left_text + back);
    if asset_path(channel_name, Some(left)) == asset_path(channel_name, Some(right)) {
        let whole = asset_path(channel_name, Some(left));
        assert(left_text =~= whole.subrange(front.len() as int, whole.len() - back.len()));
        assert(right_text =~= whole.subrange(front.len() as int, whole.len() - back.len()));
        version::lemma_release_wf(left.release());
        version::lemma_release_wf(right.release());
        version::law_version_text_is_unique(left.release(), right.release());
    }
    reveal_strlit("/latest/asset");
    reveal_strlit("/");
    reveal_strlit("latest");
    reveal_strlit("/asset");
    assert("/"@ + "latest"@ + "/asset"@ =~= "/latest/asset"@);
    assert(asset_path(channel_name, None) =~= "/releases/"@ + channel_name + "/latest/asset"@);
}

/// A request was served if and only if the status is one of the two hundreds.
pub proof fn law_two_hundreds_are_success(status: u16)
    ensures
        success(status) == (status / 100 == 2),
{
}

/// Without consent nothing about the installation is sent; with consent all that is known is.
pub proof fn law_consent_decides(
    query: AssetQuery<'_>,
    asset: Seq<char>,
    os: Seq<char>,
    arch: Seq<char>,
    telemetry: Telemetry,
)
    requires
        query.asks(asset, os, arch, telemetry),
    ensures
        !telemetry.metrics_enabled ==> query.metrics_id is None && query.system_id is None
            && query.is_staff is None,
        telemetry.metrics_enabled ==> query.is_staff == telemetry.is_staff && (query.metrics_id
            is Some) == (telemetry.metrics_id is Some) && (query.system_id is Some) == (
        telemetry.system_id is Some),
        telemetry.metrics_enabled && telemetry.metrics_id is Some ==> query.metrics_id->0@
            == telemetry.metrics_id->0@,
        telemetry.metrics_enabled && telemetry.system_id is Some ==> query.system_id->0@
            == telemetry.system_id->0@,
        query.asset@ == asset && query.os@ == os && query.arch@ == arch,
{
}

/// Releases and assets count as they are.
pub proof fn law_releases_count_as_they_are(
    asset: ReleaseAsset,
    release: GithubRelease,
    error: UpdateError,
    index: int,
)
    requires
        0 <= index < release.assets@.len(),
    ensures
        asset@.version == asset.version@ && asset@.url == asset.url@,
        release@.tag_name == release.tag_name@,
        release@.assets.len() == release.assets@.len(),
        release@.assets[index].name == release.assets@[index].name@,
        release@.assets[index].browser_download_url
            == release.assets@[index].browser_download_url@,
        asset_result(Ok(asset)) == Ok::<ReleaseAssetView, ErrorView>(asset@),
        asset_result(Err(error)) == Err::<ReleaseAssetView, ErrorView>(error@),
{
}

} // verus!
