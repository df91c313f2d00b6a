//! The directory that an update is downloaded to.

use crate::marker;
use crate::os_path;
use crate::text;
use vstd::prelude::*;
use vstd::string::*;
use vstd::utf8::*;

verus! {

/// How the names of the directories start that hold updates for macOS.
pub const MACOS_INSTALLER_DIR_PREFIX: &'static str = "rezed-auto-update";

/// How the names of the directories start that hold updates for other Unix systems, and of those
/// that held updates for macOS once.
pub const INSTALLER_DIR_PREFIX: &'static str = "zed-auto-update";

/// The name of the directory that holds updates for Windows.
pub const WINDOWS_INSTALLER_DIR: &'static str = "updates";

/// How the name of the directory starts.
pub open spec fn dir_prefix(os: Seq<char>) -> Seq<char> {
    if os == "macos"@ {
        MACOS_INSTALLER_DIR_PREFIX@
    } else {
        INSTALLER_DIR_PREFIX@
    }
}

/// How the name of the directory starts.
pub fn installer_dir_prefix(os: &str) -> (prefix: &'static str)
    ensures
        prefix@ == dir_prefix(os@),
{
    if text::same_text(os, "macos") {
        MACOS_INSTALLER_DIR_PREFIX
    } else {
        INSTALLER_DIR_PREFIX
    }
}

/// A directory that was created for an update. Whoever owns it removes it when it is done.
#[derive(Debug)]
pub struct InstallerDir {
    path: Vec<u8>,
    owned: bool,
}

/// The contents of an [`InstallerDir`].
#[verifier::ext_equal]
pub struct InstallerDirView {
    pub path: Seq<u8>,
    pub owned: bool,
}

impl View for InstallerDir {
    type V = InstallerDirView;

    closed spec fn view(&self) -> InstallerDirView {
        InstallerDirView { path: self.path@, owned: self.owned }
    }
}

/// A file to write.
#[derive(Debug)]
pub struct FileToWrite {
    pub path: Vec<u8>,
    pub content: String,
}

impl InstallerDir {
    /// A directory that was just created.
    pub fn new(path: Vec<u8>) -> (dir: InstallerDir)
        ensures
            dir@ == (InstallerDirView { path: path@, owned: true }),
    {
        InstallerDir { path, owned: true }
    }

    /// The file that says which process owns the directory: macOS needs one.
    pub fn marker(&self, os: &str, process_id: u32) -> (marker: Option<FileToWrite>)
        ensures
            (marker is Some) == (os@ == "macos"@),
            marker matches Some(file) ==> file.path@ == os_path::joined(
                self@.path,
                encode_utf8(marker::INSTALLER_MARKER_FILE@),
            ) && file.content@ == marker::marker_text(process_id as nat),
    {
        if text::same_text(os, "macos") {
            Some(
                FileToWrite {
                    path: os_path::join_text(self.path.as_slice(), marker::INSTALLER_MARKER_FILE),
                    content: marker::installer_marker_content(process_id),
                },
            )
        } else {
            None
        }
    }

    /// Where the directory is.
    pub fn path(&self) -> (path: &[u8])
        ensures
            path@ == self@.path,
    {
        self.path.as_slice()
    }

    /// Leaves it to somebody else to remove the directory.
    pub fn keep_for_external_cleanup(&mut self)
        ensures
            final(self)@ == (InstallerDirView { owned: false, ..old(self)@ }),
    {
        self.owned = false;
    }

    /// Whether the directory has to be removed when it is no longer used.
    pub fn is_owned(&self) -> (owned: bool)
        ensures
            owned == self@.owned,
    {
        self.owned
    }
}

/// The directories for macOS have other names than those for other systems: neither kind of name
/// begins with the other.
pub proof fn law_directories_of_macos_are_told_apart(os: Seq<char>)
    ensures
        dir_prefix("macos"@) == "rezed-auto-update"@,
        os != "macos"@ ==> dir_prefix(os) == "zed-auto-update"@,
        !dir_prefix("macos"@).is_prefix_of("zed-auto-update"@),
        !"zed-auto-update"@.is_prefix_of(dir_prefix("macos"@)),
{
    reveal_strlit("rezed-auto-update");
    reveal_strlit("zed-auto-update");
    let mac = "rezed-auto-update"@;
    let other = "zed-auto-update"@;
    assert(mac[0] == 'r' && other[0] == 'z');
    if other.is_prefix_of(mac) {
        assert(mac.subrange(0, other.len() as int)[0] == mac[0]);
    }
}

} // verus!
