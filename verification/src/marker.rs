//! The file that marks a directory as one of the updater's, and says which process owns it.

use crate::text;
use vstd::prelude::*;
use vstd::string::*;
use vstd::utf8::*;

verus! {

/// The name of the file in a directory that belongs to the updater.
pub const INSTALLER_MARKER_FILE: &'static str = ".rezed-auto-update";

/// What stands in front of the number of the process in that file.
pub const INSTALLER_MARKER_PREFIX: &'static str = "nguyenphutrong/rezed auto updater pid=";

/// What the file says of a process.
pub open spec fn marker_text(process_id: nat) -> Seq<char> {
    INSTALLER_MARKER_PREFIX@ + text::decimal(process_id) + "\n"@
}

/// The process that a file's text names, if it names one: between the prefix and the line break
/// that ends the text.
pub open spec fn named_process(text: Seq<char>) -> Option<nat> {
    let prefix = INSTALLER_MARKER_PREFIX@;
    if prefix.is_prefix_of(text) && text.len() > prefix.len() && text.last() == '\n' {
        text::parsed_number(
            text.subrange(prefix.len() as int, text.len() - 1),
            u32::MAX as nat,
        )
    } else {
        None
    }
}

/// The process that a file names, if it names one.
pub open spec fn marked_process(contents: Seq<u8>) -> Option<nat> {
    if valid_utf8(contents) {
        named_process(decode_utf8(contents))
    } else {
        None
    }
}

/// What the file says of a process.
pub fn installer_marker_content(process_id: u32) -> (content: String)
    ensures
        content@ == marker_text(process_id as nat),
{
    let number = text::decimal_text(process_id as u64);
    text::surrounded(INSTALLER_MARKER_PREFIX, number.as_str(), "\n")
}

/// The process that a file names, if it names one.
pub fn installer_marker_process_id(contents: &[u8]) -> (process_id: Option<u32>)
    ensures
        match process_id {
            Some(process_id) => marked_process(contents@) == Some(process_id as nat),
            None => marked_process(contents@) is None,
        },
{
    let decoded = match text::decoded(contents) {
        Some(decoded) => decoded,
        None => {
            return None;
        },
    };
    proof {
        encode_utf8_decode_utf8(decoded@);
    }
    let chars = text::chars_of(decoded);
    let prefix = text::chars_of(INSTALLER_MARKER_PREFIX);
    if chars.len() <= prefix.len() || chars[chars.len() - 1] != '\n' {
        return None;
    }
    let start = vstd::slice::slice_subrange(chars.as_slice(), 0, prefix.len());
    if !text::same_chars(start, prefix.as_slice()) {
        return None;
    }
    let number = decoded.substring_char(prefix.len(), chars.len() - 1);
    match text::parse_number(number, u32::MAX as u64) {
        Some(number) => Some(number as u32),
        None => None,
    }
}

/// A file says which process it was written for.
pub proof fn law_marker_names_its_process(process_id: u32)
    ensures
        marked_process(encode_utf8(marker_text(process_id as nat))) == Some(process_id as nat),
{
    let prefix = INSTALLER_MARKER_PREFIX@;
    let number = text::decimal(process_id as nat);
    let marker = marker_text(process_id as nat);
    reveal_strlit("\n");
    encode_utf8_valid_utf8(marker);
    encode_utf8_decode_utf8(marker);
    text::law_decimal_parses_back(process_id as nat, u32::MAX as nat);
    assert(marker.take(prefix.len() as int) =~= prefix);
    assert(prefix.is_prefix_of(marker));
    assert(marker.last() == '\n');
    assert(marker.subrange(prefix.len() as int, marker.len() - 1) =~= number);
}

/// A file that names a process starts with the prefix and ends with a line break, and what is in
/// between is the number of that process and nothing else.
pub proof fn law_marker_holds_nothing_else(contents: Seq<u8>, process_id: nat)
    requires
        marked_process(contents) == Some(process_id),
    ensures
        valid_utf8(contents),
        process_id <= u32::MAX,
        exists|number: Seq<char>|
            contents == encode_utf8(
                "nguyenphutrong/rezed auto updater pid="@ + number + seq!['\n'],
            ) && #[trigger] text::parsed_number(number, u32::MAX as nat) == Some(process_id),
{
    let text = decode_utf8(contents);
    let prefix = INSTALLER_MARKER_PREFIX@;
    let number = text.subrange(prefix.len() as int, text.len() - 1);
    decode_utf8_encode_utf8(contents);
    assert(text.subrange(0, prefix.len() as int) == prefix);
    assert(text =~= prefix + number + seq!['\n']);
}

/// The files of different processes are different.
pub proof fn law_markers_differ(left: u32, right: u32)
    ensures
        marker_text(left as nat) == marker_text(right as nat) ==> left == right,
{
    law_marker_names_its_process(left);
    law_marker_names_its_process(right);
}

} // verus!
