//! The programs that an update needs.

use crate::error::{ErrorView, UpdateError};
use crate::text;
use vstd::prelude::*;
use vstd::string::*;

verus! {

/// Whether `ch` has the Unicode property `White_Space`.
pub open spec fn is_whitespace(ch: char) -> bool {
    ||| '\u{9}' <= ch <= '\u{d}'
    ||| ch == ' '
    ||| ch == '\u{85}'
    ||| ch == '\u{a0}'
    ||| ch == '\u{1680}'
    ||| '\u{2000}' <= ch <= '\u{200a}'
    ||| ch == '\u{2028}'
    ||| ch == '\u{2029}'
    ||| ch == '\u{202f}'
    ||| ch == '\u{205f}'
    ||| ch == '\u{3000}'
}

/// Characters that are stripped from the ends of a text.
#[derive(Clone, Copy, Debug, PartialEq, Eq, Structural)]
pub enum Strip {
    Whitespace,
    Quotes,
}

impl Strip {
    /// Whether `ch` is stripped.
    pub open spec fn covers(self, ch: char) -> bool {
        match self {
            Strip::Whitespace => is_whitespace(ch),
            Strip::Quotes => ch == '"',
        }
    }

    fn strips(self, ch: char) -> (strips: bool)
        ensures
            strips == self.covers(ch),
    {
        match self {
            Strip::Whitespace => {
                ('\u{9}' <= ch && ch <= '\u{d}') || ch == ' ' || ch == '\u{85}' || ch == '\u{a0}'
                    || ch == '\u{1680}' || ('\u{2000}' <= ch && ch <= '\u{200a}') || ch
                    == '\u{2028}' || ch == '\u{2029}' || ch == '\u{202f}' || ch == '\u{205f}' || ch
                    == '\u{3000}'
            },
            Strip::Quotes => ch == '"',
        }
    }
}

/// `text` without what is stripped from its start.
pub open spec fn stripped_start(text: Seq<char>, strip: Strip) -> Seq<char>
    decreases text.len(),
{
    if text.len() > 0 && strip.covers(text[0]) {
        stripped_start(text.skip(1), strip)
    } else {
        text
    }
}

/// `text` without what is stripped from its end.
pub open spec fn stripped_end(text: Seq<char>, strip: Strip) -> Seq<char>
    decreases text.len(),
{
    if text.len() > 0 && strip.covers(text.last()) {
        stripped_end(text.drop_last(), strip)
    } else {
        text
    }
}

/// `text` without what is stripped from both ends.
pub open spec fn stripped(text: Seq<char>, strip: Strip) -> Seq<char> {
    stripped_end(stripped_start(text, strip), strip)
}

/// The longest run of characters at the start of `text` that are no whitespace.
pub open spec fn first_word(text: Seq<char>) -> Seq<char>
    decreases text.len(),
{
    if text.len() == 0 || is_whitespace(text[0]) {
        seq![]
    } else {
        seq![text[0]] + first_word(text.skip(1))
    }
}

/// The runs of characters of `text` that are no whitespace.
pub open spec fn words(text: Seq<char>) -> Seq<Seq<char>>
    decreases text.len(),
{
    if text.len() == 0 {
        seq![]
    } else if is_whitespace(text[0]) {
        words(text.skip(1))
    } else {
        let word = first_word(text);
        proof {
            lemma_first_word_len(text);
        }
        seq![word] + words(text.skip(word.len() as int))
    }
}

/// A word is no longer than the text that it starts.
pub proof fn lemma_first_word_len(text: Seq<char>)
    ensures
        first_word(text).len() <= text.len(),
    decreases text.len(),
{
    if text.len() > 0 && !is_whitespace(text[0]) {
        lemma_first_word_len(text.skip(1));
    }
}

/// `ch` in lower case, where it is an ASCII letter.
pub open spec fn lower_char(ch: char) -> char {
    if 'A' <= ch <= 'Z' {
        ((ch as u32 + 32) as u32) as char
    } else {
        ch
    }
}

/// `text` with its ASCII letters in lower case.
pub open spec fn lower(text: Seq<char>) -> Seq<char> {
    text.map_values(|ch: char| lower_char(ch))
}

/// The distributions that a line of an os-release file names: the one that it describes, or those
/// that it is similar to.
pub open spec fn line_ids(line: Seq<char>) -> Seq<Seq<char>> {
    let line = stripped(line, Strip::Whitespace);
    if "ID="@.is_prefix_of(line) {
        seq![lower(stripped(line.skip("ID="@.len() as int), Strip::Quotes))]
    } else if "ID_LIKE="@.is_prefix_of(line) {
        words(stripped(line.skip("ID_LIKE="@.len() as int), Strip::Quotes)).map_values(
            |word: Seq<char>| lower(word),
        )
    } else {
        seq![]
    }
}

/// The distributions that the lines of an os-release file name.
pub open spec fn lines_ids(lines: Seq<Seq<char>>) -> Seq<Seq<char>>
    decreases lines.len(),
{
    if lines.len() == 0 {
        seq![]
    } else {
        lines_ids(lines.drop_last()) + line_ids(lines.last())
    }
}

/// The distributions that an os-release file names.
pub open spec fn distribution_ids(os_release: Seq<char>) -> Seq<Seq<char>> {
    lines_ids(text::split(os_release, '\n'))
}

/// How rsync is installed on a system that is, or is similar to, some distributions.
pub open spec fn hint_for(ids: Seq<Seq<char>>) -> Seq<char> {
    if ids.contains("arch"@) {
        "Install it with: sudo pacman -S rsync"@
    } else if ids.contains("debian"@) || ids.contains("ubuntu"@) {
        "Install it with: sudo apt install rsync"@
    } else if ids.contains("fedora"@) || ids.contains("rhel"@) || ids.contains("centos"@)
        || ids.contains("rocky"@) || ids.contains("almalinux"@) {
        "Install it with: sudo dnf install rsync"@
    } else if ids.contains("nixos"@) {
        "Install pkgs.rsync from nixpkgs"@
    } else {
        "Please install rsync using your package manager"@
    }
}

/// How rsync is installed on the system that an os-release file describes.
pub open spec fn install_hint(os_release: Option<Seq<char>>) -> Seq<char> {
    match os_release {
        Some(os_release) => hint_for(distribution_ids(os_release)),
        None => "Please install rsync using your package manager"@,
    }
}

/// Whether an update can be installed, and what is wrong where it cannot.
pub open spec fn dependency_error(
    os: Seq<char>,
    rsync_found: bool,
    os_release: Option<Seq<char>>,
) -> Option<ErrorView> {
    if rsync_found {
        None
    } else if os == "linux"@ {
        Some(
            ErrorView::MissingDependency {
                message: "rsync is required for auto-updates but is not installed. "@
                    + install_hint(os_release),
            },
        )
    } else if os == "macos"@ {
        Some(ErrorView::MissingRsync)
    } else {
        None
    }
}

/// The part of `chars` that is left when both ends are stripped.
fn strip_both(chars: &[char], strip: Strip) -> (rest: &[char])
    ensures
        rest@ == stripped(chars@, strip),
{
    let mut start: usize = 0;
    assert(chars@.skip(0) =~= chars@);
    while start < chars.len() && strip.strips(chars[start])
        invariant
            start <= chars@.len(),
            stripped_start(chars@, strip) == stripped_start(chars@.skip(start as int), strip),
        decreases chars@.len() - start,
    {
        assert(chars@.skip(start as int).skip(1) =~= chars@.skip(start + 1));
        start += 1;
    }
    let ghost tail = chars@.skip(start as int);
    assert(stripped_start(chars@, strip) == tail);
    let mut end: usize = chars.len();
    assert(chars@.subrange(start as int, end as int) =~= tail);
    while end > start && strip.strips(chars[end - 1])
        invariant
            start <= end <= chars@.len(),
            stripped_end(tail, strip) == stripped_end(
                chars@.subrange(start as int, end as int),
                strip,
            ),
        decreases end,
    {
        assert(chars@.subrange(start as int, end as int).drop_last() =~= chars@.subrange(
            start as int,
            end - 1,
        ));
        end -= 1;
    }
    vstd::slice::slice_subrange(chars, start, end)
}

/// `chars` with the ASCII letters in lower case.
fn lower_chars(chars: &[char]) -> (lowered: Vec<char>)
    ensures
        lowered@ == lower(chars@),
{
    let mut lowered: Vec<char> = Vec::new();
    let mut i: usize = 0;
    while i < chars.len()
        invariant
            i <= chars@.len(),
            lowered@ == lower(chars@.take(i as int)),
        decreases chars@.len() - i,
    {
        let ch = chars[i];
        if 'A' <= ch && ch <= 'Z' {
            lowered.push((ch as u8 + 32) as char);
        } else {
            lowered.push(ch);
        }
        assert(lowered@ =~= lower(chars@.take(i + 1)));
        i += 1;
    }
    assert(chars@.take(i as int) =~= chars@);
    lowered
}

/// The texts that some character sequences spell.
spec fn texts(sequences: Seq<Vec<char>>) -> Seq<Seq<char>> {
    sequences.map_values(|chars: Vec<char>| chars@)
}

/// Some texts in lower case.
spec fn all_lower(texts: Seq<Seq<char>>) -> Seq<Seq<char>> {
    texts.map_values(|word: Seq<char>| lower(word))
}

/// Appends the words of `chars`, in lower case, to `ids`.
fn push_words(chars: &[char], ids: &mut Vec<Vec<char>>)
    ensures
        texts(final(ids)@) == texts(old(ids)@) + all_lower(words(chars@)),
{
    let mut i: usize = 0;
    assert(chars@.skip(0) =~= chars@);
    while i < chars.len()
        invariant
            i <= chars@.len(),
            texts(ids@) + all_lower(words(chars@.skip(i as int))) == texts(old(ids)@) + all_lower(
                words(chars@),
            ),
        decreases chars@.len() - i,
    {
        let ghost rest = chars@.skip(i as int);
        if Strip::Whitespace.strips(chars[i]) {
            assert(rest.skip(1) =~= chars@.skip(i + 1));
            i += 1;
        } else {
            let mut end: usize = i + 1;
            assert(rest.skip(1) =~= chars@.skip(i + 1));
            assert(first_word(rest) =~= chars@.subrange(i as int, end as int) + first_word(
                chars@.skip(end as int),
            ));
            while end < chars.len() && !Strip::Whitespace.strips(chars[end])
                invariant
                    i < end <= chars@.len(),
                    first_word(rest) == chars@.subrange(i as int, end as int) + first_word(
                        chars@.skip(end as int),
                    ),
                decreases chars@.len() - end,
            {
                assert(chars@.skip(end as int).skip(1) =~= chars@.skip(end + 1));
                assert(first_word(rest) =~= chars@.subrange(i as int, end + 1) + first_word(
                    chars@.skip(end + 1),
                ));
                end += 1;
            }
            let word = vstd::slice::slice_subrange(chars, i, end);
            let ghost before = ids@;
            ids.push(lower_chars(word));
            proof {
                assert(first_word(rest) =~= word@);
                assert(rest.skip(word@.len() as int) =~= chars@.skip(end as int));
                assert(words(rest) == seq![word@] + words(chars@.skip(end as int)));
                assert(texts(ids@) + all_lower(words(chars@.skip(end as int))) =~= texts(before)
                    + all_lower(words(rest)));
            }
            i = end;
        }
    }
    assert(texts(ids@) + all_lower(words(chars@.skip(i as int))) =~= texts(ids@));
}

/// What follows `prefix` in `chars`, where `chars` start with it.
fn after_prefix<'a>(chars: &'a [char], prefix: &str) -> (rest: Option<&'a [char]>)
    ensures
        match rest {
            Some(rest) => prefix@.is_prefix_of(chars@) && rest@ == chars@.skip(
                prefix@.len() as int,
            ),
            None => !prefix@.is_prefix_of(chars@),
        },
{
    let prefix_chars = text::chars_of(prefix);
    if chars.len() < prefix_chars.len() {
        return None;
    }
    let front = vstd::slice::slice_subrange(chars, 0, prefix_chars.len());
    if text::same_chars(front, prefix_chars.as_slice()) {
        assert(chars@.skip(prefix@.len() as int) =~= chars@.subrange(
            prefix@.len() as int,
            chars@.len() as int,
        ));
        Some(vstd::slice::slice_subrange(chars, prefix_chars.len(), chars.len()))
    } else {
        None
    }
}

/// Appends the distributions that `line` names to `ids`.
fn push_line_ids(line: &[char], ids: &mut Vec<Vec<char>>)
    ensures
        texts(final(ids)@) == texts(old(ids)@) + line_ids(line@),
{
    let line = strip_both(line, Strip::Whitespace);
    if let Some(value) = after_prefix(line, "ID=") {
        let id = strip_both(value, Strip::Quotes);
        ids.push(lower_chars(id));
        assert(texts(ids@) =~= texts(old(ids)@) + seq![lower(id@)]);
    } else if let Some(value) = after_prefix(line, "ID_LIKE=") {
        let names = strip_both(value, Strip::Quotes);
        push_words(names, ids);
    } else {
        assert(texts(ids@) + seq![] =~= texts(ids@));
    }
}

/// The distributions that an os-release file names.
fn collect_ids(os_release: &str) -> (ids: Vec<Vec<char>>)
    ensures
        texts(ids@) == distribution_ids(os_release@),
{
    let chars = text::chars_of(os_release);
    let mut ids: Vec<Vec<char>> = Vec::new();
    let mut start: usize = 0;
    let mut i: usize = 0;
    let ghost mut lines: Seq<Seq<char>> = seq![];
    proof {
        assert(chars@.take(0) =~= seq![]);
        assert(lines.push(chars@.subrange(0, 0)) =~= seq![seq![]]);
        assert(texts(ids@) =~= lines_ids(lines));
    }
    while i < chars.len()
        invariant
            start <= i <= chars@.len(),
            text::split(chars@.take(i as int), '\n') == lines.push(
                chars@.subrange(start as int, i as int),
            ),
            texts(ids@) == lines_ids(lines),
        decreases chars@.len() - i,
    {
        let ghost line = chars@.subrange(start as int, i as int);
        let ghost longer = chars@.take(i + 1);
        assert(longer.drop_last() =~= chars@.take(i as int));
        if chars[i] == '\n' {
            push_line_ids(vstd::slice::slice_subrange(chars.as_slice(), start, i), &mut ids);
            proof {
                assert(lines.push(line).drop_last() =~= lines);
                lines = lines.push(line);
                assert(chars@.subrange(i + 1, i + 1) =~= seq![]);
            }
            start = i + 1;
        } else {
            proof {
                let pieces = lines.push(line);
                assert(pieces.update(pieces.len() - 1, pieces.last().push(chars@[i as int]))
                    =~= lines.push(chars@.subrange(start as int, i + 1))) by {
                    assert(line.push(chars@[i as int]) =~= chars@.subrange(start as int, i + 1));
                }
            }
        }
        i += 1;
    }
    let ghost line = chars@.subrange(start as int, i as int);
    push_line_ids(vstd::slice::slice_subrange(chars.as_slice(), start, i), &mut ids);
    proof {
        assert(chars@.take(i as int) =~= os_release@);
        assert(lines.push(line).drop_last() =~= lines);
    }
    ids
}

/// Whether one of `ids` is `name`.
fn names(ids: &Vec<Vec<char>>, name: &str) -> (found: bool)
    ensures
        found == texts(ids@).contains(name@),
{
    let name_chars = text::chars_of(name);
    let mut i: usize = 0;
    while i < ids.len()
        invariant
            i <= ids@.len(),
            name_chars@ == name@,
            forall|j: int| 0 <= j < i ==> texts(ids@)[j] != name@,
        decreases ids@.len() - i,
    {
        if text::same_chars(ids[i].as_slice(), name_chars.as_slice()) {
            assert(texts(ids@)[i as int] == name@);
            return true;
        }
        i += 1;
    }
    false
}

/// How rsync is installed on the system that the os-release file describes, where there is one.
pub fn linux_rsync_install_hint(os_release: Option<&str>) -> (hint: &'static str)
    ensures
        hint@ == install_hint(text::optional_slice(os_release)),
{
    let ids = match os_release {
        Some(os_release) => collect_ids(os_release),
        None => {
            return "Please install rsync using your package manager";
        },
    };
    if names(&ids, "arch") {
        "Install it with: sudo pacman -S rsync"
    } else if names(&ids, "debian") || names(&ids, "ubuntu") {
        "Install it with: sudo apt install rsync"
    } else if names(&ids, "fedora") || names(&ids, "rhel") || names(&ids, "centos") || names(
        &ids,
        "rocky",
    ) || names(&ids, "almalinux") {
        "Install it with: sudo dnf install rsync"
    } else if names(&ids, "nixos") {
        "Install pkgs.rsync from nixpkgs"
    } else {
        "Please install rsync using your package manager"
    }
}

/// Whether the programs are installed that an update needs on `os`.
pub fn check_dependencies(os: &str, rsync_found: bool, os_release: Option<&str>) -> (result: Result<
    (),
    UpdateError,
>)
    ensures
        match result {
            Ok(_) => dependency_error(os@, rsync_found, text::optional_slice(os_release)) is None,
            Err(error) => dependency_error(os@, rsync_found, text::optional_slice(os_release)) == Some(
                error@,
            ),
        },
{
    if rsync_found {
        Ok(())
    } else if text::same_text(os, "linux") {
        let hint = linux_rsync_install_hint(os_release);
        Err(
            UpdateError::MissingDependency {
                message: text::appended(
                    "rsync is required for auto-updates but is not installed. ",
                    hint,
                ),
            },
        )
    } else if text::same_text(os, "macos") {
        Err(UpdateError::MissingRsync)
    } else {
        Ok(())
    }
}

/// What is stripped from the start of a text.
proof fn lemma_stripped_start(text: Seq<char>, strip: Strip) -> (count: int)
    ensures
        0 <= count <= text.len(),
        stripped_start(text, strip) == text.skip(count),
        forall|i: int| 0 <= i < count ==> strip.covers(#[trigger] text[i]),
        count < text.len() ==> !strip.covers(text[count]),
    decreases text.len(),
{
    if text.len() > 0 && strip.covers(text[0]) {
        let rest = lemma_stripped_start(text.skip(1), strip);
        assert(text.skip(1).skip(rest) =~= text.skip(rest + 1));
        assert forall|i: int| 0 <= i < rest + 1 implies strip.covers(#[trigger] text[i]) by {
            if i > 0 {
                assert(text[i] == text.skip(1)[i - 1]);
            }
        }
        if rest + 1 < text.len() {
            assert(text[rest + 1] == text.skip(1)[rest]);
        }
        rest + 1
    } else {
        assert(text.skip(0) =~= text);
        0
    }
}

/// What is stripped from the end of a text.
proof fn lemma_stripped_end(text: Seq<char>, strip: Strip) -> (end: int)
    ensures
        0 <= end <= text.len(),
        stripped_end(text, strip) == text.take(end),
        forall|i: int| end <= i < text.len() ==> strip.covers(#[trigger] text[i]),
        end > 0 ==> !strip.covers(text[end - 1]),
    decreases text.len(),
{
    if text.len() > 0 && strip.covers(text.last()) {
        let end = lemma_stripped_end(text.drop_last(), strip);
        assert(text.drop_last().take(end) =~= text.take(end));
        assert forall|i: int| end <= i < text.len() implies strip.covers(#[trigger] text[i]) by {
            if i < text.len() - 1 {
                assert(text[i] == text.drop_last()[i]);
            }
        }
        end
    } else {
        assert(text.take(text.len() as int) =~= text);
        text.len() as int
    }
}

/// What is left of a text when both ends are stripped is a part of it, in front of which and
/// behind which is only what is stripped, and neither of whose ends is.
pub proof fn law_both_ends_are_stripped(text: Seq<char>, strip: Strip)
    ensures
        exists|start: int, end: int|
            0 <= start <= end <= text.len() && stripped(text, strip) == #[trigger] text.subrange(
                start,
                end,
            ) && (forall|i: int|
                0 <= i < start || end <= i < text.len() ==> strip.covers(#[trigger] text[i])),
        stripped(text, strip).len() > 0 ==> !strip.covers(stripped(text, strip)[0])
            && !strip.covers(stripped(text, strip).last()),
{
    let start = lemma_stripped_start(text, strip);
    let tail = text.skip(start);
    let length = lemma_stripped_end(tail, strip);
    let end = start + length;
    let rest = stripped(text, strip);
    assert(rest =~= text.subrange(start, end));
    assert forall|i: int| 0 <= i < start || end <= i < text.len() implies strip.covers(
        #[trigger] text[i],
    ) by {
        if end <= i {
            assert(text[i] == tail[i - start]);
        }
    }
    if rest.len() > 0 {
        assert(rest[0] == text[start]);
        assert(rest.last() == tail[length - 1]);
    }
}

/// Nothing is stripped from a text whose ends are not to be.
proof fn lemma_nothing_to_strip(text: Seq<char>, strip: Strip)
    requires
        text.len() > 0 ==> !strip.covers(text[0]) && !strip.covers(text.last()),
    ensures
        stripped(text, strip) == text,
{
}

/// Whitespace parts a text: its words are those in front of it and those behind it. What has no
/// whitespace in it is one word, unless it is empty.
pub proof fn law_whitespace_parts_words(left: Seq<char>, space: char, right: Seq<char>)
    requires
        is_whitespace(space),
    ensures
        words(left.push(space) + right) == words(left) + words(right),
        left.len() > 0 && (forall|i: int|
            0 <= i < left.len() ==> !is_whitespace(#[trigger] left[i])) ==> words(left) == seq![
            left,
        ],
        words(seq![]).len() == 0,
    decreases left.len(),
{
    let whole = left.push(space) + right;
    if left.len() == 0 {
        assert(whole.skip(1) =~= right);
        assert(words(left) + words(right) =~= words(right));
    } else if is_whitespace(left[0]) {
        assert(whole.skip(1) =~= left.skip(1).push(space) + right);
        law_whitespace_parts_words(left.skip(1), space, right);
    } else {
        let word = first_word(left);
        lemma_first_word_len(left);
        lemma_first_word_ends(left, space, right);
        assert(word.len() > 0);
        let rest = left.skip(word.len() as int);
        assert(whole.skip(word.len() as int) =~= rest.push(space) + right);
        law_whitespace_parts_words(rest, space, right);
        assert(words(whole) =~= words(left) + words(right));
        if forall|i: int| 0 <= i < left.len() ==> !is_whitespace(#[trigger] left[i]) {
            lemma_whole_word(left);
            assert(rest =~= seq![]);
            assert(words(left) =~= seq![left]);
        }
    }
}

/// The first word ends in front of whitespace.
proof fn lemma_first_word_ends(left: Seq<char>, space: char, right: Seq<char>)
    requires
        is_whitespace(space),
    ensures
        first_word(left.push(space) + right) == first_word(left),
    decreases left.len(),
{
    let whole = left.push(space) + right;
    if left.len() > 0 && !is_whitespace(left[0]) {
        assert(whole.skip(1) =~= left.skip(1).push(space) + right);
        lemma_first_word_ends(left.skip(1), space, right);
    }
}

/// A text without whitespace is its first word.
proof fn lemma_whole_word(text: Seq<char>)
    requires
        forall|i: int| 0 <= i < text.len() ==> !is_whitespace(#[trigger] text[i]),
    ensures
        first_word(text) == text,
    decreases text.len(),
{
    if text.len() > 0 {
        assert forall|i: int| 0 <= i < text.skip(1).len() implies !is_whitespace(
            #[trigger] text.skip(1)[i],
        ) by {
            assert(text.skip(1)[i] == text[i + 1]);
        }
        lemma_whole_word(text.skip(1));
        assert(seq![text[0]] + text.skip(1) =~= text);
    }
}

/// Only the twenty-six capital letters change in lower case, each to the letter that stands
/// thirty-two code points behind it.
pub proof fn law_capital_letters_become_small(text: Seq<char>, index: int)
    requires
        0 <= index < text.len(),
    ensures
        lower(text).len() == text.len(),
        'A' <= text[index] <= 'Z' ==> lower(text)[index] as u32 == text[index] as u32 + 32,
        !('A' <= text[index] <= 'Z') ==> lower(text)[index] == text[index],
        lower(lower(text)) == lower(text),
{
    assert(lower(lower(text)) =~= lower(text));
}

/// A line break parts an os-release file: it names the distributions that its lines name, one line
/// after the other.
pub proof fn law_lines_are_read_one_by_one(left: Seq<char>, right: Seq<char>)
    ensures
        distribution_ids(left.push('\n') + right) == distribution_ids(left) + distribution_ids(
            right,
        ),
        (forall|i: int| 0 <= i < left.len() ==> #[trigger] left[i] != '\n') ==> distribution_ids(
            left,
        ) == line_ids(left),
{
    text::law_separator_parts(left, right, '\n');
    lemma_lines_ids(text::split(left, '\n'), text::split(right, '\n'));
    if forall|i: int| 0 <= i < left.len() ==> #[trigger] left[i] != '\n' {
        lemma_single_line(left);
        let lines = seq![left];
        assert(lines.drop_last() =~= seq![]);
        assert(lines_ids(seq![]) =~= seq![]);
        reveal_with_fuel(lines_ids, 2);
        assert(lines_ids(lines) =~= line_ids(left));
    }
}

/// Lines name what each of them names.
proof fn lemma_lines_ids(left: Seq<Seq<char>>, right: Seq<Seq<char>>)
    ensures
        lines_ids(left + right) == lines_ids(left) + lines_ids(right),
    decreases right.len(),
{
    if right.len() == 0 {
        assert(left + right =~= left);
        assert(lines_ids(left) + lines_ids(right) =~= lines_ids(left));
    } else {
        lemma_lines_ids(left, right.drop_last());
        assert((left + right).drop_last() =~= left + right.drop_last());
        assert(lines_ids(left + right) =~= lines_ids(left) + lines_ids(right));
    }
}

/// A text without line breaks is one line.
proof fn lemma_single_line(text: Seq<char>)
    requires
        forall|i: int| 0 <= i < text.len() ==> #[trigger] text[i] != '\n',
    ensures
        text::split(text, '\n') == seq![text],
    decreases text.len(),
{
    if text.len() > 0 {
        assert forall|i: int| 0 <= i < text.drop_last().len() implies #[trigger] text.drop_last()[i]
            != '\n' by {
            assert(text.drop_last()[i] == text[i]);
        }
        lemma_single_line(text.drop_last());
        assert(text.last() == text[text.len() - 1]);
        assert(text.drop_last().push(text.last()) =~= text);
        assert(text::split(text, '\n') =~= seq![text]);
    } else {
        assert(text =~= seq![]);
    }
}

/// A line names a distribution behind `ID=`, and those that are similar behind `ID_LIKE=`, in small
/// letters; quotes and whitespace around it make no difference. Other lines name none.
pub proof fn law_line_names_distributions(line: Seq<char>, value: Seq<char>)
    requires
        value.len() > 0,
        !is_whitespace(value[0]),
        !is_whitespace(value.last()),
        value[0] != '"',
        value.last() != '"',
    ensures
        line_ids("ID="@ + value) == seq![lower(value)],
        line_ids("ID="@ + seq!['"'] + value + seq!['"']) == seq![lower(value)],
        line_ids("ID_LIKE="@ + value) == words(value).map_values(|word: Seq<char>| lower(word)),
        line_ids("ID_LIKE="@ + seq!['"'] + value + seq!['"']) == words(value).map_values(
            |word: Seq<char>| lower(word),
        ),
        !"ID="@.is_prefix_of(stripped(line, Strip::Whitespace)) && !"ID_LIKE="@.is_prefix_of(
            stripped(line, Strip::Whitespace),
        ) ==> line_ids(line).len() == 0,
        line_ids(stripped(line, Strip::Whitespace)) == line_ids(line),
{
    reveal_strlit("ID=");
    reveal_strlit("ID_LIKE=");
    let quoted = seq!['"'] + value + seq!['"'];
    lemma_named_value("ID="@, value);
    lemma_named_value("ID="@, quoted);
    lemma_named_value("ID_LIKE="@, value);
    lemma_named_value("ID_LIKE="@, quoted);
    assert("ID="@ + seq!['"'] + value + seq!['"'] =~= "ID="@ + quoted);
    assert("ID_LIKE="@ + seq!['"'] + value + seq!['"'] =~= "ID_LIKE="@ + quoted);
    lemma_nothing_to_strip(value, Strip::Quotes);
    lemma_quotes_are_stripped(value);
    let similar = "ID_LIKE="@ + value;
    let similar_quoted = "ID_LIKE="@ + quoted;
    assert(similar[2] == '_' && similar_quoted[2] == '_');
    assert(!"ID="@.is_prefix_of(similar) && !"ID="@.is_prefix_of(similar_quoted)) by {
        assert("ID="@[2] == '=');
        if "ID="@.is_prefix_of(similar) {
            assert(similar.subrange(0, 3)[2] == similar[2]);
        }
        if "ID="@.is_prefix_of(similar_quoted) {
            assert(similar_quoted.subrange(0, 3)[2] == similar_quoted[2]);
        }
    }
    law_both_ends_are_stripped(line, Strip::Whitespace);
    lemma_nothing_to_strip(stripped(line, Strip::Whitespace), Strip::Whitespace);
}

/// A value behind a name without whitespace at its ends is what follows the name.
proof fn lemma_named_value(name: Seq<char>, value: Seq<char>)
    requires
        name.len() > 0,
        name[0] == 'I',
        value.len() > 0,
        !is_whitespace(value.last()),
    ensures
        stripped(name + value, Strip::Whitespace) == name + value,
        name.is_prefix_of(name + value),
        (name + value).skip(name.len() as int) == value,
{
    let line = name + value;
    assert(line[0] == 'I' && line.last() == value.last());
    lemma_nothing_to_strip(line, Strip::Whitespace);
    text::lemma_starts_with(name, value);
    assert(line.skip(name.len() as int) =~= value);
}

/// A pair of quotes is stripped.
proof fn lemma_quotes_are_stripped(value: Seq<char>)
    requires
        value.len() > 0,
        value[0] != '"',
        value.last() != '"',
    ensures
        stripped(seq!['"'] + value + seq!['"'], Strip::Quotes) == value,
{
    let quoted = seq!['"'] + value + seq!['"'];
    let tail = quoted.skip(1);
    assert(tail =~= value.push('"'));
    assert(tail[0] == value[0]);
    reveal_with_fuel(stripped_start, 2);
    reveal_with_fuel(stripped_end, 2);
    assert(stripped_start(quoted, Strip::Quotes) == tail);
    assert(tail.drop_last() =~= value);
}

/// The hint goes by which distributions are named, not by their order or number: those like Arch
/// first, then those like Debian, then those like Fedora, then NixOS. Where none of these is named
/// the hint is a general one, whatever else is named.
pub proof fn law_hint_goes_by_the_distributions(ids: Seq<Seq<char>>, other: Seq<Seq<char>>)
    requires
        forall|id: Seq<char>| #[trigger] ids.contains(id) == other.contains(id),
    ensures
        hint_for(ids) == hint_for(other),
        ({
            let arch = ids.contains("arch"@);
            let debian = ids.contains("debian"@) || ids.contains("ubuntu"@);
            let fedora = ids.contains("fedora"@) || ids.contains("rhel"@) || ids.contains(
                "centos"@,
            ) || ids.contains("rocky"@) || ids.contains("almalinux"@);
            let nixos = ids.contains("nixos"@);
            &&& arch ==> hint_for(ids) == "Install it with: sudo pacman -S rsync"@
            &&& debian && !arch ==> hint_for(ids) == "Install it with: sudo apt install rsync"@
            &&& fedora && !arch && !debian ==> hint_for(ids)
                == "Install it with: sudo dnf install rsync"@
            &&& nixos && !arch && !debian && !fedora ==> hint_for(ids)
                == "Install pkgs.rsync from nixpkgs"@
            &&& !arch && !debian && !fedora && !nixos ==> hint_for(ids)
                == "Please install rsync using your package manager"@
        }),
{
}

/// Where rsync is there, nothing is missing on any system. Where it is not, it is missing under
/// Linux, where the user is told how to install it, and under macOS, and nowhere else.
pub proof fn law_rsync_is_all_that_is_needed(
    os: Seq<char>,
    os_release: Option<Seq<char>>,
)
    ensures
        dependency_error(os, true, os_release) is None,
        dependency_error(os, false, os_release) is Some <==> os == "linux"@ || os == "macos"@,
        dependency_error("linux"@, false, os_release)->0 is MissingDependency,
        install_hint(os_release).is_suffix_of(
            dependency_error("linux"@, false, os_release)->0.message(),
        ),
        dependency_error("macos"@, false, os_release) == Some(ErrorView::MissingRsync),
        install_hint(None) == hint_for(seq![]),
        os_release matches Some(file) ==> install_hint(os_release) == hint_for(
            distribution_ids(file),
        ),
{
    reveal_strlit("linux");
    reveal_strlit("macos");
    assert("linux"@[0] == 'l' && "macos"@[0] == 'm');
    let front = "rsync is required for auto-updates but is not installed. "@;
    text::lemma_ends_with(front, install_hint(os_release));
    let none: Seq<Seq<char>> = seq![];
    assert(!none.contains("arch"@) && !none.contains("debian"@) && !none.contains("nixos"@));
}

} // verus!
