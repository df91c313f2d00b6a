//! Versions of the application, ordered as the semver crate orders them.

use crate::text;
use vstd::prelude::*;
use vstd::string::*;
use vstd::utf8::*;

verus! {

/// The longest text of a version: as many bytes as a [`semver::Prerelease`] can hold.
pub const MAX_VERSION_BYTES: u64 = 0xff_ffff_ffff_ffff;

/// The parts of a version.
#[verifier::ext_equal]
pub struct VersionView {
    pub major: u64,
    pub minor: u64,
    pub patch: u64,
    pub pre: Seq<char>,
    pub build: Seq<char>,
}

/// Whether `ch` may stand in an identifier.
pub open spec fn is_identifier_char(ch: char) -> bool {
    text::is_digit(ch) || 'a' <= ch <= 'z' || 'A' <= ch <= 'Z' || ch == '-'
}

/// Whether `identifier` is one or more ASCII letters, digits and hyphens.
pub open spec fn is_identifier(identifier: Seq<char>) -> bool {
    &&& identifier.len() > 0
    &&& forall|i: int| 0 <= i < identifier.len() ==> is_identifier_char(#[trigger] identifier[i])
}

/// Whether `build` is empty or a series of identifiers separated by dots.
pub open spec fn valid_build(build: Seq<char>) -> bool {
    build.len() == 0 || forall|i: int|
        0 <= i < text::split(build, '.').len() ==> is_identifier(#[trigger] text::split(build, '.')[i])
}

/// Whether a numeric identifier is written without leading zeros.
pub open spec fn no_leading_zero(identifier: Seq<char>) -> bool {
    text::all_digits(identifier) && identifier.len() > 1 ==> identifier[0] != '0'
}

/// Whether `pre` is empty or a series of identifiers separated by dots, the numeric ones among
/// them without leading zeros.
pub open spec fn valid_prerelease(pre: Seq<char>) -> bool {
    &&& valid_build(pre)
    &&& forall|i: int|
        0 <= i < text::split(pre, '.').len() ==> no_leading_zero(#[trigger] text::split(pre, '.')[i])
}

/// Order of two identifiers of a pre-release: numeric ones numerically, the others by their
/// characters, and every numeric one before every other one.
pub open spec fn identifier_less(left: Seq<char>, right: Seq<char>) -> bool {
    if text::all_digits(left) && text::all_digits(right) {
        text::decimal_value(left) < text::decimal_value(right)
    } else if text::all_digits(left) {
        true
    } else if text::all_digits(right) {
        false
    } else {
        text::text_less(left, right)
    }
}

/// Lexicographic order of two series of identifiers.
pub open spec fn identifiers_less(left: Seq<Seq<char>>, right: Seq<Seq<char>>) -> bool
    decreases left.len(),
{
    if right.len() == 0 {
        false
    } else if left.len() == 0 {
        true
    } else if left[0] != right[0] {
        identifier_less(left[0], right[0])
    } else {
        identifiers_less(left.skip(1), right.skip(1))
    }
}

/// Order of two pre-releases: identifier by identifier, and every one of them before the release
/// itself, whose pre-release is empty.
pub open spec fn prerelease_less(left: Seq<char>, right: Seq<char>) -> bool {
    if left.len() == 0 {
        false
    } else if right.len() == 0 {
        true
    } else {
        identifiers_less(text::split(left, '.'), text::split(right, '.'))
    }
}

/// A leading `mark` in front of `part`, or nothing where `part` is empty.
pub open spec fn marked(mark: char, part: Seq<char>) -> Seq<char> {
    if part.len() == 0 {
        seq![]
    } else {
        seq![mark] + part
    }
}

impl VersionView {
    /// Whether the parts can stand in a version.
    pub open spec fn wf(self) -> bool {
        &&& valid_prerelease(self.pre)
        &&& valid_build(self.build)
        &&& self.render().len() <= MAX_VERSION_BYTES
    }

    /// What stands behind the patch number.
    pub open spec fn suffix(self) -> Seq<char> {
        marked('-', self.pre) + marked('+', self.build)
    }

    /// The text of the version.
    pub open spec fn render(self) -> Seq<char> {
        text::decimal(self.major as nat) + (seq!['.'] + (text::decimal(self.minor as nat) + (seq!['.'] + (
        text::decimal(self.patch as nat) + self.suffix()))))
    }

    /// The version without its build metadata.
    pub open spec fn without_build(self) -> VersionView {
        VersionView { build: seq![], ..self }
    }

    /// The version without its pre-release and its build metadata.
    pub open spec fn release(self) -> VersionView {
        VersionView { pre: seq![], build: seq![], ..self }
    }

    /// Precedence: whether this version is older than `other`, whatever their build metadata.
    pub open spec fn older_than(self, other: VersionView) -> bool {
        if self.major != other.major {
            self.major < other.major
        } else if self.minor != other.minor {
            self.minor < other.minor
        } else if self.patch != other.patch {
            self.patch < other.patch
        } else {
            prerelease_less(self.pre, other.pre)
        }
    }
}

/// The version whose text is `text`, if there is one.
pub open spec fn parsed_version(text: Seq<char>) -> Option<VersionView> {
    if exists|version: VersionView| version.wf() && #[trigger] version.render() == text {
        Some(choose|version: VersionView| version.wf() && #[trigger] version.render() == text)
    } else {
        None
    }
}

/// How the semver crate words its refusal to parse `text` as a version.
pub uninterp spec fn version_error_text(text: Seq<char>) -> Seq<char>;

/// What [`Version::parse`] says of a text that is no version.
pub open spec fn parse_error(text: Seq<char>) -> Seq<char> {
    if encode_utf8(text).len() > MAX_VERSION_BYTES {
        "version text is too long"@
    } else {
        version_error_text(text)
    }
}

/// A version of the application.
#[derive(Debug, Eq)]
pub struct Version {
    major: u64,
    minor: u64,
    patch: u64,
    pre: String,
    build: String,
}

impl View for Version {
    type V = VersionView;

    closed spec fn view(&self) -> VersionView {
        VersionView {
            major: self.major,
            minor: self.minor,
            patch: self.patch,
            pre: self.pre@,
            build: self.build@,
        }
    }
}

/// [`semver::Version::parse`] accepts exactly the texts of versions, and returns the version
/// whose text it was given. Its error is returned as the text that the error displays.
#[verifier::external_body]
fn semver_parse(text: &str) -> (parsed: Result<Version, String>)
    requires
        text.spec_bytes().len() <= MAX_VERSION_BYTES,
    ensures
        match parsed {
            Ok(version) => version@.wf() && version@.render() == text@,
            Err(message) => message@ == version_error_text(text@) && forall|version: VersionView|
                version.wf() ==> #[trigger] version.render() != text@,
        },
{
    match semver::Version::parse(text) {
        Ok(version) => Ok(Version {
            major: version.major,
            minor: version.minor,
            patch: version.patch,
            pre: version.pre.as_str().to_string(),
            build: version.build.as_str().to_string(),
        }),
        Err(error) => Err(error.to_string()),
    }
}

/// The `Display` of [`semver::Version`] writes the three numbers with dots between them, then the
/// pre-release behind a hyphen and the build metadata behind a plus sign, where there are any.
#[verifier::external_body]
fn semver_display(version: &Version) -> (text: String)
    requires
        version@.wf(),
    ensures
        text@ == version@.render(),
{
    let version = semver::Version {
        major: version.major,
        minor: version.minor,
        patch: version.patch,
        pre: semver::Prerelease::new(&version.pre).unwrap(),
        build: semver::BuildMetadata::new(&version.build).unwrap(),
    };
    version.to_string()
}

/// The order of [`semver::Version`] is that of the three numbers, then that of the pre-releases,
/// where neither version has build metadata.
#[verifier::external_body]
fn semver_greater(left: &Version, right: &Version) -> (greater: bool)
    requires
        left@.wf(),
        right@.wf(),
        left@.build.len() == 0,
        right@.build.len() == 0,
    ensures
        greater == right@.older_than(left@),
{
    let mut left_version = semver::Version::new(left.major, left.minor, left.patch);
    left_version.pre = semver::Prerelease::new(&left.pre).unwrap();
    let mut right_version = semver::Version::new(right.major, right.minor, right.patch);
    right_version.pre = semver::Prerelease::new(&right.pre).unwrap();
    left_version > right_version
}

impl PartialEq for Version {
    fn eq(&self, other: &Self) -> (same: bool) {
        self.major == other.major && self.minor == other.minor && self.patch == other.patch
            && self.pre == other.pre && self.build == other.build
    }
}

impl vstd::std_specs::cmp::PartialEqSpecImpl for Version {
    open spec fn obeys_eq_spec() -> bool {
        true
    }

    open spec fn eq_spec(&self, other: &Self) -> bool {
        self@ == other@
    }
}

impl Clone for Version {
    fn clone(&self) -> (copy: Self)
        ensures
            copy@ == self@,
    {
        proof {
            use_type_invariant(self);
        }
        Version {
            major: self.major,
            minor: self.minor,
            patch: self.patch,
            pre: self.pre.clone(),
            build: self.build.clone(),
        }
    }
}

impl Version {
    #[verifier::type_invariant]
    pub open spec fn inv(self) -> bool {
        self@.wf()
    }

    /// The release `major.minor.patch`.
    pub fn new(major: u64, minor: u64, patch: u64) -> (version: Version)
        ensures
            version@ == (VersionView { major, minor, patch, pre: seq![], build: seq![] }),
            version@.wf(),
    {
        let ghost view = VersionView { major, minor, patch, pre: seq![], build: seq![] };
        proof {
            lemma_release_wf(view);
        }
        let version = Version { major, minor, patch, pre: String::new(), build: String::new() };
        assert(version@ =~= view);
        version
    }

    /// The version whose text is `text`.
    pub fn parse(text: &str) -> (version: Result<Version, String>)
        ensures
            match version {
                Ok(version) => version@.wf() && parsed_version(text@) == Some(version@),
                Err(message) => parsed_version(text@) is None && message@ == parse_error(text@),
            },
    {
        if text.as_bytes().len() as u64 > MAX_VERSION_BYTES {
            proof {
                assert forall|version: VersionView| version.wf() implies #[trigger] version.render()
                    != text@ by {
                    lemma_render_ascii(version);
                    is_ascii_chars_encode_utf8(version.render());
                }
            }
            return Err("version text is too long".to_string());
        }
        let parsed = semver_parse(text);
        proof {
            if parsed is Ok {
                law_version_text_parses_back(parsed->Ok_0@);
            }
        }
        parsed
    }

    /// The text of the version.
    pub fn to_string(&self) -> (text: String)
        ensures
            text@ == self@.render(),
    {
        proof {
            use_type_invariant(self);
        }
        semver_display(self)
    }

    /// The build metadata.
    pub fn build(&self) -> (build: &str)
        ensures
            build@ == self@.build,
    {
        self.build.as_str()
    }

    /// The version without its build metadata.
    pub fn without_build(&self) -> (version: Version)
        ensures
            version@ == self@.without_build(),
            version@.wf(),
    {
        proof {
            use_type_invariant(self);
            lemma_without_build_wf(self@);
        }
        let ghost view = self@.without_build();
        let version = Version {
            major: self.major,
            minor: self.minor,
            patch: self.patch,
            pre: self.pre.clone(),
            build: String::new(),
        };
        assert(version@ =~= view);
        version
    }

    /// The version without its pre-release and its build metadata.
    pub fn release(&self) -> (version: Version)
        ensures
            version@ == self@.release(),
            version@.wf(),
    {
        Version::new(self.major, self.minor, self.patch)
    }

    /// Whether this version takes precedence over `other`, whatever their build metadata.
    pub fn newer_than(&self, other: &Version) -> (newer: bool)
        ensures
            newer == other@.older_than(self@),
    {
        let left = self.without_build();
        let right = other.without_build();
        semver_greater(&left, &right)
    }
}

/// Ten to the power of `exponent`.
spec fn ten_to(exponent: nat) -> nat
    decreases exponent,
{
    if exponent == 0 {
        1
    } else {
        10 * ten_to((exponent - 1) as nat)
    }
}

proof fn lemma_decimal_len(number: nat, digits: nat)
    requires
        digits > 0,
        number < ten_to(digits),
    ensures
        text::decimal(number).len() <= digits,
    decreases digits,
{
    if number >= 10 {
        if digits == 1 {
            reveal_with_fuel(ten_to, 2);
        } else {
            lemma_decimal_len(number / 10, (digits - 1) as nat);
        }
    }
}

proof fn lemma_number_len(number: u64)
    ensures
        text::decimal(number as nat).len() <= 20,
{
    reveal_with_fuel(ten_to, 21);
    lemma_decimal_len(number as nat, 20);
}

/// A version that is nothing but its three numbers is well formed.
pub proof fn lemma_release_wf(version: VersionView)
    requires
        version.pre.len() == 0,
        version.build.len() == 0,
    ensures
        version.wf(),
{
    lemma_number_len(version.major);
    lemma_number_len(version.minor);
    lemma_number_len(version.patch);
    assert(text::split(version.pre, '.') =~= seq![seq![]]);
}

/// A version stays well formed without its build metadata.
pub proof fn lemma_without_build_wf(version: VersionView)
    requires
        version.wf(),
    ensures
        version.without_build().wf(),
{
}

/// Whether `ch` may stand in a pre-release or in build metadata.
spec fn is_part_char(ch: char) -> bool {
    is_identifier_char(ch) || ch == '.'
}

proof fn lemma_part_chars(part: Seq<char>)
    requires
        valid_build(part),
    ensures
        forall|i: int| 0 <= i < part.len() ==> is_part_char(#[trigger] part[i]),
{
    if part.len() > 0 {
        let holds = |ch: char| is_part_char(ch);
        assert forall|i: int, j: int|
            #![trigger text::split(part, '.')[i][j]]
            0 <= i < text::split(part, '.').len() && 0 <= j < text::split(part, '.')[i].len()
            implies holds(text::split(part, '.')[i][j]) by {
            assert(is_identifier(text::split(part, '.')[i]));
        }
        text::lemma_split_all(part, '.', holds);
        assert forall|i: int| 0 <= i < part.len() implies is_part_char(#[trigger] part[i]) by {
            assert(holds(part[i]));
        }
    }
}

/// The text of a version is ASCII.
proof fn lemma_render_ascii(version: VersionView)
    requires
        version.wf(),
    ensures
        is_ascii_chars(version.render()),
{
    lemma_part_chars(version.pre);
    lemma_part_chars(version.build);
    text::lemma_decimal(version.major as nat);
    text::lemma_decimal(version.minor as nat);
    text::lemma_decimal(version.patch as nat);
    assert(is_ascii_chars(text::decimal(version.major as nat)));
    assert(is_ascii_chars(text::decimal(version.minor as nat)));
    assert(is_ascii_chars(text::decimal(version.patch as nat)));
    assert(is_ascii_chars(version.suffix()));
}

/// Two decimal numbers with what follows them are the same only where both parts are.
proof fn lemma_number_prefix(left: nat, left_rest: Seq<char>, right: nat, right_rest: Seq<char>)
    requires
        text::decimal(left) + left_rest == text::decimal(right) + right_rest,
        left_rest.len() > 0 ==> !text::is_digit(left_rest[0]),
        right_rest.len() > 0 ==> !text::is_digit(right_rest[0]),
    ensures
        left == right,
        left_rest == right_rest,
{
    text::lemma_decimal(left);
    text::lemma_decimal(right);
    let holds = |ch: char| text::is_digit(ch);
    text::lemma_longest_prefix_unique(
        text::decimal(left),
        left_rest,
        text::decimal(right),
        right_rest,
        holds,
    );
}

/// Different versions have different texts.
pub proof fn law_version_text_is_unique(left: VersionView, right: VersionView)
    requires
        left.wf(),
        right.wf(),
        left.render() == right.render(),
    ensures
        left == right,
{
    let left_patch = text::decimal(left.patch as nat) + left.suffix();
    let right_patch = text::decimal(right.patch as nat) + right.suffix();
    let left_minor = text::decimal(left.minor as nat) + (seq!['.'] + left_patch);
    let right_minor = text::decimal(right.minor as nat) + (seq!['.'] + right_patch);
    lemma_number_prefix(
        left.major as nat,
        seq!['.'] + left_minor,
        right.major as nat,
        seq!['.'] + right_minor,
    );
    assert(left_minor =~= (seq!['.'] + left_minor).skip(1));
    assert(right_minor =~= (seq!['.'] + right_minor).skip(1));
    lemma_number_prefix(
        left.minor as nat,
        seq!['.'] + left_patch,
        right.minor as nat,
        seq!['.'] + right_patch,
    );
    assert(left_patch =~= (seq!['.'] + left_patch).skip(1));
    assert(right_patch =~= (seq!['.'] + right_patch).skip(1));
    lemma_number_prefix(left.patch as nat, left.suffix(), right.patch as nat, right.suffix());
    lemma_part_chars(left.pre);
    lemma_part_chars(right.pre);
    let holds = |ch: char| ch != '+';
    text::lemma_longest_prefix_unique(
        marked('-', left.pre),
        marked('+', left.build),
        marked('-', right.pre),
        marked('+', right.build),
        holds,
    );
    lemma_marked_unique('-', left.pre, right.pre);
    lemma_marked_unique('+', left.build, right.build);
}

proof fn lemma_marked_unique(mark: char, left: Seq<char>, right: Seq<char>)
    requires
        marked(mark, left) == marked(mark, right),
    ensures
        left == right,
{
    if left.len() == 0 {
        assert(marked(mark, right).len() == 0);
        assert(left =~= right);
    } else {
        assert(marked(mark, right).len() > 0);
        assert(left =~= marked(mark, left).skip(1));
        assert(right =~= marked(mark, right).skip(1));
    }
}

/// The text of a version parses as that version.
pub proof fn law_version_text_parses_back(version: VersionView)
    requires
        version.wf(),
    ensures
        parsed_version(version.render()) == Some(version),
{
    let found = choose|other: VersionView|
        other.wf() && #[trigger] other.render() == version.render();
    law_version_text_is_unique(found, version);
}

/// What parses as a version is the text of that version.
pub proof fn law_parsed_version_has_its_text(text: Seq<char>)
    ensures
        parsed_version(text) matches Some(version) ==> version.wf() && version.render() == text,
{
}

proof fn lemma_identifier_less_irreflexive(identifier: Seq<char>)
    ensures
        !identifier_less(identifier, identifier),
{
    text::lemma_text_less_irreflexive(identifier);
}

proof fn lemma_identifier_less_transitive(first: Seq<char>, second: Seq<char>, third: Seq<char>)
    requires
        identifier_less(first, second),
        identifier_less(second, third),
    ensures
        identifier_less(first, third),
{
    if !text::all_digits(first) && !text::all_digits(second) && !text::all_digits(third) {
        text::lemma_text_less_transitive(first, second, third);
    }
}

proof fn lemma_identifiers_less_irreflexive(identifiers: Seq<Seq<char>>)
    ensures
        !identifiers_less(identifiers, identifiers),
    decreases identifiers.len(),
{
    if identifiers.len() > 0 {
        lemma_identifiers_less_irreflexive(identifiers.skip(1));
    }
}

proof fn lemma_identifiers_less_transitive(
    first: Seq<Seq<char>>,
    second: Seq<Seq<char>>,
    third: Seq<Seq<char>>,
)
    requires
        identifiers_less(first, second),
        identifiers_less(second, third),
    ensures
        identifiers_less(first, third),
    decreases first.len(),
{
    if first.len() > 0 {
        if first[0] == second[0] && second[0] == third[0] {
            lemma_identifiers_less_transitive(first.skip(1), second.skip(1), third.skip(1));
        } else if first[0] != second[0] && second[0] != third[0] {
            lemma_identifier_less_transitive(first[0], second[0], third[0]);
            lemma_identifier_less_irreflexive(first[0]);
        }
    }
}

/// No version is older than itself.
pub proof fn law_not_older_than_itself(version: VersionView)
    ensures
        !version.older_than(version),
{
    if version.pre.len() > 0 {
        lemma_identifiers_less_irreflexive(text::split(version.pre, '.'));
    }
}

/// A version older than one that is older than a third is older than the third.
pub proof fn law_older_than_is_transitive(
    first: VersionView,
    second: VersionView,
    third: VersionView,
)
    requires
        first.older_than(second),
        second.older_than(third),
    ensures
        first.older_than(third),
{
    if prerelease_less(first.pre, second.pre) && prerelease_less(second.pre, third.pre)
        && third.pre.len() > 0 {
        lemma_identifiers_less_transitive(
            text::split(first.pre, '.'),
            text::split(second.pre, '.'),
            text::split(third.pre, '.'),
        );
    }
}

/// Of two versions that differ in more than their build metadata, one is older than the other.
pub proof fn law_older_than_is_total(left: VersionView, right: VersionView)
    requires
        left.wf(),
        right.wf(),
    ensures
        left.older_than(right) || right.older_than(left) || left.without_build()
            == right.without_build(),
{
    if left.major == right.major && left.minor == right.minor && left.patch == right.patch {
        if left.pre.len() > 0 && right.pre.len() > 0 {
            lemma_identifiers_total(text::split(left.pre, '.'), text::split(right.pre, '.'));
            if text::split(left.pre, '.') == text::split(right.pre, '.') {
                text::lemma_split_unique(left.pre, right.pre, '.');
            }
        } else if left.pre.len() == 0 && right.pre.len() == 0 {
            assert(left.pre =~= right.pre);
        }
    }
}

proof fn lemma_identifiers_total(left: Seq<Seq<char>>, right: Seq<Seq<char>>)
    requires
        forall|i: int|
            0 <= i < left.len() ==> is_identifier(#[trigger] left[i]) && no_leading_zero(left[i]),
        forall|i: int|
            0 <= i < right.len() ==> is_identifier(#[trigger] right[i]) && no_leading_zero(right[i]),
    ensures
        identifiers_less(left, right) || identifiers_less(right, left) || left == right,
    decreases left.len(),
{
    if left.len() == 0 || right.len() == 0 {
        if left.len() == 0 && right.len() == 0 {
            assert(left =~= right);
        }
    } else if left[0] == right[0] {
        lemma_identifiers_total(left.skip(1), right.skip(1));
        if left.skip(1) == right.skip(1) {
            assert(left =~= seq![left[0]] + left.skip(1));
            assert(right =~= seq![right[0]] + right.skip(1));
        }
    } else if text::all_digits(left[0]) && text::all_digits(right[0]) {
        if text::decimal_value(left[0]) == text::decimal_value(right[0]) {
            text::lemma_decimal_value_unique(left[0], right[0]);
        }
    } else {
        text::lemma_text_less_total(left[0], right[0]);
    }
}

/// The numbers decide first, the major one before the minor one and that before the patch; a
/// version with the same numbers as another is not older than it where neither is a pre-release.
pub proof fn law_numbers_decide(left: VersionView, right: VersionView)
    ensures
        left.major < right.major ==> left.older_than(right) && !right.older_than(left),
        left.major == right.major && left.minor < right.minor ==> left.older_than(right)
            && !right.older_than(left),
        left.major == right.major && left.minor == right.minor && left.patch < right.patch
            ==> left.older_than(right) && !right.older_than(left),
        left.major == right.major && left.minor == right.minor && left.patch == right.patch
            && left.pre == right.pre ==> !left.older_than(right) && !right.older_than(left),
{
    if left.pre == right.pre && left.pre.len() > 0 {
        lemma_identifiers_less_irreflexive(text::split(left.pre, '.'));
    }
}

/// A pre-release is older than the release with its numbers.
pub proof fn law_prerelease_is_older_than_its_release(version: VersionView, build: Seq<char>)
    requires
        version.pre.len() > 0,
    ensures
        version.older_than(VersionView { pre: seq![], build, ..version }),
        !(VersionView { pre: seq![], build, ..version }).older_than(version),
{
}

/// Build metadata makes no difference to precedence.
pub proof fn law_build_has_no_precedence(
    left: VersionView,
    right: VersionView,
    left_build: Seq<char>,
    right_build: Seq<char>,
)
    ensures
        left.older_than(right) == (VersionView { build: left_build, ..left }).older_than(
            VersionView { build: right_build, ..right },
        ),
{
}

/// Between two pre-releases of the same numbers the first identifier decides in which they differ;
/// where one has all identifiers of the other and more, it is the newer one.
pub proof fn law_first_identifier_that_differs_decides(
    left: VersionView,
    right: VersionView,
    same: int,
)
    requires
        left.major == right.major,
        left.minor == right.minor,
        left.patch == right.patch,
        left.pre.len() > 0,
        right.pre.len() > 0,
        0 <= same <= text::split(left.pre, '.').len(),
        same <= text::split(right.pre, '.').len(),
        text::split(left.pre, '.').take(same) == text::split(right.pre, '.').take(same),
        same < text::split(left.pre, '.').len() && same < text::split(right.pre, '.').len()
            ==> text::split(left.pre, '.')[same] != text::split(right.pre, '.')[same],
    ensures
        left.older_than(right) <==> same < text::split(right.pre, '.').len() && (same
            == text::split(left.pre, '.').len() || identifier_less(
            text::split(left.pre, '.')[same],
            text::split(right.pre, '.')[same],
        )),
{
    lemma_first_identifier_decides(
        text::split(left.pre, '.'),
        text::split(right.pre, '.'),
        same,
    );
}

proof fn lemma_first_identifier_decides(left: Seq<Seq<char>>, right: Seq<Seq<char>>, same: int)
    requires
        0 <= same <= left.len(),
        same <= right.len(),
        left.take(same) == right.take(same),
        same < left.len() && same < right.len() ==> left[same] != right[same],
    ensures
        identifiers_less(left, right) <==> same < right.len() && (same == left.len()
            || identifier_less(left[same], right[same])),
    decreases same,
{
    if same > 0 {
        assert(left[0] == left.take(same)[0]);
        assert(right[0] == right.take(same)[0]);
        assert(left.skip(1).take(same - 1) =~= left.take(same).skip(1));
        assert(right.skip(1).take(same - 1) =~= right.take(same).skip(1));
        lemma_first_identifier_decides(left.skip(1), right.skip(1), same - 1);
    }
}

/// Of two identifiers the lower number comes first, a number comes before what is none, and of two
/// that are no numbers the one that comes first as text.
pub proof fn law_order_of_identifiers(
    left: nat,
    right: nat,
    left_text: Seq<char>,
    right_text: Seq<char>,
)
    requires
        exists|i: int| 0 <= i < left_text.len() && !text::is_digit(#[trigger] left_text[i]),
        exists|i: int| 0 <= i < right_text.len() && !text::is_digit(#[trigger] right_text[i]),
    ensures
        identifier_less(text::decimal(left), text::decimal(right)) == (left < right),
        identifier_less(text::decimal(left), right_text),
        !identifier_less(right_text, text::decimal(left)),
        identifier_less(left_text, right_text) == text::text_less(left_text, right_text),
{
    text::lemma_decimal(left);
    text::lemma_decimal(right);
    assert(!text::all_digits(left_text));
    assert(!text::all_digits(right_text));
}

/// The text of a version has its numbers in base ten with dots between them, then its pre-release
/// behind a hyphen, then its build metadata behind a plus sign.
#[verifier::rlimit(50)]
pub proof fn law_text_of_a_version(version: VersionView)
    ensures
        ({
            let numbers = VersionView { pre: seq![], build: seq![], ..version };
            let plain = VersionView { build: seq![], ..version };
            &&& numbers.render() == text::joined(
                seq![
                    text::decimal(version.major as nat),
                    text::decimal(version.minor as nat),
                    text::decimal(version.patch as nat),
                ],
                '.',
            )
            &&& version.pre.len() > 0 ==> plain.render() == numbers.render() + seq!['-']
                + version.pre
            &&& version.build.len() > 0 ==> version.render() == plain.render() + seq!['+']
                + version.build
            &&& version.release() == numbers
            &&& version.without_build() == plain
        }),
{
    let numbers = VersionView { pre: seq![], build: seq![], ..version };
    let plain = VersionView { build: seq![], ..version };
    let pieces = seq![
        text::decimal(version.major as nat),
        text::decimal(version.minor as nat),
        text::decimal(version.patch as nat),
    ];
    reveal_with_fuel(text::joined, 4);
    assert(pieces.drop_last() =~= seq![pieces[0], pieces[1]]);
    assert(pieces.drop_last().drop_last() =~= seq![pieces[0]]);
    assert(numbers.render() =~= text::joined(pieces, '.'));
    if version.pre.len() > 0 {
        assert(plain.render() =~= numbers.render() + seq!['-'] + version.pre);
    } else {
        assert(version.pre =~= seq![]);
    }
    if version.build.len() > 0 {
        assert(version.render() =~= plain.render() + seq!['+'] + version.build);
    }
}

} // verus!
