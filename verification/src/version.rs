//! Versions: semantic versions, numeric revisions and free-form tags, and
//! the version that a tool reports of itself.

use vstd::prelude::*;
use vstd::string::StringExecFns;
use vstd::utf8::decode_utf8;
use vstd::utf8::valid_utf8;
use crate::text::decimal;
use crate::text::decimal_string;
use crate::text::find_from;
use crate::text::first_at;
use crate::text::from_chars;
use crate::text::to_chars;
use crate::text::trimmed;
use crate::text::utf8_text;

verus! {

/// What a semantic version holds.
pub struct VersionView {
    pub major: u64,
    pub minor: u64,
    pub patch: u64,
    pub pre: Seq<char>,
    pub build: Seq<char>,
}

/// A semantic version. Its pre-release and build texts are ones that the
/// `semver` crate accepts, so that it can always be handed back to it.
#[derive(Debug, PartialEq, Eq)]
pub struct Version {
    major: u64,
    minor: u64,
    patch: u64,
    pre: String,
    build: String,
}

/// What `semver::Version::parse` makes of a text: the version it reads, or
/// nothing where it reports an error.
pub uninterp spec fn semver_parsed(text: Seq<char>) -> Option<VersionView>;

/// Whether `semver::Prerelease::new` accepts a text.
pub uninterp spec fn prerelease_accepted(text: Seq<char>) -> bool;

/// Whether `semver::BuildMetadata::new` accepts a text.
pub uninterp spec fn build_accepted(text: Seq<char>) -> bool;

/// Whether, of two versions with the same three numbers, `semver` orders the
/// first at or after the second, going by their pre-release texts and then by
/// their build texts.
pub uninterp spec fn tail_at_least(
    pre: Seq<char>,
    build: Seq<char>,
    other_pre: Seq<char>,
    other_build: Seq<char>,
) -> bool;

/// Semantic-version precedence, read as "`a` is `b` or comes after it": the
/// three numbers decide in turn, and where they tie the pre-release and
/// build texts do.
pub open spec fn at_least(a: VersionView, b: VersionView) -> bool {
    if a.major != b.major {
        a.major > b.major
    } else if a.minor != b.minor {
        a.minor > b.minor
    } else if a.patch != b.patch {
        a.patch > b.patch
    } else {
        tail_at_least(a.pre, a.build, b.pre, b.build)
    }
}

/// The text of a version: the three numbers between dots, then the
/// pre-release text after a hyphen and the build text after a plus sign,
/// each only where it is not empty.
pub open spec fn version_text(v: VersionView) -> Seq<char> {
    decimal(v.major as nat) + "."@ + decimal(v.minor as nat) + "."@ + decimal(v.patch as nat) + (
    if v.pre.len() > 0 {
        "-"@ + v.pre
    } else {
        Seq::empty()
    }) + (if v.build.len() > 0 {
        "+"@ + v.build
    } else {
        Seq::empty()
    })
}

/// Calls `semver::Version::parse`. The result is what that function reads,
/// field by field; its pre-release and build texts are ones that
/// `Prerelease::new` and `BuildMetadata::new` accept, since `parse` reads
/// them by the same grammar.
#[verifier::external_body]
fn semver_parse(text: &str) -> (r: Option<Version>)
    ensures
        match r {
            Some(v) => semver_parsed(text@) == Some(v@) && prerelease_accepted(v.pre@)
                && build_accepted(v.build@),
            None => semver_parsed(text@) is None,
        },
{
    match semver::Version::parse(text) {
        Ok(v) => Some(
            Version {
                major: v.major,
                minor: v.minor,
                patch: v.patch,
                pre: v.pre.as_str().to_owned(),
                build: v.build.as_str().to_owned(),
            },
        ),
        Err(_) => None,
    }
}

/// Calls `semver::Version::new`, which gives the three numbers an empty
/// pre-release and an empty build text: the constants `Prerelease::EMPTY`
/// and `BuildMetadata::EMPTY`, which are what the two `new` return for the
/// empty text.
#[verifier::external_body]
fn semver_new(major: u64, minor: u64, patch: u64) -> (r: Version)
    ensures
        r@ == (VersionView { major, minor, patch, pre: Seq::empty(), build: Seq::empty() }),
        prerelease_accepted(r.pre@),
        build_accepted(r.build@),
{
    let v = semver::Version::new(major, minor, patch);
    Version {
        major: v.major,
        minor: v.minor,
        patch: v.patch,
        pre: v.pre.as_str().to_owned(),
        build: v.build.as_str().to_owned(),
    }
}

/// Compares by the order that `semver::Version` derives: major, minor and
/// patch as numbers, in that order, then the pre-release texts, then the
/// build texts. Versions that are the same in every field compare equal.
#[verifier::external_body]
fn semver_at_least(a: &Version, b: &Version) -> (r: bool)
    requires
        prerelease_accepted(a.pre@),
        build_accepted(a.build@),
        prerelease_accepted(b.pre@),
        build_accepted(b.build@),
    ensures
        a@ == b@ ==> r,
        r == if a.major != b.major {
            a.major > b.major
        } else if a.minor != b.minor {
            a.minor > b.minor
        } else if a.patch != b.patch {
            a.patch > b.patch
        } else {
            tail_at_least(a.pre@, a.build@, b.pre@, b.build@)
        },
{
    let left = semver::Version {
        major: a.major,
        minor: a.minor,
        patch: a.patch,
        pre: semver::Prerelease::new(&a.pre).unwrap(),
        build: semver::BuildMetadata::new(&a.build).unwrap(),
    };
    let right = semver::Version {
        major: b.major,
        minor: b.minor,
        patch: b.patch,
        pre: semver::Prerelease::new(&b.pre).unwrap(),
        build: semver::BuildMetadata::new(&b.build).unwrap(),
    };
    left >= right
}

impl View for Version {
    type V = VersionView;

    closed spec fn view(&self) -> VersionView {
        VersionView {
            major: self.major,
            minor: self.minor,
            patch: self.patch,
            pre: self.pre@,
            build: self.build@,
        }
    }
}

impl Clone for Version {
    fn clone(&self) -> (r: Version)
        ensures
            r@ == self@,
    {
        self.duplicate()
    }
}

impl Version {
    #[verifier::type_invariant]
    spec fn accepted(self) -> bool {
        prerelease_accepted(self.pre@) && build_accepted(self.build@)
    }

    /// The version `major.minor.patch`.
    pub fn new(major: u64, minor: u64, patch: u64) -> (r: Version)
        ensures
            r@ == (VersionView { major, minor, patch, pre: Seq::empty(), build: Seq::empty() }),
    {
        semver_new(major, minor, patch)
    }

    /// Reads a semantic version, as the `semver` crate does.
    pub fn parse(text: &str) -> (r: Option<Version>)
        ensures
            match r {
                Some(v) => semver_parsed(text@) == Some(v@),
                None => semver_parsed(text@) is None,
            },
    {
        semver_parse(text)
    }

    pub fn major(&self) -> (r: u64)
        ensures
            r == self@.major,
    {
        self.major
    }

    pub fn minor(&self) -> (r: u64)
        ensures
            r == self@.minor,
    {
        self.minor
    }

    pub fn patch(&self) -> (r: u64)
        ensures
            r == self@.patch,
    {
        self.patch
    }

    pub fn pre(&self) -> (r: &str)
        ensures
            r@ == self@.pre,
    {
        self.pre.as_str()
    }

    pub fn build(&self) -> (r: &str)
        ensures
            r@ == self@.build,
    {
        self.build.as_str()
    }

    /// Whether this version is `other` or comes after it. A version is
    /// always at least itself.
    pub fn at_least(&self, other: &Version) -> (r: bool)
        ensures
            r == at_least(self@, other@),
            self@ == other@ ==> r,
    {
        proof {
            use_type_invariant(self);
            use_type_invariant(other);
        }
        semver_at_least(self, other)
    }

    /// Whether two versions are the same, build text included.
    pub fn same(&self, other: &Version) -> (r: bool)
        ensures
            r == (self@ == other@),
    {
        self.major == other.major && self.minor == other.minor && self.patch == other.patch
            && self.pre == other.pre && self.build == other.build
    }

    /// A copy of this version.
    pub fn duplicate(&self) -> (r: Version)
        ensures
            r@ == self@,
    {
        proof {
            use_type_invariant(self);
        }
        Version {
            major: self.major,
            minor: self.minor,
            patch: self.patch,
            pre: self.pre.clone(),
            build: self.build.clone(),
        }
    }

    /// The version as text.
    pub fn to_string(&self) -> (r: String)
        ensures
            r@ == version_text(self@),
    {
        let mut r = decimal_string(self.major);
        r.append(".");
        r.append(decimal_string(self.minor).as_str());
        r.append(".");
        r.append(decimal_string(self.patch).as_str());
        if self.pre.as_str().unicode_len() > 0 {
            r.append("-");
            r.append(self.pre.as_str());
        }
        assert(r@ =~= decimal(self.major as nat) + "."@ + decimal(self.minor as nat) + "."@
            + decimal(self.patch as nat) + (if self@.pre.len() > 0 {
            "-"@ + self@.pre
        } else {
            Seq::empty()
        }));
        if self.build.as_str().unicode_len() > 0 {
            r.append("+");
            r.append(self.build.as_str());
        }
        assert(r@ =~= version_text(self@));
        r
    }
}


/// The view of an optional version.
pub open spec fn view_of(version: Option<Version>) -> Option<VersionView> {
    match version {
        Some(v) => Some(v@),
        None => None,
    }
}

/// The version `major.0.0`.
pub open spec fn whole(major: u64) -> VersionView {
    VersionView { major, minor: 0, patch: 0, pre: Seq::empty(), build: Seq::empty() }
}

pub open spec fn is_digit(c: char) -> bool {
    '0' <= c <= '9'
}

/// The number that a sequence of decimal digits writes.
pub open spec fn digits_value(s: Seq<char>) -> nat
    decreases s.len(),
{
    if s.len() == 0 {
        0
    } else {
        digits_value(s.drop_last()) * 10 + ((s.last() as u32 - '0' as u32) as nat)
    }
}

/// Whether `s` holds decimal digits only.
pub open spec fn all_digits(s: Seq<char>) -> bool {
    forall|i: int| 0 <= i < s.len() ==> is_digit(#[trigger] s[i])
}

/// The number that one or more decimal digits write, where it fits `u64`.
pub open spec fn digits_number(digits: Seq<char>) -> Option<u64> {
    if digits.len() > 0 && all_digits(digits) && digits_value(digits) <= u64::MAX {
        Some(digits_value(digits) as u64)
    } else {
        None
    }
}

/// The number that `text` writes, as `u64`'s `from_str` reads it: an optional
/// plus sign, then one or more decimal digits whose value fits the type.
pub open spec fn unsigned_number(text: Seq<char>) -> Option<u64> {
    if text.len() > 0 && text[0] == '+' {
        digits_number(text.skip(1))
    } else {
        digits_number(text)
    }
}

/// The number of a revision tag: the letter `r`, then a number.
pub open spec fn revision(tag: Seq<char>) -> Option<u64> {
    if tag.len() > 0 && tag[0] == 'r' {
        unsigned_number(tag.skip(1))
    } else {
        None
    }
}

proof fn lemma_digits_grow(s: Seq<char>, i: int, j: int)
    requires
        0 <= i <= j <= s.len(),
        forall|k: int| 0 <= k < j ==> is_digit(#[trigger] s[k]),
    ensures
        digits_value(s.take(i)) <= digits_value(s.take(j)),
    decreases j - i,
{
    if i < j {
        lemma_digits_grow(s, i, j - 1);
        assert(s.take(j).drop_last() =~= s.take(j - 1));
    }
}

/// Reads the digits `v[from..]` as a number.
fn read_digits(v: &Vec<char>, from: usize) -> (r: Option<u64>)
    requires
        from <= v.len(),
    ensures
        r == digits_number(v@.skip(from as int)),
{
    let ghost digits = v@.skip(from as int);
    if from == v.len() {
        return None;
    }
    let mut value: u64 = 0;
    let mut i: usize = from;
    while i < v.len()
        invariant
            from <= i <= v.len(),
            digits == v@.skip(from as int),
            forall|k: int| 0 <= k < i - from ==> is_digit(#[trigger] digits[k]),
            value == digits_value(digits.take(i - from)),
        decreases v.len() - i,
    {
        let c: char = v[i];
        if !(c >= '0' && c <= '9') {
            assert(!is_digit(digits[i - from]));
            return None;
        }
        let d: u64 = (c as u32 - '0' as u32) as u64;
        proof {
            assert(digits.take(i - from + 1).drop_last() =~= digits.take(i - from));
            assert(digits.take(i - from + 1).last() == c);
        }
        if value > (u64::MAX - d) / 10 {
            proof {
                assert(digits_value(digits.take(i - from + 1)) > u64::MAX);
                if all_digits(digits) {
                    lemma_digits_grow(digits, i - from + 1, digits.len() as int);
                    assert(digits.take(digits.len() as int) =~= digits);
                }
            }
            return None;
        }
        value = value * 10 + d;
        i += 1;
    }
    assert(digits.take(digits.len() as int) =~= digits);
    Some(value)
}

/// Reads `v[from..]` as `u64`'s `from_str` would.
fn read_unsigned(v: &Vec<char>, from: usize) -> (r: Option<u64>)
    requires
        from <= v.len(),
    ensures
        r == unsigned_number(v@.skip(from as int)),
{
    let ghost text = v@.skip(from as int);
    if from < v.len() && v[from] == '+' {
        assert(text[0] == '+');
        assert(text.skip(1) =~= v@.skip(from + 1));
        read_digits(v, from + 1)
    } else {
        assert(text.len() > 0 ==> text[0] == v@[from as int]);
        read_digits(v, from)
    }
}

/// Reads a revision tag such as `r38`: the version `38.0.0`.
pub fn parse_revision(tag: &str) -> (r: Option<Version>)
    ensures
        view_of(r) == match revision(tag@) {
            Some(n) => Some(whole(n)),
            None => None,
        },
{
    let chars = to_chars(tag);
    if chars.len() > 0 && chars[0] == 'r' {
        match read_unsigned(&chars, 1) {
            Some(n) => Some(Version::new(n, 0, 0)),
            None => None,
        }
    } else {
        None
    }
}

/// What a release tag stands for.
pub enum ReleaseVersionView {
    Version(VersionView),
    Tag(Seq<char>),
}

/// The version of a release: a semantic version where its tag reads as one
/// or as a revision, else the tag itself, which is never ordered.
#[derive(Debug)]
pub enum ReleaseVersion {
    Version(Version),
    Tag(String),
}

impl View for ReleaseVersion {
    type V = ReleaseVersionView;

    open spec fn view(&self) -> ReleaseVersionView {
        match self {
            ReleaseVersion::Version(v) => ReleaseVersionView::Version(v@),
            ReleaseVersion::Tag(tag) => ReleaseVersionView::Tag(tag@),
        }
    }
}

/// `text` without one leading `v`.
pub open spec fn without_v(text: Seq<char>) -> Seq<char> {
    if text.len() > 0 && text[0] == 'v' {
        text.skip(1)
    } else {
        text
    }
}

/// What a tag stands for: the revision it names; else the semantic version
/// that is left when one leading `v` is dropped; else the tag.
pub open spec fn release_version(tag: Seq<char>) -> ReleaseVersionView {
    match revision(tag) {
        Some(n) => ReleaseVersionView::Version(whole(n)),
        None => match semver_parsed(without_v(tag)) {
            Some(v) => ReleaseVersionView::Version(v),
            None => ReleaseVersionView::Tag(tag),
        },
    }
}

/// The text of a release version.
pub open spec fn release_version_text(version: ReleaseVersionView) -> Seq<char> {
    match version {
        ReleaseVersionView::Version(v) => version_text(v),
        ReleaseVersionView::Tag(tag) => tag,
    }
}

impl ReleaseVersion {
    /// Reads a release tag. Every tag is read as something: there is no
    /// error.
    pub fn new(tag: &str) -> (r: ReleaseVersion)
        ensures
            r@ == release_version(tag@),
    {
        match parse_revision(tag) {
            Some(version) => ReleaseVersion::Version(version),
            None => {
                let chars = to_chars(tag);
                if chars.len() > 0 && chars[0] == 'v' {
                    let rest = from_chars(&chars, 1, chars.len());
                    assert(rest@ =~= without_v(tag@));
                    ReleaseVersion::from_parsed(tag, Version::parse(rest.as_str()))
                } else {
                    ReleaseVersion::from_parsed(tag, Version::parse(tag))
                }
            },
        }
    }

    /// The release version of a tag that is no revision, given what the
    /// semantic-version parser made of it: that version, or the tag.
    pub fn from_parsed(tag: &str, parsed: Option<Version>) -> (r: ReleaseVersion)
        ensures
            r@ == match parsed {
                Some(v) => ReleaseVersionView::Version(v@),
                None => ReleaseVersionView::Tag(tag@),
            },
    {
        match parsed {
            Some(version) => ReleaseVersion::Version(version),
            None => ReleaseVersion::Tag(String::from_str(tag)),
        }
    }

    /// A copy of this release version.
    pub fn duplicate(&self) -> (r: ReleaseVersion)
        ensures
            r@ == self@,
    {
        match self {
            ReleaseVersion::Version(v) => ReleaseVersion::Version(v.duplicate()),
            ReleaseVersion::Tag(tag) => ReleaseVersion::Tag(tag.clone()),
        }
    }

    /// The release version as text: the version, or the tag as it came.
    pub fn to_string(&self) -> (r: String)
        ensures
            r@ == release_version_text(self@),
    {
        match self {
            ReleaseVersion::Version(v) => v.to_string(),
            ReleaseVersion::Tag(tag) => tag.clone(),
        }
    }
}

/// How a tool is asked for its version.
#[derive(Clone, Copy, Debug, PartialEq, Eq, Structural)]
pub enum VersionSource {
    /// `tool --version`
    Flag,
    /// `tool version`
    Command,
}

impl Default for VersionSource {
    fn default() -> (r: VersionSource)
        ensures
            r == VersionSource::Flag,
    {
        VersionSource::Flag
    }
}

impl VersionSource {
    /// The argument that the tool is run with.
    pub fn argument(&self) -> (r: &'static str)
        ensures
            r@ == match *self {
                VersionSource::Flag => "--version"@,
                VersionSource::Command => "version"@,
            },
    {
        match self {
            VersionSource::Flag => "--version",
            VersionSource::Command => "version",
        }
    }

    /// The name of the method in a configuration file.
    pub fn name(&self) -> (r: &'static str)
        ensures
            r@ == match *self {
                VersionSource::Flag => "flag"@,
                VersionSource::Command => "command"@,
            },
    {
        match self {
            VersionSource::Flag => "flag",
            VersionSource::Command => "command",
        }
    }
}

/// Where a version token ends: at a space or a hyphen.
pub open spec fn is_break(c: char) -> bool {
    c == ' ' || c == '-'
}

/// The index of the first break in `s` at or after `from`, or the length of
/// `s`.
pub open spec fn first_break(s: Seq<char>, from: int) -> int
    decreases s.len() - from,
{
    if from >= s.len() {
        s.len() as int
    } else if from >= 0 && is_break(s[from]) {
        from
    } else {
        first_break(s, from + 1)
    }
}

/// The pieces of `s` between its breaks, each without one leading `v`.
/// These are the words of `s` between spaces, cut again at hyphens.
pub open spec fn tokens(s: Seq<char>) -> Seq<Seq<char>>
    decreases s.len(),
{
    let at = first_break(s, 0);
    if 0 <= at < s.len() {
        seq![without_v(s.take(at))] + tokens(s.skip(at + 1))
    } else {
        seq![without_v(s)]
    }
}

/// The first line of `s`, without its line break.
pub open spec fn first_line(s: Seq<char>) -> Seq<char> {
    s.take(first_at(s, '\n', 0))
}

/// The first of `tokens` that reads as a semantic version.
pub open spec fn first_parsed(tokens: Seq<Seq<char>>) -> Option<VersionView>
    decreases tokens.len(),
{
    if tokens.len() == 0 {
        None
    } else {
        match semver_parsed(tokens[0]) {
            Some(v) => Some(v),
            None => first_parsed(tokens.skip(1)),
        }
    }
}

/// The version that a tool's output reports: the revision, if the whole
/// output without surrounding white space is one; else the first token of
/// its first line that reads as a semantic version.
pub open spec fn reported_version(stdout: Seq<char>) -> Option<VersionView> {
    match revision(trimmed(stdout)) {
        Some(n) => Some(whole(n)),
        None => first_parsed(tokens(first_line(stdout))),
    }
}

proof fn lemma_first_break(s: Seq<char>, from: int, at: int)
    requires
        0 <= from <= at <= s.len(),
        forall|k: int| from <= k < at ==> !is_break(#[trigger] s[k]),
        at < s.len() ==> is_break(s[at]),
    ensures
        first_break(s, from) == at,
    decreases at - from,
{
    if from < at {
        lemma_first_break(s, from + 1, at);
    }
}

/// The tokens of the first line of `stdout` among which a version is looked
/// for: the words between spaces, cut again at hyphens, each without one
/// leading `v`.
pub fn version_tokens(stdout: &str) -> (r: Vec<String>)
    ensures
        crate::util::texts(r@) == tokens(first_line(stdout@)),
{
    let chars = to_chars(stdout);
    let end: usize = find_from(&chars, '\n', 0);
    let ghost line = chars@.take(end as int);
    let mut found: Vec<String> = Vec::new();
    let mut start: usize = 0;
    let mut i: usize = 0;
    assert(line.skip(0) =~= line);
    assert(crate::util::texts(found@) + tokens(line) =~= tokens(line));
    while i < end
        invariant
            start <= i <= end <= chars.len(),
            line == chars@.take(end as int),
            forall|k: int| start <= k < i ==> !is_break(#[trigger] line[k]),
            crate::util::texts(found@) + tokens(line.skip(start as int)) == tokens(line),
        decreases end - i,
    {
        let c: char = chars[i];
        if c == ' ' || c == '-' {
            let from: usize = if start < i && chars[start] == 'v' {
                start + 1
            } else {
                start
            };
            let token = from_chars(&chars, from, i);
            proof {
                let rest = line.skip(start as int);
                assert forall|k: int| 0 <= k < i - start implies !is_break(#[trigger] rest[k]) by {
                    assert(rest[k] == line[start + k]);
                }
                lemma_first_break(rest, 0, i - start);
                assert(rest.skip(i - start + 1) =~= line.skip(i + 1));
                assert(token@ =~= without_v(rest.take(i - start)));
                let before = crate::util::texts(found@);
                let after = crate::util::texts(found@.push(token));
                assert(after =~= before + seq![token@]);
                assert(before + (seq![token@] + tokens(line.skip(i + 1))) =~= after + tokens(
                    line.skip(i + 1),
                ));
            }
            found.push(token);
            start = i + 1;
        }
        i += 1;
    }
    let from: usize = if start < end && chars[start] == 'v' {
        start + 1
    } else {
        start
    };
    let token = from_chars(&chars, from, end);
    proof {
        let rest = line.skip(start as int);
        assert forall|k: int| 0 <= k < end - start implies !is_break(#[trigger] rest[k]) by {
            assert(rest[k] == line[start + k]);
        }
        lemma_first_break(rest, 0, end - start);
        assert(token@ =~= without_v(rest));
        let before = crate::util::texts(found@);
        let after = crate::util::texts(found@.push(token));
        assert(after =~= before + seq![token@]);
        assert(line.skip(0) =~= line);
    }
    found.push(token);
    found
}

/// The first of `tokens` that reads as a semantic version.
pub fn first_version(tokens: &Vec<String>) -> (r: Option<Version>)
    ensures
        view_of(r) == first_parsed(crate::util::texts(tokens@)),
{
    let ghost all = crate::util::texts(tokens@);
    let mut i: usize = 0;
    assert(all.skip(0) =~= all);
    while i < tokens.len()
        invariant
            i <= tokens.len(),
            all == crate::util::texts(tokens@),
            first_parsed(all) == first_parsed(all.skip(i as int)),
        decreases tokens.len() - i,
    {
        assert(all.skip(i as int)[0] == tokens@[i as int]@);
        assert(all.skip(i as int).skip(1) =~= all.skip(i + 1));
        match Version::parse(tokens[i].as_str()) {
            Some(version) => {
                return Some(version);
            },
            None => {},
        }
        i += 1;
    }
    None
}

/// Finds the version in what a tool printed when asked for it.
pub fn parse_binary_version(stdout: &str) -> (r: Option<Version>)
    ensures
        view_of(r) == reported_version(stdout@),
{
    match parse_revision(stdout.trim()) {
        Some(version) => Some(version),
        None => {
            let tokens = version_tokens(stdout);
            first_version(&tokens)
        },
    }
}

/// What came of running a tool to ask for its version.
pub struct ProbeOutput {
    /// Whether the tool exited with success.
    pub success: bool,
    /// What it wrote to its standard output.
    pub stdout: Vec<u8>,
}

/// The version that a probe shows: none if the tool could not be run, did
/// not exit with success or wrote no text; else what its output reports.
pub open spec fn probed_version(probe: Option<ProbeOutput>) -> Option<VersionView> {
    match probe {
        Some(output) => if output.success && valid_utf8(output.stdout@) {
            reported_version(decode_utf8(output.stdout@))
        } else {
            None
        },
        None => None,
    }
}

/// The installed version of a tool, from the probe that ran it; `None` as
/// the probe where the tool could not be run. Detection is best effort: a
/// failure of any kind gives no version, never an error.
pub fn get_binary_version(probe: Option<&ProbeOutput>) -> (r: Option<Version>)
    ensures
        view_of(r) == probed_version(
            match probe {
                Some(output) => Some(*output),
                None => None,
            },
        ),
{
    match probe {
        Some(output) => {
            if !output.success {
                return None;
            }
            match utf8_text(output.stdout.as_slice()) {
                Some(text) => parse_binary_version(text),
                None => None,
            }
        },
        None => None,
    }
}

} // verus!
