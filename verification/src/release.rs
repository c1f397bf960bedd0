//! Releases: the assets of a project's latest release, the matchers that
//! are synthesised for the platform when the user gave none, and the choice
//! of the one asset to install.

use vstd::prelude::*;
use vstd::string::StringExecFns;
use crate::matcher::matched;
use crate::matcher::regex_accepted;
use crate::matcher::Matcher;
use crate::matcher::MatcherView;
use crate::matcher::RegexPattern;
use crate::project::Project;
use crate::text::chars_eq;
use crate::text::from_chars;
use crate::text::str_eq;
use crate::text::to_chars;
use crate::util::bullet_list;
use crate::util::format_list;
use crate::util::lemma_bullet_list_names_every_item;
use crate::util::lemma_occurs_within;
use crate::util::lemma_texts_push;
use crate::util::occurs;
use crate::util::texts;
use crate::version::release_version;
use crate::version::release_version_text;
use crate::version::ReleaseVersion;

verus! {

/// An operating system for which release assets are looked for.
#[derive(Clone, Copy, Debug, PartialEq, Eq, Structural)]
pub enum Os {
    Linux,
    MacOs,
}

/// A processor architecture for which release assets are looked for.
#[derive(Clone, Copy, Debug, PartialEq, Eq, Structural)]
pub enum Arch {
    AArch64,
    X86_64,
}

/// The supported operating system that a name stands for, by the names
/// that Rust gives its targets' systems.
pub open spec fn os_named(name: Seq<char>) -> Option<Os> {
    if name == "linux"@ {
        Some(Os::Linux)
    } else if name == "macos"@ {
        Some(Os::MacOs)
    } else {
        None
    }
}

/// The supported architecture that a name stands for, by the names that
/// Rust gives its targets' architectures.
pub open spec fn arch_named(name: Seq<char>) -> Option<Arch> {
    if name == "aarch64"@ {
        Some(Arch::AArch64)
    } else if name == "x86_64"@ {
        Some(Arch::X86_64)
    } else {
        None
    }
}

/// An operating system as the `platforms` crate knows it by name.
#[derive(Clone, Copy, Debug, PartialEq, Eq, Structural)]
enum KnownOs {
    Linux,
    MacOs,
    Other,
}

/// An architecture as the `platforms` crate knows it by name.
#[derive(Clone, Copy, Debug, PartialEq, Eq, Structural)]
enum KnownArch {
    AArch64,
    X86_64,
    Other,
}

/// Calls `platforms::OS::from_str`, which knows a system by its lower-case
/// name: Linux by `linux` alone, macOS by `macos` alone.
#[verifier::external_body]
fn known_os(name: &str) -> (r: Option<KnownOs>)
    ensures
        r == Some(KnownOs::Linux) <==> name@ == "linux"@,
        r == Some(KnownOs::MacOs) <==> name@ == "macos"@,
{
    match <platforms::OS as std::str::FromStr>::from_str(name) {
        Ok(platforms::OS::Linux) => Some(KnownOs::Linux),
        Ok(platforms::OS::MacOS) => Some(KnownOs::MacOs),
        Ok(_) => Some(KnownOs::Other),
        Err(_) => None,
    }
}

/// Calls `platforms::Arch::from_str`, which knows an architecture by its
/// lower-case name: AArch64 by `aarch64` alone, x86-64 by `x86_64` alone.
#[verifier::external_body]
fn known_arch(name: &str) -> (r: Option<KnownArch>)
    ensures
        r == Some(KnownArch::AArch64) <==> name@ == "aarch64"@,
        r == Some(KnownArch::X86_64) <==> name@ == "x86_64"@,
{
    match <platforms::Arch as std::str::FromStr>::from_str(name) {
        Ok(platforms::Arch::AArch64) => Some(KnownArch::AArch64),
        Ok(platforms::Arch::X86_64) => Some(KnownArch::X86_64),
        Ok(_) => Some(KnownArch::Other),
        Err(_) => None,
    }
}

/// The supported operating system that a name stands for: of all that are
/// known, Linux and macOS are supported.
pub fn parse_os(name: &str) -> (r: Option<Os>)
    ensures
        r == os_named(name@),
{
    match known_os(name) {
        Some(KnownOs::Linux) => Some(Os::Linux),
        Some(KnownOs::MacOs) => Some(Os::MacOs),
        Some(KnownOs::Other) => None,
        None => None,
    }
}

/// The supported architecture that a name stands for: of all that are
/// known, AArch64 and x86-64 are supported.
pub fn parse_arch(name: &str) -> (r: Option<Arch>)
    ensures
        r == arch_named(name@),
{
    match known_arch(name) {
        Some(KnownArch::AArch64) => Some(Arch::AArch64),
        Some(KnownArch::X86_64) => Some(Arch::X86_64),
        Some(KnownArch::Other) => None,
        None => None,
    }
}

/// The characters that have a meaning in a regular expression: the meta
/// characters of the `regex` crate, which are a fixed set.
pub open spec fn is_meta(c: char) -> bool {
    c == '\\' || c == '.' || c == '+' || c == '*' || c == '?' || c == '(' || c == ')' || c == '|'
        || c == '[' || c == ']' || c == '{' || c == '}' || c == '^' || c == '$' || c == '#' || c
        == '&' || c == '-' || c == '~'
}

/// `text` with a backslash before each character that has a meaning in a
/// regular expression.
pub open spec fn escaped(text: Seq<char>) -> Seq<char>
    decreases text.len(),
{
    if text.len() == 0 {
        Seq::empty()
    } else if is_meta(text.last()) {
        escaped(text.drop_last()).push('\\').push(text.last())
    } else {
        escaped(text.drop_last()).push(text.last())
    }
}

fn is_meta_character(c: char) -> (r: bool)
    ensures
        r == is_meta(c),
{
    c == '\\' || c == '.' || c == '+' || c == '*' || c == '?' || c == '(' || c == ')' || c == '|'
        || c == '[' || c == ']' || c == '{' || c == '}' || c == '^' || c == '$' || c == '#' || c
        == '&' || c == '-' || c == '~'
}

/// Writes a text so that a regular expression takes it literally: with a
/// backslash before each character that has a meaning there.
pub fn escape(text: &str) -> (r: String)
    ensures
        r@ == escaped(text@),
{
    let chars = to_chars(text);
    let mut r = String::new();
    let mut i: usize = 0;
    while i < chars.len()
        invariant
            i <= chars.len(),
            r@ == escaped(chars@.take(i as int)),
        decreases chars.len() - i,
    {
        assert(chars@.take(i + 1).drop_last() =~= chars@.take(i as int));
        let c: char = chars[i];
        if is_meta_character(c) {
            r.push('\\');
        }
        r.push(c);
        i += 1;
    }
    assert(chars@.take(chars.len() as int) =~= chars@);
    r
}

/// `text` with every `from` turned into `to`.
pub open spec fn replaced(text: Seq<char>, from: char, to: char) -> Seq<char> {
    Seq::new(
        text.len(),
        |i: int|
            if text[i] == from {
                to
            } else {
                text[i]
            },
    )
}

fn replace(text: &Vec<char>, from: char, to: char) -> (r: Vec<char>)
    ensures
        r@ == replaced(text@, from, to),
{
    let mut r: Vec<char> = Vec::new();
    let mut i: usize = 0;
    while i < text.len()
        invariant
            i <= text.len(),
            r@ == replaced(text@, from, to).take(i as int),
        decreases text.len() - i,
    {
        let c: char = text[i];
        if c == from {
            r.push(to);
        } else {
            r.push(c);
        }
        assert(r@ =~= replaced(text@, from, to).take(i + 1));
        i += 1;
    }
    assert(r@ =~= replaced(text@, from, to));
    r
}

/// The spelling of a name with hyphens only.
pub open spec fn hyphen_spelling(name: Seq<char>) -> Seq<char> {
    replaced(name, '_', '-')
}

/// The spelling of a name with underscores only.
pub open spec fn underscore_spelling(name: Seq<char>) -> Seq<char> {
    replaced(hyphen_spelling(name), '-', '_')
}

/// The expression that matches a name: either of its two spellings where it
/// holds a hyphen or an underscore, else the name itself, taken literally.
pub open spec fn name_fragment(name: Seq<char>) -> Seq<char> {
    if hyphen_spelling(name) == underscore_spelling(name) {
        escaped(hyphen_spelling(name))
    } else {
        "(?:"@ + escaped(hyphen_spelling(name)) + "|"@ + escaped(underscore_spelling(name)) + ")"@
    }
}

/// The expression that matches one separator between the fields of an
/// asset's name.
pub open spec fn separator() -> Seq<char> {
    "[-._]"@
}

/// The expression that matches any further fields, or none.
pub open spec fn any_fields() -> Seq<char> {
    "(?:[-._][^/]+)?"@
}

/// The expression that matches an optional extension of a compressed file.
pub open spec fn compression() -> Seq<char> {
    "(?:\\.(?:gz|bz2|xz))?"@
}

/// The expression that matches the names by which an operating system goes.
pub open spec fn os_fragment(os: Os) -> Seq<char> {
    match os {
        Os::Linux => "linux"@,
        Os::MacOs => "(?:apple-darwin|darwin|macos)"@,
    }
}

/// The expression that matches the names by which an architecture goes.
pub open spec fn arch_fragment(arch: Arch) -> Seq<char> {
    match arch {
        Arch::AArch64 => "(?:aarch64|arm64)"@,
        Arch::X86_64 => "(?:amd64|x64|x86_64)"@,
    }
}

/// The expression that matches a platform: system then architecture, or
/// architecture then system, with one separator between them.
pub open spec fn platform_fragment(os: Os, arch: Arch) -> Seq<char> {
    "(?:"@ + os_fragment(os) + separator() + arch_fragment(arch) + "|"@ + arch_fragment(arch)
        + separator() + os_fragment(os) + ")"@
}

/// The expression that matches the end of an archive's name: a separator,
/// the platform, any further fields and `.tar.` with one more extension.
pub open spec fn archive_suffix(os: Os, arch: Arch) -> Seq<char> {
    separator() + platform_fragment(os, arch) + any_fields() + "\\.tar\\.[^/.]+$"@
}

/// First choice: an archive whose name begins with the tool's name and ends
/// as an archive for the platform does, with any fields between them.
pub open spec fn named_archive(name: Seq<char>, os: Os, arch: Arch) -> Seq<char> {
    "^"@ + name_fragment(name) + any_fields() + archive_suffix(os, arch)
}

/// Second choice: a bare binary, named by the tool and the platform, which
/// may be compressed.
pub open spec fn named_binary(name: Seq<char>, os: Os, arch: Arch) -> Seq<char> {
    "^"@ + name_fragment(name) + separator() + platform_fragment(os, arch) + compression() + "$"@
}

/// Fourth choice: a bare binary, named by the tool and the architecture
/// alone, which may be compressed.
pub open spec fn arch_binary(name: Seq<char>, arch: Arch) -> Seq<char> {
    "^"@ + name_fragment(name) + separator() + arch_fragment(arch) + compression() + "$"@
}

/// Last choice: a bare binary, named by the tool alone, which may be
/// compressed.
pub open spec fn plain_binary(name: Seq<char>) -> Seq<char> {
    "^"@ + name_fragment(name) + compression() + "$"@
}

/// The regular expressions by which an asset is looked for, in the order in
/// which they are tried. The third choice is any archive for the platform,
/// whatever its name; each of the others comes once for the binary's name
/// and, where it differs, once for the project's.
pub open spec fn release_patterns_for(
    binary_name: Seq<char>,
    project_name: Seq<char>,
    os: Os,
    arch: Arch,
) -> Seq<Seq<char>> {
    if binary_name == project_name {
        seq![
            named_archive(binary_name, os, arch),
            named_binary(binary_name, os, arch),
            archive_suffix(os, arch),
            arch_binary(binary_name, arch),
            plain_binary(binary_name),
        ]
    } else {
        seq![
            named_archive(binary_name, os, arch),
            named_archive(project_name, os, arch),
            named_binary(binary_name, os, arch),
            named_binary(project_name, os, arch),
            archive_suffix(os, arch),
            arch_binary(binary_name, arch),
            arch_binary(project_name, arch),
            plain_binary(binary_name),
            plain_binary(project_name),
        ]
    }
}

/// The patterns for a platform given by name: none unless both the system
/// and the architecture are supported.
pub open spec fn release_patterns_spec(
    binary_name: Seq<char>,
    project_name: Seq<char>,
    os: Seq<char>,
    arch: Seq<char>,
) -> Option<Seq<Seq<char>>> {
    match (os_named(os), arch_named(arch)) {
        (Some(o), Some(a)) => Some(release_patterns_for(binary_name, project_name, o, a)),
        _ => None,
    }
}

/// Every supported platform has its patterns, whatever the names are: five
/// where the binary and the project have one name, nine where they have
/// two.
pub proof fn lemma_platform_support(
    binary_name: Seq<char>,
    project_name: Seq<char>,
    os: Seq<char>,
    arch: Seq<char>,
)
    requires
        os == "linux"@ || os == "macos"@,
        arch == "aarch64"@ || arch == "x86_64"@,
    ensures
        release_patterns_spec(binary_name, project_name, os, arch) is Some,
        release_patterns_spec(binary_name, project_name, os, arch)->0.len() == if binary_name
            == project_name {
            5int
        } else {
            9int
        },
{
}

/// The expression that finds the binary in an archive: a path whose last
/// segment is the binary's name or the project's.
pub open spec fn binary_pattern(binary_name: Seq<char>, project_name: Seq<char>) -> Seq<char> {
    if name_fragment(binary_name) == name_fragment(project_name) {
        "(?:^|/)"@ + name_fragment(binary_name) + "$"@
    } else {
        "(?:^|/)"@ + ("(?:"@ + name_fragment(binary_name) + "|"@ + name_fragment(project_name)
            + ")"@) + "$"@
    }
}

/// The regular expression that matches a name in either spelling.
pub fn get_name_matcher(name: &str) -> (r: String)
    ensures
        r@ == name_fragment(name@),
{
    let chars = to_chars(name);
    let hyphen = replace(&chars, '_', '-');
    let underscore = replace(&hyphen, '-', '_');
    let hyphen_name = from_chars(&hyphen, 0, hyphen.len());
    assert(hyphen_name@ =~= hyphen@);
    if chars_eq(&hyphen, &underscore) {
        escape(hyphen_name.as_str())
    } else {
        let underscore_name = from_chars(&underscore, 0, underscore.len());
        assert(underscore_name@ =~= underscore@);
        let mut r = String::from_str("(?:");
        r.append(escape(hyphen_name.as_str()).as_str());
        r.append("|");
        r.append(escape(underscore_name.as_str()).as_str());
        r.append(")");
        r
    }
}

fn os_regex(os: Os) -> (r: &'static str)
    ensures
        r@ == os_fragment(os),
{
    match os {
        Os::Linux => "linux",
        Os::MacOs => "(?:apple-darwin|darwin|macos)",
    }
}

fn arch_regex(arch: Arch) -> (r: &'static str)
    ensures
        r@ == arch_fragment(arch),
{
    match arch {
        Arch::AArch64 => "(?:aarch64|arm64)",
        Arch::X86_64 => "(?:amd64|x64|x86_64)",
    }
}

fn platform_regex(os: Os, arch: Arch) -> (r: String)
    ensures
        r@ == platform_fragment(os, arch),
{
    let mut r = String::from_str("(?:");
    r.append(os_regex(os));
    r.append("[-._]");
    r.append(arch_regex(arch));
    r.append("|");
    r.append(arch_regex(arch));
    r.append("[-._]");
    r.append(os_regex(os));
    r.append(")");
    r
}

fn archive_regex(os: Os, arch: Arch) -> (r: String)
    ensures
        r@ == archive_suffix(os, arch),
{
    let mut r = String::from_str("[-._]");
    r.append(platform_regex(os, arch).as_str());
    r.append("(?:[-._][^/]+)?");
    r.append("\\.tar\\.[^/.]+$");
    r
}

fn named_archive_regex(name: &str, os: Os, arch: Arch) -> (r: String)
    ensures
        r@ == named_archive(name@, os, arch),
{
    let mut r = String::from_str("^");
    r.append(get_name_matcher(name).as_str());
    r.append("(?:[-._][^/]+)?");
    r.append(archive_regex(os, arch).as_str());
    r
}

fn named_binary_regex(name: &str, os: Os, arch: Arch) -> (r: String)
    ensures
        r@ == named_binary(name@, os, arch),
{
    let mut r = String::from_str("^");
    r.append(get_name_matcher(name).as_str());
    r.append("[-._]");
    r.append(platform_regex(os, arch).as_str());
    r.append("(?:\\.(?:gz|bz2|xz))?");
    r.append("$");
    r
}

fn arch_binary_regex(name: &str, arch: Arch) -> (r: String)
    ensures
        r@ == arch_binary(name@, arch),
{
    let mut r = String::from_str("^");
    r.append(get_name_matcher(name).as_str());
    r.append("[-._]");
    r.append(arch_regex(arch));
    r.append("(?:\\.(?:gz|bz2|xz))?");
    r.append("$");
    r
}

fn plain_binary_regex(name: &str) -> (r: String)
    ensures
        r@ == plain_binary(name@),
{
    let mut r = String::from_str("^");
    r.append(get_name_matcher(name).as_str());
    r.append("(?:\\.(?:gz|bz2|xz))?");
    r.append("$");
    r
}

/// The platform that two names stand for, where it is supported.
pub fn parse_platform(os: &str, arch: &str) -> (r: Option<(Os, Arch)>)
    ensures
        r == match (os_named(os@), arch_named(arch@)) {
            (Some(o), Some(a)) => Some((o, a)),
            _ => None,
        },
{
    match parse_os(os) {
        Some(o) => match parse_arch(arch) {
            Some(a) => Some((o, a)),
            None => None,
        },
        None => None,
    }
}

/// The regular expressions by which an asset of a release is looked for on
/// a platform when the user gave no matcher, first choice first. Every
/// supported platform has them; no other has.
pub fn release_patterns(binary_name: &str, project_name: &str, os: &str, arch: &str) -> (r: Option<
    Vec<String>,
>)
    ensures
        r is Some <==> os_named(os@) is Some && arch_named(arch@) is Some,
        match r {
            Some(patterns) => release_patterns_spec(binary_name@, project_name@, os@, arch@)
                == Some(texts(patterns@)),
            None => release_patterns_spec(binary_name@, project_name@, os@, arch@) is None,
        },
{
    let (os, arch) = match parse_platform(os, arch) {
        Some(platform) => platform,
        None => {
            return None;
        },
    };
    let mut patterns: Vec<String> = Vec::new();
    let one_name: bool = str_eq(binary_name, project_name);
    patterns.push(named_archive_regex(binary_name, os, arch));
    if !one_name {
        patterns.push(named_archive_regex(project_name, os, arch));
    }
    patterns.push(named_binary_regex(binary_name, os, arch));
    if !one_name {
        patterns.push(named_binary_regex(project_name, os, arch));
    }
    patterns.push(archive_regex(os, arch));
    patterns.push(arch_binary_regex(binary_name, arch));
    if !one_name {
        patterns.push(arch_binary_regex(project_name, arch));
    }
    patterns.push(plain_binary_regex(binary_name));
    if !one_name {
        patterns.push(plain_binary_regex(project_name));
    }
    assert(texts(patterns@) =~= release_patterns_for(binary_name@, project_name@, os, arch));
    Some(patterns)
}

/// The views of a list of matchers.
pub open spec fn matcher_views(matchers: Seq<Matcher>) -> Seq<MatcherView> {
    Seq::new(matchers.len(), |i: int| matchers[i]@)
}

/// The regular-expression matchers of a list of patterns.
pub open spec fn regex_matchers(patterns: Seq<Seq<char>>) -> Seq<MatcherView> {
    Seq::new(patterns.len(), |i: int| MatcherView::Regex(patterns[i]))
}

/// Whether every pattern of a list compiles as a regular expression.
pub open spec fn all_accepted(patterns: Seq<Seq<char>>) -> bool {
    forall|i: int| 0 <= i < patterns.len() ==> regex_accepted(#[trigger] patterns[i])
}

/// Compiles a list of regular expressions: all of them, or none if one is
/// refused.
pub fn compile_patterns(patterns: &Vec<String>) -> (r: Option<Vec<Matcher>>)
    ensures
        r is Some <==> all_accepted(texts(patterns@)),
        r matches Some(matchers) ==> matcher_views(matchers@) == regex_matchers(texts(patterns@)),
{
    let mut matchers: Vec<Matcher> = Vec::new();
    let mut i: usize = 0;
    while i < patterns.len()
        invariant
            i <= patterns.len(),
            matchers.len() == i,
            forall|k: int| 0 <= k < i ==> regex_accepted(#[trigger] texts(patterns@)[k]),
            forall|k: int|
                0 <= k < i ==> (#[trigger] matchers@[k])@ == MatcherView::Regex(patterns@[k]@),
        decreases patterns.len() - i,
    {
        match RegexPattern::new(patterns[i].as_str()) {
            Ok(pattern) => {
                matchers.push(Matcher::Regex(pattern));
            },
            Err(_) => {
                assert(!regex_accepted(texts(patterns@)[i as int]));
                return None;
            },
        }
        i += 1;
    }
    assert(matcher_views(matchers@) =~= regex_matchers(texts(patterns@)));
    Some(matchers)
}

/// The matchers that are tried, in order, when the user gave none: those of
/// the platform's patterns; none where the platform is not supported, or
/// where a name is so long that the `regex` crate refuses a pattern made
/// with it.
pub open spec fn automatic_matchers(
    binary_name: Seq<char>,
    project_name: Seq<char>,
    os: Seq<char>,
    arch: Seq<char>,
) -> Option<Seq<MatcherView>> {
    match release_patterns_spec(binary_name, project_name, os, arch) {
        Some(patterns) => if all_accepted(patterns) {
            Some(regex_matchers(patterns))
        } else {
            None
        },
        None => None,
    }
}

/// The matchers by which an asset of a release is looked for on a platform
/// when the user gave no matcher, first choice first.
pub fn generate_release_matchers(
    binary_name: &str,
    project_name: &str,
    os: &str,
    arch: &str,
) -> (r: Option<Vec<Matcher>>)
    ensures
        match r {
            Some(matchers) => automatic_matchers(binary_name@, project_name@, os@, arch@) == Some(
                matcher_views(matchers@),
            ),
            None => automatic_matchers(binary_name@, project_name@, os@, arch@) is None,
        },
{
    match release_patterns(binary_name, project_name, os, arch) {
        Some(patterns) => compile_patterns(&patterns),
        None => None,
    }
}

/// The regular expression that finds a tool's binary among the files of an
/// archive.
pub fn binary_matcher_pattern(binary_name: &str, project_name: &str) -> (r: String)
    ensures
        r@ == binary_pattern(binary_name@, project_name@),
{
    let binary = get_name_matcher(binary_name);
    let project = get_name_matcher(project_name);
    let mut r = String::from_str("(?:^|/)");
    if str_eq(binary.as_str(), project.as_str()) {
        r.append(binary.as_str());
    } else {
        let mut either = String::from_str("(?:");
        either.append(binary.as_str());
        either.append("|");
        either.append(project.as_str());
        either.append(")");
        r.append(either.as_str());
    }
    r.append("$");
    r
}

/// The matcher that finds a tool's binary among the files of an archive
/// when the user gave none; none where a name is so long that the `regex`
/// crate refuses the pattern made with it.
pub fn generate_binary_matcher_inner(binary_name: &str, project_name: &str) -> (r: Option<Matcher>)
    ensures
        r is Some <==> regex_accepted(binary_pattern(binary_name@, project_name@)),
        r matches Some(m) ==> m@ == MatcherView::Regex(
            binary_pattern(binary_name@, project_name@),
        ),
{
    let pattern = binary_matcher_pattern(binary_name, project_name);
    match RegexPattern::new(pattern.as_str()) {
        Ok(p) => Some(Matcher::Regex(p)),
        Err(_) => None,
    }
}

/// The matcher that finds the binary of a tool in an archive of a release.
pub fn generate_binary_matcher(binary_name: &str, release: &Release) -> (r: Option<Matcher>)
    ensures
        r is Some <==> regex_accepted(binary_pattern(binary_name@, release.project.name@)),
        r matches Some(m) ==> m@ == MatcherView::Regex(
            binary_pattern(binary_name@, release.project.name@),
        ),
{
    generate_binary_matcher_inner(binary_name, release.project.name.as_str())
}

/// A point in time: whole seconds since the start of 1970 in UTC, and the
/// nanoseconds of the second begun.
#[derive(Clone, Copy, Debug, PartialEq, Eq, Structural)]
pub struct Timestamp {
    pub seconds: i64,
    pub nanoseconds: u32,
}

/// One file of a release.
#[derive(Debug, PartialEq, Eq)]
pub struct Asset {
    pub name: String,
    /// When the asset was last updated.
    pub time: Timestamp,
    /// Where the asset is downloaded from.
    pub url: String,
}

/// The latest release of a project.
#[derive(Debug)]
pub struct Release {
    pub project: Project,
    pub version: ReleaseVersion,
    /// The assets, in the order in which the release lists them.
    pub assets: Vec<Asset>,
}

/// The names of a list of assets.
pub open spec fn asset_names(assets: Seq<Asset>) -> Seq<Seq<char>> {
    Seq::new(assets.len(), |i: int| assets[i].name@)
}

/// The positions of the names that a matcher matches, in rising order.
pub open spec fn hits(names: Seq<Seq<char>>, m: MatcherView) -> Seq<int>
    decreases names.len(),
{
    if names.len() == 0 {
        Seq::empty()
    } else if matched(m, names.last()) {
        hits(names.drop_last(), m).push(names.len() - 1)
    } else {
        hits(names.drop_last(), m)
    }
}

/// The position of the asset that the first matcher with exactly one hit
/// hits. A matcher with no hit or with several is passed over, whatever it
/// hit.
pub open spec fn first_sole_hit(names: Seq<Seq<char>>, matchers: Seq<MatcherView>) -> Option<int>
    decreases matchers.len(),
{
    if matchers.len() == 0 {
        None
    } else if hits(names, matchers[0]).len() == 1 {
        Some(hits(names, matchers[0])[0])
    } else {
        first_sole_hit(names, matchers.skip(1))
    }
}

/// The names at some positions.
pub open spec fn picked(names: Seq<Seq<char>>, at: Seq<int>) -> Seq<Seq<char>> {
    Seq::new(at.len(), |k: int| names[at[k]])
}

/// What the choice of an asset comes to.
pub enum Selection {
    /// The asset at this position.
    Asset(int),
    /// The release has no assets.
    NoAssets,
    /// The user's matcher matches no asset.
    NoMatch,
    /// The user's matcher matches the assets at these positions, which are
    /// more than one.
    Multiple(Seq<int>),
    /// No automatic matcher matches exactly one asset.
    NoChoice,
}

/// The choice of an asset among `names`: by the user's matcher if there is
/// one, which has to match exactly one; else by the first of the automatic
/// matchers that matches exactly one.
pub open spec fn selection(
    names: Seq<Seq<char>>,
    explicit: Option<MatcherView>,
    automatic: Option<Seq<MatcherView>>,
) -> Selection {
    if names.len() == 0 {
        Selection::NoAssets
    } else {
        match explicit {
            Some(m) => if hits(names, m).len() == 0 {
                Selection::NoMatch
            } else if hits(names, m).len() == 1 {
                Selection::Asset(hits(names, m)[0])
            } else {
                Selection::Multiple(hits(names, m))
            },
            None => match automatic {
                Some(matchers) => match first_sole_hit(names, matchers) {
                    Some(i) => Selection::Asset(i),
                    None => Selection::NoChoice,
                },
                None => Selection::NoChoice,
            },
        }
    }
}

/// Why no asset was chosen.
#[derive(Debug, PartialEq, Eq)]
pub enum SelectError {
    /// The release has no assets.
    NoAssets { project: String, version: String },
    /// The user's matcher matches none of the assets, which are all named.
    NoMatch { assets: Vec<String> },
    /// The user's matcher matches several assets, which are named.
    MultipleMatches { matches: Vec<String> },
    /// No asset could be chosen automatically among the assets, which are
    /// all named.
    NoAutomaticChoice { assets: Vec<String> },
}

/// The message of a selection error. It names every asset in question.
pub open spec fn select_message(error: SelectError) -> Seq<char> {
    match error {
        SelectError::NoAssets { project, version } => "The latest release of "@ + project@ + " ("@
            + version@ + ") has no assets"@,
        SelectError::NoMatch { assets } =>
            "The specified release matcher matches none of the following assets:"@ + bullet_list(
                texts(assets@),
            ),
        SelectError::MultipleMatches { matches } =>
            "The specified release matcher matches multiple assets:"@ + bullet_list(
                texts(matches@),
            ),
        SelectError::NoAutomaticChoice { assets } =>
            "Unable to automatically choose the proper release from the following assets:"@
                + bullet_list(texts(assets@)) + "\n\nRelease matcher should be specified."@,
    }
}

/// The names that a selection error is about: all assets, or those that
/// the matcher matched.
pub open spec fn named_in(error: SelectError) -> Seq<Seq<char>> {
    match error {
        SelectError::NoAssets { project, version } => Seq::empty(),
        SelectError::NoMatch { assets } => texts(assets@),
        SelectError::MultipleMatches { matches } => texts(matches@),
        SelectError::NoAutomaticChoice { assets } => texts(assets@),
    }
}

/// The message of a selection error names every asset that the error is
/// about, each on a line of its own: none is left out.
pub proof fn lemma_message_names_every_asset(error: SelectError, i: int)
    requires
        0 <= i < named_in(error).len(),
    ensures
        occurs(select_message(error), "\n* "@ + named_in(error)[i]),
{
    let names = named_in(error);
    let piece = "\n* "@ + names[i];
    lemma_bullet_list_names_every_item(names, i);
    match error {
        SelectError::NoAssets { project, version } => {},
        SelectError::NoMatch { assets } => {
            let head = "The specified release matcher matches none of the following assets:"@;
            lemma_occurs_within(head, bullet_list(names), Seq::empty(), piece);
            assert(head + bullet_list(names) + Seq::<char>::empty() =~= select_message(error));
        },
        SelectError::MultipleMatches { matches } => {
            let head = "The specified release matcher matches multiple assets:"@;
            lemma_occurs_within(head, bullet_list(names), Seq::empty(), piece);
            assert(head + bullet_list(names) + Seq::<char>::empty() =~= select_message(error));
        },
        SelectError::NoAutomaticChoice { assets } => {
            let head =
                "Unable to automatically choose the proper release from the following assets:"@;
            let tail = "\n\nRelease matcher should be specified."@;
            lemma_occurs_within(head, bullet_list(names), tail, piece);
        },
    }
}

impl SelectError {
    /// The error as a message for the user.
    pub fn message(&self) -> (r: String)
        ensures
            r@ == select_message(*self),
    {
        match self {
            SelectError::NoAssets { project, version } => {
                let mut r = String::from_str("The latest release of ");
                r.append(project.as_str());
                r.append(" (");
                r.append(version.as_str());
                r.append(") has no assets");
                r
            },
            SelectError::NoMatch { assets } => {
                let mut r = String::from_str(
                    "The specified release matcher matches none of the following assets:",
                );
                r.append(format_list(assets).as_str());
                r
            },
            SelectError::MultipleMatches { matches } => {
                let mut r = String::from_str(
                    "The specified release matcher matches multiple assets:",
                );
                r.append(format_list(matches).as_str());
                r
            },
            SelectError::NoAutomaticChoice { assets } => {
                let mut r = String::from_str(
                    "Unable to automatically choose the proper release from the following assets:",
                );
                r.append(format_list(assets).as_str());
                r.append("\n\nRelease matcher should be specified.");
                r
            },
        }
    }
}

/// The positions that a vector of indices holds.
pub open spec fn positions(at: Seq<usize>) -> Seq<int> {
    Seq::new(at.len(), |k: int| at[k] as int)
}

impl Release {
    /// The release of `project` with the tag `tag`.
    pub fn new(project: Project, tag: &str, assets: Vec<Asset>) -> (r: Release)
        ensures
            r.project == project,
            r.version@ == release_version(tag@),
            r.assets == assets,
    {
        Release { project, version: ReleaseVersion::new(tag), assets }
    }

    /// The names of the assets, in order.
    pub fn names(&self) -> (r: Vec<String>)
        ensures
            texts(r@) == asset_names(self.assets@),
    {
        let mut names: Vec<String> = Vec::new();
        let mut i: usize = 0;
        while i < self.assets.len()
            invariant
                i <= self.assets.len(),
                texts(names@) == asset_names(self.assets@).take(i as int),
            decreases self.assets.len() - i,
        {
            proof {
                lemma_texts_push(names@, self.assets@[i as int].name);
            }
            names.push(self.assets[i].name.clone());
            assert(texts(names@) =~= asset_names(self.assets@).take(i + 1));
            i += 1;
        }
        assert(asset_names(self.assets@).take(self.assets.len() as int) =~= asset_names(
            self.assets@,
        ));
        names
    }

    /// The positions of the assets whose names `matcher` matches, in
    /// rising order.
    pub fn matching(&self, matcher: &Matcher) -> (r: Vec<usize>)
        ensures
            positions(r@) == hits(asset_names(self.assets@), matcher@),
            forall|k: int| 0 <= k < r.len() ==> (#[trigger] r@[k]) < self.assets.len(),
    {
        let ghost names = asset_names(self.assets@);
        let mut found: Vec<usize> = Vec::new();
        let mut i: usize = 0;
        while i < self.assets.len()
            invariant
                i <= self.assets.len(),
                names == asset_names(self.assets@),
                positions(found@) == hits(names.take(i as int), matcher@),
                forall|k: int| 0 <= k < found.len() ==> (#[trigger] found@[k]) < i,
            decreases self.assets.len() - i,
        {
            proof {
                assert(names.take(i + 1).drop_last() =~= names.take(i as int));
                assert(names.take(i + 1).last() == self.assets@[i as int].name@);
            }
            if matcher.matches(self.assets[i].name.as_str()) {
                found.push(i);
                assert(positions(found@) =~= hits(names.take(i as int), matcher@).push(i as int));
            }
            i += 1;
        }
        assert(names.take(self.assets.len() as int) =~= names);
        found
    }

    /// The names of the assets at some positions.
    pub fn names_at(&self, at: &Vec<usize>) -> (r: Vec<String>)
        requires
            forall|k: int| 0 <= k < at.len() ==> (#[trigger] at@[k]) < self.assets.len(),
        ensures
            texts(r@) == picked(asset_names(self.assets@), positions(at@)),
    {
        let mut names: Vec<String> = Vec::new();
        let mut k: usize = 0;
        while k < at.len()
            invariant
                k <= at.len(),
                forall|j: int| 0 <= j < at.len() ==> (#[trigger] at@[j]) < self.assets.len(),
                texts(names@) == picked(asset_names(self.assets@), positions(at@)).take(k as int),
            decreases at.len() - k,
        {
            proof {
                lemma_texts_push(names@, self.assets@[at@[k as int] as int].name);
            }
            names.push(self.assets[at[k]].name.clone());
            assert(texts(names@) =~= picked(asset_names(self.assets@), positions(at@)).take(
                k + 1,
            ));
            k += 1;
        }
        assert(picked(asset_names(self.assets@), positions(at@)).take(at.len() as int) =~= picked(
            asset_names(self.assets@),
            positions(at@),
        ));
        names
    }

    /// The asset that the user's matcher chose, given the positions of the
    /// assets that it matches: the one asset, if it is one; else an error,
    /// which names all assets if none was matched, and the matched ones if
    /// several were.
    pub fn pick_matched(&self, at: &Vec<usize>) -> (r: Result<&Asset, SelectError>)
        requires
            forall|k: int| 0 <= k < at.len() ==> (#[trigger] at@[k]) < self.assets.len(),
        ensures
            at.len() == 1 ==> (r matches Ok(asset) && *asset == self.assets@[at@[0] as int]),
            at.len() == 0 ==> (r matches Err(SelectError::NoMatch { assets }) && texts(assets@)
                == asset_names(self.assets@)),
            at.len() > 1 ==> (r matches Err(SelectError::MultipleMatches { matches }) && texts(
                matches@,
            ) == picked(asset_names(self.assets@), positions(at@))),
    {
        if at.len() == 0 {
            Err(SelectError::NoMatch { assets: self.names() })
        } else if at.len() == 1 {
            Ok(&self.assets[at[0]])
        } else {
            Err(SelectError::MultipleMatches { matches: self.names_at(at) })
        }
    }

    /// The asset at the position of the first of `matchers` that matches
    /// exactly one asset.
    pub fn first_sole_match(&self, matchers: &Vec<Matcher>) -> (r: Option<usize>)
        ensures
            match r {
                Some(i) => first_sole_hit(asset_names(self.assets@), matcher_views(matchers@))
                    == Some(i as int) && i < self.assets.len(),
                None => first_sole_hit(asset_names(self.assets@), matcher_views(matchers@))
                    is None,
            },
    {
        let ghost names = asset_names(self.assets@);
        let ghost all = matcher_views(matchers@);
        let mut k: usize = 0;
        assert(all.skip(0) =~= all);
        while k < matchers.len()
            invariant
                k <= matchers.len(),
                names == asset_names(self.assets@),
                all == matcher_views(matchers@),
                first_sole_hit(names, all) == first_sole_hit(names, all.skip(k as int)),
            decreases matchers.len() - k,
        {
            let found = self.matching(&matchers[k]);
            proof {
                assert(all.skip(k as int)[0] == matchers@[k as int]@);
                assert(all.skip(k as int).skip(1) =~= all.skip(k + 1));
                assert(positions(found@).len() == found.len());
            }
            if found.len() == 1 {
                assert(positions(found@)[0] == found@[0]);
                return Some(found[0]);
            }
            k += 1;
        }
        None
    }

    /// Chooses the asset to install for the tool `binary_name` on the
    /// platform named by `os` and `arch`: by `matcher`, if the user gave
    /// one, else by the first of the automatic matchers that matches exactly
    /// one asset.
    pub fn select_asset(
        &self,
        binary_name: &str,
        matcher: Option<&Matcher>,
        os: &str,
        arch: &str,
    ) -> (r: Result<&Asset, SelectError>)
        ensures
            match selection(
                asset_names(self.assets@),
                match matcher {
                    Some(m) => Some(m@),
                    None => None,
                },
                automatic_matchers(binary_name@, self.project.name@, os@, arch@),
            ) {
                Selection::Asset(i) => 0 <= i < self.assets.len() && (r matches Ok(asset)
                    && *asset == self.assets@[i]),
                Selection::NoAssets => r matches Err(SelectError::NoAssets { project, version })
                    && project@ == self.project.owner@ + "/"@ + self.project.name@ && version@
                    == release_version_text(self.version@),
                Selection::NoMatch => r matches Err(SelectError::NoMatch { assets }) && texts(
                    assets@,
                ) == asset_names(self.assets@),
                Selection::Multiple(at) => r matches Err(SelectError::MultipleMatches { matches })
                    && texts(matches@) == picked(asset_names(self.assets@), at),
                Selection::NoChoice => r matches Err(SelectError::NoAutomaticChoice { assets })
                    && texts(assets@) == asset_names(self.assets@),
            },
    {
        if self.assets.len() == 0 {
            return Err(
                SelectError::NoAssets {
                    project: self.project.full_name(),
                    version: self.version.to_string(),
                },
            );
        }
        if let Some(matcher) = matcher {
            let found = self.matching(matcher);
            assert(positions(found@).len() == found.len());
            if found.len() == 1 {
                assert(positions(found@)[0] == found@[0]);
            }
            return self.pick_matched(&found);
        }
        match generate_release_matchers(binary_name, self.project.name.as_str(), os, arch) {
            Some(matchers) => match self.first_sole_match(&matchers) {
                Some(i) => Ok(&self.assets[i]),
                None => Err(SelectError::NoAutomaticChoice { assets: self.names() }),
            },
            None => Err(SelectError::NoAutomaticChoice { assets: self.names() }),
        }
    }
}

} // verus!
