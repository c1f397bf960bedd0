//! Tools: what the configuration says of one, and what is found of it at
//! its install path.

use vstd::prelude::*;
use vstd::string::StringExecFns;
use crate::matcher::matcher_text;
use crate::matcher::Matcher;
use crate::matcher::MatcherView;
use crate::release::Timestamp;
use crate::text::str_eq;
use crate::version::VersionSource;

verus! {

/// The configuration of one tool.
#[derive(Debug, PartialEq, Eq)]
pub struct ToolSpec {
    /// The project, as `owner/name`.
    pub project: String,
    /// Whether a prerelease may be installed.
    pub prerelease: bool,
    /// The URL of the changelog, where it is not the project's own.
    pub changelog: Option<String>,
    pub release_matcher: Option<Matcher>,
    pub binary_matcher: Option<Matcher>,
    pub version_source: Option<VersionSource>,
    /// The directory to install to, where it is not the common one.
    pub path: Option<String>,
    /// A shell command to run after the tool was installed.
    pub post: Option<String>,
}

/// The text of an optional string.
pub open spec fn optional_text(text: Option<String>) -> Option<Seq<char>> {
    match text {
        Some(s) => Some(s@),
        None => None,
    }
}

/// The view of an optional matcher.
pub open spec fn optional_matcher(matcher: Option<Matcher>) -> Option<MatcherView> {
    match matcher {
        Some(m) => Some(m@),
        None => None,
    }
}

/// What a tool's configuration holds.
pub struct ToolSpecView {
    pub project: Seq<char>,
    pub prerelease: bool,
    pub changelog: Option<Seq<char>>,
    pub release_matcher: Option<MatcherView>,
    pub binary_matcher: Option<MatcherView>,
    pub version_source: Option<VersionSource>,
    pub path: Option<Seq<char>>,
    pub post: Option<Seq<char>>,
}

impl View for ToolSpec {
    type V = ToolSpecView;

    open spec fn view(&self) -> ToolSpecView {
        ToolSpecView {
            project: self.project@,
            prerelease: self.prerelease,
            changelog: optional_text(self.changelog),
            release_matcher: optional_matcher(self.release_matcher),
            binary_matcher: optional_matcher(self.binary_matcher),
            version_source: self.version_source,
            path: optional_text(self.path),
            post: optional_text(self.post),
        }
    }
}

/// A value of a tool's entry in the configuration file.
#[derive(Debug, PartialEq, Eq)]
pub enum SpecValue {
    Text(String),
    Flag(bool),
}

/// What a value holds.
pub enum SpecValueView {
    Text(Seq<char>),
    Flag(bool),
}

/// One key of a tool's entry in the configuration file, with its value.
#[derive(Debug, PartialEq, Eq)]
pub struct SpecEntry {
    pub key: String,
    pub value: SpecValue,
}

impl View for SpecEntry {
    type V = (Seq<char>, SpecValueView);

    open spec fn view(&self) -> (Seq<char>, SpecValueView) {
        (
            self.key@,
            match self.value {
                SpecValue::Text(text) => SpecValueView::Text(text@),
                SpecValue::Flag(flag) => SpecValueView::Flag(flag),
            },
        )
    }
}

/// The views of a list of entries.
pub open spec fn entry_views(entries: Seq<SpecEntry>) -> Seq<(Seq<char>, SpecValueView)> {
    Seq::new(entries.len(), |i: int| entries[i]@)
}

/// The entry of a key whose value is an optional text: none if there is no
/// text.
pub open spec fn text_entry(key: Seq<char>, text: Option<Seq<char>>) -> Seq<
    (Seq<char>, SpecValueView),
> {
    match text {
        Some(value) => seq![(key, SpecValueView::Text(value))],
        None => Seq::empty(),
    }
}

/// The text of an optional matcher.
pub open spec fn optional_matcher_text(matcher: Option<MatcherView>) -> Option<Seq<char>> {
    match matcher {
        Some(m) => Some(matcher_text(m)),
        None => None,
    }
}

/// The name of an optional version source.
pub open spec fn optional_source_name(source: Option<VersionSource>) -> Option<Seq<char>> {
    match source {
        Some(VersionSource::Flag) => Some("flag"@),
        Some(VersionSource::Command) => Some("command"@),
        None => None,
    }
}

/// The entry of a tool in the configuration file: its keys in a fixed
/// order, each only where it says something. The project is always there;
/// `prerelease` only where it is on.
pub open spec fn serialized(spec: ToolSpecView) -> Seq<(Seq<char>, SpecValueView)> {
    seq![("project"@, SpecValueView::Text(spec.project))] + (if spec.prerelease {
        seq![("prerelease"@, SpecValueView::Flag(true))]
    } else {
        Seq::empty()
    }) + text_entry("changelog"@, spec.changelog) + text_entry(
        "release_matcher"@,
        optional_matcher_text(spec.release_matcher),
    ) + text_entry("binary_matcher"@, optional_matcher_text(spec.binary_matcher)) + text_entry(
        "version_source"@,
        optional_source_name(spec.version_source),
    ) + text_entry("path"@, spec.path) + text_entry("post"@, spec.post)
}

/// Why a tool's configuration or state is refused.
#[derive(Debug, PartialEq, Eq)]
pub enum ToolError {
    /// The project of a tool is empty.
    EmptyProject,
    /// The install path could not be examined.
    Stat { path: String, reason: String },
}

impl ToolError {
    /// The error as a message for the user.
    pub fn message(&self) -> (r: String)
        ensures
            r@ == match *self {
                ToolError::EmptyProject => "project: the value must not be empty"@,
                ToolError::Stat { path, reason } => "Failed to stat \""@ + path@ + "\": "@
                    + reason@,
            },
    {
        match self {
            ToolError::EmptyProject => String::from_str("project: the value must not be empty"),
            ToolError::Stat { path, reason } => {
                let mut r = String::from_str("Failed to stat \"");
                r.append(path.as_str());
                r.append("\": ");
                r.append(reason.as_str());
                r
            },
        }
    }
}

fn same_text(a: &Option<String>, b: &Option<String>) -> (r: bool)
    ensures
        r == (optional_text(*a) == optional_text(*b)),
{
    match (a, b) {
        (Some(x), Some(y)) => str_eq(x.as_str(), y.as_str()),
        (None, None) => true,
        _ => false,
    }
}

fn same_matcher(a: &Option<Matcher>, b: &Option<Matcher>) -> (r: bool)
    ensures
        r == (optional_matcher(*a) == optional_matcher(*b)),
{
    match (a, b) {
        (Some(x), Some(y)) => x.same(y),
        (None, None) => true,
        _ => false,
    }
}

fn same_source(a: &Option<VersionSource>, b: &Option<VersionSource>) -> (r: bool)
    ensures
        r == (*a == *b),
{
    match (a, b) {
        (Some(x), Some(y)) => *x == *y,
        (None, None) => true,
        _ => false,
    }
}

fn push_text(entries: &mut Vec<SpecEntry>, key: &str, text: &Option<String>)
    ensures
        entry_views(final(entries)@) == entry_views(old(entries)@) + text_entry(
            key@,
            optional_text(*text),
        ),
{
    match text {
        Some(value) => {
            entries.push(
                SpecEntry { key: String::from_str(key), value: SpecValue::Text(value.clone()) },
            );
            assert(entry_views(entries@) =~= entry_views(old(entries)@) + text_entry(
                key@,
                optional_text(*text),
            ));
        },
        None => {
            assert(entry_views(entries@) =~= entry_views(old(entries)@) + text_entry(
                key@,
                optional_text(*text),
            ));
        },
    }
}

fn matcher_string(matcher: &Option<Matcher>) -> (r: Option<String>)
    ensures
        optional_text(r) == optional_matcher_text(optional_matcher(*matcher)),
{
    match matcher {
        Some(m) => Some(m.to_string()),
        None => None,
    }
}

fn source_string(source: &Option<VersionSource>) -> (r: Option<String>)
    ensures
        optional_text(r) == optional_source_name(*source),
{
    match source {
        Some(s) => Some(String::from_str(s.name())),
        None => None,
    }
}

impl ToolSpec {
    /// Whether two configurations say the same.
    pub fn same(&self, other: &ToolSpec) -> (r: bool)
        ensures
            r == (self@ == other@),
    {
        str_eq(self.project.as_str(), other.project.as_str()) && self.prerelease
            == other.prerelease && same_text(&self.changelog, &other.changelog) && same_matcher(
            &self.release_matcher,
            &other.release_matcher,
        ) && same_matcher(&self.binary_matcher, &other.binary_matcher) && same_source(
            &self.version_source,
            &other.version_source,
        ) && same_text(&self.path, &other.path) && same_text(&self.post, &other.post)
    }

    /// A copy of this configuration.
    pub fn duplicate(&self) -> (r: ToolSpec)
        ensures
            r@ == self@,
    {
        ToolSpec {
            project: self.project.clone(),
            prerelease: self.prerelease,
            changelog: self.changelog.clone(),
            release_matcher: match &self.release_matcher {
                Some(m) => Some(m.clone()),
                None => None,
            },
            binary_matcher: match &self.binary_matcher {
                Some(m) => Some(m.clone()),
                None => None,
            },
            version_source: self.version_source,
            path: self.path.clone(),
            post: self.post.clone(),
        }
    }

    /// Checks what the configuration demands of a tool: a project.
    pub fn validate(&self) -> (r: Result<(), ToolError>)
        ensures
            self.project@.len() > 0 ==> r is Ok,
            self.project@.len() == 0 ==> r == Err::<(), ToolError>(ToolError::EmptyProject),
    {
        if self.project.as_str().is_empty() {
            Err(ToolError::EmptyProject)
        } else {
            Ok(())
        }
    }

    /// The keys and values that stand for this tool in the configuration
    /// file, in the order in which they are written.
    pub fn serialize(&self) -> (r: Vec<SpecEntry>)
        ensures
            entry_views(r@) == serialized(self@),
    {
        let mut entries: Vec<SpecEntry> = Vec::new();
        entries.push(
            SpecEntry {
                key: String::from_str("project"),
                value: SpecValue::Text(self.project.clone()),
            },
        );
        if self.prerelease {
            entries.push(
                SpecEntry { key: String::from_str("prerelease"), value: SpecValue::Flag(true) },
            );
        }
        assert(entry_views(entries@) =~= seq![("project"@, SpecValueView::Text(self.project@))]
            + (if self.prerelease {
            seq![("prerelease"@, SpecValueView::Flag(true))]
        } else {
            Seq::empty()
        }));
        push_text(&mut entries, "changelog", &self.changelog);
        push_text(&mut entries, "release_matcher", &matcher_string(&self.release_matcher));
        push_text(&mut entries, "binary_matcher", &matcher_string(&self.binary_matcher));
        push_text(&mut entries, "version_source", &source_string(&self.version_source));
        push_text(&mut entries, "path", &self.path);
        push_text(&mut entries, "post", &self.post);
        entries
    }
}

/// What is found of a tool at its install path.
#[derive(Clone, Copy, Debug, PartialEq, Eq, Structural)]
pub struct ToolState {
    /// When the file was last written.
    pub modify_time: Timestamp,
}

/// What came of examining an install path.
#[derive(Debug, PartialEq, Eq)]
pub enum Stat {
    /// There is a file, last written at this time.
    Modified(Timestamp),
    /// There is nothing at the path.
    NotFound,
    /// The path could not be examined, for this reason.
    Failed(String),
}

/// The state of the tool at `path`, from what came of examining the path:
/// no state where nothing is installed, an error where that is not known.
pub fn check(path: &str, stat: Stat) -> (r: Result<Option<ToolState>, ToolError>)
    ensures
        match stat {
            Stat::Modified(time) => r == Ok::<Option<ToolState>, ToolError>(
                Some(ToolState { modify_time: time }),
            ),
            Stat::NotFound => r == Ok::<Option<ToolState>, ToolError>(None),
            Stat::Failed(reason) => r matches Err(ToolError::Stat { path: at, reason: why })
                && at@ == path@ && why == reason,
        },
{
    match stat {
        Stat::Modified(time) => Ok(Some(ToolState { modify_time: time })),
        Stat::NotFound => Ok(None),
        Stat::Failed(reason) => Err(ToolError::Stat { path: String::from_str(path), reason }),
    }
}

} // verus!
