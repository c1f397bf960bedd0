//! Projects: where a tool's releases are published.

use vstd::prelude::*;
use vstd::string::StringExecFns;
use crate::text::find_from;
use crate::text::first_at;
use crate::text::from_chars;
use crate::text::to_chars;

verus! {

/// The absolute URL that `url::Url::parse` reads from a text, as the `Url`
/// then writes it; nothing where the text is refused.
pub uninterp spec fn url_parsed(text: Seq<char>) -> Option<Seq<char>>;

/// Calls `url::Url::parse` and takes the URL's text, which is the whole of
/// what a `Url` holds.
#[verifier::external_body]
pub(crate) fn parse_url(text: &str) -> (r: Option<String>)
    ensures
        match r {
            Some(url) => url_parsed(text@) == Some(url@),
            None => url_parsed(text@) is None,
        },
{
    match url::Url::parse(text) {
        Ok(url) => Some(String::from(url)),
        Err(_) => None,
    }
}

/// A project: the upstream source of a tool's releases.
#[derive(Debug, PartialEq, Eq)]
pub struct Project {
    pub name: String,
    pub owner: String,
    /// The URL of the project's list of releases.
    pub changelog: String,
}

/// What a project holds.
pub struct ProjectView {
    pub name: Seq<char>,
    pub owner: Seq<char>,
    pub changelog: Seq<char>,
}

impl View for Project {
    type V = ProjectView;

    open spec fn view(&self) -> ProjectView {
        ProjectView { name: self.name@, owner: self.owner@, changelog: self.changelog@ }
    }
}

/// The one reason for which a project identifier is refused.
#[derive(Debug, PartialEq, Eq, Clone, Copy, Structural)]
pub enum ProjectError {
    InvalidName,
}

impl ProjectError {
    pub fn message(&self) -> (r: String)
        ensures
            r@ == "Invalid GitHub project name"@,
    {
        String::from_str("Invalid GitHub project name")
    }
}

/// The owner and the name in `owner/name`: the texts before and after the
/// slash, where there is exactly one.
pub open spec fn owner_and_name(full_name: Seq<char>) -> Option<(Seq<char>, Seq<char>)> {
    let at = first_at(full_name, '/', 0);
    if at < full_name.len() && first_at(full_name, '/', at + 1) == full_name.len() {
        Some((full_name.take(at), full_name.skip(at + 1)))
    } else {
        None
    }
}

/// The address of a project's releases.
pub open spec fn releases_url(full_name: Seq<char>) -> Seq<char> {
    "https://github.com/"@ + full_name + "/releases"@
}

/// The project that `owner/name` names: none unless there is exactly one
/// slash and the address of its releases is a URL.
pub open spec fn project_named(full_name: Seq<char>) -> Option<ProjectView> {
    match owner_and_name(full_name) {
        Some((owner, name)) => match url_parsed(releases_url(full_name)) {
            Some(changelog) => Some(ProjectView { name, owner, changelog }),
            None => None,
        },
        None => None,
    }
}

impl Project {
    /// `owner/name`.
    pub fn full_name(&self) -> (r: String)
        ensures
            r@ == self.owner@ + "/"@ + self.name@,
    {
        let mut r = self.owner.clone();
        r.append("/");
        r.append(self.name.as_str());
        r
    }

    /// A copy of this project.
    pub fn duplicate(&self) -> (r: Project)
        ensures
            r == *self,
    {
        Project {
            name: self.name.clone(),
            owner: self.owner.clone(),
            changelog: self.changelog.clone(),
        }
    }
}

/// Splits `owner/name` at its slash.
pub fn split_project_name(full_name: &str) -> (r: Option<(String, String)>)
    ensures
        match r {
            Some((owner, name)) => owner_and_name(full_name@) == Some((owner@, name@)),
            None => owner_and_name(full_name@) is None,
        },
{
    let chars = to_chars(full_name);
    let at: usize = find_from(&chars, '/', 0);
    if at == chars.len() {
        return None;
    }
    let next: usize = find_from(&chars, '/', at + 1);
    if next != chars.len() {
        return None;
    }
    let owner = from_chars(&chars, 0, at);
    let name = from_chars(&chars, at + 1, chars.len());
    assert(owner@ =~= full_name@.take(at as int));
    assert(name@ =~= full_name@.skip(at + 1));
    Some((owner, name))
}

/// The project of a split identifier, given what the URL parser made of
/// the address of its releases.
pub fn project_with_changelog(owner: String, name: String, changelog: Option<String>) -> (r: Result<
    Project,
    ProjectError,
>)
    ensures
        match changelog {
            Some(url) => r == Ok::<Project, ProjectError>(Project { name, owner, changelog: url }),
            None => r == Err::<Project, ProjectError>(ProjectError::InvalidName),
        },
{
    match changelog {
        Some(url) => Ok(Project { name, owner, changelog: url }),
        None => Err(ProjectError::InvalidName),
    }
}

/// Reads a project identifier of the form `owner/name`.
pub fn parse_project_name(full_name: &str) -> (r: Result<Project, ProjectError>)
    ensures
        match r {
            Ok(project) => project_named(full_name@) == Some(project@),
            Err(e) => project_named(full_name@) is None,
        },
{
    match split_project_name(full_name) {
        Some((owner, name)) => {
            let mut address = String::from_str("https://github.com/");
            address.append(full_name);
            address.append("/releases");
            project_with_changelog(owner, name, parse_url(address.as_str()))
        },
        None => Err(ProjectError::InvalidName),
    }
}

} // verus!
