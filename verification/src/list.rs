//! The listing: what is said of each tool's state.

use vstd::prelude::*;
use vstd::string::StringExecFns;
use crate::project::Project;
use crate::release::Timestamp;
use crate::tool::ToolState;
use crate::version::at_least;
use crate::version::ReleaseVersion;
use crate::version::ReleaseVersionView;
use crate::version::Version;
use crate::version::VersionView;

verus! {

/// What examining a tool's install path showed.
#[derive(Clone, Copy, Debug, PartialEq, Eq, Structural)]
pub enum Presence {
    Installed(ToolState),
    NotInstalled,
    /// The path could not be examined.
    Unknown,
}

/// What the listing says of a tool.
#[derive(Clone, Copy, Debug, PartialEq, Eq, Structural)]
pub enum Status {
    Installed,
    NotInstalled,
    Unknown,
    UpToDate,
    Outdated,
}

/// Whether a time is another or comes after it.
pub open spec fn not_before(a: Timestamp, b: Timestamp) -> bool {
    a.seconds > b.seconds || (a.seconds == b.seconds && a.nanoseconds >= b.nanoseconds)
}

/// Whether the installed tool is as new as the latest release, where that
/// can be told: by the two versions where both are known; else by the time
/// of the tool's file and that of the release's asset.
pub open spec fn freshness(
    presence: Presence,
    current: Option<VersionView>,
    latest: Option<ReleaseVersionView>,
    release_time: Option<Timestamp>,
) -> Option<bool> {
    match (current, latest) {
        (Some(installed), Some(ReleaseVersionView::Version(released))) => Some(
            at_least(installed, released),
        ),
        _ => match (presence, release_time) {
            (Presence::Installed(state), Some(time)) => Some(not_before(state.modify_time, time)),
            _ => None,
        },
    }
}

/// What the listing says of a tool: whether it is up to date where that can
/// be told, else whether it is installed.
pub open spec fn status_of(
    presence: Presence,
    current: Option<VersionView>,
    latest: Option<ReleaseVersionView>,
    release_time: Option<Timestamp>,
) -> Status {
    match freshness(presence, current, latest, release_time) {
        Some(true) => Status::UpToDate,
        Some(false) => Status::Outdated,
        None => match presence {
            Presence::Installed(_) => Status::Installed,
            Presence::NotInstalled => Status::NotInstalled,
            Presence::Unknown => Status::Unknown,
        },
    }
}

/// The state of a tool for the listing: `current` is the version that the
/// installed tool reported, `latest` the version of the latest release if
/// one was found, `release_time` the time of its asset if one was chosen.
pub fn tool_status(
    presence: Presence,
    current: Option<&Version>,
    latest: Option<&ReleaseVersion>,
    release_time: Option<Timestamp>,
) -> (r: Status)
    ensures
        r == status_of(
            presence,
            match current {
                Some(v) => Some(v@),
                None => None,
            },
            match latest {
                Some(v) => Some(v@),
                None => None,
            },
            release_time,
        ),
{
    let fresh: Option<bool> = match (current, latest) {
        (Some(installed), Some(ReleaseVersion::Version(released))) => Some(
            installed.at_least(released),
        ),
        _ => match (presence, release_time) {
            (Presence::Installed(state), Some(time)) => Some(
                state.modify_time.seconds > time.seconds || (state.modify_time.seconds
                    == time.seconds && state.modify_time.nanoseconds >= time.nanoseconds),
            ),
            _ => None,
        },
    };
    match fresh {
        Some(true) => Status::UpToDate,
        Some(false) => Status::Outdated,
        None => match presence {
            Presence::Installed(_) => Status::Installed,
            Presence::NotInstalled => Status::NotInstalled,
            Presence::Unknown => Status::Unknown,
        },
    }
}

impl Status {
    /// The status in words.
    pub fn name(&self) -> (r: &'static str)
        ensures
            r@ == match *self {
                Status::Installed => "installed"@,
                Status::NotInstalled => "not installed"@,
                Status::Unknown => "unknown"@,
                Status::UpToDate => "up to date"@,
                Status::Outdated => "outdated"@,
            },
    {
        match self {
            Status::Installed => "installed",
            Status::NotInstalled => "not installed",
            Status::Unknown => "unknown",
            Status::UpToDate => "up to date",
            Status::Outdated => "outdated",
        }
    }
}

/// The changelog that is shown for a tool: the one of its configuration,
/// else the project's, else none.
pub fn changelog_of(configured: Option<&str>, project: Option<&Project>) -> (r: String)
    ensures
        r@ == match (configured, project) {
            (Some(url), _) => url@,
            (None, Some(p)) => p.changelog@,
            (None, None) => Seq::<char>::empty(),
        },
{
    match configured {
        Some(url) => String::from_str(url),
        None => match project {
            Some(p) => p.changelog.clone(),
            None => String::new(),
        },
    }
}

} // verus!
