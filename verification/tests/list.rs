use binup::list::{changelog_of, tool_status, Presence, Status};
use binup::project::Project;
use binup::release::Timestamp;
use binup::tool::ToolState;
use binup::version::{ReleaseVersion, Version};

const TIME: Timestamp = Timestamp { seconds: 100, nanoseconds: 5 };

fn installed(seconds: i64, nanoseconds: u32) -> Presence {
    Presence::Installed(ToolState { modify_time: Timestamp { seconds, nanoseconds } })
}

#[test]
fn status_without_a_release() {
    assert_eq!(tool_status(installed(100, 5), None, None, None), Status::Installed);
    assert_eq!(tool_status(Presence::NotInstalled, None, None, None), Status::NotInstalled);
    assert_eq!(tool_status(Presence::Unknown, None, None, None), Status::Unknown);
    let current = Version::parse("1.0.0").unwrap();
    assert_eq!(tool_status(installed(100, 5), Some(&current), None, None), Status::Installed);
}

#[test]
fn status_by_version() {
    let latest = ReleaseVersion::new("v1.2.3");
    let old = Version::parse("1.2.2").unwrap();
    let new = Version::parse("1.2.3").unwrap();
    assert_eq!(tool_status(installed(0, 0), Some(&new), Some(&latest), Some(TIME)), Status::UpToDate);
    assert_eq!(tool_status(installed(999, 0), Some(&old), Some(&latest), Some(TIME)), Status::Outdated);
    assert_eq!(tool_status(installed(999, 0), Some(&old), Some(&latest), None), Status::Outdated);
}

#[test]
fn status_by_time() {
    let latest = ReleaseVersion::new("nightly");
    let current = Version::parse("9.9.9").unwrap();
    for (seconds, nanoseconds, expected) in [
        (100, 5, Status::UpToDate),
        (100, 6, Status::UpToDate),
        (101, 0, Status::UpToDate),
        (100, 4, Status::Outdated),
        (99, 999_999_999, Status::Outdated),
        (-1, 0, Status::Outdated),
    ] {
        let presence = installed(seconds, nanoseconds);
        assert_eq!(tool_status(presence, None, Some(&latest), Some(TIME)), expected);
        assert_eq!(tool_status(presence, Some(&current), Some(&latest), Some(TIME)), expected);
    }
    assert_eq!(tool_status(installed(100, 5), None, Some(&latest), None), Status::Installed);
    assert_eq!(tool_status(Presence::NotInstalled, None, Some(&latest), Some(TIME)), Status::NotInstalled);
    assert_eq!(tool_status(Presence::Unknown, None, Some(&latest), Some(TIME)), Status::Unknown);
}

#[test]
fn status_names() {
    assert_eq!(Status::Installed.name(), "installed");
    assert_eq!(Status::NotInstalled.name(), "not installed");
    assert_eq!(Status::Unknown.name(), "unknown");
    assert_eq!(Status::UpToDate.name(), "up to date");
    assert_eq!(Status::Outdated.name(), "outdated");
}

#[test]
fn changelog_shown() {
    let project =
        Project { name: "n".to_owned(), owner: "o".to_owned(), changelog: "project".to_owned() };
    assert_eq!(changelog_of(Some("own"), Some(&project)), "own");
    assert_eq!(changelog_of(Some("own"), None), "own");
    assert_eq!(changelog_of(None, Some(&project)), "project");
    assert_eq!(changelog_of(None, None), "");
}
