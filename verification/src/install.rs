//! Installing and upgrading: what is to be done for a tool, which file of
//! an archive becomes its binary, and what happens to the temporary file
//! that the binary is first written to.
//!
//! Nothing here touches a file. The caller walks the archive, hands in each
//! file's path and mode, writes where it is told to, and at the end renames
//! or removes the temporary file as it is told to.

use vstd::prelude::*;
use vstd::string::StringExecFns;
use crate::matcher::matched_bytes;
use crate::matcher::Matcher;
use crate::matcher::MatcherView;
use crate::project::parse_project_name;
use crate::project::project_named;
use crate::project::ProjectError;
use crate::release::generate_binary_matcher;
use crate::release::Release;
use crate::release::Timestamp;
use crate::text::trimmed;
use crate::tool::optional_text;
use crate::tool::ToolSpec;
use crate::tool::ToolState;
use crate::util::bullet_list;
use crate::util::contains;
use crate::util::copy_list;
use crate::util::format_list;
use crate::util::format_multiline;
use crate::util::is_among;
use crate::util::lemma_bullet_list_names_every_item;
use crate::util::lemma_occurs_within;
use crate::util::lemma_texts_push;
use crate::util::occurs;
use crate::util::multiline;
use crate::util::texts;
use crate::version::at_least;
use crate::version::release_version_text;
use crate::version::version_text;
use crate::version::ReleaseVersion;
use crate::version::ReleaseVersionView;
use crate::version::Version;
use crate::version::VersionView;

verus! {

/// What the user asked for.
#[derive(Clone, Copy, Debug, PartialEq, Eq, Structural)]
pub enum Mode {
    /// Install what is not installed; with `force`, what is installed too.
    /// `recheck_spec` is set where the tool's configuration has changed, so
    /// that the release is looked at again.
    Install { force: bool, recheck_spec: bool },
    /// Replace what is installed by a newer release.
    Upgrade,
}

/// What is done before the latest release is asked for.
#[derive(Clone, Copy, Debug, PartialEq, Eq, Structural)]
pub enum Start {
    /// Nothing: the tool is already installed.
    AlreadyInstalled,
    /// The release is fetched, and the work goes on in this mode.
    Fetch(Mode),
}

/// The first decision. A plain install of an installed tool is done with. An
/// upgrade of a tool that is not installed is a plain install.
pub open spec fn start_of(mode: Mode, installed: bool) -> Start {
    match mode {
        Mode::Install { force, recheck_spec } => if installed && !force && !recheck_spec {
            Start::AlreadyInstalled
        } else {
            Start::Fetch(mode)
        },
        Mode::Upgrade => if installed {
            Start::Fetch(Mode::Upgrade)
        } else {
            Start::Fetch(Mode::Install { force: false, recheck_spec: false })
        },
    }
}

/// Decides whether the latest release has to be asked for at all.
pub fn start(mode: Mode, installed: bool) -> (r: Start)
    ensures
        r == start_of(mode, installed),
{
    match mode {
        Mode::Install { force, recheck_spec } => {
            if installed && !force && !recheck_spec {
                Start::AlreadyInstalled
            } else {
                Start::Fetch(mode)
            }
        },
        Mode::Upgrade => {
            if installed {
                Start::Fetch(Mode::Upgrade)
            } else {
                Start::Fetch(Mode::Install { force: false, recheck_spec: false })
            }
        },
    }
}

/// What is done once the latest release is known.
#[derive(Clone, Copy, Debug, PartialEq, Eq, Structural)]
pub enum Plan {
    /// Nothing: the tool is installed and no reinstall was asked for.
    AlreadyInstalled,
    /// Nothing: what is installed is the latest release, as far as can be
    /// told.
    UpToDate,
    /// The tool is installed for the first time.
    Install,
    /// The tool is installed over itself.
    Reinstall,
    /// The tool is replaced by the latest release.
    Upgrade,
}

/// Whether the installed tool is taken to be the latest release. Where both
/// versions are known, they decide. Else, and always where the release has
/// only a tag, the tool is up to date if its file was last written at the
/// very time of the release's asset.
pub open spec fn up_to_date(
    tool: Option<ToolState>,
    current: Option<VersionView>,
    latest: ReleaseVersionView,
    release_time: Timestamp,
) -> bool {
    match (current, latest) {
        (Some(installed), ReleaseVersionView::Version(released)) => at_least(installed, released),
        _ => match tool {
            Some(state) => state.modify_time == release_time,
            None => false,
        },
    }
}

/// The second decision, in the mode that the first one left.
pub open spec fn plan_of(
    mode: Mode,
    tool: Option<ToolState>,
    current: Option<VersionView>,
    latest: ReleaseVersionView,
    release_time: Timestamp,
) -> Plan {
    match mode {
        Mode::Install { force, recheck_spec } => if tool is None {
            Plan::Install
        } else if force {
            Plan::Reinstall
        } else {
            Plan::AlreadyInstalled
        },
        Mode::Upgrade => if up_to_date(tool, current, latest, release_time) {
            Plan::UpToDate
        } else {
            Plan::Upgrade
        },
    }
}

/// Decides what is done for a tool, once its latest release is known and
/// an asset is chosen: `tool` is what was found at the install path,
/// `current` the version that the installed tool reported, if any.
pub fn plan(
    mode: Mode,
    tool: Option<ToolState>,
    current: Option<&Version>,
    latest: &ReleaseVersion,
    release_time: Timestamp,
) -> (r: Plan)
    ensures
        r == plan_of(
            mode,
            tool,
            match current {
                Some(v) => Some(v@),
                None => None,
            },
            latest@,
            release_time,
        ),
{
    match mode {
        Mode::Install { force, recheck_spec } => {
            if tool.is_none() {
                Plan::Install
            } else if force {
                Plan::Reinstall
            } else {
                Plan::AlreadyInstalled
            }
        },
        Mode::Upgrade => {
            let fresh: bool = match (current, latest) {
                (Some(installed), ReleaseVersion::Version(released)) => installed.at_least(
                    released,
                ),
                _ => match tool {
                    Some(state) => state.modify_time == release_time,
                    None => false,
                },
            };
            if fresh {
                Plan::UpToDate
            } else {
                Plan::Upgrade
            }
        },
    }
}

/// A release that has only a tag is never ordered against a version: what
/// the installed tool reports of itself changes nothing, and only the time
/// of its file can show it up to date.
pub proof fn lemma_tag_is_not_ordered(
    mode: Mode,
    tool: Option<ToolState>,
    current: Option<VersionView>,
    tag: Seq<char>,
    release_time: Timestamp,
)
    ensures
        plan_of(mode, tool, current, ReleaseVersionView::Tag(tag), release_time) == plan_of(
            mode,
            tool,
            None,
            ReleaseVersionView::Tag(tag),
            release_time,
        ),
        up_to_date(tool, current, ReleaseVersionView::Tag(tag), release_time) <==> (tool matches Some(
            state,
        ) && state.modify_time == release_time),
{
}

/// An upgrade of a tool that is as new as the release does nothing, and
/// neither does one that follows an install of that release: whether the
/// tool then reports the release's version, or reports none and has the
/// time of the asset that it was written from.
pub proof fn lemma_upgrade_is_idempotent(
    tool: ToolState,
    current: Option<VersionView>,
    latest: ReleaseVersionView,
    release_time: Timestamp,
)
    requires
        match (current, latest) {
            (Some(installed), ReleaseVersionView::Version(released)) => at_least(
                installed,
                released,
            ),
            _ => tool.modify_time == release_time,
        },
    ensures
        start_of(Mode::Upgrade, true) == Start::Fetch(Mode::Upgrade),
        plan_of(Mode::Upgrade, Some(tool), current, latest, release_time) == Plan::UpToDate,
{
}

/// What is said of the changelog when a version changes: an ellipsis where
/// the version stays the same, else where to read about it.
pub open spec fn changelog_note(
    changelog: Seq<char>,
    from: Option<VersionView>,
    to: ReleaseVersionView,
) -> Seq<char> {
    match (from, to) {
        (Some(old), ReleaseVersionView::Version(new)) => if old == new {
            "..."@
        } else {
            " (see "@ + changelog + ")"@
        },
        _ => " (see "@ + changelog + ")"@,
    }
}

/// The note on the changelog that ends the line about a version change.
pub fn format_changelog(changelog: &str, from: Option<&Version>, to: &ReleaseVersion) -> (r: String)
    ensures
        r@ == changelog_note(
            changelog@,
            match from {
                Some(v) => Some(v@),
                None => None,
            },
            to@,
        ),
{
    let unchanged: bool = match (from, to) {
        (Some(old), ReleaseVersion::Version(new)) => old.same(new),
        _ => false,
    };
    if unchanged {
        String::from_str("...")
    } else {
        let mut r = String::from_str(" (see ");
        r.append(changelog);
        r.append(")");
        r
    }
}

/// The line that tells the user what is done for a tool.
pub open spec fn plan_line(
    plan: Plan,
    name: Seq<char>,
    current: Option<VersionView>,
    latest: ReleaseVersionView,
    changelog: Seq<char>,
) -> Seq<char> {
    match plan {
        Plan::AlreadyInstalled => name + " is already installed."@,
        Plan::UpToDate => name + " is already up-to-date."@,
        Plan::Install => "Installing "@ + name + "..."@,
        Plan::Reinstall => match current {
            Some(installed) => "Reinstalling "@ + name + ": "@ + version_text(installed) + " -> "@
                + release_version_text(latest) + changelog_note(changelog, current, latest),
            None => "Reinstalling "@ + name + "..."@,
        },
        Plan::Upgrade => match current {
            Some(installed) => "Upgrading "@ + name + ": "@ + version_text(installed) + " -> "@
                + release_version_text(latest) + changelog_note(changelog, current, latest),
            None => "Upgrading "@ + name + " to "@ + release_version_text(latest) + changelog_note(
                changelog,
                current,
                latest,
            ),
        },
    }
}

/// Words the line that tells the user what is done for the tool `name`.
pub fn plan_message(
    plan: Plan,
    name: &str,
    current: Option<&Version>,
    latest: &ReleaseVersion,
    changelog: &str,
) -> (r: String)
    ensures
        r@ == plan_line(
            plan,
            name@,
            match current {
                Some(v) => Some(v@),
                None => None,
            },
            latest@,
            changelog@,
        ),
{
    match plan {
        Plan::AlreadyInstalled => String::from_str(name).concat(" is already installed."),
        Plan::UpToDate => String::from_str(name).concat(" is already up-to-date."),
        Plan::Install => {
            let mut r = String::from_str("Installing ");
            r.append(name);
            r.append("...");
            r
        },
        Plan::Reinstall => match current {
            Some(installed) => {
                let mut r = String::from_str("Reinstalling ");
                r.append(name);
                r.append(": ");
                r.append(installed.to_string().as_str());
                r.append(" -> ");
                r.append(latest.to_string().as_str());
                r.append(format_changelog(changelog, current, latest).as_str());
                r
            },
            None => {
                let mut r = String::from_str("Reinstalling ");
                r.append(name);
                r.append("...");
                r
            },
        },
        Plan::Upgrade => match current {
            Some(installed) => {
                let mut r = String::from_str("Upgrading ");
                r.append(name);
                r.append(": ");
                r.append(installed.to_string().as_str());
                r.append(" -> ");
                r.append(latest.to_string().as_str());
                r.append(format_changelog(changelog, current, latest).as_str());
                r
            },
            None => {
                let mut r = String::from_str("Upgrading ");
                r.append(name);
                r.append(" to ");
                r.append(latest.to_string().as_str());
                r.append(format_changelog(changelog, current, latest).as_str());
                r
            },
        },
    }
}

/// Why an install failed.
#[derive(Debug, PartialEq, Eq)]
pub enum InstallError {
    /// A tool was named that the configuration does not have.
    UnknownTool { name: String },
    /// The file that the matcher chose is not executable.
    NotExecutable { path: String },
    /// The install path has no file name to derive a temporary name from.
    UnexpectedInstallPath { path: String },
    /// No binary could be chosen automatically: the release has no
    /// executable at all.
    NoExecutables { url: String },
    /// No binary could be chosen automatically among the executables, which
    /// are all named.
    NoAutomaticChoice { url: String, binaries: Vec<String> },
    /// The user's matcher matches several files, which are named.
    MultipleMatches { url: String, matches: Vec<String> },
    /// The user's matcher matches no file; the executables are named.
    NoMatch { url: String, binaries: Vec<String> },
    /// The binary was chosen, but no temporary file was written for it.
    NotWritten { url: String },
    /// The command that runs after the install failed.
    PostScript { status: String, stderr: String },
}

/// The message of an install error. Where the choice of the binary failed,
/// it names every file in question.
pub open spec fn install_message(error: InstallError) -> Seq<char> {
    match error {
        InstallError::UnknownTool { name } => "\""@ + name@
            + "\" tool is not specified in the configuration file"@,
        InstallError::NotExecutable { path } => "\""@ + path@
            + "\" in the archive is not executable"@,
        InstallError::UnexpectedInstallPath { path } => "Got an unexpected install path: \""@
            + path@ + "\""@,
        InstallError::NoExecutables { url } =>
            "Unable to automatically choose the proper executable from release ("@ + url@
                + ") binaries: the release has no executable binaries"@,
        InstallError::NoAutomaticChoice { url, binaries } =>
            "Unable to automatically choose the proper executable from release ("@ + url@
                + ") binaries:"@ + bullet_list(texts(binaries@))
                + "\n\nBinary matcher should be specified."@,
        InstallError::MultipleMatches { url, matches } =>
            "The specified binary matcher matches multiple release ("@ + url@ + ") files:"@
                + bullet_list(texts(matches@)),
        InstallError::NoMatch { url, binaries } => if binaries@.len() == 0 {
            "The specified binary matcher matches none of release ("@ + url@
                + ") files. The release has no executable binaries at all"@
        } else {
            "The specified binary matcher matches none of release ("@ + url@
                + ") files. The release has the following executable binaries:"@ + bullet_list(
                texts(binaries@),
            )
        },
        InstallError::NotWritten { url } => "No binary of release ("@ + url@
            + ") has been written"@,
        InstallError::PostScript { status, stderr } => "Post-install script returned an error ("@
            + status@ + "):"@ + multiline(stderr@),
    }
}

/// The files that an install error names: the executables of the release,
/// or the files that the matcher matched.
pub open spec fn files_in(error: InstallError) -> Seq<Seq<char>> {
    match error {
        InstallError::NoAutomaticChoice { url, binaries } => texts(binaries@),
        InstallError::MultipleMatches { url, matches } => texts(matches@),
        InstallError::NoMatch { url, binaries } => texts(binaries@),
        _ => Seq::empty(),
    }
}

/// The message of an install error names every file that the error is
/// about, each on a line of its own, so that a matcher can be written from
/// it.
pub proof fn lemma_message_names_every_file(error: InstallError, i: int)
    requires
        0 <= i < files_in(error).len(),
    ensures
        occurs(install_message(error), "\n* "@ + files_in(error)[i]),
{
    let files = files_in(error);
    let piece = "\n* "@ + files[i];
    lemma_bullet_list_names_every_item(files, i);
    match error {
        InstallError::NoAutomaticChoice { url, binaries } => {
            let head = "Unable to automatically choose the proper executable from release ("@
                + url@ + ") binaries:"@;
            let tail = "\n\nBinary matcher should be specified."@;
            lemma_occurs_within(head, bullet_list(files), tail, piece);
        },
        InstallError::MultipleMatches { url, matches } => {
            let head = "The specified binary matcher matches multiple release ("@ + url@
                + ") files:"@;
            lemma_occurs_within(head, bullet_list(files), Seq::empty(), piece);
            assert(head + bullet_list(files) + Seq::<char>::empty() =~= install_message(error));
        },
        InstallError::NoMatch { url, binaries } => {
            let head = "The specified binary matcher matches none of release ("@ + url@
                + ") files. The release has the following executable binaries:"@;
            lemma_occurs_within(head, bullet_list(files), Seq::empty(), piece);
            assert(head + bullet_list(files) + Seq::<char>::empty() =~= install_message(error));
        },
        _ => {},
    }
}

impl InstallError {
    /// The error as a message for the user.
    pub fn message(&self) -> (r: String)
        ensures
            r@ == install_message(*self),
    {
        match self {
            InstallError::UnknownTool { name } => {
                let mut r = String::from_str("\"");
                r.append(name.as_str());
                r.append("\" tool is not specified in the configuration file");
                r
            },
            InstallError::NotExecutable { path } => {
                let mut r = String::from_str("\"");
                r.append(path.as_str());
                r.append("\" in the archive is not executable");
                r
            },
            InstallError::UnexpectedInstallPath { path } => {
                let mut r = String::from_str("Got an unexpected install path: \"");
                r.append(path.as_str());
                r.append("\"");
                r
            },
            InstallError::NoExecutables { url } => {
                let mut r = String::from_str(
                    "Unable to automatically choose the proper executable from release (",
                );
                r.append(url.as_str());
                r.append(") binaries: the release has no executable binaries");
                r
            },
            InstallError::NoAutomaticChoice { url, binaries } => {
                let mut r = String::from_str(
                    "Unable to automatically choose the proper executable from release (",
                );
                r.append(url.as_str());
                r.append(") binaries:");
                r.append(format_list(binaries).as_str());
                r.append("\n\nBinary matcher should be specified.");
                r
            },
            InstallError::MultipleMatches { url, matches } => {
                let mut r = String::from_str(
                    "The specified binary matcher matches multiple release (",
                );
                r.append(url.as_str());
                r.append(") files:");
                r.append(format_list(matches).as_str());
                r
            },
            InstallError::NoMatch { url, binaries } => {
                let mut r = String::from_str(
                    "The specified binary matcher matches none of release (",
                );
                r.append(url.as_str());
                if binaries.len() == 0 {
                    r.append(") files. The release has no executable binaries at all");
                } else {
                    r.append(") files. The release has the following executable binaries:");
                    r.append(format_list(binaries).as_str());
                }
                r
            },
            InstallError::NotWritten { url } => {
                let mut r = String::from_str("No binary of release (");
                r.append(url.as_str());
                r.append(") has been written");
                r
            },
            InstallError::PostScript { status, stderr } => {
                let mut r = String::from_str("Post-install script returned an error (");
                r.append(status.as_str());
                r.append("):");
                r.append(format_multiline(stderr.as_str()).as_str());
                r
            },
        }
    }
}

/// The last component of a path, as `std::path::Path::file_name` gives it
/// on a system whose separator is `/`; nothing where the path ends in `..`
/// or has no component.
pub uninterp spec fn path_file_name(path: Seq<char>) -> Option<Seq<char>>;

/// The path with its last component replaced, as
/// `std::path::Path::with_file_name` gives it on a system whose separator
/// is `/`.
pub uninterp spec fn path_with_file_name(path: Seq<char>, name: Seq<char>) -> Seq<char>;

/// Calls `Path::file_name`. A path that is text has a file name that is
/// text.
#[verifier::external_body]
fn file_name(path: &str) -> (r: Option<String>)
    ensures
        optional_text(r) == path_file_name(path@),
{
    match std::path::Path::new(path).file_name() {
        Some(name) => Some(name.to_string_lossy().into_owned()),
        None => None,
    }
}

/// Calls `Path::with_file_name`. A path that is text, with a file name that
/// is text, gives a path that is text.
#[verifier::external_body]
fn with_file_name(path: &str, name: &str) -> (r: String)
    ensures
        r@ == path_with_file_name(path@, name@),
{
    std::path::Path::new(path).with_file_name(name).to_string_lossy().into_owned()
}

/// The name of the temporary file of a binary: hidden, and marked as this
/// program's.
pub open spec fn temp_name(file_name: Seq<char>) -> Seq<char> {
    "."@ + file_name + ".binup"@
}

/// The temporary file beside an install path; none where the path has no
/// file name.
pub open spec fn temp_path_of(path: Seq<char>) -> Option<Seq<char>> {
    match path_file_name(path) {
        Some(name) => Some(path_with_file_name(path, temp_name(name))),
        None => None,
    }
}

/// The temporary path for an install path, given the path's file name.
pub fn temp_path_for(path: &str, name: Option<&str>) -> (r: Option<String>)
    ensures
        optional_text(r) == match name {
            Some(n) => Some(path_with_file_name(path@, temp_name(n@))),
            None => None,
        },
{
    match name {
        Some(n) => {
            let mut hidden = String::from_str(".");
            hidden.append(n);
            hidden.append(".binup");
            Some(with_file_name(path, hidden.as_str()))
        },
        None => None,
    }
}

/// Whether a file mode lets anyone execute the file: its owner, its group
/// or the others.
pub open spec fn is_executable_mode(mode: u32) -> bool {
    mode & 0o111 != 0
}

/// The mode that the temporary file is created with.
pub const BINARY_MODE: u32 = 0o755;

/// What the installer holds while it walks one archive.
pub struct InstallerView {
    pub matcher: MatcherView,
    /// Whether the matcher was synthesised because the user gave none.
    pub automatic: bool,
    /// The executables seen so far.
    pub binaries: Seq<Seq<char>>,
    /// The files seen so far that the matcher matches.
    pub matches: Seq<Seq<char>>,
    /// The temporary file, once the caller has created it.
    pub temp_path: Option<Seq<char>>,
    /// The install path.
    pub path: Seq<char>,
    /// The time of the release's asset.
    pub time: Timestamp,
}

/// What is done with one file of the archive.
#[derive(Debug, PartialEq, Eq)]
pub enum FileAction {
    /// Nothing.
    Skip,
    /// The file is written to `temp_path`, which is created with
    /// `BINARY_MODE` and without following a link, or cut to nothing if it
    /// exists; it is given the time `time` and flushed to the disk. Once
    /// the file exists, the installer is told so by `temp_created`.
    Write { temp_path: String, time: Timestamp },
}

/// What a finished walk calls for: to rename the temporary file to the
/// install path. This is the one write to the install path.
#[derive(Debug, PartialEq, Eq)]
pub struct Rename {
    pub from: String,
    pub to: String,
}

/// A failed install: the error, and the temporary file that has to be
/// removed, if one was created.
#[derive(Debug, PartialEq, Eq)]
pub struct Failure {
    pub error: InstallError,
    pub remove: Option<String>,
}

/// The installer of one tool: it sees the files of one archive, chooses
/// the binary among them and keeps track of the temporary file.
pub struct Installer {
    matcher: Matcher,
    automatic_matcher: bool,
    binaries: Vec<String>,
    matches: Vec<String>,
    temp_path: Option<String>,
    path: String,
    time: Timestamp,
}

impl View for Installer {
    type V = InstallerView;

    closed spec fn view(&self) -> InstallerView {
        InstallerView {
            matcher: self.matcher@,
            automatic: self.automatic_matcher,
            binaries: texts(self.binaries@),
            matches: texts(self.matches@),
            temp_path: optional_text(self.temp_path),
            path: self.path@,
            time: self.time,
        }
    }
}

/// The installer after it has seen a file: an executable is noted, and so
/// is a file that the matcher matches.
pub open spec fn seen(
    state: InstallerView,
    path: Seq<u8>,
    shown: Seq<char>,
    mode: u32,
) -> InstallerView {
    InstallerView {
        binaries: if is_executable_mode(mode) {
            state.binaries.push(shown)
        } else {
            state.binaries
        },
        matches: if matched_bytes(state.matcher, path) {
            state.matches.push(shown)
        } else {
            state.matches
        },
        ..state
    }
}

/// What seeing a file comes to.
pub enum FileOutcome {
    Skip,
    Write,
    NotExecutable,
}

/// What is done with a file. The first file that the matcher matches is
/// written, and has to be executable; a further match is only noted, to
/// be reported at the end. With an automatic matcher, the first executable
/// is written too while nothing else was, in case it turns out to be the
/// only one.
pub open spec fn file_outcome(state: InstallerView, path: Seq<u8>, mode: u32) -> FileOutcome {
    if matched_bytes(state.matcher, path) {
        if state.matches.len() > 0 {
            FileOutcome::Skip
        } else if !is_executable_mode(mode) {
            FileOutcome::NotExecutable
        } else {
            FileOutcome::Write
        }
    } else if state.automatic && is_executable_mode(mode) && state.temp_path is None {
        FileOutcome::Write
    } else {
        FileOutcome::Skip
    }
}

/// The temporary file that a binary is written to: the one that exists, or
/// else the one beside the install path.
pub open spec fn write_target(state: InstallerView) -> Option<Seq<char>> {
    match state.temp_path {
        Some(path) => Some(path),
        None => temp_path_of(state.path),
    }
}

/// What the end of the walk comes to.
pub enum FinishOutcome {
    /// The binary is chosen and written.
    Commit,
    NoExecutables,
    NoAutomaticChoice,
    MultipleMatches,
    NoMatch,
    /// The binary is chosen, but the caller has created no file for it.
    NotWritten,
}

/// How a walk ends. The binary is the one file that the matcher matched;
/// or, if an automatic matcher matched none, the one executable of the
/// archive. Anything else is an error.
pub open spec fn finish_outcome(state: InstallerView) -> FinishOutcome {
    if (state.automatic && state.matches.len() == 0 && state.binaries.len() == 1)
        || state.matches.len() == 1 {
        if state.temp_path is Some {
            FinishOutcome::Commit
        } else {
            FinishOutcome::NotWritten
        }
    } else if state.automatic {
        if state.binaries.len() == 0 {
            FinishOutcome::NoExecutables
        } else {
            FinishOutcome::NoAutomaticChoice
        }
    } else if state.matches.len() > 0 {
        FinishOutcome::MultipleMatches
    } else {
        FinishOutcome::NoMatch
    }
}

impl Installer {
    /// The installer of the tool `name` to `path`. Where the user gave no
    /// matcher, the binary is looked for by the tool's name and the
    /// project's; there is no installer where those names are so long that
    /// no matcher can be made of them.
    pub fn new(
        name: &str,
        release: &Release,
        matcher: Option<Matcher>,
        path: &str,
        time: Timestamp,
    ) -> (r: Option<Installer>)
        ensures
            matcher is Some ==> r is Some,
            r matches Some(installer) ==> installer@ == (InstallerView {
                matcher: match matcher {
                    Some(m) => m@,
                    None => MatcherView::Regex(
                        crate::release::binary_pattern(name@, release.project.name@),
                    ),
                },
                automatic: matcher is None,
                binaries: Seq::empty(),
                matches: Seq::empty(),
                temp_path: None,
                path: path@,
                time,
            }),
            matcher is None ==> (r is Some <==> crate::matcher::regex_accepted(
                crate::release::binary_pattern(name@, release.project.name@),
            )),
    {
        let (matcher, automatic_matcher) = match matcher {
            Some(m) => (m, false),
            None => match generate_binary_matcher(name, release) {
                Some(m) => (m, true),
                None => {
                    return None;
                },
            },
        };
        let installer = Installer {
            matcher,
            automatic_matcher,
            binaries: Vec::new(),
            matches: Vec::new(),
            temp_path: None,
            path: String::from_str(path),
            time,
        };
        assert(installer@.binaries =~= Seq::empty());
        assert(installer@.matches =~= Seq::empty());
        Some(installer)
    }

    /// Sees one file of the archive: its path as the archive has it, the
    /// same path as it is shown to the user, and its mode. The answer says
    /// whether the file is to be written, and where.
    pub fn on_file(&mut self, path: &[u8], shown: &str, mode: u32) -> (r: Result<
        FileAction,
        InstallError,
    >)
        ensures
            final(self)@ == seen(old(self)@, path@, shown@, mode),
            match file_outcome(old(self)@, path@, mode) {
                FileOutcome::Skip => r == Ok::<FileAction, InstallError>(FileAction::Skip),
                FileOutcome::NotExecutable => r matches Err(
                    InstallError::NotExecutable { path: refused },
                ) && refused@ == shown@,
                FileOutcome::Write => match write_target(old(self)@) {
                    Some(target) => r matches Ok(FileAction::Write { temp_path, time })
                        && temp_path@ == target && time == old(self)@.time,
                    None => r matches Err(InstallError::UnexpectedInstallPath { path: refused })
                        && refused@ == old(self)@.path,
                },
            },
    {
        let executable: bool = mode & 0o111 != 0;
        if executable {
            let entry = String::from_str(shown);
            proof {
                lemma_texts_push(self.binaries@, entry);
            }
            self.binaries.push(entry);
        }
        if self.matcher.matches_bytes(path) {
            let entry = String::from_str(shown);
            proof {
                lemma_texts_push(self.matches@, entry);
            }
            self.matches.push(entry);
            if self.matches.len() > 1 {
                return Ok(FileAction::Skip);
            }
            if !executable {
                return Err(InstallError::NotExecutable { path: String::from_str(shown) });
            }
        } else if self.automatic_matcher && executable && self.temp_path.is_none() {
        } else {
            return Ok(FileAction::Skip);
        }
        let target: Option<String> = match &self.temp_path {
            Some(existing) => Some(existing.clone()),
            None => {
                let name = file_name(self.path.as_str());
                match &name {
                    Some(n) => temp_path_for(self.path.as_str(), Some(n.as_str())),
                    None => temp_path_for(self.path.as_str(), None),
                }
            },
        };
        match target {
            Some(temp_path) => Ok(FileAction::Write { temp_path, time: self.time }),
            None => Err(InstallError::UnexpectedInstallPath { path: self.path.clone() }),
        }
    }

    /// Notes that the caller has created the temporary file. From now on
    /// the file is the installer's to rename or to have removed.
    pub fn temp_created(&mut self, temp_path: &str)
        ensures
            final(self)@ == (InstallerView { temp_path: Some(temp_path@), ..old(self)@ }),
    {
        self.temp_path = Some(String::from_str(temp_path));
    }

    /// Ends the walk. The one binary that was chosen is renamed to the
    /// install path. If none or more than one was, the error says which
    /// files were in question, and the temporary file, if any, is to be
    /// removed. `url` is the address of the asset, for the message.
    pub fn finish(self, url: &str) -> (r: Result<Rename, Failure>)
        ensures
            match r {
                Ok(rename) => finish_outcome(self@) is Commit && Some(rename.from@)
                    == self@.temp_path && rename.to@ == self@.path,
                Err(failure) => optional_text(failure.remove) == self@.temp_path && match finish_outcome(
                    self@,
                ) {
                    FinishOutcome::Commit => false,
                    FinishOutcome::NotWritten => failure.error matches InstallError::NotWritten {
                        url: at,
                    } && at@ == url@,
                    FinishOutcome::NoExecutables => failure.error
                        matches InstallError::NoExecutables { url: at } && at@ == url@,
                    FinishOutcome::NoAutomaticChoice => failure.error
                        matches InstallError::NoAutomaticChoice { url: at, binaries } && at@
                        == url@ && texts(binaries@) == self@.binaries,
                    FinishOutcome::MultipleMatches => failure.error
                        matches InstallError::MultipleMatches { url: at, matches } && at@ == url@
                        && texts(matches@) == self@.matches,
                    FinishOutcome::NoMatch => failure.error matches InstallError::NoMatch {
                        url: at,
                        binaries,
                    } && at@ == url@ && texts(binaries@) == self@.binaries,
                },
            },
    {
        let chosen: bool = (self.automatic_matcher && self.matches.len() == 0
            && self.binaries.len() == 1) || self.matches.len() == 1;
        let url = String::from_str(url);
        if chosen {
            match self.temp_path {
                Some(from) => Ok(Rename { from, to: self.path }),
                None => Err(Failure { error: InstallError::NotWritten { url }, remove: None }),
            }
        } else {
            let error = if self.automatic_matcher {
                if self.binaries.len() == 0 {
                    InstallError::NoExecutables { url }
                } else {
                    InstallError::NoAutomaticChoice { url, binaries: copy_list(&self.binaries) }
                }
            } else if self.matches.len() > 0 {
                InstallError::MultipleMatches { url, matches: copy_list(&self.matches) }
            } else {
                InstallError::NoMatch { url, binaries: copy_list(&self.binaries) }
            };
            Err(Failure { error, remove: self.temp_path })
        }
    }

    /// Gives the install up, as after an error of the download or of
    /// `on_file`: the temporary file, if one was created, is to be removed.
    /// Nothing is renamed.
    pub fn abort(self) -> (r: Option<String>)
        ensures
            optional_text(r) == self@.temp_path,
    {
        self.temp_path
    }
}

/// What came of the command that runs after an install.
pub open spec fn post_script_result(success: bool, stderr: Seq<char>) -> Option<Option<Seq<char>>> {
    if !success {
        None
    } else if trimmed(stderr).len() == 0 {
        Some(None)
    } else {
        Some(Some("Post-install script:"@ + multiline(stderr)))
    }
}

/// Judges the command that ran after an install, by its exit status and
/// by what it wrote to its standard error: an error if it failed, with the
/// status as text; else a warning if it wrote anything but white space. A
/// failure here does not undo the install.
pub fn check_post_script(success: bool, status: &str, stderr: &str) -> (r: Result<
    Option<String>,
    InstallError,
>)
    ensures
        match post_script_result(success, stderr@) {
            Some(warning) => r matches Ok(w) && optional_text(w) == warning,
            None => r matches Err(InstallError::PostScript { status: code, stderr: text })
                && code@ == status@ && text@ == stderr@,
        },
{
    if !success {
        return Err(
            InstallError::PostScript {
                status: String::from_str(status),
                stderr: String::from_str(stderr),
            },
        );
    }
    if stderr.trim().is_empty() {
        Ok(None)
    } else {
        let mut warning = String::from_str("Post-install script:");
        warning.append(format_multiline(stderr).as_str());
        Ok(Some(warning))
    }
}

/// The first of `names` that is not among `configured`, if there is one.
pub open spec fn first_unknown(configured: Seq<Seq<char>>, names: Seq<Seq<char>>) -> Option<
    Seq<char>,
>
    decreases names.len(),
{
    if names.len() == 0 {
        None
    } else if !is_among(configured, names[0]) {
        Some(names[0])
    } else {
        first_unknown(configured, names.skip(1))
    }
}

/// The tools to work on: all that are configured, in their order, where
/// none is named; else the named ones, in the order in which they were
/// named, all of which have to be configured.
pub fn select_tools(configured: &Vec<String>, names: &Vec<String>) -> (r: Result<
    Vec<String>,
    InstallError,
>)
    ensures
        match r {
            Ok(tools) => first_unknown(texts(configured@), texts(names@)) is None && texts(tools@)
                == if names.len() == 0 {
                texts(configured@)
            } else {
                texts(names@)
            },
            Err(error) => names.len() > 0 && (error matches InstallError::UnknownTool { name }
                && first_unknown(texts(configured@), texts(names@)) == Some(name@)),
        },
{
    if names.len() == 0 {
        return Ok(copy_list(configured));
    }
    let ghost all = texts(names@);
    let mut i: usize = 0;
    assert(all.skip(0) =~= all);
    while i < names.len()
        invariant
            i <= names.len(),
            all == texts(names@),
            first_unknown(texts(configured@), all) == first_unknown(
                texts(configured@),
                all.skip(i as int),
            ),
        decreases names.len() - i,
    {
        assert(all.skip(i as int)[0] == names@[i as int]@);
        assert(all.skip(i as int).skip(1) =~= all.skip(i + 1));
        if !contains(configured, names[i].as_str()) {
            return Err(InstallError::UnknownTool { name: names[i].clone() });
        }
        i += 1;
    }
    Ok(copy_list(names))
}

/// What is done with a tool that is installed from a description given on
/// the command line.
#[derive(Clone, Copy, Debug, PartialEq, Eq, Structural)]
pub enum Registration {
    /// The tool is configured just so: it is installed, and the
    /// configuration is left alone.
    Unchanged,
    /// The tool is configured otherwise: the user is asked whether to
    /// override that.
    Confirm,
    /// The description is written to the configuration, and the tool is
    /// installed.
    Update,
}

/// Decides what becomes of the configuration when a tool is installed from
/// a description: `registered` is how the tool is configured now, if it is.
pub fn registration(registered: Option<&ToolSpec>, spec: &ToolSpec, force: bool) -> (r:
    Registration)
    ensures
        r == match registered {
            Some(existing) => if existing@ == spec@ {
                Registration::Unchanged
            } else if force {
                Registration::Update
            } else {
                Registration::Confirm
            },
            None => Registration::Update,
        },
{
    match registered {
        Some(existing) => {
            if existing.same(spec) {
                Registration::Unchanged
            } else if force {
                Registration::Update
            } else {
                Registration::Confirm
            }
        },
        None => Registration::Update,
    }
}

/// The name under which a described tool is installed: the one given, or
/// else the name of its project.
pub fn tool_name(name: Option<String>, project: &str) -> (r: Result<String, ProjectError>)
    ensures
        match name {
            Some(given) => r == Ok::<String, ProjectError>(given),
            None => match r {
                Ok(found) => project_named(project@) matches Some(p) && p.name == found@,
                Err(_) => project_named(project@) is None,
            },
        },
{
    match name {
        Some(given) => Ok(given),
        None => match parse_project_name(project) {
            Ok(found) => Ok(found.name),
            Err(error) => Err(error),
        },
    }
}

/// The error of one tool, under the tool's name. One tool's error does not
/// keep the others from being worked on.
pub fn attribute(name: &str, message: &str) -> (r: String)
    ensures
        r@ == name@ + ": "@ + message@,
{
    let mut r = String::from_str(name);
    r.append(": ");
    r.append(message);
    r
}

/// The mode under which a download that is a single file is seen: that of
/// a binary if the file was found to be a program, else that of a file
/// that nobody can execute.
pub fn single_file_mode(executable: bool) -> (r: u32)
    ensures
        is_executable_mode(r) == executable,
        r == if executable {
            BINARY_MODE
        } else {
            0o644
        },
{
    assert(0o755u32 & 0o111 != 0) by (bit_vector);
    assert(0o644u32 & 0o111 == 0) by (bit_vector);
    if executable {
        BINARY_MODE
    } else {
        0o644
    }
}

} // verus!
