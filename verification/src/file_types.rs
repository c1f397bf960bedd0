//! Whether a downloaded file is a program that the system can run, going
//! by what was recognised of its format.

use vstd::prelude::*;
use vstd::string::StringExecFns;
use crate::release::os_named;
use crate::release::parse_os;
use crate::release::Os;
use crate::text::ends_with;
use crate::text::has_suffix;
use crate::text::str_eq;
use crate::text::to_chars;

verus! {

/// The formats of native programs.
#[derive(Clone, Copy, Debug, PartialEq, Eq, Structural)]
pub enum BinaryFormat {
    /// The Executable and Linkable Format of Linux.
    Elf,
    /// The Mach-O format of macOS.
    MachO,
    /// Anything else.
    Other,
}

/// What was recognised of a file.
#[derive(Debug, PartialEq, Eq)]
pub struct FileInfo {
    pub format: BinaryFormat,
    /// The full name of the format.
    pub name: String,
    /// The short name of the format, if it has one.
    pub short_name: Option<String>,
    /// The name of the kind of the format; `Other` for a format that is of
    /// no kind in particular.
    pub kind: String,
    pub media_type: String,
}

/// How a recognised file is described: the names of its format, then its
/// kind and its media type in brackets.
pub open spec fn described(info: FileInfo) -> Seq<char> {
    info.name@ + (match info.short_name {
        Some(short) => " / "@ + short@,
        None => Seq::empty(),
    }) + " ("@ + info.kind@ + ", "@ + info.media_type@ + ")"@
}

/// Whether a recognised file can be run on a system: a native program of
/// that system, or a script of any kind, which is a format of no kind in
/// particular whose name ends in ` Script`. On a system that is not
/// supported only a script can.
pub open spec fn runs_on(os: Option<Os>, info: FileInfo) -> bool {
    (match os {
        Some(Os::Linux) => info.format == BinaryFormat::Elf,
        Some(Os::MacOs) => info.format == BinaryFormat::MachO,
        None => false,
    }) || (info.kind@ == "Other"@ && has_suffix(info.name@, " Script"@))
}

/// Describes a recognised file, and says whether the system named `os` can
/// run it.
pub fn is_executable(os: &str, info: &FileInfo) -> (r: (String, bool))
    ensures
        r.0@ == described(*info),
        r.1 == runs_on(os_named(os@), *info),
{
    let mut description = info.name.clone();
    match &info.short_name {
        Some(short) => {
            description.append(" / ");
            description.append(short.as_str());
        },
        None => {},
    }
    description.append(" (");
    description.append(info.kind.as_str());
    description.append(", ");
    description.append(info.media_type.as_str());
    description.append(")");
    let native: bool = match parse_os(os) {
        Some(Os::Linux) => info.format == BinaryFormat::Elf,
        Some(Os::MacOs) => info.format == BinaryFormat::MachO,
        None => false,
    };
    let script: bool = str_eq(info.kind.as_str(), "Other") && ends_with(
        &to_chars(info.name.as_str()),
        &to_chars(" Script"),
    );
    (description, native || script)
}

} // verus!
