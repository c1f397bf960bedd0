//! What a download is, going by its name: how it is compressed, whether it
//! is an archive, and which of its entries are files.

use vstd::prelude::*;
use vstd::string::StringExecFns;
use crate::text::decimal;
use crate::text::decimal_string;
use crate::text::from_chars;
use crate::text::last_before;
use crate::text::lemma_last_before;
use crate::text::rfind;
use crate::text::tail_is;
use crate::text::to_chars;

verus! {

/// How a download is compressed.
#[derive(Clone, Copy, Debug, PartialEq, Eq, Structural)]
pub enum Compression {
    /// Not compressed.
    Plain,
    Gzip,
    Bzip2,
    Xz,
}

/// What a download holds once it is decompressed.
#[derive(Clone, Copy, Debug, PartialEq, Eq, Structural)]
pub enum Container {
    /// A tar archive of files.
    Tar,
    /// One file: the binary itself.
    SingleFile,
}

/// How the asset with a given name is read.
#[derive(Debug, PartialEq, Eq)]
pub struct ReleaseReaderBuilder {
    pub compression: Compression,
    pub container: Container,
    /// The asset's name without the extension of its compression.
    pub name: String,
}

/// Why a download was refused.
#[derive(Debug, PartialEq, Eq)]
pub enum DownloadError {
    /// The name ends in the extension of a compression that is not read.
    UnsupportedCompression { name: String },
    /// The name ends in the extension of an archive or a package that is
    /// not unpacked.
    UnsupportedArchive { name: String },
    /// A binary matcher is configured, but the asset is no archive.
    BinaryMatcherWithoutArchive { name: String },
    /// The server answered with a status that is no success.
    Status { code: u16 },
}

/// A name cut at its last dot: what is before it, and the extension.
pub open spec fn split_extension(name: Seq<char>) -> Option<(Seq<char>, Seq<char>)> {
    let at = last_before(name, '.', name.len() as int);
    if at >= 0 {
        Some((name.take(at), name.skip(at + 1)))
    } else {
        None
    }
}

/// The compression that an extension stands for.
pub open spec fn compression_of(extension: Seq<char>) -> Option<Compression> {
    if extension == "gz"@ {
        Some(Compression::Gzip)
    } else if extension == "bz2"@ {
        Some(Compression::Bzip2)
    } else if extension == "xz"@ {
        Some(Compression::Xz)
    } else {
        None
    }
}

/// The extensions of the compressions that are known and not read.
pub open spec fn is_unread_compression(extension: Seq<char>) -> bool {
    extension == "z"@ || extension == "zst"@ || extension == "lz"@ || extension == "lz4"@
        || extension == "lzma"@ || extension == "lzo"@
}

/// The extensions of the archives and packages that are known and not
/// unpacked.
pub open spec fn is_unread_archive(extension: Seq<char>) -> bool {
    extension == "7z"@ || extension == "apk"@ || extension == "deb"@ || extension == "dmg"@
        || extension == "msi"@ || extension == "pkg"@ || extension == "rar"@ || extension
        == "rpm"@ || extension == "zip"@
}

/// What the reading of an asset comes to.
pub enum Reading {
    Read { compression: Compression, container: Container, name: Seq<char> },
    UnsupportedCompression,
    UnsupportedArchive,
    BinaryMatcherWithoutArchive,
}

/// The name without the extension of its compression, and the compression;
/// nothing where the compression is one that is not read.
pub open spec fn decompressed(name: Seq<char>) -> Option<(Compression, Seq<char>)> {
    match split_extension(name) {
        Some((stem, extension)) => match compression_of(extension) {
            Some(compression) => Some((compression, stem)),
            None => if is_unread_compression(extension) {
                None
            } else {
                Some((Compression::Plain, name))
            },
        },
        None => Some((Compression::Plain, name)),
    }
}

/// What a decompressed download with this name holds; nothing where it is
/// an archive that is not unpacked.
pub open spec fn container_of(name: Seq<char>) -> Option<Container> {
    match split_extension(name) {
        Some((stem, extension)) => if extension == "tar"@ {
            Some(Container::Tar)
        } else if is_unread_archive(extension) {
            None
        } else {
            Some(Container::SingleFile)
        },
        None => Some(Container::SingleFile),
    }
}

/// How the asset `name` is read. The last extension says how it is
/// compressed; the one before it, or the last if it is not compressed,
/// says whether it is a tar archive. Anything that is no known archive is
/// taken for the binary itself, which no binary matcher can then be asked
/// to find.
pub open spec fn reading(name: Seq<char>, has_binary_matcher: bool) -> Reading {
    match decompressed(name) {
        None => Reading::UnsupportedCompression,
        Some((compression, rest)) => match container_of(rest) {
            None => Reading::UnsupportedArchive,
            Some(container) => if container == Container::SingleFile && has_binary_matcher {
                Reading::BinaryMatcherWithoutArchive
            } else {
                Reading::Read { compression, container, name: rest }
            },
        },
    }
}

/// The message of a download error.
pub open spec fn download_message(error: DownloadError) -> Seq<char> {
    match error {
        DownloadError::UnsupportedCompression { name } => "Unsupported compression type: \""@
            + name@ + "\""@,
        DownloadError::UnsupportedArchive { name } => "Unsupported file type: \""@ + name@
            + "\""@,
        DownloadError::BinaryMatcherWithoutArchive { name } =>
            "Binary matcher is specified, but the release is not an archive: \""@ + name@
                + "\""@,
        DownloadError::Status { code } => "The server returned an error: "@ + decimal(
            code as nat,
        ),
    }
}

impl DownloadError {
    /// The error as a message for the user.
    pub fn message(&self) -> (r: String)
        ensures
            r@ == download_message(*self),
    {
        match self {
            DownloadError::UnsupportedCompression { name } => {
                let mut r = String::from_str("Unsupported compression type: \"");
                r.append(name.as_str());
                r.append("\"");
                r
            },
            DownloadError::UnsupportedArchive { name } => {
                let mut r = String::from_str("Unsupported file type: \"");
                r.append(name.as_str());
                r.append("\"");
                r
            },
            DownloadError::BinaryMatcherWithoutArchive { name } => {
                let mut r = String::from_str(
                    "Binary matcher is specified, but the release is not an archive: \"",
                );
                r.append(name.as_str());
                r.append("\"");
                r
            },
            DownloadError::Status { code } => {
                let mut r = String::from_str("The server returned an error: ");
                let code: u16 = *code;
                r.append(decimal_string(code as u64).as_str());
                r
            },
        }
    }
}

/// The compression that the characters after `from` name, as an extension.
fn compression_named(v: &Vec<char>, from: usize) -> (r: Option<Compression>)
    requires
        from <= v.len(),
    ensures
        r == compression_of(v@.skip(from as int)),
{
    if tail_is(v, from, "gz") {
        Some(Compression::Gzip)
    } else if tail_is(v, from, "bz2") {
        Some(Compression::Bzip2)
    } else if tail_is(v, from, "xz") {
        Some(Compression::Xz)
    } else {
        None
    }
}

fn unread_compression_named(v: &Vec<char>, from: usize) -> (r: bool)
    requires
        from <= v.len(),
    ensures
        r == is_unread_compression(v@.skip(from as int)),
{
    tail_is(v, from, "z") || tail_is(v, from, "zst") || tail_is(v, from, "lz") || tail_is(
        v,
        from,
        "lz4",
    ) || tail_is(v, from, "lzma") || tail_is(v, from, "lzo")
}

fn unread_archive_named(v: &Vec<char>, from: usize) -> (r: bool)
    requires
        from <= v.len(),
    ensures
        r == is_unread_archive(v@.skip(from as int)),
{
    tail_is(v, from, "7z") || tail_is(v, from, "apk") || tail_is(v, from, "deb") || tail_is(
        v,
        from,
        "dmg",
    ) || tail_is(v, from, "msi") || tail_is(v, from, "pkg") || tail_is(v, from, "rar")
        || tail_is(v, from, "rpm") || tail_is(v, from, "zip")
}

/// What the decompressed download `v` holds.
fn container_named(v: &Vec<char>) -> (r: Option<Container>)
    ensures
        r == container_of(v@),
{
    match rfind(v, '.') {
        Some(at) => {
            proof {
                lemma_last_before(v@, '.', v@.len() as int);
            }
            if tail_is(v, at + 1, "tar") {
                Some(Container::Tar)
            } else if unread_archive_named(v, at + 1) {
                None
            } else {
                Some(Container::SingleFile)
            }
        },
        None => Some(Container::SingleFile),
    }
}

impl ReleaseReaderBuilder {
    /// Decides from an asset's name how it is read, before anything is
    /// downloaded.
    pub fn new(name: &str, has_binary_matcher: bool) -> (r: Result<
        ReleaseReaderBuilder,
        DownloadError,
    >)
        ensures
            match reading(name@, has_binary_matcher) {
                Reading::Read { compression, container, name: rest } => r matches Ok(reader)
                    && reader.compression == compression && reader.container == container
                    && reader.name@ == rest,
                Reading::UnsupportedCompression => r matches Err(
                    DownloadError::UnsupportedCompression { name: refused },
                ) && refused@ == name@,
                Reading::UnsupportedArchive => r matches Err(
                    DownloadError::UnsupportedArchive { name: refused },
                ) && refused@ == name@,
                Reading::BinaryMatcherWithoutArchive => r matches Err(
                    DownloadError::BinaryMatcherWithoutArchive { name: refused },
                ) && refused@ == name@,
            },
    {
        let chars = to_chars(name);
        let mut compression = Compression::Plain;
        let mut end: usize = chars.len();
        match rfind(&chars, '.') {
            Some(at) => {
                proof {
                    lemma_last_before(chars@, '.', chars@.len() as int);
                }
                match compression_named(&chars, at + 1) {
                    Some(found) => {
                        compression = found;
                        end = at;
                    },
                    None => {
                        if unread_compression_named(&chars, at + 1) {
                            return Err(
                                DownloadError::UnsupportedCompression {
                                    name: String::from_str(name),
                                },
                            );
                        }
                    },
                }
            },
            None => {},
        }
        let rest = from_chars(&chars, 0, end);
        assert(rest@ =~= chars@.take(end as int));
        assert(chars@.take(chars@.len() as int) =~= chars@);
        assert(decompressed(name@) == Some((compression, rest@)));
        let stem = to_chars(rest.as_str());
        match container_named(&stem) {
            Some(container) => {
                if has_binary_matcher && container == Container::SingleFile {
                    Err(DownloadError::BinaryMatcherWithoutArchive { name: String::from_str(name) })
                } else {
                    Ok(ReleaseReaderBuilder { compression, container, name: rest })
                }
            },
            None => Err(DownloadError::UnsupportedArchive { name: String::from_str(name) }),
        }
    }
}

/// Whether an HTTP status is a success: one of the codes from 200 to 299.
pub open spec fn is_success(code: u16) -> bool {
    200 <= code <= 299
}

/// Accepts the status of a response, or refuses it with its code.
pub fn check_status(code: u16) -> (r: Result<(), DownloadError>)
    ensures
        is_success(code) ==> r is Ok,
        !is_success(code) ==> r == Err::<(), DownloadError>(DownloadError::Status { code }),
{
    if 200 <= code && code <= 299 {
        Ok(())
    } else {
        Err(DownloadError::Status { code })
    }
}

/// The kind of an entry of a tar archive.
#[derive(Clone, Copy, Debug, PartialEq, Eq, Structural)]
pub enum EntryKind {
    /// A regular file.
    Regular,
    /// A contiguous file, which is read as a regular one.
    Continuous,
    /// A directory, a link, a device or anything else.
    Other,
}

/// Whether an entry of an archive is a file that may be the binary. Links,
/// directories and the rest are passed over.
pub fn is_file_entry(kind: EntryKind) -> (r: bool)
    ensures
        r == (kind == EntryKind::Regular || kind == EntryKind::Continuous),
{
    match kind {
        EntryKind::Regular => true,
        EntryKind::Continuous => true,
        EntryKind::Other => false,
    }
}

/// The name under which the program asks a server for a download: the
/// program's name and version, and where it is at home.
pub fn user_agent(name: &str, version: &str, homepage: &str) -> (r: String)
    ensures
        r@ == name@ + "/"@ + version@ + " ("@ + homepage@ + ")"@,
{
    let mut r = String::from_str(name);
    r.append("/");
    r.append(version);
    r.append(" (");
    r.append(homepage);
    r.append(")");
    r
}

} // verus!
