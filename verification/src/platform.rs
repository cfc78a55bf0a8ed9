//! The platforms for which builds of a tool are published, and the words by
//! which a published file names its platform.

use vstd::prelude::*;

verus! {

/// The operating system the editor runs on.
#[derive(Clone, Copy, Debug, PartialEq, Eq, Structural)]
pub enum Os {
    Windows,
    Mac,
    Linux,
}

/// The processor architecture the editor runs on.
#[allow(non_camel_case_types)]
#[derive(Clone, Copy, Debug, PartialEq, Eq, Structural)]
pub enum Arch {
    Aarch64,
    X86,
    X86_64,
}

/// The platform a build has to match.
#[derive(Clone, Copy, Debug, PartialEq, Eq, Structural)]
pub struct PlatformTarget {
    pub os: Os,
    pub arch: Arch,
}

/// How a downloaded file is packed, which decides how it is unpacked.
#[derive(Clone, Copy, Debug, PartialEq, Eq, Structural)]
pub enum ArchiveKind {
    Zip,
    GzipTar,
    Gzip,
    Uncompressed,
}

/// The word for `arch` in the name of a published file.
pub open spec fn arch_token(arch: Arch) -> Seq<char> {
    match arch {
        Arch::Aarch64 => "aarch64"@,
        Arch::X86 => "x86"@,
        Arch::X86_64 => "x86_64"@,
    }
}

/// The word for `os` in the name of a published file.
pub open spec fn os_token(os: Os) -> Seq<char> {
    match os {
        Os::Mac => "apple-darwin"@,
        Os::Linux => "unknown-linux-gnu"@,
        Os::Windows => "pc-windows-msvc"@,
    }
}

/// The archive format in which builds for `os` are published. Nothing but
/// the operating system decides it.
pub open spec fn archive_kind_of(os: Os) -> ArchiveKind {
    match os {
        Os::Windows => ArchiveKind::Zip,
        Os::Mac | Os::Linux => ArchiveKind::GzipTar,
    }
}

/// The file extension, with its leading dot, of an archive of `kind`.
pub open spec fn archive_extension(kind: ArchiveKind) -> Seq<char> {
    match kind {
        ArchiveKind::Zip => ".zip"@,
        ArchiveKind::GzipTar => ".tar.gz"@,
        ArchiveKind::Gzip => ".gz"@,
        ArchiveKind::Uncompressed => ""@,
    }
}

impl Arch {
    /// The word for this architecture in the name of a published file.
    pub fn token(self) -> (word: &'static str)
        ensures
            word@ == arch_token(self),
    {
        match self {
            Arch::Aarch64 => "aarch64",
            Arch::X86 => "x86",
            Arch::X86_64 => "x86_64",
        }
    }
}

impl Os {
    /// The word for this operating system in the name of a published file.
    pub fn token(self) -> (word: &'static str)
        ensures
            word@ == os_token(self),
    {
        match self {
            Os::Mac => "apple-darwin",
            Os::Linux => "unknown-linux-gnu",
            Os::Windows => "pc-windows-msvc",
        }
    }

    /// The archive format in which builds for this operating system are
    /// published.
    pub fn archive_kind(self) -> (kind: ArchiveKind)
        ensures
            kind == archive_kind_of(self),
    {
        match self {
            Os::Windows => ArchiveKind::Zip,
            Os::Mac | Os::Linux => ArchiveKind::GzipTar,
        }
    }
}

impl ArchiveKind {
    /// The file extension, with its leading dot, of an archive of this kind.
    pub fn extension(self) -> (ext: &'static str)
        ensures
            ext@ == archive_extension(self),
    {
        match self {
            ArchiveKind::Zip => ".zip",
            ArchiveKind::GzipTar => ".tar.gz",
            ArchiveKind::Gzip => ".gz",
            ArchiveKind::Uncompressed => "",
        }
    }
}

} // verus!
