//! Target platforms: reading a target triple and naming the release archive
//! built for it.

use vstd::prelude::*;
use vstd::string::*;
use crate::text::{split_fields, split_on, str_eq};

verus! {

/// Operating systems for which the compiler publishes release archives.
#[derive(Clone, Copy, Debug, PartialEq, Eq, Structural)]
pub enum SlangOs {
    Linux,
    Windows,
    MacOs,
}

/// CPU architectures for which the compiler publishes release archives.
#[derive(Clone, Copy, Debug, PartialEq, Eq, Structural)]
pub enum SlangArch {
    X86_64,
    Aarch64,
}

impl SlangOs {
    /// The operating system named by a target-triple field, if it is one of ours.
    pub open spec fn parse(s: Seq<char>) -> Option<SlangOs> {
        if s == "linux"@ {
            Some(SlangOs::Linux)
        } else if s == "windows"@ {
            Some(SlangOs::Windows)
        } else if s == "darwin"@ {
            Some(SlangOs::MacOs)
        } else {
            None
        }
    }

    /// The name the release archives use for this operating system.
    pub open spec fn token(self) -> Seq<char> {
        match self {
            SlangOs::Linux => "linux"@,
            SlangOs::Windows => "windows"@,
            SlangOs::MacOs => "macos"@,
        }
    }

    pub fn from_str(s: &str) -> (r: Option<SlangOs>)
        ensures
            r == SlangOs::parse(s@),
    {
        if str_eq(s, "linux") {
            Some(SlangOs::Linux)
        } else if str_eq(s, "windows") {
            Some(SlangOs::Windows)
        } else if str_eq(s, "darwin") {
            Some(SlangOs::MacOs)
        } else {
            None
        }
    }

    pub fn to_str(&self) -> (r: &'static str)
        ensures
            r@ == self.token(),
    {
        match self {
            SlangOs::Linux => "linux",
            SlangOs::Windows => "windows",
            SlangOs::MacOs => "macos",
        }
    }
}

impl SlangArch {
    /// The architecture named by a target-triple field, if it is one of ours.
    pub open spec fn parse(s: Seq<char>) -> Option<SlangArch> {
        if s == "x86_64"@ {
            Some(SlangArch::X86_64)
        } else if s == "aarch64"@ {
            Some(SlangArch::Aarch64)
        } else {
            None
        }
    }

    /// The name the release archives use for this architecture.
    pub open spec fn token(self) -> Seq<char> {
        match self {
            SlangArch::X86_64 => "x86_64"@,
            SlangArch::Aarch64 => "aarch64"@,
        }
    }

    pub fn from_str(s: &str) -> (r: Option<SlangArch>)
        ensures
            r == SlangArch::parse(s@),
    {
        if str_eq(s, "x86_64") {
            Some(SlangArch::X86_64)
        } else if str_eq(s, "aarch64") {
            Some(SlangArch::Aarch64)
        } else {
            None
        }
    }

    pub fn to_str(&self) -> (r: &'static str)
        ensures
            r@ == self.token(),
    {
        match self {
            SlangArch::X86_64 => "x86_64",
            SlangArch::Aarch64 => "aarch64",
        }
    }
}

/// A supported (architecture, operating system) pair.
#[derive(Clone, Copy, Debug, PartialEq, Eq, Structural)]
pub struct Platform {
    pub arch: SlangArch,
    pub os: SlangOs,
}

/// Why a target triple names no supported platform.
#[derive(Clone, Debug, PartialEq, Eq)]
pub enum PlatformError {
    /// The triple has fewer than three `-`-separated fields.
    MalformedTriple(String),
    /// The first field is not a supported architecture.
    UnknownArch(String),
    /// The third field is not a supported operating system.
    UnknownOs(String),
}

/// The suffix of the release archive built for an (OS, architecture) pair.
pub open spec fn archive_suffix(os: SlangOs, arch: SlangArch) -> Seq<char> {
    os.token() + "-"@ + arch.token() + ".zip"@
}

impl Platform {
    /// Name ending of the release asset that carries this platform's build,
    /// `{os}-{arch}.zip`.
    pub fn asset_suffix(&self) -> (r: String)
        ensures
            r@ == archive_suffix(self.os, self.arch),
    {
        let mut r = self.os.to_str().to_owned();
        r.append("-");
        r.append(self.arch.to_str());
        r.append(".zip");
        r
    }
}

/// Reads the platform from a target triple such as `x86_64-unknown-linux-gnu`:
/// the architecture is its first `-`-separated field, the operating system its
/// third.
pub fn parse_target(triple: &str) -> (r: Result<Platform, PlatformError>)
    ensures
        ({
            let f = split_fields(triple@, '-');
            &&& f.len() < 3 ==> (r matches Err(PlatformError::MalformedTriple(t)) && t@ == triple@)
            &&& f.len() >= 3 && SlangArch::parse(f[0]) is None ==> (r matches Err(
                PlatformError::UnknownArch(a),
            ) && a@ == f[0])
            &&& f.len() >= 3 && SlangArch::parse(f[0]) is Some && SlangOs::parse(f[2]) is None
                ==> (r matches Err(PlatformError::UnknownOs(o)) && o@ == f[2])
            &&& f.len() >= 3 && SlangArch::parse(f[0]) is Some && SlangOs::parse(f[2]) is Some
                ==> r == Ok::<Platform, PlatformError>(
                Platform {
                    arch: SlangArch::parse(f[0])->Some_0,
                    os: SlangOs::parse(f[2])->Some_0,
                },
            )
        }),
{
    let parts = split_on(triple, '-');
    let ghost f = split_fields(triple@, '-');
    assert(parts@.map_values(|x: &str| x@) == f);
    if parts.len() < 3 {
        return Err(PlatformError::MalformedTriple(triple.to_owned()));
    }
    assert(parts@[0]@ == f[0]);
    assert(parts@[2]@ == f[2]);
    let arch = match SlangArch::from_str(parts[0]) {
        Some(a) => a,
        None => {
            return Err(PlatformError::UnknownArch(parts[0].to_owned()));
        },
    };
    let os = match SlangOs::from_str(parts[2]) {
        Some(o) => o,
        None => {
            return Err(PlatformError::UnknownOs(parts[2].to_owned()));
        },
    };
    Ok(Platform { arch, os })
}

} // verus!
