//! Translation of the host operating system and architecture, as Rust names
//! them, into the naming convention the backend release archives use.
//!
//! An unrecognised platform is a configuration error reported to the caller,
//! never a crash: no subprocess is started for an unsupported host.

use vstd::prelude::*;
use crate::text::str_eq;

verus! {

/// A fatal error found while resolving the run's configuration, before any
/// subprocess is started.
#[derive(Clone, Copy, PartialEq, Eq, Structural, Debug)]
pub enum ConfigurationError {
    /// The host operating system has no release naming convention.
    UnsupportedOs,
    /// The host architecture has no release naming convention.
    UnsupportedArch,
}

/// The operating-system name used by the release archives for the given Rust
/// operating-system name, if there is one.
pub open spec fn spec_release_os(os: Seq<char>) -> Option<Seq<char>> {
    if os == "linux"@ {
        Some("linux"@)
    } else if os == "macos"@ {
        Some("darwin"@)
    } else if os == "windows"@ {
        Some("windows"@)
    } else if os == "freebsd"@ {
        Some("freebsd"@)
    } else if os == "netbsd"@ {
        Some("netbsd"@)
    } else if os == "openbsd"@ {
        Some("openbsd"@)
    } else if os == "dragonfly"@ {
        Some("dragonfly"@)
    } else {
        None
    }
}

/// The architecture name used by the release archives for the given Rust
/// architecture name, if there is one.
pub open spec fn spec_release_arch(arch: Seq<char>) -> Option<Seq<char>> {
    if arch == "x86"@ {
        Some("386"@)
    } else if arch == "x86_64"@ {
        Some("amd64"@)
    } else if arch == "aarch64"@ {
        Some("arm64"@)
    } else if arch == "s390x"@ {
        Some("s390x"@)
    } else if arch == "powerpc64"@ {
        Some("powerpc64"@)
    } else {
        None
    }
}

/// Translates the operating system and architecture, as Rust reports them,
/// to the convention used by the backend release archives.
///
/// Returns the pair of vendor names exactly when both are in the finite
/// mapping; an unmapped operating system or architecture is a
/// `ConfigurationError`, with the operating system checked first.
pub fn determine_os_and_arch(os: &str, arch: &str) -> (r: Result<
    (&'static str, &'static str),
    ConfigurationError,
>)
    ensures
        match r {
            Ok((ros, rarch)) => {
                &&& spec_release_os(os@) == Some(ros@)
                &&& spec_release_arch(arch@) == Some(rarch@)
            },
            Err(ConfigurationError::UnsupportedOs) => spec_release_os(os@) is None,
            Err(ConfigurationError::UnsupportedArch) => {
                &&& spec_release_os(os@) is Some
                &&& spec_release_arch(arch@) is None
            },
        },
{
    let mapped_os: &'static str = if str_eq(os, "linux") {
        "linux"
    } else if str_eq(os, "macos") {
        "darwin"
    } else if str_eq(os, "windows") {
        "windows"
    } else if str_eq(os, "freebsd") {
        "freebsd"
    } else if str_eq(os, "netbsd") {
        "netbsd"
    } else if str_eq(os, "openbsd") {
        "openbsd"
    } else if str_eq(os, "dragonfly") {
        "dragonfly"
    } else {
        return Err(ConfigurationError::UnsupportedOs);
    };

    let mapped_arch: &'static str = if str_eq(arch, "x86") {
        "386"
    } else if str_eq(arch, "x86_64") {
        "amd64"
    } else if str_eq(arch, "aarch64") {
        "arm64"
    } else if str_eq(arch, "s390x") {
        "s390x"
    } else if str_eq(arch, "powerpc64") {
        "powerpc64"
    } else {
        return Err(ConfigurationError::UnsupportedArch);
    };

    Ok((mapped_os, mapped_arch))
}

} // verus!
