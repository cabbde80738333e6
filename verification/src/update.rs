//! Which release build of the program fits the running platform.
use vstd::prelude::*;
use crate::text::{join2, str_eq};

verus! {

broadcast use vstd::string::group_string_axioms;

/// The owner of the repository that publishes releases.
pub const REPO_OWNER: &'static str = "iceman1010";

/// The repository that publishes releases.
pub const REPO_NAME: &'static str = "voclip";

/// The release target for an operating system and architecture (as
/// `std::env::consts::OS` and `ARCH` name them): Linux and Windows have
/// x86-64 builds, macOS has builds for Apple silicon and for x86-64; other
/// systems have none.
pub open spec fn release_target_spec(os: Seq<char>, arch: Seq<char>) -> Option<Seq<char>> {
    if os == "linux"@ {
        Some("linux-x86_64"@)
    } else if os == "macos"@ {
        if arch == "aarch64"@ {
            Some("macos-aarch64"@)
        } else {
            Some("macos-x86_64"@)
        }
    } else if os == "windows"@ {
        Some("windows-x86_64"@)
    } else {
        None
    }
}

/// The release target for the platform (see [`release_target_spec`]).
pub fn release_target(os: &str, arch: &str) -> (res: Option<&'static str>)
    ensures
        match res {
            Some(t) => release_target_spec(os@, arch@) == Some(t@),
            None => release_target_spec(os@, arch@) is None,
        },
{
    if str_eq(os, "linux") {
        Some("linux-x86_64")
    } else if str_eq(os, "macos") {
        if str_eq(arch, "aarch64") {
            Some("macos-aarch64")
        } else {
            Some("macos-x86_64")
        }
    } else if str_eq(os, "windows") {
        Some("windows-x86_64")
    } else {
        None
    }
}

/// The name of the program's binary in a release, with the platform's
/// executable suffix.
pub fn release_bin_name(exe_suffix: &str) -> (res: String)
    ensures
        res@ == "voclip"@ + exe_suffix@,
{
    join2("voclip", exe_suffix)
}

} // verus!
