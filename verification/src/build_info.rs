//! What the build of the shell depends on.
use crate::text::{same_text, signed_decimal, signed_decimal_text};
use vstd::prelude::*;

verus! {

/// The processors that the shell is built for.
#[derive(Debug, Clone, Copy, PartialEq, Eq, Structural)]
pub enum Arch {
    X64,
    Arm64,
}

impl Arch {
    /// What the processor is called.
    pub open spec fn spec_name(self) -> Seq<char> {
        match self {
            Arch::X64 => "x64"@,
            Arch::Arm64 => "arm64"@,
        }
    }

    /// What the processor is called.
    pub fn name(self) -> (name: &'static str)
        ensures
            name@ == self.spec_name(),
    {
        match self {
            Arch::X64 => "x64",
            Arch::Arm64 => "arm64",
        }
    }
}

/// What a build for one target needs.
#[derive(Debug, Clone, Copy)]
pub struct BuildTarget {
    pub arch: Arch,
    /// The archive that holds the library of the player.
    pub archive: &'static str,
    /// Where the linker finds the library.
    pub link_arg: &'static str,
}

/// What a build for `target` needs. Nothing is known of targets other than the two that the shell
/// is built for.
pub fn build_target(target: &str) -> (build: Option<BuildTarget>)
    ensures
        build is Some <==> target@ == "x86_64-pc-windows-msvc"@ || target@
            == "aarch64-pc-windows-msvc"@,
        build matches Some(b) ==> if target@ == "x86_64-pc-windows-msvc"@ {
            b.arch == Arch::X64 && b.archive@ == "libmpv-2_x64.zip"@ && b.link_arg@
                == "/LIBPATH:.\\mpv-x64"@
        } else {
            b.arch == Arch::Arm64 && b.archive@ == "libmpv-2_arm64.zip"@ && b.link_arg@
                == "/LIBPATH:.\\mpv-arm64"@
        },
{
    if same_text(target, "x86_64-pc-windows-msvc") {
        Some(
            BuildTarget {
                arch: Arch::X64,
                archive: "libmpv-2_x64.zip",
                link_arg: "/LIBPATH:.\\mpv-x64",
            },
        )
    } else if same_text(target, "aarch64-pc-windows-msvc") {
        Some(
            BuildTarget {
                arch: Arch::Arm64,
                archive: "libmpv-2_arm64.zip",
                link_arg: "/LIBPATH:.\\mpv-arm64",
            },
        )
    } else {
        None
    }
}

/// The copyright line for a year.
pub fn copyright(year: i32) -> (line: String)
    ensures
        line@ == "Copyright © "@ + signed_decimal(year as int) + " Smart Code OOD"@,
{
    let mut line = "Copyright © ".to_owned();
    line.append(signed_decimal_text(year).as_str());
    line.append(" Smart Code OOD");
    line
}

/// The file name of the program of a package.
pub fn exe_name(package: &str) -> (name: String)
    ensures
        name@ == package@ + ".exe"@,
{
    let mut name = package.to_owned();
    name.append(".exe");
    name
}

} // verus!
