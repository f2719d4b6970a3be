//! The platform an installer runs on, and the rule by which the name of a
//! release artifact is matched against it.

use crate::text::{chars_of, contains_chars, has_infix, same_text};
use vstd::prelude::*;

verus! {

/// Processor architecture.
#[derive(Clone, Copy, Debug, PartialEq, Eq, Structural)]
pub enum Arch {
    X86_64,
    Aarch64,
}

/// Operating system.
#[derive(Clone, Copy, Debug, PartialEq, Eq, Structural)]
pub enum Os {
    MacOs,
    Windows,
    Linux,
}

/// C library variant: musl, or the platform's usual one.
#[derive(Clone, Copy, Debug, PartialEq, Eq, Structural)]
pub enum Libc {
    Musl,
    Standard,
}

/// The platform triple an artifact must be built for.
#[derive(Clone, Copy, Debug, PartialEq, Eq, Structural)]
pub struct Target {
    pub arch: Arch,
    pub os: Os,
    pub libc: Libc,
}

/// The architecture that goes by this name.
pub open spec fn arch_named(name: Seq<char>) -> Option<Arch> {
    if name == "x86_64"@ {
        Some(Arch::X86_64)
    } else if name == "aarch64"@ {
        Some(Arch::Aarch64)
    } else {
        None
    }
}

/// The operating system that goes by this name.
pub open spec fn os_named(name: Seq<char>) -> Option<Os> {
    if name == "macos"@ {
        Some(Os::MacOs)
    } else if name == "windows"@ {
        Some(Os::Windows)
    } else if name == "linux"@ {
        Some(Os::Linux)
    } else {
        None
    }
}

/// The target of a build for the architecture and operating system of these
/// names, against musl or not; `None` where one of the names is unknown.
pub open spec fn target_named(arch: Seq<char>, os: Seq<char>, musl: bool) -> Option<Target> {
    match (arch_named(arch), os_named(os)) {
        (Some(arch), Some(os)) => Some(
            Target {
                arch,
                os,
                libc: if musl {
                    Libc::Musl
                } else {
                    Libc::Standard
                },
            },
        ),
        _ => None,
    }
}

/// The name carries a token of the architecture.
pub open spec fn arch_fits(name: Seq<char>, arch: Arch) -> bool {
    match arch {
        Arch::X86_64 => has_infix(name, "x86_64"@) || has_infix(name, "amd64"@),
        Arch::Aarch64 => has_infix(name, "arm64"@) || has_infix(name, "aarch64"@),
    }
}

/// The name carries a token of the operating system.
pub open spec fn os_fits(name: Seq<char>, os: Os) -> bool {
    match os {
        Os::MacOs => has_infix(name, "darwin"@) || has_infix(name, "macos"@),
        Os::Windows => has_infix(name, "windows"@),
        Os::Linux => has_infix(name, "linux"@),
    }
}

/// A musl build takes only names that carry the musl token; any other build
/// takes only names that do not.
pub open spec fn libc_fits(name: Seq<char>, libc: Libc) -> bool {
    match libc {
        Libc::Musl => has_infix(name, "musl"@),
        Libc::Standard => !has_infix(name, "musl"@),
    }
}

/// The name satisfies all three predicates for the target.
pub open spec fn name_fits(name: Seq<char>, target: Target) -> bool {
    arch_fits(name, target.arch) && os_fits(name, target.os) && libc_fits(name, target.libc)
}

/// The target of a build, from the names by which the compiler knows its
/// architecture (`x86_64`, `aarch64`) and operating system (`macos`,
/// `windows`, `linux`), and whether it is built against musl. `None` where
/// artifacts are published for no such platform.
pub fn host_target(arch: &str, os: &str, musl: bool) -> (target: Option<Target>)
    ensures
        target == target_named(arch@, os@, musl),
{
    let arch = if same_text(arch, "x86_64") {
        Arch::X86_64
    } else if same_text(arch, "aarch64") {
        Arch::Aarch64
    } else {
        return None;
    };
    let os = if same_text(os, "macos") {
        Os::MacOs
    } else if same_text(os, "windows") {
        Os::Windows
    } else if same_text(os, "linux") {
        Os::Linux
    } else {
        return None;
    };
    let libc = if musl {
        Libc::Musl
    } else {
        Libc::Standard
    };
    Some(Target { arch, os, libc })
}

/// Whether the name carries the token.
fn carries(name: &Vec<char>, token: &str) -> (found: bool)
    ensures
        found == has_infix(name@, token@),
{
    let token_chars = chars_of(token);
    contains_chars(name, &token_chars)
}

/// Architecture predicate on an artifact name.
pub fn arch_matches(name: &Vec<char>, arch: Arch) -> (fits: bool)
    ensures
        fits == arch_fits(name@, arch),
{
    match arch {
        Arch::X86_64 => carries(name, "x86_64") || carries(name, "amd64"),
        Arch::Aarch64 => carries(name, "arm64") || carries(name, "aarch64"),
    }
}

/// Operating-system predicate on an artifact name.
pub fn os_matches(name: &Vec<char>, os: Os) -> (fits: bool)
    ensures
        fits == os_fits(name@, os),
{
    match os {
        Os::MacOs => carries(name, "darwin") || carries(name, "macos"),
        Os::Windows => carries(name, "windows"),
        Os::Linux => carries(name, "linux"),
    }
}

/// C-library predicate on an artifact name.
pub fn libc_matches(name: &Vec<char>, libc: Libc) -> (fits: bool)
    ensures
        fits == libc_fits(name@, libc),
{
    match libc {
        Libc::Musl => carries(name, "musl"),
        Libc::Standard => !carries(name, "musl"),
    }
}

/// Whether an artifact of this name is built for the target: the conjunction
/// of the three predicates.
pub fn name_matches(name: &str, target: Target) -> (fits: bool)
    ensures
        fits == name_fits(name@, target),
{
    let chars = chars_of(name);
    arch_matches(&chars, target.arch) && os_matches(&chars, target.os) && libc_matches(
        &chars,
        target.libc,
    )
}

} // verus!
