//! The `version` command.

use vstd::prelude::*;
use crate::table::lines_view;

verus! {

/// The lines of the `version` command: the package name and version, the
/// operating system and architecture, and the compiler that built the tool.
pub open spec fn version_text(
    name: Seq<char>,
    version: Seq<char>,
    os: Seq<char>,
    arch: Seq<char>,
    rustc: Seq<char>,
) -> Seq<Seq<char>> {
    seq![name + " "@ + version, "os/arch: "@ + os + "/"@ + arch, "rustc:   "@ + rustc]
}

/// The lines that `version` prints, from the facts of the build.
pub fn execute(name: &str, version: &str, os: &str, arch: &str, rustc: &str) -> (lines: Vec<String>)
    ensures
        lines_view(lines@) == version_text(name@, version@, os@, arch@, rustc@),
{
    let mut first = String::from_str(name);
    first.append(" ");
    first.append(version);
    let mut second = String::from_str("os/arch: ");
    second.append(os);
    second.append("/");
    second.append(arch);
    let mut third = String::from_str("rustc:   ");
    third.append(rustc);
    let mut lines: Vec<String> = Vec::new();
    lines.push(first);
    lines.push(second);
    lines.push(third);
    assert(lines_view(lines@) =~= version_text(name@, version@, os@, arch@, rustc@));
    lines
}

} // verus!
