//! Which build of the load generator fits the host.
use vstd::prelude::*;
use vstd::string::*;
use crate::text::same_text;
use crate::staging::Stager;

verus! {

/// The builds of the stress-ng load generator that the tool carries.
#[derive(Debug, Clone, Copy, PartialEq, Eq, Structural)]
pub enum StressNgArch {
    /// Linux on any processor; also the baseline for hosts not otherwise recognised.
    Linux,
    /// macOS on Intel processors.
    MacOS,
    /// macOS on Apple silicon; `decide_stress_ng_arch`, which goes by the
    /// operating system alone, never picks it.
    Apple,
}

/// The build chosen for a host whose operating system is `os` (the name Rust
/// gives it, such as `linux` or `macos`): macOS gets the macOS build; Linux,
/// and every operating system not recognised, the Linux build.
pub open spec fn arch_for(os: Seq<char>) -> StressNgArch {
    if os == "macos"@ { StressNgArch::MacOS } else { StressNgArch::Linux }
}

/// Picks the build for a host whose operating system is `os`.
pub fn decide_stress_ng_arch(os: &str) -> (r: StressNgArch)
    ensures
        r == arch_for(os@),
{
    if same_text(os, "macos") {
        StressNgArch::MacOS
    } else {
        StressNgArch::Linux
    }
}

/// The file name of each build once staged; one path per build, shared by
/// every command that needs it.
pub open spec fn binary_name(arch: StressNgArch) -> Seq<char> {
    match arch {
        StressNgArch::Linux => "stress-ng-linux"@,
        StressNgArch::MacOS => "stress-ng-macos"@,
        StressNgArch::Apple => "stress-ng-apple"@,
    }
}

/// The path of build `arch` staged in directory `dir` (the bare file name when
/// `dir` is empty).
pub open spec fn staged_path(dir: Seq<char>, arch: StressNgArch) -> Seq<char> {
    if dir.len() == 0 { binary_name(arch) } else { dir + "/"@ + binary_name(arch) }
}

/// The file name of build `arch` once staged.
pub fn binary_file_name(arch: StressNgArch) -> (r: &'static str)
    ensures
        r@ == binary_name(arch),
{
    match arch {
        StressNgArch::Linux => "stress-ng-linux",
        StressNgArch::MacOS => "stress-ng-macos",
        StressNgArch::Apple => "stress-ng-apple",
    }
}

/// Starts staging build `arch` in directory `dir`: the returned stager's
/// driver writes the build's payload there unless a file already stands at
/// that path.
pub fn write_stress_ng_to_disk(arch: StressNgArch, dir: &str) -> (r: Stager)
    ensures
        r.variant == arch,
        r.path@ == staged_path(dir@, arch),
        r.phase == crate::staging::StagePhase::Probing,
{
    let path = if dir.unicode_len() == 0 {
        String::from_str(binary_file_name(arch))
    } else {
        let mut p = String::from_str(dir);
        p.append("/");
        p.append(binary_file_name(arch));
        p
    };
    Stager::new(arch, path)
}

/// The load generator of this host: the build chosen once, at start, from the
/// host's operating system, and the directory it is staged in.
#[derive(Debug)]
pub struct StressNgAdapter {
    pub arch: StressNgArch,
    pub staging_dir: String,
}

impl StressNgAdapter {
    /// The adapter for a host whose operating system is `os`, staging into
    /// `staging_dir`.
    pub fn new(os: &str, staging_dir: String) -> (r: StressNgAdapter)
        ensures
            r.arch == arch_for(os@),
            r.staging_dir == staging_dir,
    {
        StressNgAdapter { arch: decide_stress_ng_arch(os), staging_dir }
    }

    /// The build chosen for this host.
    pub fn decide_stress_ng_arch(&self) -> (r: StressNgArch)
        ensures
            r == self.arch,
    {
        self.arch
    }

    /// Where this host's build is staged.
    pub fn staging_dir(&self) -> (r: &str)
        ensures
            r@ == self.staging_dir@,
    {
        self.staging_dir.as_str()
    }

    /// Starts staging this host's build in its staging directory.
    pub fn prepare_stress_ng_binary(&self) -> (r: Stager)
        ensures
            r.variant == self.arch,
            r.path@ == staged_path(self.staging_dir@, self.arch),
            r.phase == crate::staging::StagePhase::Probing,
    {
        write_stress_ng_to_disk(self.arch, self.staging_dir.as_str())
    }
}

} // verus!
