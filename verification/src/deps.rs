//! The build tools reims-vGPU needs: which are installed, which packages
//! provide the missing ones on each distribution, and the installer command.
use vstd::prelude::*;
use crate::text::{
    cat, cat3, chars_of, decimal, decimal_string, lines, lines_chars, owned, str_eq,
    string_from_chars, strip_prefix, strip_prefix_chars, to_ascii_lower, to_ascii_lower_chars,
    trim_by, trim_chars, views, CharClass,
};
use crate::command::{CommandSpec, CommandView, Job, JobView, Output, OutputView, Poll, Report, Task, command_view, report_fits, spec_after_report};

verus! {

/// The tools checked for, by display name.
pub open spec fn dep_names() -> Seq<Seq<char>> {
    seq![
        "Git"@,
        "Rust / Cargo"@,
        "QEMU"@,
        "Make"@,
        "Ninja"@,
        "Python 3"@,
        "dmg2img"@,
        "curl"@,
        "pkg-config"@,
        "Meson"@,
        "C compiler"@,
    ]
}

/// The command that each tool provides, in the same order.
pub open spec fn dep_commands() -> Seq<Seq<char>> {
    seq![
        "git"@,
        "cargo"@,
        "qemu-system-x86_64"@,
        "make"@,
        "ninja"@,
        "python3"@,
        "dmg2img"@,
        "curl"@,
        "pkg-config"@,
        "meson"@,
        "gcc"@,
    ]
}

/// How many tools are checked.
pub const DEPENDENCY_COUNT: usize = 11;

/// The display name and command of tool `i`.
pub fn dependency_spec(i: usize) -> (r: (&'static str, &'static str))
    requires
        i < 11,
    ensures
        r.0@ == dep_names()[i as int],
        r.1@ == dep_commands()[i as int],
{
    match i {
        0 => ("Git", "git"),
        1 => ("Rust / Cargo", "cargo"),
        2 => ("QEMU", "qemu-system-x86_64"),
        3 => ("Make", "make"),
        4 => ("Ninja", "ninja"),
        5 => ("Python 3", "python3"),
        6 => ("dmg2img", "dmg2img"),
        7 => ("curl", "curl"),
        8 => ("pkg-config", "pkg-config"),
        9 => ("Meson", "meson"),
        _ => ("C compiler", "gcc"),
    }
}

/// The commands that are looked up on `PATH`, in order.
pub fn dependency_commands() -> (r: Vec<&'static str>)
    ensures
        r@.map_values(|s: &str| s@) == dep_commands(),
{
    let mut r: Vec<&'static str> = Vec::new();
    let mut i: usize = 0;
    while i < DEPENDENCY_COUNT
        invariant
            0 <= i <= 11,
            r@.map_values(|s: &str| s@) == dep_commands().take(i as int),
        decreases 11 - i,
    {
        let (_, c) = dependency_spec(i);
        let ghost before = r@;
        r.push(c);
        assert(r@.map_values(|s: &str| s@) =~= before.map_values(|s: &str| s@).push(c@));
        assert(dep_commands().take(i + 1) =~= dep_commands().take(i as int).push(dep_commands()[i as int]));
        i = i + 1;
    }
    assert(dep_commands().take(11) =~= dep_commands());
    r
}

/// The result of looking for one tool.
pub struct DependencyCheck {
    pub name: String,
    pub command: String,
    pub installed: bool,
    pub details: String,
}

pub struct DependencyCheckView {
    pub name: Seq<char>,
    pub command: Seq<char>,
    pub installed: bool,
    pub details: Seq<char>,
}

impl View for DependencyCheck {
    type V = DependencyCheckView;

    open spec fn view(&self) -> DependencyCheckView {
        DependencyCheckView {
            name: self.name@,
            command: self.command@,
            installed: self.installed,
            details: self.details@,
        }
    }
}

pub open spec fn check_views(v: Seq<DependencyCheck>) -> Seq<DependencyCheckView> {
    v.map_values(|c: DependencyCheck| c@)
}

/// The checks for the given answers to "is tool `i` on `PATH`?".
pub open spec fn spec_checks(found: Seq<bool>) -> Seq<DependencyCheckView> {
    Seq::new(
        11,
        |i: int|
            DependencyCheckView {
                name: dep_names()[i],
                command: dep_commands()[i],
                installed: found[i],
                details: if found[i] {
                    "Installed"@
                } else {
                    "Missing"@
                },
            },
    )
}

/// How many of the checked tools are missing.
pub open spec fn missing_count(checks: Seq<DependencyCheckView>) -> nat
    decreases checks.len(),
{
    if checks.len() == 0 {
        0
    } else {
        missing_count(checks.drop_last()) + if checks.last().installed {
            0nat
        } else {
            1nat
        }
    }
}

/// The commands of the missing tools, in order.
pub open spec fn missing_commands(checks: Seq<DependencyCheckView>) -> Seq<Seq<char>>
    decreases checks.len(),
{
    if checks.len() == 0 {
        Seq::empty()
    } else if checks.last().installed {
        missing_commands(checks.drop_last())
    } else {
        missing_commands(checks.drop_last()).push(checks.last().command)
    }
}

/// The summary shown after a check.
pub open spec fn check_status(missing: nat) -> Seq<char> {
    if missing == 0 {
        "All required tools are installed."@
    } else {
        decimal(missing) + " required tools are missing."@
    }
}

// ---------------------------------------------------------------------
// Distributions and packages
// ---------------------------------------------------------------------

/// The distribution named by one line of `/etc/os-release`, if it is the
/// `ID=` line: the value with quotes trimmed, in lower case.
pub open spec fn id_of_line(line: Seq<char>) -> Option<Seq<char>> {
    match strip_prefix(line, "ID="@) {
        Some(v) => Some(to_ascii_lower(trim_by(v, CharClass::Exactly('"')))),
        None => None,
    }
}

pub open spec fn first_id(ls: Seq<Seq<char>>) -> Option<Seq<char>>
    decreases ls.len(),
{
    if ls.len() == 0 {
        None
    } else {
        match id_of_line(ls[0]) {
            Some(v) => Some(v),
            None => first_id(ls.drop_first()),
        }
    }
}

/// The distribution that `/etc/os-release` names: the value of its first
/// `ID=` line.
pub open spec fn spec_distro_id(os_release: Seq<char>) -> Option<Seq<char>> {
    first_id(lines(os_release))
}

/// Reads the distribution's identifier from the text of `/etc/os-release`.
pub fn distro_id(os_release: &str) -> (r: Option<String>)
    ensures
        match r {
            Some(d) => spec_distro_id(os_release@) == Some(d@),
            None => spec_distro_id(os_release@) is None,
        },
{
    let chars = chars_of(os_release);
    let ls = lines_chars(chars.as_slice());
    let ghost lv = views(ls@);
    let mut i: usize = 0;
    assert(lv.skip(0) =~= lv);
    while i < ls.len()
        invariant
            0 <= i <= ls@.len(),
            lv == views(ls@),
            lv == lines(os_release@),
            lv.len() == ls@.len(),
            first_id(lv) == first_id(lv.skip(i as int)),
        decreases ls@.len() - i,
    {
        assert(lv.skip(i as int)[0] == ls@[i as int]@);
        assert(lv.skip(i as int).drop_first() =~= lv.skip(i + 1));
        let v = strip_prefix_chars(ls[i].as_slice(), "ID=");
        match v {
            Some(v) => {
                let t = trim_chars(v.as_slice(), CharClass::Exactly('"'));
                let l = to_ascii_lower_chars(t.as_slice());
                assert(id_of_line(lv.skip(i as int)[0]) == Some(l@));
                assert(first_id(lv.skip(i as int)) == Some(l@));
                return Some(string_from_chars(l.as_slice()));
            },
            None => {},
        }
        i = i + 1;
    }
    assert(lv.skip(ls@.len() as int) =~= Seq::<Seq<char>>::empty());
    None
}

pub open spec fn is_arch_like(d: Seq<char>) -> bool {
    d == "arch"@ || d == "manjaro"@
}

pub open spec fn is_debian_like(d: Seq<char>) -> bool {
    d == "debian"@ || d == "ubuntu"@ || d == "linuxmint"@ || d == "pop"@
}

pub open spec fn is_fedora(d: Seq<char>) -> bool {
    d == "fedora"@
}

/// The packages that provide each command on Arch Linux and Manjaro.
pub open spec fn arch_table(command: Seq<char>) -> Option<Seq<Seq<char>>> {
    if command == "git"@ {
        Some(seq!["git"@])
    } else if command == "cargo"@ {
        Some(seq!["rust"@])
    } else if command == "qemu-system-x86_64"@ {
        Some(seq!["qemu-desktop"@])
    } else if command == "make"@ {
        Some(seq!["base-devel"@])
    } else if command == "ninja"@ {
        Some(seq!["ninja"@])
    } else if command == "python3"@ {
        Some(seq!["python"@])
    } else if command == "dmg2img"@ {
        Some(seq!["dmg2img"@])
    } else if command == "curl"@ {
        Some(seq!["curl"@])
    } else if command == "pkg-config"@ {
        Some(seq!["pkgconf"@])
    } else if command == "meson"@ {
        Some(seq!["meson"@])
    } else if command == "gcc"@ {
        Some(seq!["base-devel"@])
    } else {
        None
    }
}

/// The packages that provide each command on Debian and its derivatives.
pub open spec fn debian_table(command: Seq<char>) -> Option<Seq<Seq<char>>> {
    if command == "git"@ {
        Some(seq!["git"@])
    } else if command == "cargo"@ {
        Some(seq!["cargo"@, "rustc"@])
    } else if command == "qemu-system-x86_64"@ {
        Some(seq!["qemu-system-x86"@])
    } else if command == "make"@ {
        Some(seq!["build-essential"@])
    } else if command == "ninja"@ {
        Some(seq!["ninja-build"@])
    } else if command == "python3"@ {
        Some(seq!["python3"@])
    } else if command == "dmg2img"@ {
        Some(seq!["dmg2img"@])
    } else if command == "curl"@ {
        Some(seq!["curl"@])
    } else if command == "pkg-config"@ {
        Some(seq!["pkg-config"@])
    } else if command == "meson"@ {
        Some(seq!["meson"@])
    } else if command == "gcc"@ {
        Some(seq!["build-essential"@])
    } else {
        None
    }
}

/// The packages that provide each command on Fedora.
pub open spec fn fedora_table(command: Seq<char>) -> Option<Seq<Seq<char>>> {
    if command == "git"@ {
        Some(seq!["git"@])
    } else if command == "cargo"@ {
        Some(seq!["rust"@, "cargo"@])
    } else if command == "qemu-system-x86_64"@ {
        Some(seq!["qemu-system-x86-core"@])
    } else if command == "make"@ {
        Some(seq!["make"@])
    } else if command == "ninja"@ {
        Some(seq!["ninja-build"@])
    } else if command == "python3"@ {
        Some(seq!["python3"@])
    } else if command == "dmg2img"@ {
        Some(seq!["dmg2img"@])
    } else if command == "curl"@ {
        Some(seq!["curl"@])
    } else if command == "pkg-config"@ {
        Some(seq!["pkgconf-pkg-config"@])
    } else if command == "meson"@ {
        Some(seq!["meson"@])
    } else if command == "gcc"@ {
        Some(seq!["gcc"@, "gcc-c++"@])
    } else {
        None
    }
}

/// The packages that provide `command` on `distro`.
pub open spec fn spec_package_for(distro: Seq<char>, command: Seq<char>) -> Option<Seq<Seq<char>>> {
    if is_arch_like(distro) {
        arch_table(command)
    } else if is_debian_like(distro) {
        debian_table(command)
    } else if is_fedora(distro) {
        fedora_table(command)
    } else {
        None
    }
}

pub open spec fn str_views(v: Seq<&str>) -> Seq<Seq<char>> {
    v.map_values(|s: &str| s@)
}

fn one(a: &'static str) -> (v: Vec<&'static str>)
    ensures
        str_views(v@) == seq![a@],
{
    let mut v: Vec<&'static str> = Vec::new();
    v.push(a);
    assert(str_views(v@) =~= seq![a@]);
    v
}

fn two(a: &'static str, b: &'static str) -> (v: Vec<&'static str>)
    ensures
        str_views(v@) == seq![a@, b@],
{
    let mut v: Vec<&'static str> = Vec::new();
    v.push(a);
    v.push(b);
    assert(str_views(v@) =~= seq![a@, b@]);
    v
}

fn arch_package(command: &str) -> (r: Option<Vec<&'static str>>)
    ensures
        match r {
            Some(v) => arch_table(command@) == Some(str_views(v@)),
            None => arch_table(command@) is None,
        },
{
    if str_eq(command, "git") {
        Some(one("git"))
    } else if str_eq(command, "cargo") {
        Some(one("rust"))
    } else if str_eq(command, "qemu-system-x86_64") {
        Some(one("qemu-desktop"))
    } else if str_eq(command, "make") {
        Some(one("base-devel"))
    } else if str_eq(command, "ninja") {
        Some(one("ninja"))
    } else if str_eq(command, "python3") {
        Some(one("python"))
    } else if str_eq(command, "dmg2img") {
        Some(one("dmg2img"))
    } else if str_eq(command, "curl") {
        Some(one("curl"))
    } else if str_eq(command, "pkg-config") {
        Some(one("pkgconf"))
    } else if str_eq(command, "meson") {
        Some(one("meson"))
    } else if str_eq(command, "gcc") {
        Some(one("base-devel"))
    } else {
        None
    }
}

fn debian_package(command: &str) -> (r: Option<Vec<&'static str>>)
    ensures
        match r {
            Some(v) => debian_table(command@) == Some(str_views(v@)),
            None => debian_table(command@) is None,
        },
{
    if str_eq(command, "git") {
        Some(one("git"))
    } else if str_eq(command, "cargo") {
        Some(two("cargo", "rustc"))
    } else if str_eq(command, "qemu-system-x86_64") {
        Some(one("qemu-system-x86"))
    } else if str_eq(command, "make") {
        Some(one("build-essential"))
    } else if str_eq(command, "ninja") {
        Some(one("ninja-build"))
    } else if str_eq(command, "python3") {
        Some(one("python3"))
    } else if str_eq(command, "dmg2img") {
        Some(one("dmg2img"))
    } else if str_eq(command, "curl") {
        Some(one("curl"))
    } else if str_eq(command, "pkg-config") {
        Some(one("pkg-config"))
    } else if str_eq(command, "meson") {
        Some(one("meson"))
    } else if str_eq(command, "gcc") {
        Some(one("build-essential"))
    } else {
        None
    }
}

fn fedora_package(command: &str) -> (r: Option<Vec<&'static str>>)
    ensures
        match r {
            Some(v) => fedora_table(command@) == Some(str_views(v@)),
            None => fedora_table(command@) is None,
        },
{
    if str_eq(command, "git") {
        Some(one("git"))
    } else if str_eq(command, "cargo") {
        Some(two("rust", "cargo"))
    } else if str_eq(command, "qemu-system-x86_64") {
        Some(one("qemu-system-x86-core"))
    } else if str_eq(command, "make") {
        Some(one("make"))
    } else if str_eq(command, "ninja") {
        Some(one("ninja-build"))
    } else if str_eq(command, "python3") {
        Some(one("python3"))
    } else if str_eq(command, "dmg2img") {
        Some(one("dmg2img"))
    } else if str_eq(command, "curl") {
        Some(one("curl"))
    } else if str_eq(command, "pkg-config") {
        Some(one("pkgconf-pkg-config"))
    } else if str_eq(command, "meson") {
        Some(one("meson"))
    } else if str_eq(command, "gcc") {
        Some(two("gcc", "gcc-c++"))
    } else {
        None
    }
}

/// The packages that provide `command` on the distribution `distro`
/// (Arch and Manjaro, Debian, Ubuntu, Linux Mint and Pop!_OS, Fedora).
pub fn package_for(distro: &str, command: &str) -> (r: Option<Vec<&'static str>>)
    ensures
        match r {
            Some(v) => spec_package_for(distro@, command@) == Some(str_views(v@)),
            None => spec_package_for(distro@, command@) is None,
        },
{
    if str_eq(distro, "arch") || str_eq(distro, "manjaro") {
        arch_package(command)
    } else if str_eq(distro, "debian") || str_eq(distro, "ubuntu") || str_eq(distro, "linuxmint")
        || str_eq(distro, "pop") {
        debian_package(command)
    } else if str_eq(distro, "fedora") {
        fedora_package(command)
    } else {
        None
    }
}

/// `acc` with `x` added at the end unless it is already there.
pub open spec fn add_unique(acc: Seq<Seq<char>>, x: Seq<char>) -> Seq<Seq<char>> {
    if acc.contains(x) {
        acc
    } else {
        acc.push(x)
    }
}

pub open spec fn add_all_unique(acc: Seq<Seq<char>>, xs: Seq<Seq<char>>) -> Seq<Seq<char>>
    decreases xs.len(),
{
    if xs.len() == 0 {
        acc
    } else {
        add_unique(add_all_unique(acc, xs.drop_last()), xs.last())
    }
}

/// The packages to install for the missing commands, each once, in the
/// order they are first needed; or the first command that no package
/// provides on the distribution.
pub open spec fn spec_install_packages(distro: Seq<char>, missing: Seq<Seq<char>>) -> Result<
    Seq<Seq<char>>,
    Seq<char>,
>
    decreases missing.len(),
{
    if missing.len() == 0 {
        Ok(Seq::empty())
    } else {
        match spec_install_packages(distro, missing.drop_last()) {
            Err(c) => Err(c),
            Ok(acc) => match spec_package_for(distro, missing.last()) {
                None => Err(missing.last()),
                Some(ps) => Ok(add_all_unique(acc, ps)),
            },
        }
    }
}

fn contains_str(v: &Vec<String>, p: &str) -> (r: bool)
    ensures
        r == v@.map_values(|s: String| s@).contains(p@),
{
    crate::paths::list_contains(v, p)
}

/// The packages to install for the missing commands.
pub fn install_packages(distro: &str, missing: &Vec<String>) -> (r: Result<Vec<String>, String>)
    ensures
        match r {
            Ok(ps) => spec_install_packages(distro@, missing@.map_values(|s: String| s@)) == Ok::<
                Seq<Seq<char>>,
                Seq<char>,
            >(ps@.map_values(|s: String| s@)),
            Err(c) => spec_install_packages(distro@, missing@.map_values(|s: String| s@)) == Err::<
                Seq<Seq<char>>,
                Seq<char>,
            >(c@),
        },
{
    let ghost mv = missing@.map_values(|s: String| s@);
    let mut packages: Vec<String> = Vec::new();
    let mut i: usize = 0;
    assert(mv.take(0) =~= Seq::<Seq<char>>::empty());
    assert(packages@.map_values(|s: String| s@) =~= Seq::<Seq<char>>::empty());
    while i < missing.len()
        invariant
            0 <= i <= missing@.len(),
            mv == missing@.map_values(|s: String| s@),
            spec_install_packages(distro@, mv.take(i as int)) == Ok::<Seq<Seq<char>>, Seq<char>>(
                packages@.map_values(|s: String| s@),
            ),
        decreases missing@.len() - i,
    {
        assert(mv.take(i + 1).drop_last() =~= mv.take(i as int));
        assert(mv.take(i + 1).last() == missing@[i as int]@);
        let names = package_for(distro, missing[i].as_str());
        match names {
            None => {
                proof {
                    lemma_install_err_extends(distro@, mv, i + 1);
                }
                return Err(missing[i].clone());
            },
            Some(names) => {
                let ghost before = packages@.map_values(|s: String| s@);
                let ghost nv = str_views(names@);
                let mut j: usize = 0;
                while j < names.len()
                    invariant
                        0 <= j <= names@.len(),
                        nv == str_views(names@),
                        packages@.map_values(|s: String| s@) == add_all_unique(
                            before,
                            nv.take(j as int),
                        ),
                    decreases names@.len() - j,
                {
                    assert(nv.take(j + 1).drop_last() =~= nv.take(j as int));
                    assert(nv.take(j + 1).last() == names@[j as int]@);
                    let name = names[j];
                    if !contains_str(&packages, name) {
                        let ghost pb = packages@;
                        packages.push(owned(name));
                        assert(packages@.map_values(|s: String| s@) =~= pb.map_values(
                            |s: String| s@,
                        ).push(name@));
                    }
                    j = j + 1;
                }
                assert(nv.take(names@.len() as int) =~= nv);
            },
        }
        i = i + 1;
    }
    assert(mv.take(missing@.len() as int) =~= mv);
    Ok(packages)
}

/// The program that gains administrator rights, and its own arguments:
/// `pkexec` when available, else `sudo -n`.
pub open spec fn spec_elevation(has_pkexec: bool, has_sudo: bool) -> Option<(Seq<char>, Seq<Seq<char>>)> {
    if has_pkexec {
        Some(("pkexec"@, Seq::empty()))
    } else if has_sudo {
        Some(("sudo"@, seq!["-n"@]))
    } else {
        None
    }
}

/// The package manager invocation for a distribution.
pub open spec fn spec_manager(distro: Seq<char>) -> Option<Seq<Seq<char>>> {
    if is_arch_like(distro) {
        Some(seq!["pacman"@, "-S"@, "--needed"@])
    } else if is_debian_like(distro) {
        Some(seq!["apt-get"@, "install"@, "-y"@])
    } else if is_fedora(distro) {
        Some(seq!["dnf"@, "install"@, "-y"@])
    } else {
        None
    }
}

/// The installer command: the elevation program and its arguments, the
/// package manager invocation, then the packages; output discarded.
pub open spec fn install_command(
    program: Seq<char>,
    prefix: Seq<Seq<char>>,
    manager: Seq<Seq<char>>,
    packages: Seq<Seq<char>>,
) -> CommandView {
    CommandView {
        program,
        args: prefix + manager + packages,
        cwd: None,
        env: Seq::empty(),
        output: OutputView::Discard,
    }
}

/// The status while the packages are being installed.
pub open spec fn installing_status(n: nat) -> Seq<char> {
    "Installing "@ + decimal(n) + " package"@ + (if n == 1 {
        ""@
    } else {
        "s"@
    }) + "..."@
}

/// The tool checks and the shared status of checking and installing them.
pub struct Dependencies {
    pub checks: Vec<DependencyCheck>,
    pub checked: bool,
    pub task: Task,
}

/// What `install_missing_dependencies` decides, given the checks it works
/// from (the current ones, or fresh ones when none were made yet).
pub enum InstallDecision {
    /// Nothing to start; the status says why.
    Refuse(Seq<char>),
    /// Start this installer.
    Install(Seq<char>, CommandView),
}

pub open spec fn spec_install_decision(
    checks: Seq<DependencyCheckView>,
    os_release: Option<Seq<char>>,
    has_pkexec: bool,
    has_sudo: bool,
) -> InstallDecision {
    let missing = missing_commands(checks);
    if missing.len() == 0 {
        InstallDecision::Refuse("All required tools are already installed."@)
    } else {
        let distro = match os_release {
            Some(t) => spec_distro_id(t),
            None => None,
        };
        match distro {
            None => InstallDecision::Refuse("Could not detect the Linux distribution."@),
            Some(d) => match spec_install_packages(d, missing) {
                Err(c) => InstallDecision::Refuse(
                    "No automatic package mapping is available for "@ + c + " on "@ + d + "."@,
                ),
                Ok(ps) => match spec_elevation(has_pkexec, has_sudo) {
                    None => InstallDecision::Refuse(
                        "Neither pkexec nor sudo is available. Install the missing tools manually."@,
                    ),
                    Some(el) => match spec_manager(d) {
                        None => InstallDecision::Refuse(
                            "Automatic installation is not supported on "@ + d + " yet."@,
                        ),
                        Some(m) => InstallDecision::Install(
                            installing_status(ps.len()),
                            install_command(el.0, el.1, m, ps),
                        ),
                    },
                },
            },
        }
    }
}

impl Dependencies {
    /// Nothing checked yet.
    pub fn new() -> (d: Dependencies)
        ensures
            d.checks@.len() == 0,
            !d.checked,
            d.task.status@ == "Not checked"@,
            !d.task.running,
    {
        Dependencies { checks: Vec::new(), checked: false, task: Task::new("Not checked") }
    }

    /// Records which tools are on `PATH` (`found[i]` for the command
    /// `dependency_commands()[i]`) and sums them up in the status.
    pub fn check_dependencies(&mut self, found: &[bool])
        requires
            found@.len() == 11,
        ensures
            check_views(final(self).checks@) == spec_checks(found@),
            final(self).checked,
            final(self).task.status@ == check_status(missing_count(spec_checks(found@))),
            final(self).task.running == old(self).task.running,
    {
        let mut checks: Vec<DependencyCheck> = Vec::new();
        let mut missing: u64 = 0;
        let mut i: usize = 0;
        while i < DEPENDENCY_COUNT
            invariant
                0 <= i <= 11,
                found@.len() == 11,
                check_views(checks@) == spec_checks(found@).take(i as int),
                missing as nat == missing_count(spec_checks(found@).take(i as int)),
                missing <= i,
            decreases 11 - i,
        {
            let (name, command) = dependency_spec(i);
            let installed = found[i];
            let details = if installed {
                owned("Installed")
            } else {
                owned("Missing")
            };
            let ghost before = checks@;
            checks.push(DependencyCheck { name: owned(name), command: owned(command), installed, details });
            let ghost all = spec_checks(found@);
            assert(check_views(checks@) =~= all.take(i + 1));
            assert(all.take(i + 1).drop_last() =~= all.take(i as int));
            if !installed {
                missing = missing + 1;
            }
            i = i + 1;
        }
        assert(spec_checks(found@).take(11) =~= spec_checks(found@));
        self.checks = checks;
        self.checked = true;
        if missing == 0 {
            self.task.status = owned("All required tools are installed.");
        } else {
            let n = decimal_string(missing);
            self.task.status = cat(n.as_str(), " required tools are missing.");
        }
    }

    /// The commands of the missing tools.
    pub fn missing(&self) -> (r: Vec<String>)
        ensures
            r@.map_values(|s: String| s@) == missing_commands(check_views(self.checks@)),
    {
        let ghost cv = check_views(self.checks@);
        let mut r: Vec<String> = Vec::new();
        let mut i: usize = 0;
        while i < self.checks.len()
            invariant
                0 <= i <= self.checks@.len(),
                cv == check_views(self.checks@),
                r@.map_values(|s: String| s@) == missing_commands(cv.take(i as int)),
            decreases self.checks@.len() - i,
        {
            assert(cv.take(i + 1).drop_last() =~= cv.take(i as int));
            assert(cv.take(i + 1).last() == self.checks@[i as int]@);
            if !self.checks[i].installed {
                let ghost before = r@;
                r.push(self.checks[i].command.clone());
                assert(r@.map_values(|s: String| s@) =~= before.map_values(|s: String| s@).push(
                    self.checks@[i as int].command@,
                ));
            }
            i = i + 1;
        }
        assert(cv.take(self.checks@.len() as int) =~= cv);
        r
    }

    /// Decides how to install the missing tools. When no check was made yet,
    /// `found` (as for `check_dependencies`) is recorded first.
    /// `os_release` is the text of `/etc/os-release`, if it could be read;
    /// `has_pkexec` and `has_sudo` say whether those programs are on `PATH`.
    /// Returns the installer to start, if any.
    pub fn install_missing_dependencies(
        &mut self,
        found: &[bool],
        os_release: Option<&str>,
        has_pkexec: bool,
        has_sudo: bool,
    ) -> (job: Option<Job>)
        requires
            !old(self).task.running && !old(self).checked ==> found@.len() == 11,
        ensures
            old(self).task.running ==> job is None && *final(self) == *old(self),
            !old(self).task.running ==> {
                let checks = if old(self).checked {
                    check_views(old(self).checks@)
                } else {
                    spec_checks(found@)
                };
                &&& check_views(final(self).checks@) == checks
                &&& final(self).checked
                &&& !final(self).task.running
                &&& match spec_install_decision(
                    checks,
                    match os_release {
                        Some(t) => Some(t@),
                        None => None,
                    },
                    has_pkexec,
                    has_sudo,
                ) {
                    InstallDecision::Refuse(s) => final(self).task.status@ == s && job is None,
                    InstallDecision::Install(s, c) => final(self).task.status@ == s && (job matches Some(j)
                        && j@ == (JobView {
                        steps: Seq::empty(),
                        spawn: Some(c),
                        on_done: None,
                        on_spawn_error: "Could not start dependency installer: "@,
                    })),
                }
            },
    {
        if self.task.running {
            return None;
        }
        if !self.checked {
            self.check_dependencies(found);
        }
        let missing = self.missing();
        if missing.len() == 0 {
            self.task.status = owned("All required tools are already installed.");
            return None;
        }
        let distro = match os_release {
            Some(t) => distro_id(t),
            None => None,
        };
        let distro = match distro {
            None => {
                self.task.status = owned("Could not detect the Linux distribution.");
                return None;
            },
            Some(d) => d,
        };
        let packages = match install_packages(distro.as_str(), &missing) {
            Err(c) => {
                let a = cat3("No automatic package mapping is available for ", c.as_str(), " on ");
                self.task.status = cat3(a.as_str(), distro.as_str(), ".");
                return None;
            },
            Ok(ps) => ps,
        };
        let n = decimal_string(packages.len() as u64);
        let a = cat3("Installing ", n.as_str(), " package");
        let b = if packages.len() == 1 {
            cat(a.as_str(), "")
        } else {
            cat(a.as_str(), "s")
        };
        self.task.status = cat(b.as_str(), "...");
        let mut command = if has_pkexec {
            CommandSpec::new("pkexec")
        } else if has_sudo {
            let mut c = CommandSpec::new("sudo");
            c.arg("-n");
            c
        } else {
            self.task.status = owned(
                "Neither pkexec nor sudo is available. Install the missing tools manually.",
            );
            return None;
        };
        let ghost prefix = command@.args;
        assert(prefix =~= spec_elevation(has_pkexec, has_sudo).unwrap().1);
        let d = distro.as_str();
        if str_eq(d, "arch") || str_eq(d, "manjaro") {
            command.arg("pacman");
            command.arg("-S");
            command.arg("--needed");
            assert(command@.args =~= prefix + seq!["pacman"@, "-S"@, "--needed"@]);
        } else if str_eq(d, "debian") || str_eq(d, "ubuntu") || str_eq(d, "linuxmint") || str_eq(
            d,
            "pop",
        ) {
            command.arg("apt-get");
            command.arg("install");
            command.arg("-y");
            assert(command@.args =~= prefix + seq!["apt-get"@, "install"@, "-y"@]);
        } else if str_eq(d, "fedora") {
            command.arg("dnf");
            command.arg("install");
            command.arg("-y");
            assert(command@.args =~= prefix + seq!["dnf"@, "install"@, "-y"@]);
        } else {
            let s = cat3("Automatic installation is not supported on ", d, " yet.");
            self.task.status = s;
            return None;
        }
        let ghost with_manager = command@.args;
        let ghost pv = packages@.map_values(|s: String| s@);
        let mut k: usize = 0;
        while k < packages.len()
            invariant
                0 <= k <= packages@.len(),
                pv == packages@.map_values(|s: String| s@),
                command@ == (CommandView { args: with_manager + pv.take(k as int), ..command@ }),
                command@.program == (if has_pkexec { "pkexec"@ } else { "sudo"@ }),
                command@.cwd is None,
                command@.env == Seq::<(Seq<char>, Seq<char>)>::empty(),
                command@.output == OutputView::Inherit,
            decreases packages@.len() - k,
        {
            command.arg(packages[k].as_str());
            assert(with_manager + pv.take(k + 1) =~= (with_manager + pv.take(k as int)).push(
                packages@[k as int]@,
            ));
            k = k + 1;
        }
        assert(pv.take(packages@.len() as int) =~= pv);
        command.set_output(Output::Discard);
        let job = Job {
            steps: Vec::new(),
            spawn: Some(command),
            on_done: None,
            on_spawn_error: owned("Could not start dependency installer: "),
        };
        assert(job@.steps =~= Seq::empty());
        Some(job)
    }

    /// Records what became of the installer job.
    pub fn install_reported(&mut self, job: &Job, report: Report)
        requires
            report_fits(job@, report),
        ensures
            (final(self).task.status@, final(self).task.running) == spec_after_report(
                old(self).task.status@,
                old(self).task.running,
                job@,
                report,
            ),
            final(self).checks == old(self).checks,
            final(self).checked == old(self).checked,
    {
        self.task.apply_report(job, report);
    }

    /// Looks at the running installer. When it succeeded, `found` (as for
    /// `check_dependencies`) is recorded as a fresh check. Returns whether
    /// the window should be drawn again soon.
    pub fn update_dependency_install(&mut self, poll: Poll, found: &[bool]) -> (repaint: bool)
        requires
            poll matches Poll::Exited { success, .. } && success ==> found@.len() == 11,
        ensures
            !old(self).task.running ==> !repaint && *final(self) == *old(self),
            old(self).task.running ==> match poll {
                Poll::Running => repaint && *final(self) == *old(self),
                Poll::Exited { success, .. } => !repaint && !final(self).task.running && if success {
                    &&& check_views(final(self).checks@) == spec_checks(found@)
                    &&& final(self).checked
                    &&& final(self).task.status@ == check_status(
                        missing_count(spec_checks(found@)),
                    )
                } else {
                    &&& final(self).checks == old(self).checks
                    &&& final(self).checked == old(self).checked
                    &&& final(self).task.status@
                        == "Dependency installation failed. Check your package manager."@
                },
                Poll::Failed(e) => {
                    &&& !repaint
                    &&& !final(self).task.running
                    &&& final(self).checks == old(self).checks
                    &&& final(self).checked == old(self).checked
                    &&& final(self).task.status@ == "Failed to check dependency installer: "@ + e@
                },
            },
    {
        if !self.task.running {
            return false;
        }
        match poll {
            Poll::Running => true,
            Poll::Exited { success, .. } => {
                self.task.running = false;
                if success {
                    self.task.status = owned("Dependencies installed. Checking again...");
                    self.check_dependencies(found);
                } else {
                    self.task.status = owned(
                        "Dependency installation failed. Check your package manager.",
                    );
                }
                false
            },
            Poll::Failed(e) => {
                self.task.status = cat("Failed to check dependency installer: ", e.as_str());
                self.task.running = false;
                false
            },
        }
    }
}

proof fn lemma_install_err_extends(distro: Seq<char>, ms: Seq<Seq<char>>, k: int)
    requires
        0 <= k <= ms.len(),
        spec_install_packages(distro, ms.take(k)) is Err,
    ensures
        spec_install_packages(distro, ms) == spec_install_packages(distro, ms.take(k)),
    decreases ms.len() - k,
{
    if k == ms.len() {
        assert(ms.take(k) =~= ms);
    } else {
        let t = ms.drop_last();
        assert(t.take(k) =~= ms.take(k));
        lemma_install_err_extends(distro, t, k);
    }
}

/// Every package the plan names is named once.
pub proof fn lemma_install_packages_unique(distro: Seq<char>, missing: Seq<Seq<char>>)
    ensures
        spec_install_packages(distro, missing) matches Ok(ps) ==> ps.no_duplicates(),
    decreases missing.len(),
{
    if missing.len() > 0 {
        lemma_install_packages_unique(distro, missing.drop_last());
        match spec_install_packages(distro, missing.drop_last()) {
            Ok(acc) => match spec_package_for(distro, missing.last()) {
                Some(ps) => lemma_add_all_unique(acc, ps),
                None => {},
            },
            Err(_) => {},
        }
    }
}

proof fn lemma_add_all_unique(acc: Seq<Seq<char>>, xs: Seq<Seq<char>>)
    requires
        acc.no_duplicates(),
    ensures
        add_all_unique(acc, xs).no_duplicates(),
        forall|i: int| 0 <= i < xs.len() ==> add_all_unique(acc, xs).contains(#[trigger] xs[i]),
        forall|x: Seq<char>| #[trigger] acc.contains(x) ==> add_all_unique(acc, xs).contains(x),
    decreases xs.len(),
{
    if xs.len() > 0 {
        let t = xs.drop_last();
        lemma_add_all_unique(acc, t);
        let prev = add_all_unique(acc, t);
        let x = xs.last();
        if !prev.contains(x) {
            let next = prev.push(x);
            assert forall|i: int, j: int| 0 <= i < j < next.len() implies next[i] != next[j] by {
                if j == next.len() - 1 {
                    assert(prev.contains(next[i]) || i >= prev.len());
                }
            }
            assert(next.contains(x)) by {
                assert(next[next.len() - 1] == x);
            }
            assert forall|y: Seq<char>| prev.contains(y) implies next.contains(y) by {
                let k = choose|k: int| 0 <= k < prev.len() && prev[k] == y;
                assert(next[k] == y);
            }
        }
        assert forall|i: int| 0 <= i < xs.len() implies add_all_unique(acc, xs).contains(
            #[trigger] xs[i],
        ) by {
            if i < xs.len() - 1 {
                assert(t[i] == xs[i]);
                assert(prev.contains(t[i]));
            }
        }
    }
}

/// Every package that provides a missing command is in the plan.
pub proof fn lemma_install_packages_complete(distro: Seq<char>, missing: Seq<Seq<char>>)
    ensures
        spec_install_packages(distro, missing) matches Ok(ps) ==> forall|i: int|
            0 <= i < missing.len() ==> match spec_package_for(distro, #[trigger] missing[i]) {
                Some(names) => forall|k: int| 0 <= k < names.len() ==> ps.contains(#[trigger] names[k]),
                None => false,
            },
    decreases missing.len(),
{
    if missing.len() > 0 {
        let t = missing.drop_last();
        lemma_install_packages_complete(distro, t);
        match spec_install_packages(distro, t) {
            Ok(acc) => match spec_package_for(distro, missing.last()) {
                Some(names) => {
                    lemma_install_packages_unique(distro, t);
                    lemma_add_all_unique(acc, names);
                    let ps = add_all_unique(acc, names);
                    assert forall|i: int| 0 <= i < missing.len() implies match spec_package_for(
                        distro,
                        #[trigger] missing[i],
                    ) {
                        Some(ns) => forall|k: int| 0 <= k < ns.len() ==> ps.contains(#[trigger] ns[k]),
                        None => false,
                    } by {
                        if i < missing.len() - 1 {
                            assert(t[i] == missing[i]);
                        }
                    }
                },
                None => {},
            },
            Err(_) => {},
        }
    }
}


/// The number of missing tools is the number of missing commands, so the
/// check says that all tools are installed exactly when the installer has
/// nothing to install.
pub proof fn lemma_missing_count_matches(checks: Seq<DependencyCheckView>)
    ensures
        missing_count(checks) == missing_commands(checks).len(),
    decreases checks.len(),
{
    if checks.len() > 0 {
        lemma_missing_count_matches(checks.drop_last());
    }
}

/// The distribution read from `/etc/os-release` holds no upper-case ASCII letter.
pub proof fn lemma_distro_id_lower_case(os_release: Seq<char>)
    ensures
        spec_distro_id(os_release) matches Some(d) ==> forall|i: int|
            0 <= i < d.len() ==> !('A' <= #[trigger] d[i] && d[i] <= 'Z'),
{
    lemma_first_id_lower(lines(os_release));
}

proof fn lemma_first_id_lower(ls: Seq<Seq<char>>)
    ensures
        first_id(ls) matches Some(d) ==> forall|i: int| 0 <= i < d.len() ==> !('A' <= #[trigger] d[i] && d[i] <= 'Z'),
    decreases ls.len(),
{
    if ls.len() > 0 {
        lemma_first_id_lower(ls.drop_first());
        match id_of_line(ls[0]) {
            Some(d) => {
                assert forall|i: int| 0 <= i < d.len() implies !('A' <= #[trigger] d[i] && d[i] <= 'Z') by {
                    let c = trim_by(strip_prefix(ls[0], "ID="@)->0, CharClass::Exactly('"'))[i];
                    assert(d[i] == crate::text::ascii_lower(c));
                    if 'A' <= c && c <= 'Z' {
                        assert((c as u32) + 32 >= 'a' as u32);
                        assert(((c as u32) + 32) as char == d[i]);
                    }
                }
            },
            None => {},
        }
    }
}

/// Debian and the distributions built on it (Ubuntu, Linux Mint, Pop!_OS)
/// map every command to the same packages and install them with
/// `apt-get install -y`; on each of them git comes from the `git` package
/// and cargo from `cargo` and `rustc`.
pub proof fn lemma_debian_family(command: Seq<char>)
    ensures
        spec_package_for("ubuntu"@, command) == spec_package_for("debian"@, command),
        spec_package_for("linuxmint"@, command) == spec_package_for("debian"@, command),
        spec_package_for("pop"@, command) == spec_package_for("debian"@, command),
        spec_manager("debian"@) == Some(seq!["apt-get"@, "install"@, "-y"@]),
        spec_manager("ubuntu"@) == Some(seq!["apt-get"@, "install"@, "-y"@]),
        spec_manager("linuxmint"@) == Some(seq!["apt-get"@, "install"@, "-y"@]),
        spec_manager("pop"@) == Some(seq!["apt-get"@, "install"@, "-y"@]),
        spec_package_for("debian"@, "git"@) == Some(seq!["git"@]),
        spec_package_for("debian"@, "cargo"@) == Some(seq!["cargo"@, "rustc"@]),
{
    reveal_strlit("debian");
    reveal_strlit("ubuntu");
    reveal_strlit("linuxmint");
    reveal_strlit("pop");
    reveal_strlit("arch");
    reveal_strlit("manjaro");
    reveal_strlit("git");
    reveal_strlit("cargo");
    assert("debian"@.len() == 6 && "ubuntu"@.len() == 6 && "linuxmint"@.len() == 9 && "pop"@.len() == 3);
    assert("arch"@.len() == 4 && "manjaro"@.len() == 7);
    assert("git"@.len() == 3 && "cargo"@.len() == 5);
    assert(!is_arch_like("ubuntu"@) && is_debian_like("ubuntu"@));
    assert(!is_arch_like("linuxmint"@) && is_debian_like("linuxmint"@));
    assert(!is_arch_like("pop"@) && is_debian_like("pop"@));
    assert(!is_arch_like("debian"@) && is_debian_like("debian"@));
}

} // verus!
