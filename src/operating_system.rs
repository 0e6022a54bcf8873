//! Operating system families, their package managers, and the commands those
//! managers take.
use vstd::prelude::*;

use crate::error::ResolveError;
use crate::text::same_text;

verus! {

/// An operating system family with a supported native package manager.
#[derive(Debug, Clone, Copy, PartialEq, Eq, Structural)]
pub enum OperatingSystem {
    Mac,
    Debian,
    RedHat,
    Windows,
}

/// A native package manager.
#[derive(Debug, Clone, Copy, PartialEq, Eq, Structural)]
pub enum PackageManager {
    Apt,
    Dnf,
    Yum,
    Chocolatey,
    Homebrew,
}

/// The platform a program was built for, as far as detection cares.
#[derive(Debug, Clone, Copy, PartialEq, Eq, Structural)]
pub enum Platform {
    Linux,
    Windows,
    MacOs,
    Other,
}

/// The family that one line of `/etc/os-release` names; lines are matched whole.
pub open spec fn family_of_line(line: Seq<char>) -> Option<OperatingSystem> {
    if line == "ID=debian"@ {
        Some(OperatingSystem::Debian)
    } else if line == "ID=fedora"@ || line == "ID=centos"@ || line == "ID=rhel"@ {
        Some(OperatingSystem::RedHat)
    } else {
        None
    }
}

/// The family named by the first line that names one; unreadable lines
/// (`None`) are passed over.
pub open spec fn distribution_of(lines: Seq<Option<String>>) -> Option<OperatingSystem>
    decreases lines.len(),
{
    if lines.len() == 0 {
        None
    } else {
        let here = match lines[0] {
            Some(line) => family_of_line(line@),
            None => None,
        };
        if here is Some {
            here
        } else {
            distribution_of(lines.drop_first())
        }
    }
}

/// What detection concludes on a platform, given the lines of
/// `/etc/os-release` (`None` when the file could not be opened).
pub open spec fn detected(platform: Platform, os_release: Option<Vec<Option<String>>>) -> Option<
    OperatingSystem,
> {
    match platform {
        Platform::Linux => match os_release {
            Some(lines) => distribution_of(lines@),
            None => None,
        },
        Platform::Windows => Some(OperatingSystem::Windows),
        Platform::MacOs => Some(OperatingSystem::Mac),
        Platform::Other => None,
    }
}

/// The family that a lower-case name stands for.
pub open spec fn family_named(name: Seq<char>) -> Option<OperatingSystem> {
    if name == "mac"@ || name == "osx"@ || name == "macos"@ {
        Some(OperatingSystem::Mac)
    } else if name == "debian"@ {
        Some(OperatingSystem::Debian)
    } else if name == "redhat"@ || name == "rhel"@ {
        Some(OperatingSystem::RedHat)
    } else if name == "windows"@ || name == "win"@ {
        Some(OperatingSystem::Windows)
    } else {
        None
    }
}

/// The message that an unknown name is rejected with.
pub open spec fn invalid_name_message(name: Seq<char>) -> Seq<char> {
    "Invalid operating system: '"@ + name + "'"@
}

/// What `str::to_lowercase` makes of a text.
pub uninterp spec fn lowercase_of(s: Seq<char>) -> Seq<char>;

/// Relies on `str::to_lowercase`: the result depends on the characters alone.
#[verifier::external_body]
fn lowercase(s: &str) -> (r: String)
    ensures
        r@ == lowercase_of(s@),
{
    s.to_lowercase()
}

/// The managers of each family, in the order they are tried.
pub open spec fn managers_of(os: OperatingSystem) -> Seq<PackageManager> {
    match os {
        OperatingSystem::Mac => seq![PackageManager::Homebrew],
        OperatingSystem::Debian => seq![PackageManager::Apt],
        OperatingSystem::RedHat => seq![PackageManager::Dnf, PackageManager::Yum],
        OperatingSystem::Windows => seq![PackageManager::Chocolatey],
    }
}

/// Whether a manager has to run with root privilege.
pub open spec fn needs_root(pm: PackageManager) -> bool {
    match pm {
        PackageManager::Apt | PackageManager::Dnf | PackageManager::Yum => true,
        PackageManager::Homebrew | PackageManager::Chocolatey => false,
    }
}

/// The command that a manager installs a package with, before the package name.
pub open spec fn install_verb(pm: PackageManager) -> Seq<char> {
    match pm {
        PackageManager::Apt => "apt-get install -y"@,
        PackageManager::Dnf => "dnf install -y"@,
        PackageManager::Yum => "yum install -y"@,
        PackageManager::Homebrew => "brew install"@,
        PackageManager::Chocolatey => "choco install"@,
    }
}

/// The registry repository names of a manager start with one of these.
pub open spec fn repository_prefixes(pm: PackageManager) -> Seq<Seq<char>> {
    match pm {
        PackageManager::Apt => seq!["debian_"@, "ubuntu_"@],
        PackageManager::Dnf | PackageManager::Yum => seq!["fedora_"@, "centos_"@],
        PackageManager::Chocolatey => seq!["chocolatey"@],
        PackageManager::Homebrew => seq!["homebrew"@],
    }
}

/// The full install command: `[sudo ]<verb> <package>`.
pub open spec fn install_command(pm: PackageManager, package: Seq<char>) -> Seq<char> {
    (if needs_root(pm) { "sudo "@ } else { Seq::empty() }) + install_verb(pm) + " "@ + package
}

/// Every family has at least one manager, and every manager of it has at
/// least one repository prefix; the prefixes of a manager are non-empty and
/// pairwise distinct.
pub proof fn lemma_catalog_complete(os: OperatingSystem)
    ensures
        managers_of(os).len() > 0,
        forall|i: int|
            0 <= i < managers_of(os).len() ==> {
                let prefixes = #[trigger] repository_prefixes(managers_of(os)[i]);
                &&& prefixes.len() > 0
                &&& forall|j: int| 0 <= j < prefixes.len() ==> (#[trigger] prefixes[j]).len() > 0
                &&& forall|j: int, k: int|
                    0 <= j < prefixes.len() && 0 <= k < prefixes.len() && j != k ==> #[trigger] prefixes[j]
                        != #[trigger] prefixes[k]
            },
{
    reveal_strlit("debian_");
    reveal_strlit("ubuntu_");
    reveal_strlit("fedora_");
    reveal_strlit("centos_");
    reveal_strlit("chocolatey");
    reveal_strlit("homebrew");
    assert forall|i: int| 0 <= i < managers_of(os).len() implies {
        let prefixes = #[trigger] repository_prefixes(managers_of(os)[i]);
        &&& prefixes.len() > 0
        &&& forall|j: int| 0 <= j < prefixes.len() ==> (#[trigger] prefixes[j]).len() > 0
        &&& forall|j: int, k: int|
            0 <= j < prefixes.len() && 0 <= k < prefixes.len() && j != k ==> #[trigger] prefixes[j]
                != #[trigger] prefixes[k]
    } by {
        let pm = managers_of(os)[i];
        let prefixes = repository_prefixes(pm);
        if prefixes.len() == 2 {
            assert(prefixes[0][0] != prefixes[1][0]);
        }
    }
}

/// An `os-release` file in which no line names a family yields no
/// distribution, so detection on Linux fails.
pub proof fn lemma_no_id_line_means_unsupported(os_release: Vec<Option<String>>)
    requires
        forall|i: int|
            0 <= i < os_release@.len() && #[trigger] os_release@[i] is Some ==> family_of_line(
                os_release@[i]->Some_0@,
            ) is None,
    ensures
        distribution_of(os_release@) is None,
        detected(Platform::Linux, Some(os_release)) is None,
{
    lemma_no_family_line(os_release@);
}

proof fn lemma_no_family_line(lines: Seq<Option<String>>)
    requires
        forall|i: int|
            0 <= i < lines.len() && #[trigger] lines[i] is Some ==> family_of_line(
                lines[i]->Some_0@,
            ) is None,
    ensures
        distribution_of(lines) is None,
    decreases lines.len(),
{
    if lines.len() > 0 {
        let rest = lines.drop_first();
        assert forall|i: int| 0 <= i < rest.len() && #[trigger] rest[i] is Some implies family_of_line(
            rest[i]->Some_0@,
        ) is None by {
            assert(rest[i] == lines[i + 1]);
        }
        lemma_no_family_line(rest);
        assert(lines[0] is Some ==> family_of_line(lines[0]->Some_0@) is None);
    }
}

/// Root privilege is needed exactly by Apt, Dnf and Yum, and never by
/// Homebrew or Chocolatey.
pub proof fn lemma_root_exactly_for_system_managers(pm: PackageManager)
    ensures
        needs_root(pm) <==> (pm == PackageManager::Apt || pm == PackageManager::Dnf || pm
            == PackageManager::Yum),
        !needs_root(pm) <==> (pm == PackageManager::Homebrew || pm == PackageManager::Chocolatey),
{
}

impl OperatingSystem {
    /// The family that a lower-case name stands for, if any.
    pub fn from_lowercase_name(name: &str) -> (r: Option<OperatingSystem>)
        ensures
            r == family_named(name@),
    {
        if same_text(name, "mac") || same_text(name, "osx") || same_text(name, "macos") {
            Some(OperatingSystem::Mac)
        } else if same_text(name, "debian") {
            Some(OperatingSystem::Debian)
        } else if same_text(name, "redhat") || same_text(name, "rhel") {
            Some(OperatingSystem::RedHat)
        } else if same_text(name, "windows") || same_text(name, "win") {
            Some(OperatingSystem::Windows)
        } else {
            None
        }
    }

    /// Reads a family from its name, in any letter case.
    pub fn parse(s: &str) -> (r: Result<OperatingSystem, String>)
        ensures
            family_named(lowercase_of(s@)) is Some ==> r == Ok::<OperatingSystem, String>(
                family_named(lowercase_of(s@))->Some_0,
            ),
            family_named(lowercase_of(s@)) is None ==> r is Err && r->Err_0@
                == invalid_name_message(s@),
    {
        let lower = lowercase(s);
        match OperatingSystem::from_lowercase_name(lower.as_str()) {
            Some(os) => Ok(os),
            None => {
                let mut message = String::from_str("Invalid operating system: '");
                message.append(s);
                message.append("'");
                Err(message)
            },
        }
    }

    /// The family named by one line of `/etc/os-release`, if the whole line
    /// is one of the recognised `ID=` entries.
    pub fn family_of_line(line: &str) -> (r: Option<OperatingSystem>)
        ensures
            r == family_of_line(line@),
    {
        if same_text(line, "ID=debian") {
            Some(OperatingSystem::Debian)
        } else if same_text(line, "ID=fedora") || same_text(line, "ID=centos") || same_text(
            line,
            "ID=rhel",
        ) {
            Some(OperatingSystem::RedHat)
        } else {
            None
        }
    }

    /// Check the lines of `os-release` to detect the current Linux distribution.
    pub fn detect_linux_distribution(lines: &Vec<Option<String>>) -> (r: Option<OperatingSystem>)
        ensures
            r == distribution_of(lines@),
    {
        let mut i: usize = 0;
        assert(lines@.subrange(0, lines@.len() as int) =~= lines@);
        while i < lines.len()
            invariant
                i <= lines@.len(),
                distribution_of(lines@) == distribution_of(lines@.subrange(i as int, lines@.len() as int)),
            decreases lines@.len() - i,
        {
            let rest = Ghost(lines@.subrange(i as int, lines@.len() as int));
            assert(rest@.drop_first() =~= lines@.subrange(i + 1, lines@.len() as int));
            assert(rest@[0] == lines@[i as int]);
            match &lines[i] {
                Some(line) => {
                    let found = OperatingSystem::family_of_line(line.as_str());
                    if found.is_some() {
                        return found;
                    }
                },
                None => {},
            }
            i = i + 1;
        }
        assert(lines@.subrange(i as int, lines@.len() as int).len() == 0);
        None
    }

    /// Detect the operating system of a host on `platform`, given the lines
    /// of its `/etc/os-release` (`None` when that file could not be opened;
    /// only read on Linux).
    pub fn detect(platform: Platform, os_release: &Option<Vec<Option<String>>>) -> (r: Result<
        OperatingSystem,
        ResolveError,
    >)
        ensures
            detected(platform, *os_release) matches Some(os) ==> r
                matches Ok(found) && found == os,
            detected(platform, *os_release) is None ==> r matches Err(
                ResolveError::UnsupportedOperatingSystem,
            ),
    {
        let os = match platform {
            Platform::Linux => match os_release {
                Some(lines) => OperatingSystem::detect_linux_distribution(lines),
                None => None,
            },
            Platform::Windows => Some(OperatingSystem::Windows),
            Platform::MacOs => Some(OperatingSystem::Mac),
            Platform::Other => None,
        };
        match os {
            Some(os) => Ok(os),
            None => Err(ResolveError::UnsupportedOperatingSystem),
        }
    }

    /// Package manager(s) for this operating system family.
    pub fn package_managers(&self) -> (r: &'static [PackageManager])
        ensures
            r@ == managers_of(*self),
    {
        match self {
            OperatingSystem::Mac => {
                let r: &'static [PackageManager] = &[PackageManager::Homebrew];
                assert(r@ =~= managers_of(*self));
                r
            },
            OperatingSystem::Debian => {
                let r: &'static [PackageManager] = &[PackageManager::Apt];
                assert(r@ =~= managers_of(*self));
                r
            },
            OperatingSystem::RedHat => {
                let r: &'static [PackageManager] = &[PackageManager::Dnf, PackageManager::Yum];
                assert(r@ =~= managers_of(*self));
                r
            },
            OperatingSystem::Windows => {
                let r: &'static [PackageManager] = &[PackageManager::Chocolatey];
                assert(r@ =~= managers_of(*self));
                r
            },
        }
    }
}

impl PackageManager {
    /// The shell command that installs `package_name` with this manager.
    /// The name is inserted as given, without quoting.
    pub fn install(&self, package_name: &str) -> (r: String)
        ensures
            r@ == install_command(*self, package_name@),
    {
        let verb: &str = match self {
            PackageManager::Apt => "apt-get install -y",
            PackageManager::Dnf => "dnf install -y",
            PackageManager::Yum => "yum install -y",
            PackageManager::Homebrew => "brew install",
            PackageManager::Chocolatey => "choco install",
        };
        let mut command = if self.requires_sudo() {
            String::from_str("sudo ")
        } else {
            String::new()
        };
        command.append(verb);
        command.append(" ");
        command.append(package_name);
        command
    }

    /// Whether this manager has to run with root privilege.
    pub fn requires_sudo(&self) -> (r: bool)
        ensures
            r == needs_root(*self),
    {
        match self {
            PackageManager::Apt | PackageManager::Dnf | PackageManager::Yum => true,
            PackageManager::Homebrew | PackageManager::Chocolatey => false,
        }
    }

    /// Prefixes of the registry repository names this manager installs from.
    pub fn repology_repository_prefix(&self) -> (r: &'static [&'static str])
        ensures
            r@.len() == repository_prefixes(*self).len(),
            forall|i: int| 0 <= i < r@.len() ==> (#[trigger] r@[i])@ == repository_prefixes(*self)[i],
    {
        match self {
            PackageManager::Apt => {
                let r: &'static [&'static str] = &["debian_", "ubuntu_"];
                r
            },
            PackageManager::Dnf | PackageManager::Yum => {
                let r: &'static [&'static str] = &["fedora_", "centos_"];
                r
            },
            PackageManager::Chocolatey => {
                let r: &'static [&'static str] = &["chocolatey"];
                r
            },
            PackageManager::Homebrew => {
                let r: &'static [&'static str] = &["homebrew"];
                r
            },
        }
    }
}

impl std::str::FromStr for OperatingSystem {
    type Err = String;

    fn from_str(s: &str) -> (r: Result<OperatingSystem, String>)
        ensures
            family_named(lowercase_of(s@)) is Some ==> r == Ok::<OperatingSystem, String>(
                family_named(lowercase_of(s@))->Some_0,
            ),
            family_named(lowercase_of(s@)) is None ==> r is Err && r->Err_0@
                == invalid_name_message(s@),
    {
        OperatingSystem::parse(s)
    }
}

} // verus!
