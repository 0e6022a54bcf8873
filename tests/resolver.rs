use pkg_resolver::error::ResolveError;
use pkg_resolver::operating_system::{OperatingSystem, PackageManager, Platform};
use pkg_resolver::repology::{failed_request, filter, installable, is_success, Project, RepologyClient};

fn lines(items: &[&str]) -> Vec<Option<String>> {
    items.iter().map(|s| Some(s.to_string())).collect()
}

fn project_in(repo: &str) -> Project {
    let mut p = Project::default();
    p.repo = repo.to_string();
    p.visiblename = "nginx".to_string();
    p.version = "1.24".to_string();
    p.status = "newest".to_string();
    p
}

#[test]
fn every_family_has_managers_with_prefixes() {
    for os in [
        OperatingSystem::Mac,
        OperatingSystem::Debian,
        OperatingSystem::RedHat,
        OperatingSystem::Windows,
    ] {
        let managers = os.package_managers();
        assert!(!managers.is_empty());
        for pm in managers {
            let prefixes = pm.repology_repository_prefix();
            assert!(!prefixes.is_empty());
            for (i, a) in prefixes.iter().enumerate() {
                assert!(!a.is_empty());
                for b in &prefixes[i + 1..] {
                    assert_ne!(a, b);
                }
            }
        }
    }
}

#[test]
fn managers_per_family() {
    assert_eq!(OperatingSystem::Mac.package_managers(), &[PackageManager::Homebrew]);
    assert_eq!(OperatingSystem::Debian.package_managers(), &[PackageManager::Apt]);
    assert_eq!(
        OperatingSystem::RedHat.package_managers(),
        &[PackageManager::Dnf, PackageManager::Yum]
    );
    assert_eq!(OperatingSystem::Windows.package_managers(), &[PackageManager::Chocolatey]);
}

#[test]
fn prefixes_per_manager() {
    assert_eq!(PackageManager::Apt.repology_repository_prefix(), &["debian_", "ubuntu_"]);
    assert_eq!(PackageManager::Dnf.repology_repository_prefix(), &["fedora_", "centos_"]);
    assert_eq!(PackageManager::Yum.repology_repository_prefix(), &["fedora_", "centos_"]);
    assert_eq!(PackageManager::Chocolatey.repology_repository_prefix(), &["chocolatey"]);
    assert_eq!(PackageManager::Homebrew.repology_repository_prefix(), &["homebrew"]);
}

#[test]
fn sudo_table() {
    assert!(PackageManager::Apt.requires_sudo());
    assert!(PackageManager::Dnf.requires_sudo());
    assert!(PackageManager::Yum.requires_sudo());
    assert!(!PackageManager::Homebrew.requires_sudo());
    assert!(!PackageManager::Chocolatey.requires_sudo());
}

#[test]
fn install_commands() {
    assert_eq!(PackageManager::Apt.install("nginx"), "sudo apt-get install -y nginx");
    assert_eq!(PackageManager::Homebrew.install("nginx"), "brew install nginx");
    assert_eq!(PackageManager::Dnf.install("git"), "sudo dnf install -y git");
    assert_eq!(PackageManager::Yum.install("git"), "sudo yum install -y git");
    assert_eq!(PackageManager::Chocolatey.install("git"), "choco install git");
}

#[test]
fn install_does_not_escape_the_name() {
    assert_eq!(PackageManager::Homebrew.install("a; b"), "brew install a; b");
    assert_eq!(PackageManager::Homebrew.install(""), "brew install ");
}

#[test]
fn os_release_debian() {
    let file = lines(&["NAME=Debian", "ID=debian", "VERSION=11"]);
    assert_eq!(
        OperatingSystem::detect_linux_distribution(&file),
        Some(OperatingSystem::Debian)
    );
}

#[test]
fn os_release_red_hat_family() {
    for id in ["ID=fedora", "ID=centos", "ID=rhel"] {
        let file = lines(&["NAME=x", id]);
        assert_eq!(
            OperatingSystem::detect_linux_distribution(&file),
            Some(OperatingSystem::RedHat)
        );
    }
}

#[test]
fn os_release_first_match_wins_and_unreadable_lines_are_skipped() {
    let file = vec![None, Some("ID=rhel".to_string()), Some("ID=debian".to_string())];
    assert_eq!(
        OperatingSystem::detect_linux_distribution(&file),
        Some(OperatingSystem::RedHat)
    );
}

#[test]
fn os_release_matches_whole_lines_only() {
    let file = lines(&["ID=debian-derivative", " ID=debian", "ID=\"debian\"", "ID=ubuntu"]);
    assert_eq!(OperatingSystem::detect_linux_distribution(&file), None);
    assert_eq!(OperatingSystem::detect_linux_distribution(&Vec::new()), None);
}

#[test]
fn detect_on_linux_without_match_fails() {
    let file = Some(lines(&["NAME=Arch", "ID=arch"]));
    assert!(matches!(
        OperatingSystem::detect(Platform::Linux, &file),
        Err(ResolveError::UnsupportedOperatingSystem)
    ));
    assert!(matches!(
        OperatingSystem::detect(Platform::Linux, &None),
        Err(ResolveError::UnsupportedOperatingSystem)
    ));
}

#[test]
fn detect_per_platform() {
    let file = Some(lines(&["NAME=Debian", "ID=debian", "VERSION=11"]));
    assert!(matches!(
        OperatingSystem::detect(Platform::Linux, &file),
        Ok(OperatingSystem::Debian)
    ));
    assert!(matches!(
        OperatingSystem::detect(Platform::Windows, &None),
        Ok(OperatingSystem::Windows)
    ));
    assert!(matches!(
        OperatingSystem::detect(Platform::MacOs, &None),
        Ok(OperatingSystem::Mac)
    ));
    assert!(matches!(
        OperatingSystem::detect(Platform::Other, &file),
        Err(ResolveError::UnsupportedOperatingSystem)
    ));
}

#[test]
fn parse_names_in_any_case() {
    assert_eq!(OperatingSystem::parse("MacOS"), Ok(OperatingSystem::Mac));
    assert_eq!(OperatingSystem::parse("osx"), Ok(OperatingSystem::Mac));
    assert_eq!(OperatingSystem::parse("Debian"), Ok(OperatingSystem::Debian));
    assert_eq!(OperatingSystem::parse("RHEL"), Ok(OperatingSystem::RedHat));
    assert_eq!(OperatingSystem::parse("redhat"), Ok(OperatingSystem::RedHat));
    assert_eq!(OperatingSystem::parse("WIN"), Ok(OperatingSystem::Windows));
    assert_eq!("windows".parse::<OperatingSystem>(), Ok(OperatingSystem::Windows));
}

#[test]
fn parse_rejects_unknown_names() {
    assert_eq!(
        OperatingSystem::parse("BeOS"),
        Err("Invalid operating system: 'BeOS'".to_string())
    );
    assert_eq!(
        OperatingSystem::from_lowercase_name("Debian"),
        None
    );
    assert_eq!(
        OperatingSystem::from_lowercase_name("debian"),
        Some(OperatingSystem::Debian)
    );
}

#[test]
fn filter_keeps_only_installable_in_order() {
    let projects = vec![
        project_in("debian_stable"),
        project_in("homebrew"),
        project_in("chocolatey"),
    ];
    let kept = filter(projects, &[PackageManager::Apt]);
    assert_eq!(kept.len(), 1);
    assert_eq!(kept[0].repo, "debian_stable");
}

#[test]
fn filter_with_several_managers() {
    let projects = vec![
        project_in("arch"),
        project_in("centos_8"),
        project_in("debian_12"),
        project_in("fedora_40"),
        project_in("ubuntu_24_04"),
    ];
    let kept = filter(projects, OperatingSystem::RedHat.package_managers());
    let repos: Vec<&str> = kept.iter().map(|p| p.repo.as_str()).collect();
    assert_eq!(repos, vec!["centos_8", "fedora_40"]);
    assert!(filter(Vec::new(), &[PackageManager::Apt]).is_empty());
    assert!(filter(vec![project_in("debian_12")], &[]).is_empty());
}

#[test]
fn installable_by_prefix() {
    assert!(installable("ubuntu_22_04", &[PackageManager::Apt]));
    assert!(installable("homebrew_casks", &[PackageManager::Homebrew]));
    assert!(!installable("debian", &[PackageManager::Apt]));
    assert!(!installable("homebrew", &[PackageManager::Chocolatey]));
}

#[test]
fn not_found_is_a_failed_request() {
    assert!(!is_success(404));
    match failed_request(404, Some("not found".to_string())) {
        ResolveError::FailedRequest { status_code, message } => {
            assert_eq!(status_code, 404);
            assert_eq!(message, "not found");
        }
        other => panic!("unexpected {:?}", other),
    }
}

#[test]
fn unreadable_body_gives_empty_message() {
    match failed_request(500, None) {
        ResolveError::FailedRequest { status_code, message } => {
            assert_eq!(status_code, 500);
            assert_eq!(message, "");
        }
        other => panic!("unexpected {:?}", other),
    }
}

#[test]
fn success_range() {
    assert!(is_success(200));
    assert!(is_success(299));
    assert!(!is_success(199));
    assert!(!is_success(300));
    assert!(!is_success(404));
}

#[test]
fn client_addresses() {
    let client = RepologyClient::new().unwrap();
    assert_eq!(
        client.project_address("nginx"),
        "https://repology.org/api/v1/project/nginx"
    );
    assert_eq!(client.user_agent(), "vrmiguel");
    let url = client.project_url("nginx").unwrap();
    assert_eq!(url.as_str(), "https://repology.org/api/v1/project/nginx");
}

#[test]
fn project_equality() {
    let a = project_in("debian_12");
    let b = project_in("debian_12");
    assert!(a == b);
    let mut c = project_in("debian_12");
    c.licenses.push("BSD".to_string());
    assert!(a != c);
    let mut d = project_in("debian_12");
    d.summary = Some("web server".to_string());
    assert!(a != d);
    let mut e = project_in("debian_12");
    e.vulnerable = Some(false);
    assert!(a != e);
    assert!(Project::default() == Project::default());
}

#[test]
fn client_agent_is_configurable() {
    let client = RepologyClient::new().unwrap().with_user_agent("pkg-finder/1.0");
    assert_eq!(client.user_agent(), "pkg-finder/1.0");
    assert_eq!(
        client.project_address("git"),
        "https://repology.org/api/v1/project/git"
    );
}

#[test]
fn from_str_matches_any_case_and_rejects_unknown() {
    assert_eq!("MacOS".parse::<OperatingSystem>(), Ok(OperatingSystem::Mac));
    assert_eq!("RHEL".parse::<OperatingSystem>(), Ok(OperatingSystem::RedHat));
    assert_eq!("Win".parse::<OperatingSystem>(), Ok(OperatingSystem::Windows));
    assert_eq!(
        "Linux".parse::<OperatingSystem>(),
        Err("Invalid operating system: 'Linux'".to_string())
    );
}
