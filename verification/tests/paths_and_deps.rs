use reims_vgpu_gui::model::watched_paths;
use reims_vgpu_gui::deps::{dependency_commands, distro_id, package_for, Dependencies};
use reims_vgpu_gui::paths::{
    download_root, join_path, macos_download_path, osx_kvm_installed, osx_kvm_marker,
    osx_kvm_path, reims_vgpu_installed, reims_vgpu_marker, reims_vgpu_path, repo_dir, Disk,
};
use reims_vgpu_gui::command::Output;

#[test]
fn download_root_follows_home() {
    assert_eq!(download_root(Some("/home/ann")), "/home/ann/reims-gui-downloads");
    assert_eq!(download_root(Some("/home/ann/")), "/home/ann/reims-gui-downloads");
    assert_eq!(download_root(Some("/")), "/reims-gui-downloads");
    assert_eq!(download_root(Some("")), "reims-gui-downloads");
    assert_eq!(download_root(None), ".");
}

#[test]
fn joins_like_path_buf() {
    assert_eq!(join_path("a", "b"), "a/b");
    assert_eq!(join_path("a/", "b"), "a/b");
    assert_eq!(join_path("a", "/b"), "/b");
    assert_eq!(join_path("", "b"), "b");
    assert_eq!(join_path("a", ""), "a/");
}

#[test]
fn paths_under_the_root() {
    let root = "/home/ann/reims-gui-downloads";
    assert_eq!(macos_download_path(root, "macOS 13 Ventura"), "/home/ann/reims-gui-downloads/macos/macOS 13 Ventura");
    assert_eq!(osx_kvm_path(root), "/home/ann/reims-gui-downloads/OSX-KVM");
    assert_eq!(reims_vgpu_path(root), "/home/ann/reims-gui-downloads/reims-vgpu");
    assert_eq!(osx_kvm_marker(root), "/home/ann/reims-gui-downloads/OSX-KVM/fetch-macOS-v2.py");
    assert_eq!(reims_vgpu_marker(root), "/home/ann/reims-gui-downloads/reims-vgpu/vm/boot-x86.sh");
    assert_eq!(repo_dir(Some("/opt/reims"), root), "/opt/reims");
    assert_eq!(repo_dir(None, root), "/home/ann/reims-gui-downloads/reims-vgpu");
}

#[test]
fn installed_means_the_marker_is_a_file() {
    let root = "/r";
    let mut disk = Disk::new();
    assert!(!osx_kvm_installed(root, &disk));
    disk.add_other("/r/OSX-KVM/fetch-macOS-v2.py".to_string());
    assert!(!osx_kvm_installed(root, &disk));
    disk.add_file("/r/OSX-KVM/fetch-macOS-v2.py".to_string());
    assert!(osx_kvm_installed(root, &disk));
    assert!(!reims_vgpu_installed(root, &disk));
    disk.add_file("/r/reims-vgpu/vm/boot-x86.sh".to_string());
    assert!(reims_vgpu_installed(root, &disk));
}

#[test]
fn packages_per_distribution() {
    assert_eq!(package_for("arch", "cargo"), Some(vec!["rust"]));
    assert_eq!(package_for("manjaro", "gcc"), Some(vec!["base-devel"]));
    assert_eq!(package_for("ubuntu", "cargo"), Some(vec!["cargo", "rustc"]));
    assert_eq!(package_for("pop", "ninja"), Some(vec!["ninja-build"]));
    assert_eq!(package_for("fedora", "gcc"), Some(vec!["gcc", "gcc-c++"]));
    assert_eq!(package_for("fedora", "pkg-config"), Some(vec!["pkgconf-pkg-config"]));
    assert_eq!(package_for("gentoo", "git"), None);
    assert_eq!(package_for("debian", "vim"), None);
    assert_eq!(package_for("Debian", "git"), None);
}

#[test]
fn distro_id_reads_the_id_line() {
    assert_eq!(distro_id("NAME=\"Ubuntu\"\nID=ubuntu\nID_LIKE=debian\n"), Some("ubuntu".to_string()));
    assert_eq!(distro_id("ID=\"Fedora\"\nID=arch\n"), Some("fedora".to_string()));
    assert_eq!(distro_id("ID_LIKE=arch\nVERSION_ID=1\n"), None);
    assert_eq!(distro_id(""), None);
    assert_eq!(distro_id("  ID=arch\n"), None);
}

fn found(missing: &[&str]) -> Vec<bool> {
    dependency_commands().iter().map(|c| !missing.contains(c)).collect()
}

#[test]
fn dependency_check_counts_missing_tools() {
    let mut d = Dependencies::new();
    assert_eq!(d.task.status, "Not checked");
    d.check_dependencies(&found(&[]));
    assert!(d.checked);
    assert_eq!(d.checks.len(), 11);
    assert_eq!(d.task.status, "All required tools are installed.");
    d.check_dependencies(&found(&["git", "meson"]));
    assert_eq!(d.task.status, "2 required tools are missing.");
    assert_eq!(d.checks[0].name, "Git");
    assert_eq!(d.checks[0].details, "Missing");
    assert_eq!(d.checks[1].details, "Installed");
    assert_eq!(d.checks[10].name, "C compiler");
    assert_eq!(d.checks[10].command, "gcc");
}

#[test]
fn installer_merges_packages() {
    let mut d = Dependencies::new();
    let job = d
        .install_missing_dependencies(&found(&["make", "gcc", "cargo"]), Some("ID=debian\n"), false, true)
        .expect("an installer");
    assert_eq!(d.task.status, "Installing 3 packages...");
    let c = job.spawn.as_ref().unwrap();
    assert_eq!(c.program, "sudo");
    assert_eq!(
        c.args,
        vec!["-n", "apt-get", "install", "-y", "cargo", "rustc", "build-essential"]
    );
    assert!(matches!(c.output, Output::Discard));
    assert!(job.steps.is_empty());
    assert_eq!(job.on_spawn_error, "Could not start dependency installer: ");
}

#[test]
fn installer_with_one_package_and_pkexec() {
    let mut d = Dependencies::new();
    let job = d
        .install_missing_dependencies(&found(&["git"]), Some("ID=arch"), true, true)
        .expect("an installer");
    assert_eq!(d.task.status, "Installing 1 package...");
    let c = job.spawn.as_ref().unwrap();
    assert_eq!(c.program, "pkexec");
    assert_eq!(c.args, vec!["pacman", "-S", "--needed", "git"]);
}

#[test]
fn installer_refusals() {
    let mut d = Dependencies::new();
    assert!(d.install_missing_dependencies(&found(&[]), Some("ID=arch"), true, true).is_none());
    assert_eq!(d.task.status, "All required tools are already installed.");

    let mut d = Dependencies::new();
    assert!(d.install_missing_dependencies(&found(&["git"]), None, true, true).is_none());
    assert_eq!(d.task.status, "Could not detect the Linux distribution.");

    let mut d = Dependencies::new();
    assert!(d.install_missing_dependencies(&found(&["git"]), Some("ID=gentoo\n"), true, true).is_none());
    assert_eq!(d.task.status, "No automatic package mapping is available for git on gentoo.");

    let mut d = Dependencies::new();
    assert!(d.install_missing_dependencies(&found(&["git"]), Some("ID=fedora\n"), false, false).is_none());
    assert_eq!(
        d.task.status,
        "Neither pkexec nor sudo is available. Install the missing tools manually."
    );
}

#[test]
fn an_earlier_check_is_reused() {
    let mut d = Dependencies::new();
    d.check_dependencies(&found(&["curl"]));
    // the fresh answers are ignored once a check was made
    let job = d.install_missing_dependencies(&[], Some("ID=fedora"), true, false).expect("an installer");
    assert_eq!(job.spawn.unwrap().args, vec!["dnf", "install", "-y", "curl"]);
}


#[test]
fn watched_paths_cover_each_decision() {
    let w = watched_paths("/r", "/repo", "macOS 14 Sonoma", "macos-13");
    assert_eq!(w.len(), 22 + 2 + 6);
    assert_eq!(w[0], "/r/OSX-KVM");
    assert_eq!(w[5], "/r/OSX-KVM/mac_hdd_ng.img");
    assert_eq!(w[12], "/r/macos/macOS 14 Sonoma/BaseSystem.dmg");
    assert_eq!(w[18], "/repo");
    assert_eq!(w[21], "/repo/vm/disks/rails/macos-13/snapshots/current");
    assert_eq!(w[22], "/repo/vm/disks/rails/macos-14/snapshots/base");
    assert_eq!(w[23], "/repo/vm/disks/rails/macos-14/snapshots/current");
    assert_eq!(w[29], "/repo/vm/disks/rails/macos-26/snapshots/current");
    let unknown = watched_paths("/r", "/repo", "Windows", "macos-13");
    assert_eq!(unknown.len(), 22 + 6);
}
