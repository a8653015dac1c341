use reims_vgpu_gui::assets::{decode_texture, ImageLoadError};
use reims_vgpu_gui::catalog::device_name;
use reims_vgpu_gui::command::{Output, Poll, Report, RunResult, Task};
use reims_vgpu_gui::paths::Disk;
use reims_vgpu_gui::system::SystemChecks;
use reims_vgpu_gui::updates::{short_commit, Updates};
use reims_vgpu_gui::vm::{build_qemu, download_repo, get_installed_rails, is_built, update_build, update_repo, Vm};

const ROOT: &str = "/h/reims-gui-downloads";

fn disk_with(paths: &[&str]) -> Disk {
    let mut d = Disk::new();
    for p in paths {
        d.add_other(p.to_string());
    }
    d
}

fn exited(success: bool) -> Poll {
    Poll::Exited { success, code: Some(if success { 0 } else { 1 }), description: "exit status: 1".to_string() }
}

#[test]
fn repository_download() {
    let mut t = Task::new("Not downloaded");
    assert!(download_repo(&mut t, ROOT, &disk_with(&["/h/reims-gui-downloads/reims-vgpu"])).is_none());
    assert_eq!(t.status, "Repository already exists: /h/reims-gui-downloads/reims-vgpu");
    let job = download_repo(&mut t, ROOT, &Disk::new()).expect("a job");
    // the parent directory is the download root
    assert!(matches!(&job.steps[0].action, reims_vgpu_gui::command::Action::CreateDirAll(p) if p == ROOT));
    let c = job.spawn.as_ref().unwrap();
    assert_eq!(c.args, vec!["clone", "https://github.com/steelbrain/reims-vgpu.git", "/h/reims-gui-downloads/reims-vgpu"]);
    t.apply_report(&job, Report::SpawnFailed("no git".to_string()));
    assert_eq!(t.status, "Could not start git: no git");
    t.apply_report(&job, Report::Spawned);
    assert_eq!(t.status, "Downloading reims-vGPU repository...");
    assert!(update_repo(&mut t, Poll::Running));
    assert!(!update_repo(&mut t, exited(true)));
    assert_eq!(t.status, "Repository downloaded!");
    t.running = true;
    update_repo(&mut t, Poll::Failed("lost".to_string()));
    assert_eq!(t.status, "Failed to check git process: lost");
}

#[test]
fn qemu_build() {
    let repo = "/h/reims-gui-downloads/reims-vgpu";
    let script = "/h/reims-gui-downloads/reims-vgpu/scripts/qemu-build/qemu-build.sh";
    let mut t = Task::new("Not built");
    assert!(build_qemu(&mut t, ROOT, &Disk::new()).is_none());
    assert_eq!(t.status, "reims-vGPU repository not found: /h/reims-gui-downloads/reims-vgpu");
    assert!(build_qemu(&mut t, ROOT, &disk_with(&[repo])).is_none());
    assert_eq!(t.status, "QEMU build script not found: /h/reims-gui-downloads/reims-vgpu/scripts/qemu-build/qemu-build.sh");
    let job = build_qemu(&mut t, ROOT, &disk_with(&[repo, script])).expect("a job");
    let c = job.spawn.as_ref().unwrap();
    assert_eq!(c.args, vec![script, "--target", "x86_64", "--backend", "vulkan"]);
    assert_eq!(c.cwd.as_deref(), Some(repo));
    t.apply_report(&job, Report::Spawned);
    assert!(!is_built(&t));
    update_build(&mut t, exited(true), ROOT, &Disk::new());
    assert_eq!(t.status, "Build finished but QEMU binary was not found.");
    t.running = true;
    update_build(&mut t, exited(true), ROOT, &disk_with(&["/h/reims-gui-downloads/reims-vgpu/vendor/qemu/build/qemu-system-x86_64"]));
    assert_eq!(t.status, "Built successfully.");
    assert!(is_built(&t));
    t.running = true;
    update_build(&mut t, exited(false), ROOT, &Disk::new());
    assert_eq!(t.status, "QEMU build failed.");
}

#[test]
fn vm_launch_checks_and_command() {
    let repo = "/r";
    let mut vm = Vm::new();
    assert!(vm.launch_vm(repo, &Disk::new()).is_none());
    assert_eq!(vm.task.status, "reims-vGPU repository not found.");
    assert!(vm.launch_vm(repo, &disk_with(&[repo])).is_none());
    assert_eq!(vm.task.status, "vm/boot-x86.sh not found.");
    let ready = ["/r", "/r/vm/boot-x86.sh", "/r/vm/disks/rails/macos-13/snapshots/current"];
    assert!(vm.launch_vm(repo, &disk_with(&ready[..2])).is_none());
    assert_eq!(vm.task.status, "Rail macos-13 has not been imported yet.");
    assert!(vm.launch_vm(repo, &disk_with(&ready)).is_none());
    assert_eq!(vm.task.status, "QEMU is not built. Build QEMU first.");
    vm.device = "vmware-svga".to_string();
    let job = vm.launch_vm(repo, &disk_with(&ready)).expect("a job");
    assert_eq!(vm.task.status, "Starting macos-13 with VMware SVGA...");
    let c = job.spawn.as_ref().unwrap();
    assert_eq!(c.program, "bash");
    assert_eq!(c.args, vec!["vm/boot-x86.sh", "--interactive", "--device", "vmware-svga", "--rail", "macos-13"]);
    assert_eq!(c.env, vec![("REIMS_VGPU_BACKEND".to_string(), "vulkan".to_string())]);
    assert!(matches!(c.output, Output::Inherit));
    vm.task.apply_report(&job, Report::Spawned);
    assert_eq!(vm.task.status, "macos-13 started with VMware SVGA.");
    assert!(vm.launch_vm(repo, &disk_with(&ready)).is_none());
    assert!(vm.update_vm(Poll::Running));
    vm.update_vm(Poll::Exited { success: false, code: None, description: "signal: 9 (SIGKILL)".to_string() });
    assert_eq!(vm.task.status, "VM exited with status signal: 9 (SIGKILL).");
    vm.task.running = true;
    vm.stop_vm(Ok(()));
    assert_eq!(vm.task.status, "VM stopped.");
    assert!(!vm.task.running);
    vm.stop_vm(Err("nope".to_string()));
    assert_eq!(vm.task.status, "VM stopped.");
}

#[test]
fn installed_rails_and_selection() {
    let disk = disk_with(&["/r/vm/disks/rails/macos-14/snapshots/current", "/r/vm/disks/rails/macos-26/snapshots/current"]);
    let rails = get_installed_rails("/r", &disk);
    assert_eq!(
        rails,
        vec![
            ("macos-14".to_string(), "macOS 14 Sonoma".to_string()),
            ("macos-26".to_string(), "macOS 26 Tahoe".to_string()),
        ]
    );
    let mut vm = Vm::new();
    vm.choose_rail(&rails);
    assert_eq!(vm.rail, "macos-14");
    vm.rail = "macos-26".to_string();
    vm.choose_rail(&rails);
    assert_eq!(vm.rail, "macos-26");
    vm.rail = "macos-11".to_string();
    vm.choose_rail(&Vec::new());
    assert_eq!(vm.rail, "macos-11");
    assert_eq!(device_name("reims-vgpu-pci"), "reims-vGPU");
    assert_eq!(device_name("other"), "Unknown");
}

#[test]
fn system_check() {
    let mut s = SystemChecks::new();
    s.check_system("linux", "x86_64", false, Some("  NVIDIA GeForce RTX 3080\n"));
    assert!(s.checked);
    assert_eq!(s.checks.len(), 4);
    assert_eq!(s.checks[0].details, "Detected");
    assert_eq!(s.checks[2].details, "/dev/kvm not found");
    assert_eq!(s.checks[3].details, "NVIDIA GeForce RTX 3080");
    assert_eq!(s.passed_count(), 3);
    assert_eq!(s.summary(), "3 / 4 checks passed");
    s.check_system("macos", "aarch64", true, None);
    assert_eq!(s.checks[0].details, "Not Linux");
    assert_eq!(s.checks[1].details, "aarch64");
    assert!(!s.checks[1].status);
    assert_eq!(s.checks[3].details, "nvidia-smi unavailable");
    assert_eq!(s.summary(), "1 / 4 checks passed");
}

#[test]
fn gui_update_check() {
    let mut u = Updates::new();
    let c = u.check_updates().expect("a command");
    assert_eq!(c.args, vec!["ls-remote", "--tags", "--refs", "https://github.com/Sealsosealy/reims-vgpu-gui.git"]);
    assert!(matches!(c.output, Output::CaptureStdout));
    assert_eq!(u.gui_status, "Checking for GUI updates...");
    u.gui_check_started(Ok(()));
    assert!(u.check_updates().is_none());
    let out = "a\trefs/tags/v0.1.0\nb\trefs/tags/v0.3.0\n";
    assert!(u.update_gui_check(Poll::Running, "", "0.2.0"));
    u.update_gui_check(Poll::Exited { success: true, code: Some(0), description: String::new() }, out, "0.2.0");
    assert!(u.gui_available);
    assert_eq!(u.gui_latest, "v0.3.0");
    assert_eq!(u.gui_status, "Update available: v0.3.0");

    let mut u = Updates::new();
    u.check_updates();
    u.gui_check_started(Ok(()));
    u.update_gui_check(Poll::Exited { success: true, code: Some(0), description: String::new() }, out, "0.3.0");
    assert!(!u.gui_available);
    assert_eq!(u.gui_status, "GUI is up to date (0.3.0)");

    let mut u = Updates::new();
    u.check_updates();
    u.gui_check_started(Ok(()));
    u.update_gui_check(Poll::Exited { success: true, code: Some(0), description: String::new() }, "", "0.3.0");
    assert_eq!(u.gui_status, "No stable GUI release tags were found.");

    let mut u = Updates::new();
    u.check_updates();
    u.gui_check_started(Err("no git".to_string()));
    assert_eq!(u.gui_status, "Could not check GUI updates: no git");
    assert!(!u.gui_checking);
}

#[test]
fn reims_update_check() {
    let mut u = Updates::new();
    u.check_updates();
    assert!(u.reims_check_plan(ROOT, &Disk::new()).is_none());
    assert_eq!(u.reims_status, "reims-vGPU repository is not a Git checkout.");
    let c = u.reims_check_plan(ROOT, &disk_with(&["/h/reims-gui-downloads/reims-vgpu/.git"])).expect("a command");
    assert_eq!(c.args, vec!["-C", "/h/reims-gui-downloads/reims-vgpu", "rev-parse", "HEAD"]);
    let next = u.local_commit_read(RunResult::Ran { success: true, stdout: "abc123\n".to_string(), stderr: String::new() });
    assert_eq!(u.reims_local, "abc123");
    assert_eq!(next.args, vec!["ls-remote", "https://github.com/steelbrain/reims-vgpu.git", "refs/heads/master"]);
    u.reims_check_started(Ok(()));
    u.update_reims_check(Poll::Exited { success: true, code: Some(0), description: String::new() }, "abc123\trefs/heads/master\n");
    assert!(!u.reims_available);
    assert_eq!(u.reims_status, "reims-vGPU is up to date.");
    u.reims_checking = true;
    u.update_reims_check(Poll::Exited { success: true, code: Some(0), description: String::new() }, "def456\trefs/heads/master\n");
    assert!(u.reims_available);
    assert_eq!(u.reims_remote, "def456");
    assert_eq!(u.reims_status, "A newer reims-vGPU commit is available.");
    u.local_commit_read(RunResult::Ran { success: false, stdout: String::new(), stderr: " fatal: bad \n".to_string() });
    assert_eq!(u.reims_status, "Could not read local reims-vGPU commit: fatal: bad");
    u.reims_checking = true;
    u.update_reims_check(Poll::Exited { success: true, code: Some(0), description: String::new() }, "  ");
    assert_eq!(u.reims_status, "The upstream reims-vGPU commit could not be read.");
}

#[test]
fn gui_self_update() {
    let mut u = Updates::new();
    assert!(u.install_gui_update(true, Ok("/usr/bin/gui")).is_none());
    assert_eq!(u.gui_status, "Self-update is disabled in debug builds. Build a release binary first.");
    assert!(u.install_gui_update(false, Ok("/usr/bin/gui")).is_none());
    assert_eq!(u.gui_status, "No GUI update is available.");
    u.gui_available = true;
    u.gui_latest = "v0.3.0".to_string();
    assert!(u.install_gui_update(false, Err("gone")).is_none());
    assert_eq!(u.gui_status, "Could not find the running GUI: gone");
    let job = u.install_gui_update(false, Ok("/opt/gui/reims-vgpu-gui")).expect("a job");
    let c = job.spawn.as_ref().unwrap();
    assert_eq!(c.program, "sh");
    assert_eq!(c.args[3], "https://github.com/Sealsosealy/reims-vgpu-gui/releases/download/v0.3.0/reims-vgpu-gui");
    assert_eq!(c.args[4], "/opt/gui/reims-vgpu-gui.update");
    assert_eq!(c.args[5], "/opt/gui/reims-vgpu-gui");
    u.gui_install_reported(&job, Report::Spawned);
    assert_eq!(u.gui_status, "Downloading GUI v0.3.0...");
    u.update_gui_install(Poll::Exited { success: true, code: Some(0), description: String::new() });
    assert!(!u.gui_available);
    assert_eq!(u.gui_status, "Update installed. Restart the GUI to use the new version.");
    // with_extension replaces an extension
    u.gui_available = true;
    let job = u.install_gui_update(false, Ok("/opt/gui/app.bin")).expect("a job");
    assert_eq!(job.spawn.unwrap().args[4], "/opt/gui/app.update");
}

#[test]
fn reims_update() {
    let mut u = Updates::new();
    assert!(u.update_reims_vgpu(ROOT).is_none());
    assert_eq!(u.reims_status, "No reims-vGPU update is available.");
    u.reims_available = true;
    let job = u.update_reims_vgpu(ROOT).expect("a job");
    assert_eq!(job.spawn.as_ref().unwrap().args, vec!["-C", "/h/reims-gui-downloads/reims-vgpu", "pull", "--ff-only", "https://github.com/steelbrain/reims-vgpu.git", "master"]);
    u.reims_update_reported(&job, Report::Spawned);
    assert_eq!(u.reims_status, "Updating reims-vGPU with a fast-forward-only pull...");
    u.update_reims_install(Poll::Exited { success: false, code: Some(1), description: String::new() });
    assert_eq!(u.reims_status, "reims-vGPU update failed. Local changes may prevent a fast-forward.");
    assert!(u.reims_available);
}

#[test]
fn short_commits() {
    assert_eq!(short_commit("0123456789abcdef0123"), "0123456789ab");
    assert_eq!(short_commit("abc"), "abc");
    assert_eq!(short_commit(""), "");
    // 11 ASCII bytes then a two-byte character: only whole characters are kept
    assert_eq!(short_commit("0123456789aé"), "0123456789a");
}

#[test]
fn textures_from_png() {
    let mut picture = image::RgbaImage::new(2, 1);
    picture.put_pixel(0, 0, image::Rgba([1, 2, 3, 4]));
    picture.put_pixel(1, 0, image::Rgba([5, 6, 7, 8]));
    let mut bytes: Vec<u8> = Vec::new();
    picture
        .write_to(&mut std::io::Cursor::new(&mut bytes), image::ImageFormat::Png)
        .expect("encode");
    let t = decode_texture(&bytes).ok().expect("a texture");
    assert_eq!((t.width, t.height), (2, 1));
    assert_eq!(t.rgba, vec![1, 2, 3, 4, 5, 6, 7, 8]);
    assert!(matches!(decode_texture(b"not an image"), Err(ImageLoadError::Decode(_))));
}
