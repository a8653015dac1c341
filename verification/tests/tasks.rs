use reims_vgpu_gui::command::{
    describe_code, step_failure_status, Action, Job, Output, Poll, Report, RunResult, StepError,
    Task,
};
use reims_vgpu_gui::download::{log_product, Download};
use reims_vgpu_gui::install::{
    download_osx_kvm, import_macos, run_macos_installer, update_import, update_installer,
    update_osx_kvm, VirtualDisk,
};
use reims_vgpu_gui::model::AppModel;
use reims_vgpu_gui::paths::Disk;

const ROOT: &str = "/h/reims-gui-downloads";

fn disk_with(paths: &[&str]) -> Disk {
    let mut d = Disk::new();
    for p in paths {
        d.add_other(p.to_string());
    }
    d
}

fn exited(success: bool) -> Poll {
    Poll::Exited { success, code: Some(if success { 0 } else { 1 }), description: "exit status: 1".to_string() }
}

#[test]
fn the_model_starts_idle() {
    let m = AppModel::default();
    assert_eq!(m.macos_version, "macOS 13 Ventura");
    assert_eq!(m.download.task.status, "Ready");
    assert_eq!(m.disk.size_gb, 64);
    assert_eq!(m.disk.status, "Not created");
    assert_eq!(m.repo.status, "Not downloaded");
    assert_eq!(m.osx_kvm.status, "Not downloaded");
    assert_eq!(m.import.status, "Not imported");
    assert_eq!(m.build.status, "Not built");
    assert_eq!(m.vm.rail, "macos-13");
    assert_eq!(m.vm.device, "reims-vgpu-pci");
    assert_eq!(m.deps.task.status, "Not checked");
    assert_eq!(m.updates.gui_status, "Not checked");
    assert!(!m.installer.running && !m.vm.task.running);
}

#[test]
fn step_failures_name_the_error() {
    let job = Job {
        steps: vec![
            reims_vgpu_gui::command::step(Action::CreateDirAll("/x".to_string()), "Could not create: ", ""),
            reims_vgpu_gui::command::step(
                Action::Run(reims_vgpu_gui::command::CommandSpec::new("dmg2img")),
                "Could not run dmg2img: ",
                "dmg2img failed: ",
            ),
        ],
        spawn: None,
        on_done: Some("done".to_string()),
        on_spawn_error: String::new(),
    };
    assert_eq!(step_failure_status(&job.steps[0], &StepError::Error("denied".to_string())), "Could not create: denied");
    assert_eq!(step_failure_status(&job.steps[1], &StepError::Failure("  bad image\n".to_string())), "dmg2img failed: bad image");
    let mut t = Task::new("Ready");
    t.apply_report(&job, Report::StepFailed(1, StepError::Error("not found".to_string())));
    assert_eq!(t.status, "Could not run dmg2img: not found");
    assert!(!t.running);
    t.apply_report(&job, Report::Finished);
    assert_eq!(t.status, "done");
}

#[test]
fn exit_codes_are_described_like_debug() {
    assert_eq!(describe_code(Some(3)), "Some(3)");
    assert_eq!(describe_code(Some(-1)), "Some(-1)");
    assert_eq!(describe_code(None), "None");
}

#[test]
fn download_needs_the_fetch_script_and_a_known_version() {
    let mut d = Download::new();
    assert!(d.download_macos(ROOT, "macOS 13 Ventura", &Disk::new()).is_none());
    assert_eq!(d.task.status, "fetch-macOS-v2.py not found: /h/reims-gui-downloads/OSX-KVM/fetch-macOS-v2.py");
    let disk = disk_with(&["/h/reims-gui-downloads/OSX-KVM/fetch-macOS-v2.py"]);
    assert!(d.download_macos(ROOT, "macOS 9", &disk).is_none());
    assert_eq!(d.task.status, "Unknown macOS version.");
}

#[test]
fn download_job_runs_the_fetch_script() {
    let mut d = Download::new();
    let disk = disk_with(&["/h/reims-gui-downloads/OSX-KVM/fetch-macOS-v2.py"]);
    let job = d.download_macos(ROOT, "macOS 14 Sonoma", &disk).expect("a job");
    let out = "/h/reims-gui-downloads/macos/macOS 14 Sonoma";
    let log = "/h/reims-gui-downloads/macos/macOS 14 Sonoma/download.log";
    assert!(matches!(&job.steps[0].action, Action::CreateDirAll(p) if p == out));
    assert!(matches!(&job.steps[1].action, Action::CreateLog(p) if p == log));
    let c = job.spawn.as_ref().unwrap();
    assert_eq!(c.program, "python3");
    assert_eq!(
        c.args,
        vec![
            "/h/reims-gui-downloads/OSX-KVM/fetch-macOS-v2.py",
            "--action",
            "download",
            "--board-id",
            "Mac-827FAC58A8FDFA22",
            "--mlb",
            "00000000000000000",
            "--os-type",
            "default",
            "--outdir",
            out,
        ]
    );
    assert!(matches!(&c.output, Output::Log(p) if p == log));
    d.product = "old".to_string();
    d.download_reported(&job, Report::Spawned);
    assert!(d.task.running);
    assert_eq!(d.task.status, "Downloading macOS 14 Sonoma...");
    assert_eq!(d.product, "");
    assert_eq!(d.log_path.as_deref(), Some(log));
    // a second download is not started while one runs
    assert!(d.download_macos(ROOT, "macOS 14 Sonoma", &disk).is_none());
}

#[test]
fn download_progress_follows_the_log() {
    assert_eq!(log_product("Downloading 012-34567...\nfoo\n  Downloading 041-88800.  \n"), Some("041-88800".to_string()));
    assert_eq!(log_product("Downloading ...\n"), None);
    let mut d = Download::new();
    d.task.running = true;
    d.log_path = Some("/log".to_string());
    let repaint = d.update_download("macOS 13 Ventura", Some("Downloading 041-88800.\n"), Poll::Running);
    assert!(repaint);
    assert_eq!(d.product, "041-88800");
    assert_eq!(d.task.status, "Downloading macOS 13 Ventura — Apple recovery 041-88800...");
    d.update_download("macOS 13 Ventura", None, exited(true));
    assert!(!d.task.running);
    assert_eq!(d.task.status, "Download complete — Apple recovery 041-88800.");
}

#[test]
fn download_endings() {
    let mut d = Download::new();
    d.task.running = true;
    d.update_download("v", None, exited(true));
    assert_eq!(d.task.status, "Download complete!");
    d.task.running = true;
    d.update_download("v", None, exited(false));
    assert_eq!(d.task.status, "Download failed.");
    d.task.running = true;
    d.update_download("v", None, Poll::Failed("gone".to_string()));
    assert_eq!(d.task.status, "Failed to check download process: gone");
    // nothing happens once it stopped
    assert!(!d.update_download("v", None, Poll::Running));
}

#[test]
fn virtual_disk_is_created_with_qemu_img() {
    let mut v = VirtualDisk::new();
    v.size_gb = 96;
    assert!(v.create_virtual_disk(false, ROOT, &Disk::new()).is_none());
    assert_eq!(v.status, "Could not determine home directory.");
    let job = v.create_virtual_disk(true, ROOT, &Disk::new()).expect("a job");
    assert_eq!(job.steps.len(), 2);
    match &job.steps[1].action {
        Action::Run(c) => {
            assert_eq!(c.program, "qemu-img");
            assert_eq!(c.args, vec!["create", "-f", "qcow2", "/h/reims-gui-downloads/OSX-KVM/mac_hdd_ng.img", "96G"]);
        },
        _ => panic!("expected qemu-img"),
    }
    v.disk_reported(&job, Report::StepFailed(1, StepError::Failure("no space\n".to_string())));
    assert_eq!(v.status, "Failed to create virtual disk: no space");
    assert!(!v.created);
    v.disk_reported(&job, Report::Finished);
    assert_eq!(v.status, "Virtual disk created: 96 GB");
    assert!(v.created);
    assert!(v.create_virtual_disk(true, ROOT, &Disk::new()).is_none());
}

#[test]
fn an_existing_disk_is_kept() {
    let mut v = VirtualDisk::new();
    let disk = disk_with(&["/h/reims-gui-downloads/OSX-KVM/mac_hdd_ng.img"]);
    let job = v.create_virtual_disk(true, ROOT, &disk).expect("a job");
    assert_eq!(job.steps.len(), 1);
    v.disk_reported(&job, Report::Finished);
    assert_eq!(v.status, "Virtual disk already exists: /h/reims-gui-downloads/OSX-KVM/mac_hdd_ng.img");
    assert!(v.created);
}

#[test]
fn installer_checks_its_files_in_order() {
    let osx = "/h/reims-gui-downloads/OSX-KVM";
    let dmg = "/h/reims-gui-downloads/macos/macOS 13 Ventura/BaseSystem.dmg";
    let boot = "/h/reims-gui-downloads/OSX-KVM/OpenCore-Boot.sh";
    let hdd = "/h/reims-gui-downloads/OSX-KVM/mac_hdd_ng.img";
    let v = "macOS 13 Ventura";
    let mut t = Task::new("Ready");
    let mut created = true;
    assert!(run_macos_installer(&mut t, &mut created, true, ROOT, v, &disk_with(&[])).is_none());
    assert_eq!(t.status, "OSX-KVM is not installed. Download it first.");
    assert!(run_macos_installer(&mut t, &mut created, true, ROOT, v, &disk_with(&[osx])).is_none());
    assert_eq!(t.status, "BaseSystem.dmg has not been downloaded for macOS 13 Ventura.");
    assert!(run_macos_installer(&mut t, &mut created, true, ROOT, v, &disk_with(&[osx, dmg])).is_none());
    assert_eq!(t.status, "OpenCore-Boot.sh not found: /h/reims-gui-downloads/OSX-KVM/OpenCore-Boot.sh");
    assert!(created);
    assert!(run_macos_installer(&mut t, &mut created, true, ROOT, v, &disk_with(&[osx, dmg, boot])).is_none());
    assert_eq!(t.status, "mac_hdd_ng.img does not exist. Create the macOS disk first.");
    assert!(!created);
    let job = run_macos_installer(&mut t, &mut created, true, ROOT, v, &disk_with(&[osx, dmg, boot, hdd])).expect("a job");
    assert_eq!(job.steps.len(), 2);
    let c = job.spawn.as_ref().unwrap();
    assert_eq!(c.program, "bash");
    assert_eq!(c.args, vec![boot]);
    assert_eq!(c.cwd.as_deref(), Some(osx));
    t.apply_report(&job, Report::Spawned);
    assert!(t.running);
    assert_eq!(t.status, "macOS installer is running.");
    update_installer(&mut t, Poll::Exited { success: false, code: Some(2), description: String::new() });
    assert_eq!(t.status, "Installer VM exited with code Some(2).");
    assert!(!t.running);
}

#[test]
fn osx_kvm_download_and_install() {
    let mut t = Task::new("Not downloaded");
    let installed = disk_with(&["/h/reims-gui-downloads/OSX-KVM/.git", "/h/reims-gui-downloads/OSX-KVM/OpenCore"]);
    let job = download_osx_kvm(&mut t, ROOT, &installed).expect("a job");
    assert!(job.spawn.is_none());
    t.apply_report(&job, Report::Finished);
    assert_eq!(t.status, "OSX-KVM is already installed.");

    let leftovers = disk_with(&["/h/reims-gui-downloads/OSX-KVM", "/h/reims-gui-downloads/OSX-KVM-clone"]);
    let job = download_osx_kvm(&mut t, ROOT, &leftovers).expect("a job");
    assert_eq!(job.steps.len(), 2);
    assert!(matches!(&job.steps[1].action, Action::RemoveDirAll(p) if p == "/h/reims-gui-downloads/OSX-KVM-clone"));
    let c = job.spawn.as_ref().unwrap();
    assert_eq!(c.args.last().unwrap(), "/h/reims-gui-downloads/OSX-KVM-clone");
    t.apply_report(&job, Report::Spawned);
    assert_eq!(t.status, "Downloading OSX-KVM repository...");
    assert!(t.running);

    let after = disk_with(&[
        "/h/reims-gui-downloads/OSX-KVM-clone/.git",
        "/h/reims-gui-downloads/OSX-KVM/mac_hdd_ng.img",
        "/h/reims-gui-downloads/OSX-KVM",
    ]);
    let p = update_osx_kvm(&mut t, exited(true), true, ROOT, &after);
    let job = p.job.expect("a job");
    assert!(!t.running);
    assert_eq!(job.steps.len(), 3);
    assert!(matches!(&job.steps[0].action, Action::Rename(a, b)
        if a == "/h/reims-gui-downloads/OSX-KVM/mac_hdd_ng.img" && b == "/h/reims-gui-downloads/OSX-KVM-clone/mac_hdd_ng.img"));
    t.apply_report(&job, Report::Finished);
    assert_eq!(t.status, "OSX-KVM downloaded successfully.");

    t.running = true;
    let p = update_osx_kvm(&mut t, exited(true), true, ROOT, &Disk::new());
    assert!(p.job.is_none());
    assert_eq!(t.status, "OSX-KVM clone completed but repository files are missing.");
}

#[test]
fn osx_kvm_redownload_keeps_the_virtual_disk() {
    let hdd = "/h/reims-gui-downloads/OSX-KVM/mac_hdd_ng.img";
    let mut t = Task::new("Not downloaded");
    let incomplete = disk_with(&["/h/reims-gui-downloads/OSX-KVM", hdd]);
    let job = download_osx_kvm(&mut t, ROOT, &incomplete).expect("a job");
    assert_eq!(job.steps.len(), 1);
    assert!(matches!(&job.steps[0].action, Action::CreateDirAll(p) if p == ROOT));
    t.apply_report(&job, Report::Spawned);
    assert!(t.running);

    let cloned = disk_with(&["/h/reims-gui-downloads/OSX-KVM", hdd, "/h/reims-gui-downloads/OSX-KVM-clone/.git"]);
    let job = update_osx_kvm(&mut t, exited(true), true, ROOT, &cloned).job.expect("a job");
    assert_eq!(job.steps.len(), 3);
    assert!(matches!(&job.steps[0].action, Action::Rename(a, b)
        if a == hdd && b == "/h/reims-gui-downloads/OSX-KVM-clone/mac_hdd_ng.img"));
    assert!(matches!(&job.steps[1].action, Action::RemoveDirAll(p) if p == "/h/reims-gui-downloads/OSX-KVM"));
    assert!(matches!(&job.steps[2].action, Action::Rename(a, b)
        if a == "/h/reims-gui-downloads/OSX-KVM-clone" && b == "/h/reims-gui-downloads/OSX-KVM"));
    t.apply_report(&job, Report::Finished);
    assert_eq!(t.status, "OSX-KVM downloaded successfully.");
    assert!(!t.running);
}

#[test]
fn import_copies_the_disk_into_the_rail() {
    let repo = "/src/reims";
    let mut t = Task::new("Not imported");
    assert!(import_macos(&mut t, true, ROOT, repo, "macOS 13 Ventura", &Disk::new()).is_none());
    assert_eq!(t.status, "reims-vGPU repository not found: /src/reims");
    let everything = disk_with(&[
        repo,
        "/h/reims-gui-downloads/OSX-KVM/mac_hdd_ng.img",
        "/h/reims-gui-downloads/OSX-KVM/OpenCore/OpenCore.qcow2",
        "/h/reims-gui-downloads/OSX-KVM/OVMF_CODE_4M.fd",
        "/h/reims-gui-downloads/OSX-KVM/OVMF_VARS-1920x1080.fd",
    ]);
    assert!(import_macos(&mut t, true, ROOT, repo, "Windows", &everything).is_none());
    assert_eq!(t.status, "Unknown macOS version.");
    let job = import_macos(&mut t, true, ROOT, repo, "macOS 15 Sequoia", &everything).expect("a job");
    let base = "/src/reims/vm/disks/rails/macos-15/snapshots/base";
    assert!(matches!(&job.steps[0].action, Action::CreateDirAll(p) if p == base));
    let c = job.spawn.as_ref().unwrap();
    assert_eq!(c.program, "cp");
    assert_eq!(c.args, vec!["--reflink=auto", "/h/reims-gui-downloads/OSX-KVM/mac_hdd_ng.img", "/src/reims/vm/disks/rails/macos-15/snapshots/base/macos.img"]);
    t.apply_report(&job, Report::Spawned);
    assert_eq!(t.status, "Copying macOS disk...");

    let finished = disk_with(&["/h/reims-gui-downloads/OSX-KVM/OpenCore/OpenCore.qcow2", base]);
    let p = update_import(&mut t, exited(true), true, ROOT, repo, "macOS 15 Sequoia", &finished);
    let job = p.job.expect("a job");
    assert_eq!(t.status, "Copying OpenCore and OVMF...");
    assert_eq!(job.steps.len(), 8);
    assert!(matches!(&job.steps[7].action, Action::Symlink(a, b)
        if a == "base" && b == "/src/reims/vm/disks/rails/macos-15/snapshots/current"));
    t.apply_report(&job, Report::StepFailed(3, StepError::Failure("read-only file system".to_string())));
    assert_eq!(t.status, "Could not make /src/reims/vm/disks/rails/macos-15/snapshots/base/macos.img read-only: read-only file system");
    t.apply_report(&job, Report::Finished);
    assert_eq!(t.status, "macOS successfully imported into reims-vGPU.");

    t.running = true;
    let p = update_import(&mut t, exited(true), true, ROOT, repo, "macOS 15 Sequoia", &disk_with(&[base]));
    assert!(p.job.is_none());
    assert_eq!(t.status, "Source OpenCore does not exist: /h/reims-gui-downloads/OSX-KVM/OpenCore/OpenCore.qcow2");
}

#[test]
fn run_results_carry_output() {
    let r = RunResult::Ran { success: true, stdout: "abc\n".to_string(), stderr: String::new() };
    assert!(matches!(r, RunResult::Ran { success: true, .. }));
}
